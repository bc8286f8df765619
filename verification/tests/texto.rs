use tekla::texto::{contar_palabras, contiene_texto, espacio, iguales, quitar_prefijo};

#[test]
fn palabras_como_split_whitespace() {
    for t in ["", "   ", "hola", " hola  mundo ", "a\tb\nc", "uno\u{3000}dos\u{a0}tres", "x\u{200b}y", "ñandú  árbol"] {
        assert_eq!(contar_palabras(t), t.split_whitespace().count(), "{:?}", t);
    }
    assert_eq!(contar_palabras("La simplicidad es la sofisticación máxima"), 6);
}

#[test]
fn espacios_unicode() {
    for c in ['\t', '\n', '\u{b}', '\u{c}', '\r', ' ', '\u{85}', '\u{a0}', '\u{1680}', '\u{2000}', '\u{200a}', '\u{2028}', '\u{2029}', '\u{202f}', '\u{205f}', '\u{3000}', 'a', '\u{200b}', '\u{feff}', '\u{180e}'] {
        assert_eq!(espacio(c), c.is_whitespace(), "{:?}", c);
    }
}

#[test]
fn prefijos_y_subcadenas() {
    assert_eq!(quitar_prefijo("Bearer abc", "Bearer "), Some("abc"));
    assert_eq!(quitar_prefijo("Bearer", "Bearer "), None);
    assert_eq!(quitar_prefijo("bearer abc", "Bearer "), None);
    assert_eq!(quitar_prefijo("ñu", ""), Some("ñu"));
    assert!(contiene_texto("el.admin@x", "admin"));
    assert!(!contiene_texto("adm", "admin"));
    assert!(contiene_texto("x", ""));
    assert!(iguales("á", "á"));
    assert!(!iguales("a", "á"));
}
