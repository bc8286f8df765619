//! Operaciones sobre cadenas que usan varias partes de la biblioteca.
use vstd::prelude::*;
use vstd::string::StringExecFns;

verus! {

/// `s` empieza con `prefijo`.
pub open spec fn empieza_con(s: Seq<char>, prefijo: Seq<char>) -> bool {
    s.len() >= prefijo.len() && s.take(prefijo.len() as int) == prefijo
}

/// `parte` aparece en algún lugar de `s`.
pub open spec fn contiene(s: Seq<char>, parte: Seq<char>) -> bool {
    exists|i: int| 0 <= i && i + parte.len() <= s.len() && #[trigger] s.subrange(i, i + parte.len()) == parte
}

/// Compara dos cadenas carácter a carácter.
pub fn iguales(a: &str, b: &str) -> (r: bool)
    ensures
        r == (a@ == b@),
{
    String::from_str(a) == String::from_str(b)
}

/// Lo que queda de `s` tras quitarle `prefijo`, si empieza con él.
pub fn quitar_prefijo<'a>(s: &'a str, prefijo: &str) -> (r: Option<&'a str>)
    ensures
        empieza_con(s@, prefijo@) <==> r is Some,
        r matches Some(resto) ==> resto@ == s@.skip(prefijo@.len() as int),
{
    let n = s.unicode_len();
    let p = prefijo.unicode_len();
    if n < p {
        return None;
    }
    let mut k: usize = 0;
    while k < p
        invariant
            n == s@.len(),
            p == prefijo@.len(),
            p <= n,
            k <= p,
            forall|j: int| 0 <= j < k ==> s@[j] == prefijo@[j],
        decreases p - k,
    {
        if s.get_char(k) != prefijo.get_char(k) {
            assert(s@.take(p as int)[k as int] != prefijo@[k as int]);
            return None;
        }
        k += 1;
    }
    assert(s@.take(p as int) =~= prefijo@);
    Some(s.substring_char(p, n))
}

/// `parte` aparece en `s`.
pub fn contiene_texto(s: &str, parte: &str) -> (r: bool)
    ensures
        r == contiene(s@, parte@),
{
    let n = s.unicode_len();
    let p = parte.unicode_len();
    if n < p {
        return false;
    }
    if p == 0 {
        assert(s@.subrange(0int, 0int + parte@.len()) =~= parte@);
        return true;
    }
    let mut i: usize = 0;
    while i <= n - p
        invariant
            n == s@.len(),
            p == parte@.len(),
            1 <= p <= n,
            i <= n - p + 1,
            forall|j: int| 0 <= j < i ==> #[trigger] s@.subrange(j, j + p) != parte@,
        decreases n - p + 1 - i,
    {
        let trozo = s.substring_char(i, i + p);
        if iguales(trozo, parte) {
            return true;
        }
        i += 1;
    }
    assert forall|j: int| 0 <= j && j + parte@.len() <= s@.len() implies #[trigger] s@.subrange(j, j + parte@.len()) != parte@ by {
        assert(j < i);
    }
    false
}

} // verus!

verus! {

/// Los caracteres con la propiedad Unicode `White_Space`, que es lo que
/// `char::is_whitespace` reconoce.
pub open spec fn es_espacio(c: char) -> bool {
    let n = c as u32;
    (0x9 <= n <= 0xD) || n == 0x20 || n == 0x85 || n == 0xA0 || n == 0x1680 || (0x2000 <= n
        <= 0x200A) || n == 0x2028 || n == 0x2029 || n == 0x202F || n == 0x205F || n == 0x3000
}

/// Si el carácter es un espacio Unicode.
pub fn espacio(c: char) -> (r: bool)
    ensures
        r == es_espacio(c),
{
    let n = c as u32;
    (0x9 <= n && n <= 0xD) || n == 0x20 || n == 0x85 || n == 0xA0 || n == 0x1680 || (0x2000 <= n
        && n <= 0x200A) || n == 0x2028 || n == 0x2029 || n == 0x202F || n == 0x205F || n == 0x3000
}

/// Las palabras de un texto: tramos máximos sin espacios, como los que da
/// `split_whitespace`. Se cuentan sus comienzos.
pub open spec fn palabras(s: Seq<char>) -> nat
    decreases s.len(),
{
    if s.len() == 0 {
        0
    } else {
        let i = s.len() - 1;
        palabras(s.drop_last()) + if !es_espacio(s[i]) && (i == 0 || es_espacio(s[i - 1])) {
            1nat
        } else {
            0nat
        }
    }
}

/// Una cadena no tiene más palabras que caracteres.
pub proof fn lema_palabras_acotadas(s: Seq<char>)
    ensures
        palabras(s) <= s.len(),
    decreases s.len(),
{
    if s.len() > 0 {
        lema_palabras_acotadas(s.drop_last());
    }
}

/// Un tramo no vacío sin espacios es una sola palabra, tenga letras, dígitos
/// o signos.
pub proof fn ley_tramo_es_una_palabra(s: Seq<char>)
    requires
        s.len() > 0,
        forall|i: int| 0 <= i < s.len() ==> !es_espacio(#[trigger] s[i]),
    ensures
        palabras(s) == 1,
    decreases s.len(),
{
    if s.len() > 1 {
        let p = s.drop_last();
        assert forall|i: int| 0 <= i < p.len() implies !es_espacio(#[trigger] p[i]) by {
            assert(p[i] == s[i]);
        }
        ley_tramo_es_una_palabra(p);
        assert(!es_espacio(s[s.len() - 2]));
    } else {
        assert(palabras(s.drop_last()) == 0);
        assert(!es_espacio(s[0]));
    }
}

/// Un texto hecho sólo de espacios (o vacío) no tiene palabras.
pub proof fn ley_solo_espacios(s: Seq<char>)
    requires
        forall|i: int| 0 <= i < s.len() ==> es_espacio(#[trigger] s[i]),
    ensures
        palabras(s) == 0,
    decreases s.len(),
{
    if s.len() > 0 {
        let p = s.drop_last();
        assert forall|i: int| 0 <= i < p.len() implies es_espacio(#[trigger] p[i]) by {
            assert(p[i] == s[i]);
        }
        ley_solo_espacios(p);
        assert(es_espacio(s[s.len() - 1]));
    }
}

/// Separar dos textos con un espacio suma sus palabras: ninguna palabra de
/// uno se junta con una del otro.
pub proof fn ley_espacio_separa(a: Seq<char>, c: char, b: Seq<char>)
    requires
        es_espacio(c),
    ensures
        palabras(a + seq![c] + b) == palabras(a) + palabras(b),
    decreases b.len(),
{
    let x = a + seq![c] + b;
    if b.len() == 0 {
        assert(x =~= (a + seq![c]));
        assert((a + seq![c]).drop_last() =~= a);
    } else {
        ley_espacio_separa(a, c, b.drop_last());
        assert(x.drop_last() =~= a + seq![c] + b.drop_last());
        let i = x.len() - 1;
        let j = b.len() - 1;
        assert(x[i] == b[j]);
        if j > 0 {
            assert(x[i - 1] == b[j - 1]);
        } else {
            assert(x[i - 1] == c);
        }
    }
}

/// Cuántas palabras tiene el texto.
pub fn contar_palabras(texto: &str) -> (r: usize)
    ensures
        r == palabras(texto@),
{
    let n = texto.unicode_len();
    let mut cuenta: usize = 0;
    let mut i: usize = 0;
    while i < n
        invariant
            n == texto@.len(),
            i <= n,
            cuenta == palabras(texto@.take(i as int)),
        decreases n - i,
    {
        let ghost prefijo = texto@.take(i + 1);
        assert(prefijo.drop_last() =~= texto@.take(i as int));
        proof { lema_palabras_acotadas(texto@.take(i as int)); }
        let c = texto.get_char(i);
        if !espacio(c) && (i == 0 || espacio(texto.get_char(i - 1))) {
            cuenta += 1;
        }
        i += 1;
    }
    assert(texto@.take(n as int) =~= texto@);
    cuenta
}

} // verus!
