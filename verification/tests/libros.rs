use tekla::paquetelibros::libro::ruta_relativa_de_modulo;
use tekla::paquetelibros::{Biblioteca, Libro};

fn biblioteca_de_ejemplo() -> Biblioteca {
    let mut b = Biblioteca::new();
    b.agregar_libro(Libro::new(
        "El Quijote".to_string(),
        "Miguel de Cervantes".to_string(),
        1605,
    ));
    b.agregar_libro(Libro::new(
        "Cien años de soledad".to_string(),
        "Gabriel García Márquez".to_string(),
        1967,
    ));
    b.agregar_libro(Libro::new("1984".to_string(), "George Orwell".to_string(), 1949));
    b
}

#[test]
fn libro_nuevo_esta_disponible() {
    let l = Libro::new("A".to_string(), "B".to_string(), 2000);
    assert!(l.disponible());
    assert_eq!(l.titulo(), "A");
    assert_eq!(l.autor, "B");
    assert_eq!(l.year_publicacion, 2000);
}

#[test]
fn prestar_dos_veces_falla() {
    let mut l = Libro::new("1984".to_string(), "George Orwell".to_string(), 1949);
    assert_eq!(l.prestar(), Ok(()));
    assert!(!l.disponible());
    assert_eq!(l.prestar(), Err("'1984' ya está prestado".to_string()));
    assert!(!l.disponible());
}

#[test]
fn prestar_y_devolver_deja_el_libro_disponible() {
    let mut l = Libro::new("X".to_string(), "Y".to_string(), 1);
    l.prestar().unwrap();
    l.devolver();
    assert!(l.disponible());
    assert_eq!(l.titulo(), "X");
}

#[test]
fn escenario_de_la_biblioteca() {
    let mut b = biblioteca_de_ejemplo();
    let disponibles: Vec<&str> = b.libros_disponibles().iter().map(|l| l.titulo()).collect();
    assert_eq!(disponibles, vec!["El Quijote", "Cien años de soledad", "1984"]);
    assert_eq!(b.prestar_libro("1984"), Ok(()));
    assert_eq!(b.prestar_libro("1984"), Err("'1984' ya está prestado".to_string()));
    assert_eq!(b.estadisticas(), (3, 2));
    let disponibles: Vec<&str> = b.libros_disponibles().iter().map(|l| l.titulo()).collect();
    assert_eq!(disponibles, vec!["El Quijote", "Cien años de soledad"]);
}

#[test]
fn prestar_un_titulo_desconocido() {
    let mut b = biblioteca_de_ejemplo();
    assert_eq!(
        b.prestar_libro("Rayuela"),
        Err("Libro 'Rayuela' no encontrado".to_string())
    );
    assert_eq!(b.estadisticas(), (3, 3));
}

#[test]
fn buscar_da_el_primero_con_ese_titulo() {
    let mut b = biblioteca_de_ejemplo();
    b.agregar_libro(Libro::new("1984".to_string(), "Otro".to_string(), 2024));
    let l = b.buscar_por_titulo("1984").unwrap();
    assert_eq!(l.autor, "George Orwell");
    assert!(b.buscar_por_titulo("Rayuela").is_none());
}

#[test]
fn biblioteca_vacia() {
    let b = Biblioteca::new();
    assert_eq!(b.estadisticas(), (0, 0));
    assert!(b.libros_disponibles().is_empty());
    assert!(b.buscar_por_titulo("").is_none());
}

#[test]
fn ruta_de_un_modulo() {
    assert_eq!(
        ruta_relativa_de_modulo("crate::paquetelibros::libro"),
        "paquetelibros/libro"
    );
    assert_eq!(ruta_relativa_de_modulo("a::b:::c"), "a/b/:c");
    assert_eq!(ruta_relativa_de_modulo("crate:"), "crate:");
    assert_eq!(ruta_relativa_de_modulo(""), "");
}
