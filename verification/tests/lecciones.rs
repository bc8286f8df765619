use tekla::carrera::{leccion_esp, Carrera};
use tekla::especie::Especie;
use tekla::karen::Persona;
use tekla::metodos_o::burbuja::generar_numeros;
use tekla::michi::Mascota;
use tekla::services::carrera::{debe_sembrar, filas_semilla, leccion_de_respaldo, leccion_desde_fila, parrafo};
use tekla::tiempo::Instante;

fn kira() -> Mascota {
    Mascota::new(
        "enojona".to_string(),
        Instante { segundos: 1_738_000_000, nanos: 0 },
        "calico".to_string(),
        "pollito asado".to_string(),
        Especie::Gato,
    )
}

#[test]
fn una_persona_con_mascotas() {
    let mut p = Persona::nueva("Karen martinez".to_string(), 15);
    assert!(!p.tiene_mascotas());
    assert_eq!(p.cantidad_mascotas(), 0);
    p.agregar_mascota(kira());
    p.agregar_mascota(Mascota::new(
        "el naranjas".to_string(),
        Instante { segundos: 0, nanos: 0 },
        "ginger".to_string(),
        "aguacate".to_string(),
        Especie::Hamster,
    ));
    assert!(p.tiene_mascotas());
    assert_eq!(p.cantidad_mascotas(), 2);
    assert_eq!(p.mascotas[1].nombre, "el naranjas");
    assert_eq!((p.nombre.as_str(), p.edad), ("Karen martinez", 15));
}

#[test]
fn cambiar_la_comida_favorita() {
    let mut m = kira();
    assert!(!m.modificado());
    assert_eq!(m.tarjeta(), "Hola soy enojona");
    m.actualizar_comida_favorita("pollito-con-papas".to_string());
    assert!(m.modificado());
    assert_eq!(m.comida_favorita, "pollito-con-papas");
    assert_eq!(m.color, "calico");
    assert_eq!(m.especie, Especie::Gato);
}

#[test]
fn numeros_al_azar_en_el_rango() {
    let v = generar_numeros(7, 500, 1000);
    assert_eq!(v.len(), 7);
    assert!(v.iter().all(|n| (500..=1000).contains(n)));
    assert_eq!(generar_numeros(3, 4, 4), vec![4, 4, 4]);
    assert!(generar_numeros(0, 10, 1).is_empty());
    let v = generar_numeros(50, i32::MIN, i32::MAX);
    assert_eq!(v.len(), 50);
}

#[test]
fn leccion_al_azar_del_banco() {
    let banco: Vec<String> = (0..8).map(leccion_esp).collect();
    for _ in 0..20 {
        assert!(banco.contains(&Carrera::leccion_aleatoria()));
    }
    assert_eq!(leccion_esp(7), "Las habilidades digitales y el pensamiento crítico son esenciales.");
}

#[test]
fn semilla_de_lecciones() {
    let filas = filas_semilla();
    assert_eq!(filas.len(), 8);
    for (i, f) in filas.iter().enumerate() {
        assert_eq!(f.texto, parrafo(i));
        assert_eq!(f.caracteres, f.texto.chars().count());
        assert_eq!(f.palabras, f.texto.split_whitespace().count());
    }
    assert_eq!(filas[3].texto, "La simplicidad es la sofisticación máxima en el diseño de software moderno.");
    assert_eq!(filas[3].palabras, 12);
}

#[test]
fn lecciones_desde_la_base() {
    let l = leccion_desde_fila(3, "t".to_string(), 10, 2);
    assert_eq!((l.id, l.texto.as_str(), l.caracteres, l.palabras), (3, "t", 10, 2));
    let r = leccion_de_respaldo();
    assert_eq!((r.id, r.texto.as_str(), r.caracteres, r.palabras), (0, "No se pudo cargar la lección", 0, 0));
}

#[test]
fn se_siembra_solo_una_tabla_vacia() {
    assert!(debe_sembrar(0));
    assert!(!debe_sembrar(8));
    assert!(!debe_sembrar(1));
}
