use tekla::models::carrera::LeccionResponse;
use tekla::routes::ws::{entrar_a_sala, procesar_jugada, salir_de_sala, Jugada};
use tekla::state::{AppState, EstadoJugador, EventoSala};

fn leccion() -> LeccionResponse {
    LeccionResponse { id: 4, texto: "hola  mundo ñandú".to_string(), caracteres: 17, palabras: 3 }
}

#[test]
fn jugador_nuevo() {
    let j = EstadoJugador::nuevo("ana".to_string());
    assert_eq!(j.usuario, "ana");
    assert_eq!((j.posicion, j.errores, j.wpm, j.terminado, j.tiempo_segundos), (0, 0, 0, false, None));
    assert_eq!(f64::from_bits(j.precision), 100.0);
    assert!(j.conectado_en.es_valido());
    assert!(j.conectado_en.segundos > 1_600_000_000);
}

#[test]
fn sala_con_leccion_de_respaldo() {
    let mut s = AppState::new();
    assert!(s.sala_existente("r1").is_none());
    let _tx = s.obtener_o_crear_sala("r1", None);
    assert!(s.sala_existente("r1").is_some());
    assert_eq!(s.texto_sala("r1"), Some((0, "No se pudo cargar la lección".to_string())));
    assert_eq!(s.total_jugadores("r1"), 0);
    let _ = s.obtener_o_crear_sala("r1", Some(leccion()));
    assert_eq!(s.texto_sala("r1"), Some((0, "No se pudo cargar la lección".to_string())));
    assert_eq!(s.texto_sala("otra"), None);
}

#[test]
fn ranking_de_una_carrera() {
    let mut s = AppState::new();
    let _ = s.obtener_o_crear_sala("r", Some(leccion()));
    s.unir_jugador("r", "ana");
    s.unir_jugador("r", "beto");
    s.unir_jugador("r", "caro");
    s.unir_jugador("otra", "nadie");
    assert_eq!(s.total_jugadores("r"), 3);
    assert_eq!(s.total_jugadores("otra"), 0);
    s.actualizar_progreso("r", "ana", 5, 1, 80.0f64.to_bits(), 30.0f64.to_bits());
    let estados = s.estado_jugadores("r");
    let ana = estados.iter().find(|j| j.usuario == "ana").unwrap();
    assert_eq!((ana.posicion, ana.errores), (5, 1));
    assert_eq!(f64::from_bits(ana.precision), 80.0);
    assert_eq!(s.marcar_terminado("r", "beto", 30, 0, 0), 1);
    assert_eq!(s.marcar_terminado("r", "ana", 40, 0, 0), 2);
    assert_eq!(s.marcar_terminado("r", "beto", 31, 0, 0), 1);
    assert_eq!(s.marcar_terminado("r", "desconocido", 1, 0, 0), 3);
    assert_eq!(s.marcar_terminado("sin-sala", "ana", 1, 0, 0), 1);
    let estados = s.estado_jugadores("r");
    assert_eq!(estados.len(), 3);
    let beto = estados.iter().find(|j| j.usuario == "beto").unwrap();
    assert_eq!((beto.terminado, beto.tiempo_segundos), (true, Some(31)));
}

#[test]
fn la_sala_vacia_se_cierra() {
    let mut s = AppState::new();
    let _ = s.obtener_o_crear_sala("r", Some(leccion()));
    s.unir_jugador("r", "ana");
    s.unir_jugador("r", "beto");
    s.remover_jugador("r", "ana");
    assert_eq!(s.total_jugadores("r"), 1);
    s.remover_jugador("r", "ana");
    assert!(s.sala_existente("r").is_some());
    s.remover_jugador("r", "beto");
    assert!(s.sala_existente("r").is_none());
    assert!(s.estado_jugadores("r").is_empty());
}

#[test]
fn conexion_de_un_jugador() {
    let mut s = AppState::new();
    let _ = s.obtener_o_crear_sala("r", Some(leccion()));
    let (_, _) = entrar_a_sala(&mut s, "r", "ana");
    let (texto, anuncio) = entrar_a_sala(&mut s, "r", "beto");
    match texto {
        Some(EventoSala::TextoCarrera { id, texto, caracteres, palabras }) => {
            assert_eq!((id, texto.as_str(), caracteres, palabras), (4, "hola  mundo ñandú", 19, 3));
        }
        otro => panic!("{:?}", otro),
    }
    match anuncio {
        EventoSala::JugadorUnido { usuario, total_jugadores, estado_sala } => {
            assert_eq!((usuario.as_str(), total_jugadores, estado_sala.len()), ("beto", 2, 2));
        }
        otro => panic!("{:?}", otro),
    }
    let e = procesar_jugada(&mut s, "r", "ana", Jugada::Avance { posicion: 3, errores: 0, precision: 1, wpm: 2 });
    assert!(matches!(e, EventoSala::Progreso { ref usuario, posicion: 3, errores: 0, precision: 1, wpm: 2 } if usuario == "ana"));
    let e = procesar_jugada(&mut s, "r", "ana", Jugada::Fin { tiempo_segundos: 9, precision: 3, wpm: 4 });
    assert!(matches!(e, EventoSala::JugadorTermino { tiempo_segundos: 9, precision: 3, wpm: 4, posicion_ranking: 1, .. }));
    let e = procesar_jugada(&mut s, "r", "beto", Jugada::Fin { tiempo_segundos: 12, precision: 3, wpm: 4 });
    assert!(matches!(e, EventoSala::JugadorTermino { posicion_ranking: 2, .. }));
    let e = salir_de_sala(&mut s, "r", "ana");
    assert!(matches!(e, EventoSala::JugadorSalio { ref usuario } if usuario == "ana"));
    assert_eq!(s.total_jugadores("r"), 1);
}

#[test]
fn entrar_a_una_sala_que_no_existe() {
    let mut s = AppState::new();
    let (texto, anuncio) = entrar_a_sala(&mut s, "x", "ana");
    assert!(texto.is_none());
    assert!(matches!(anuncio, EventoSala::JugadorUnido { total_jugadores: 0, ref estado_sala, .. } if estado_sala.is_empty()));
}

#[test]
fn fin_repetido_conserva_el_lugar() {
    let mut s = AppState::new();
    let _ = s.obtener_o_crear_sala("r", Some(leccion()));
    s.unir_jugador("r", "a");
    s.unir_jugador("r", "b");
    assert_eq!(s.marcar_terminado("r", "a", 10, 100f64.to_bits(), 50f64.to_bits()), 1);
    assert_eq!(s.marcar_terminado("r", "b", 12, 90f64.to_bits(), 40f64.to_bits()), 2);
    assert_eq!(s.marcar_terminado("r", "a", 10, 100f64.to_bits(), 50f64.to_bits()), 1);
    assert_eq!(s.marcar_terminado("r", "b", 13, 90f64.to_bits(), 40f64.to_bits()), 2);
    let estados = s.estado_jugadores("r");
    let a = estados.iter().find(|j| j.usuario == "a").unwrap();
    assert_eq!((a.terminado, a.tiempo_segundos, a.lugar_ranking), (true, Some(10), Some(1)));
    let b = estados.iter().find(|j| j.usuario == "b").unwrap();
    assert_eq!((b.tiempo_segundos, b.lugar_ranking), (Some(13), Some(2)));
}

#[test]
fn quien_vuelve_a_entrar_pierde_su_lugar() {
    let mut s = AppState::new();
    let _ = s.obtener_o_crear_sala("r", Some(leccion()));
    s.unir_jugador("r", "a");
    s.unir_jugador("r", "b");
    assert_eq!(s.marcar_terminado("r", "a", 10, 0, 0), 1);
    s.unir_jugador("r", "a");
    assert_eq!(s.marcar_terminado("r", "b", 12, 0, 0), 1);
    assert_eq!(s.marcar_terminado("r", "a", 15, 0, 0), 2);
}
