use tekla::models::estadisticas::{Errores, Estadisticas};
use tekla::services::estadisticas::EstadisticasService;
use tekla::tiempo::{duracion_segundos, Instante};

fn t(segundos: i64, nanos: u32) -> Instante {
    Instante { segundos, nanos }
}

#[test]
fn duraciones_truncadas_hacia_cero() {
    assert_eq!(duracion_segundos(t(10, 900_000_000), t(12, 100_000_000)), 1);
    assert_eq!(duracion_segundos(t(12, 100_000_000), t(10, 900_000_000)), -1);
    assert_eq!(duracion_segundos(t(10, 0), t(13, 0)), 3);
    assert_eq!(duracion_segundos(t(13, 0), t(10, 0)), -3);
    assert_eq!(duracion_segundos(t(5, 5), t(5, 5)), 0);
    assert_eq!(duracion_segundos(t(0, 999_999_999), t(1, 0)), 0);
}

#[test]
fn duraciones_como_chrono() {
    let pares = [(t(1_700_000_000, 123), t(1_700_000_100, 5)), (t(-5, 400), t(7, 300)), (t(100, 0), t(-100, 1))];
    for (a, b) in pares {
        let da = chrono::DateTime::from_timestamp(a.segundos, a.nanos).unwrap();
        let db = chrono::DateTime::from_timestamp(b.segundos, b.nanos).unwrap();
        assert_eq!(duracion_segundos(a, b), db.signed_duration_since(da).num_seconds());
    }
}

#[test]
fn instantes_validos() {
    assert!(t(0, 999_999_999).es_valido());
    assert!(!t(0, 1_000_000_000).es_valido());
    assert!(!t(i64::MAX, 0).es_valido());
}

fn estadisticas() -> Estadisticas {
    Estadisticas {
        id_leccion: Some(3),
        tecla_actual: "a".to_string(),
        posicion_actual: 10,
        total_errores: 2,
        error_por_tecla: vec![Errores { tecla: 'a', cantidad: 2 }],
        total_caracteres_leccion: 10,
        caracteres_correctos: 10,
        tiempo_inicio: Some(t(100, 0)),
        tiempo_fin: Some(t(160, 500)),
    }
}

#[test]
fn resumen_de_una_leccion_terminada() {
    let e = estadisticas();
    assert_eq!(EstadisticasService::calcular_tiempo_transcurrido(&e), Some(60));
    let r = EstadisticasService::resumen_registro(&e).unwrap();
    assert!(r.completada);
    assert_eq!(r.tiempo_segundos, Some(60));
    let e = Estadisticas { caracteres_correctos: 9, tiempo_inicio: None, ..estadisticas() };
    let r = EstadisticasService::resumen_registro(&e).unwrap();
    assert!(!r.completada);
    assert_eq!(r.tiempo_segundos, None);
}

#[test]
fn registros_rechazados() {
    let e = Estadisticas { id_leccion: None, ..estadisticas() };
    assert_eq!(EstadisticasService::resumen_registro(&e).err(), Some("Identificacion de leccion ausente".to_string()));
    let e = Estadisticas { tiempo_fin: None, ..estadisticas() };
    assert_eq!(EstadisticasService::resumen_registro(&e).err(), Some("La lección no ha sido finalizada".to_string()));
    assert_eq!(EstadisticasService::calcular_tiempo_transcurrido(&e), None);
}
