use tekla::config::{cargar_configuracion, parsear_i64, FalloConfiguracion};

#[test]
fn leer_enteros() {
    assert_eq!(parsear_i64("24"), Some(24));
    assert_eq!(parsear_i64("+7"), Some(7));
    assert_eq!(parsear_i64("-30"), Some(-30));
    assert_eq!(parsear_i64("007"), Some(7));
    assert_eq!(parsear_i64("9223372036854775807"), Some(i64::MAX));
    assert_eq!(parsear_i64("-9223372036854775808"), Some(i64::MIN));
    assert_eq!(parsear_i64("9223372036854775808"), None);
    assert_eq!(parsear_i64("99999999999999999999999"), None);
    assert_eq!(parsear_i64(""), None);
    assert_eq!(parsear_i64("-"), None);
    assert_eq!(parsear_i64("+"), None);
    assert_eq!(parsear_i64(" 1"), None);
    assert_eq!(parsear_i64("1a"), None);
    assert_eq!(parsear_i64("--1"), None);
}

#[test]
fn leer_enteros_como_la_biblioteca_estandar() {
    for t in ["0", "-0", "+0", "12", "-12", "1_0", "٣", "18446744073709551615", "-9223372036854775809"] {
        assert_eq!(parsear_i64(t), t.parse::<i64>().ok(), "{}", t);
    }
}

#[test]
fn configuracion_con_valores_por_defecto() {
    let c = cargar_configuracion(Some("a".to_string()), Some("r".to_string()), None, None, None).unwrap();
    assert_eq!(c.access_token_secret, "a");
    assert_eq!(c.refresh_token_secret, "r");
    assert_eq!(c.access_token_expiry, 24);
    assert_eq!(c.refresh_token_expiry, 30);
    assert_eq!(c.issuer, "myapp");
}

#[test]
fn configuracion_con_valores_dados() {
    let c = cargar_configuracion(
        Some("a".to_string()),
        Some("r".to_string()),
        Some("2".to_string()),
        Some("-1".to_string()),
        Some("yo".to_string()),
    )
    .unwrap();
    assert_eq!((c.access_token_expiry, c.refresh_token_expiry, c.issuer.as_str()), (2, -1, "yo"));
}

#[test]
fn configuracion_incompleta() {
    assert_eq!(
        cargar_configuracion(None, Some("r".to_string()), None, None, None).unwrap_err(),
        FalloConfiguracion::Falta("JWT_ACCESS_SECRET debe estar configurado".to_string())
    );
    assert_eq!(
        cargar_configuracion(Some("a".to_string()), None, None, None, None).unwrap_err(),
        FalloConfiguracion::Falta("JWT_REFRESH_SECRET debe estar configurado".to_string())
    );
    assert_eq!(
        cargar_configuracion(Some("a".to_string()), Some("r".to_string()), Some("x".to_string()), None, None).unwrap_err(),
        FalloConfiguracion::NoEsNumero("JWT_ACCESS_EXPIRY_HOURS debe ser un número".to_string())
    );
    assert_eq!(
        cargar_configuracion(Some("a".to_string()), Some("r".to_string()), None, Some("".to_string()), None).unwrap_err(),
        FalloConfiguracion::NoEsNumero("JWT_REFRESH_EXPIRY_DAYS debe ser un número".to_string())
    );
}
