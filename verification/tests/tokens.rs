use tekla::auth::firma::FalloJwt;
use tekla::auth::jwt::{AuthUser, Claims, JwtConfig, TokenPair, UserRole};
use tekla::auth::jwt_service::{claims_de_verificacion, claims_desde_mapa, JwtError, JwtService};
use tekla::auth::middleware::{claims_de_cabecera, claims_de_validacion, AuthenticatedUser};
use tekla::auth::routes::{
    responder_admin, responder_login, responder_refresh, responder_usuario_actual, respuesta_login,
    respuesta_refresco, LoginRequest, RefreshRequest,
};

fn config(horas: i64, dias: i64) -> JwtConfig {
    JwtConfig {
        access_token_secret: "secreto-de-acceso".to_string(),
        refresh_token_secret: "secreto-de-refresco".to_string(),
        access_token_expiry: horas,
        refresh_token_expiry: dias,
        issuer: "myapp".to_string(),
    }
}

fn servicio() -> JwtService {
    JwtService::new(config(24, 30))
}

#[test]
fn validar_lo_emitido_devuelve_los_datos() {
    let s = servicio();
    let par = s.create_token_pair("12345", "ana@correo.com", UserRole::Moderator).unwrap();
    assert_eq!(par.token_type, "Bearer");
    assert_eq!(par.expires_in, 24 * 3600);
    assert_eq!(par.access_token.split('.').count(), 3);
    let c = s.validate_access_token(&par.access_token).unwrap();
    assert_eq!(c.sub, "12345");
    assert_eq!(c.email, "ana@correo.com");
    assert_eq!(c.role, UserRole::Moderator);
    assert_eq!(c.exp, c.iat + 24 * 3600);
    assert_eq!(c.jti.len(), 36);
    let r = s.validate_refresh_token(&par.refresh_token).unwrap();
    assert_eq!(r.sub, "12345");
    assert_eq!(r.email, "");
    assert_eq!(r.role, UserRole::User);
    assert_eq!(r.exp, r.iat + 30 * 86400);
    assert_ne!(c.jti, r.jti);
}

#[test]
fn los_secretos_no_se_mezclan() {
    let s = servicio();
    let par = s.create_token_pair("1", "a@b.c", UserRole::User).unwrap();
    assert!(matches!(s.validate_access_token(&par.refresh_token), Err(JwtError::InvalidToken(_))));
    assert!(matches!(s.validate_refresh_token(&par.access_token), Err(JwtError::InvalidToken(_))));
    let otro = JwtService::new(JwtConfig {
        access_token_secret: "otro".to_string(),
        ..config(24, 30)
    });
    assert!(matches!(otro.validate_access_token(&par.access_token), Err(JwtError::InvalidToken(_))));
}

#[test]
fn un_token_vencido_se_rechaza() {
    let s = JwtService::new(config(-2, -2));
    let par = s.create_token_pair("1", "a@b.c", UserRole::Admin).unwrap();
    assert!(matches!(s.validate_access_token(&par.access_token), Err(JwtError::TokenExpired)));
    assert!(matches!(s.refresh_tokens(&par.refresh_token), Err(JwtError::TokenExpired)));
}

#[test]
fn basura_no_es_un_token() {
    let s = servicio();
    assert!(matches!(s.validate_access_token("no.es.token"), Err(JwtError::InvalidToken(_))));
    assert!(matches!(s.validate_access_token(""), Err(JwtError::InvalidToken(_))));
}

#[test]
fn refrescar_conserva_el_usuario() {
    let s = servicio();
    let par = s.create_token_pair("77", "x@y.z", UserRole::Admin).unwrap();
    let nuevo = s.refresh_tokens(&par.refresh_token).unwrap();
    let c = s.validate_access_token(&nuevo.access_token).unwrap();
    assert_eq!(c.sub, "77");
    assert_eq!(c.email, "");
    assert_eq!(c.role, UserRole::User);
}

#[test]
fn mensajes_de_error() {
    assert_eq!(JwtError::TokenExpired.mensaje(), "Token expirado");
    assert_eq!(JwtError::InvalidToken("x".to_string()).mensaje(), "Token inválido: x");
    assert_eq!(
        JwtError::GenerationError("y".to_string()).mensaje(),
        "Error al generar token: y"
    );
    assert_eq!(
        JwtError::ValidationError("z".to_string()).mensaje(),
        "Error de validación: z"
    );
}

#[test]
fn nombres_de_roles() {
    for rol in [UserRole::User, UserRole::Admin, UserRole::Moderator] {
        assert_eq!(UserRole::desde_nombre(&rol.nombre()), Some(rol));
    }
    assert_eq!(UserRole::Admin.nombre(), "Admin");
    assert_eq!(UserRole::desde_nombre("admin"), None);
}

#[test]
fn vigencias_fuera_de_rango() {
    assert!(servicio().vigencias_ok());
    assert!(JwtService::new(config(2562047788015, 106751991167)).vigencias_ok());
    assert!(!JwtService::new(config(2562047788016, 30)).vigencias_ok());
    assert!(!JwtService::new(config(24, -106751991168)).vigencias_ok());
}

#[test]
fn claims_desde_un_objeto_json() {
    let mut m = serde_json::Map::new();
    m.insert("sub".to_string(), serde_json::Value::from("u"));
    m.insert("email".to_string(), serde_json::Value::from("e"));
    m.insert("role".to_string(), serde_json::Value::from("Admin"));
    m.insert("exp".to_string(), serde_json::Value::from(10));
    m.insert("iat".to_string(), serde_json::Value::from(5));
    m.insert("jti".to_string(), serde_json::Value::from("j"));
    let c = claims_desde_mapa(&m).unwrap();
    assert_eq!((c.sub.as_str(), c.role, c.exp, c.iat), ("u", UserRole::Admin, 10, 5));
    m.insert("role".to_string(), serde_json::Value::from("Jefe"));
    assert!(matches!(claims_desde_mapa(&m), Err(JwtError::InvalidToken(t)) if t == "claims incompletos o mal formados"));
    m.insert("role".to_string(), serde_json::Value::from("User"));
    m.insert("exp".to_string(), serde_json::Value::from("10"));
    assert!(claims_desde_mapa(&m).is_err());
}

#[test]
fn login_valida_los_campos() {
    let s = servicio();
    let (estado, r) = responder_login(&s, &LoginRequest { email: String::new(), password: "x".to_string() });
    assert_eq!(estado, 400);
    assert!(!r.success);
    assert_eq!(r.error.as_deref(), Some("Email y contrseña son requeridos"));
    let (estado, _) = responder_login(&s, &LoginRequest { email: "a".to_string(), password: String::new() });
    assert_eq!(estado, 400);
}

#[test]
fn login_da_admin_a_quien_lo_dice_el_email() {
    let s = servicio();
    let (estado, r) = responder_login(
        &s,
        &LoginRequest { email: "el.admin@x.com".to_string(), password: "p".to_string() },
    );
    assert_eq!(estado, 200);
    assert!(r.success);
    let d = r.data.unwrap();
    assert_eq!(d.user.id, "12345");
    assert_eq!(d.user.role, UserRole::Admin);
    let c = s.validate_access_token(&d.tokens.access_token).unwrap();
    assert_eq!((c.sub.as_str(), c.email.as_str(), c.role), ("12345", "el.admin@x.com", UserRole::Admin));
    let (_, r) = responder_login(&s, &LoginRequest { email: "ana@x.com".to_string(), password: "p".to_string() });
    assert_eq!(r.data.unwrap().user.role, UserRole::User);
}

#[test]
fn refresco_fallido() {
    let s = servicio();
    let (estado, r) = responder_refresh(&s, &RefreshRequest { refresh_token: "malo".to_string() });
    assert_eq!(estado, 400);
    assert!(r.error.unwrap().starts_with("Error al refrescar token: Token inválido: "));
    let vencido = JwtService::new(config(-2, -2)).create_refresh_token("1").unwrap();
    let s2 = JwtService::new(config(-2, -2));
    let (estado, r) = responder_refresh(&s2, &RefreshRequest { refresh_token: vencido });
    assert_eq!(estado, 401);
    assert_eq!(r.error.as_deref(), Some("Error al refrescar token: Token expirado"));
    let par = s.create_token_pair("9", "n@m.o", UserRole::User).unwrap();
    let (estado, r) = responder_refresh(&s, &RefreshRequest { refresh_token: par.refresh_token });
    assert_eq!(estado, 200);
    assert!(r.data.is_some());
}

#[test]
fn area_de_administracion() {
    let admin = AuthenticatedUser { user_id: "1".to_string(), email: "a@b.c".to_string(), role: UserRole::Admin };
    let (estado, r) = responder_admin(&admin);
    assert_eq!(estado, 200);
    assert_eq!(r.data.as_deref(), Some("Hola admin a@b.c, tienes acceso a esta área protegida"));
    let usuario = AuthenticatedUser { role: UserRole::Moderator, ..admin };
    let (estado, r) = responder_admin(&usuario);
    assert_eq!(estado, 403);
    assert_eq!(r.error.as_deref(), Some("Permisos insuficientes"));
    let yo = responder_usuario_actual(usuario);
    assert!(yo.success);
    assert_eq!(yo.data.unwrap().role, UserRole::Moderator);
}

#[test]
fn el_middleware_lee_la_cabecera() {
    let s = servicio();
    let par = s.create_token_pair("5", "c@d.e", UserRole::User).unwrap();
    let cabecera = format!("Bearer {}", par.access_token);
    let c: Claims = claims_de_cabecera(Some(&s), Some(&cabecera)).unwrap();
    assert_eq!(c.sub, "5");
    assert!(claims_de_cabecera(None, Some(&cabecera)).is_none());
    assert!(claims_de_cabecera(Some(&s), None).is_none());
    assert!(claims_de_cabecera(Some(&s), Some(&par.access_token)).is_none());
    let u = AuthenticatedUser::desde_claims(Some(&c)).unwrap();
    assert_eq!((u.user_id.as_str(), u.email.as_str(), u.role), ("5", "c@d.e", UserRole::User));
    assert!(AuthenticatedUser::desde_claims(None).is_none());
}

#[test]
fn armar_claims_segun_el_reloj() {
    let c = JwtService::armar_claims("u", "e", UserRole::Admin, 100, Some(200), "j".to_string()).unwrap();
    assert_eq!((c.sub.as_str(), c.email.as_str(), c.role, c.exp, c.iat, c.jti.as_str()), ("u", "e", UserRole::Admin, 200, 100, "j"));
    assert!(matches!(
        JwtService::armar_claims("u", "e", UserRole::Admin, 100, None, "j".to_string()),
        Err(JwtError::GenerationError(m)) if m == "fecha de expiración fuera de rango"
    ));
}

#[test]
fn errores_del_verificador() {
    assert!(matches!(JwtError::desde_fallo(FalloJwt::Expirado), JwtError::TokenExpired));
    assert!(matches!(JwtError::desde_fallo(FalloJwt::Invalido("m".to_string())), JwtError::InvalidToken(m) if m == "m"));
}

#[test]
fn los_tokens_se_emiten_con_la_hora_actual() {
    let s = servicio();
    let t = s.create_access_token("1", "a", UserRole::User).unwrap();
    let c = s.validate_access_token(&t).unwrap();
    let ahora = std::time::SystemTime::now()
        .duration_since(std::time::UNIX_EPOCH)
        .unwrap()
        .as_secs() as i64;
    assert!((c.iat - ahora).abs() <= 5);
}

#[test]
fn claims_segun_la_validacion() {
    let c = JwtService::armar_claims("7", "x@y.z", UserRole::User, 10, Some(20), "k".to_string()).unwrap();
    let r = claims_de_validacion(Ok(c)).unwrap();
    assert_eq!((r.sub.as_str(), r.email.as_str(), r.role, r.exp, r.iat, r.jti.as_str()), ("7", "x@y.z", UserRole::User, 20, 10, "k"));
    assert!(claims_de_validacion(Err(JwtError::TokenExpired)).is_none());
    assert!(claims_de_validacion(Err(JwtError::InvalidToken("malo".to_string()))).is_none());
}

fn par_fijo() -> TokenPair {
    TokenPair {
        access_token: "a.b.c".to_string(),
        refresh_token: "d.e.f".to_string(),
        token_type: "Bearer".to_string(),
        expires_in: 3600,
    }
}

#[test]
fn respuesta_segun_el_refresco() {
    let (estado, r) = respuesta_refresco(Ok(par_fijo()));
    assert_eq!(estado, 200);
    assert!(r.success && r.error.is_none());
    let p = r.data.unwrap();
    assert_eq!((p.access_token.as_str(), p.refresh_token.as_str(), p.expires_in), ("a.b.c", "d.e.f", 3600));
    let (estado, r) = respuesta_refresco(Err(JwtError::TokenExpired));
    assert_eq!(estado, 401);
    assert!(!r.success && r.data.is_none());
    assert_eq!(r.error.as_deref(), Some("Error al refrescar token: Token expirado"));
    let (estado, r) = respuesta_refresco(Err(JwtError::InvalidToken("firma".to_string())));
    assert_eq!(estado, 400);
    assert_eq!(r.error.as_deref(), Some("Error al refrescar token: Token inválido: firma"));
    let (estado, r) = respuesta_refresco(Err(JwtError::GenerationError("x".to_string())));
    assert_eq!(estado, 400);
    assert_eq!(r.error.as_deref(), Some("Error al refrescar token: Error al generar token: x"));
}

#[test]
fn respuesta_segun_la_emision() {
    let usuario = AuthUser { id: "12345".to_string(), email: "admin@x.y".to_string(), role: UserRole::Admin };
    let (estado, r) = respuesta_login(Ok(par_fijo()), usuario.clone());
    assert_eq!(estado, 200);
    assert!(r.success && r.error.is_none());
    let d = r.data.unwrap();
    assert_eq!((d.tokens.access_token.as_str(), d.user.id.as_str(), d.user.email.as_str(), d.user.role), ("a.b.c", "12345", "admin@x.y", UserRole::Admin));
    let (estado, r) = respuesta_login(Err(JwtError::GenerationError("fecha de expiración fuera de rango".to_string())), usuario);
    assert_eq!(estado, 500);
    assert!(!r.success && r.data.is_none());
    assert_eq!(r.error.as_deref(), Some("Error al generar tokens: Error al generar token: fecha de expiración fuera de rango"));
}

#[test]
fn un_token_firmado_con_otro_secreto_no_valida() {
    let s = servicio();
    let par = s.create_token_pair("5", "c@d.e", UserRole::User).unwrap();
    assert!(matches!(s.validate_access_token(&par.refresh_token), Err(JwtError::InvalidToken(_))));
    assert!(matches!(s.validate_refresh_token(&par.access_token), Err(JwtError::InvalidToken(_))));
    let mut partes: Vec<String> = par.access_token.split('.').map(|p| p.to_string()).collect();
    partes[2] = "AAAA".to_string();
    assert!(matches!(s.validate_access_token(&partes.join(".")), Err(JwtError::InvalidToken(_))));
}

fn config_ab(horas: i64) -> JwtConfig {
    JwtConfig {
        access_token_secret: "a".to_string(),
        refresh_token_secret: "b".to_string(),
        access_token_expiry: horas,
        refresh_token_expiry: 1,
        issuer: "x".to_string(),
    }
}

#[test]
fn lo_que_no_es_un_jwt_es_invalido() {
    let s = JwtService::new(config_ab(1));
    assert!(matches!(s.validate_access_token("abc"), Err(JwtError::InvalidToken(_))));
    assert!(matches!(s.validate_access_token(""), Err(JwtError::InvalidToken(_))));
    assert!(matches!(s.validate_refresh_token("a.b.c.d"), Err(JwtError::InvalidToken(_))));
    assert!(matches!(s.refresh_tokens("abc"), Err(JwtError::InvalidToken(_))));
}

#[test]
fn un_token_vencido_bien_firmado_es_vencido() {
    let s = JwtService::new(config_ab(-1));
    let t = s.create_access_token("1", "u@x", UserRole::User).unwrap();
    assert!(matches!(s.validate_access_token(&t), Err(JwtError::TokenExpired)));
    let otro = JwtService::new(JwtConfig { access_token_secret: "z".to_string(), ..config_ab(-1) });
    assert!(matches!(otro.validate_access_token(&t), Err(JwtError::InvalidToken(_))));
}

#[test]
fn el_refresco_pasa_el_rechazo_tal_cual() {
    let s = JwtService::new(config_ab(1));
    assert!(matches!(s.refrescar_con(Err(JwtError::TokenExpired)), Err(JwtError::TokenExpired)));
    assert!(matches!(s.refrescar_con(Err(JwtError::InvalidToken("m".to_string()))), Err(JwtError::InvalidToken(m)) if m == "m"));
    let c = JwtService::armar_claims("7", "x@y.z", UserRole::Admin, 10, Some(20), "k".to_string()).unwrap();
    let p = s.refrescar_con(Ok(c)).unwrap();
    let v = s.validate_access_token(&p.access_token).unwrap();
    assert_eq!((v.sub.as_str(), v.email.as_str(), v.role), ("7", "x@y.z", UserRole::Admin));
    assert_eq!((p.token_type.as_str(), p.expires_in), ("Bearer", 3600));
}

#[test]
fn el_error_segun_la_verificacion() {
    assert!(matches!(claims_de_verificacion(Err(FalloJwt::Expirado)), Err(JwtError::TokenExpired)));
    assert!(matches!(claims_de_verificacion(Err(FalloJwt::Invalido("InvalidSignature".to_string()))), Err(JwtError::InvalidToken(m)) if m == "InvalidSignature"));
    let m = serde_json::Map::new();
    assert!(matches!(claims_de_verificacion(Ok(m)), Err(JwtError::InvalidToken(t)) if t == "claims incompletos o mal formados"));
}

#[test]
fn refresco_con_vigencias_fuera_de_rango() {
    let fuera = JwtConfig { access_token_expiry: i64::MAX / 2, ..config_ab(1) };
    let s = JwtService::new(fuera);
    assert!(!s.vigencias_ok());
    assert!(matches!(s.refresh_tokens("abc"), Err(JwtError::InvalidToken(_))));
    let (estado, r) = responder_refresh(&s, &RefreshRequest { refresh_token: "abc".to_string() });
    assert_eq!(estado, 400);
    assert!(r.error.unwrap().starts_with("Error al refrescar token: Token inválido: "));
    let valido = JwtService::new(config_ab(1)).create_refresh_token("1").unwrap();
    assert!(matches!(
        s.refresh_tokens(&valido),
        Err(JwtError::GenerationError(m)) if m == "fecha de expiración fuera de rango"
    ));
}
