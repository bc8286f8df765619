use tekla::errors::AppError;
use tekla::middleware::auth::{AuthUser, RequireRole};
use tekla::models::users::{Claims, LoginRequest};
use tekla::routes::auth::{login_con_hora, mock_users, responder_login};
use tekla::routes::protected::contenido_dashboard;

const SECRETO: &str = "super_secret_dev";

fn claims(role: &str) -> Claims {
    Claims { sub: "ana".to_string(), role: role.to_string(), exp: 10, iat: 5 }
}

#[test]
fn usuarios_de_prueba() {
    let u = mock_users();
    assert_eq!(u.len(), 2);
    assert_eq!((u[0].id, u[0].username.as_str(), u[0].password_hash.as_str(), u[0].role.as_str()), (1, "admin", "1234", "admin"));
    assert_eq!((u[1].id, u[1].username.as_str(), u[1].password_hash.as_str(), u[1].role.as_str()), (2, "user", "abcd", "user"));
}

#[test]
fn login_con_credenciales_correctas() {
    let r = responder_login(&LoginRequest { username: "admin".to_string(), password: "1234".to_string() }, SECRETO).unwrap();
    assert_eq!(r.token_type, "Bearer");
    let cabecera = format!("Bearer {}", r.token);
    let AuthUser(c) = AuthUser::desde_cabecera(Some(&cabecera), SECRETO).unwrap();
    assert_eq!(c.sub, "admin");
    assert_eq!(c.role, "admin");
    assert_eq!(c.exp, c.iat + 3600);
}

#[test]
fn login_con_credenciales_incorrectas() {
    let r = responder_login(&LoginRequest { username: "admin".to_string(), password: "abcd".to_string() }, SECRETO);
    assert!(matches!(r, Err(AppError::InvalidCredentials)));
    let r = responder_login(&LoginRequest { username: "nadie".to_string(), password: "1234".to_string() }, SECRETO);
    assert!(matches!(r, Err(AppError::InvalidCredentials)));
}

#[test]
fn cabeceras_rechazadas() {
    assert!(matches!(AuthUser::desde_cabecera(None, SECRETO), Err(AppError::Unauthorized)));
    assert!(matches!(AuthUser::desde_cabecera(Some("Basic abc"), SECRETO), Err(AppError::InvalidToken)));
    assert!(matches!(AuthUser::desde_cabecera(Some("Bearer abc"), SECRETO), Err(AppError::InvalidToken)));
    let r = responder_login(&LoginRequest { username: "user".to_string(), password: "abcd".to_string() }, SECRETO).unwrap();
    let cabecera = format!("Bearer {}", r.token);
    assert!(matches!(AuthUser::desde_cabecera(Some(&cabecera), "otro"), Err(AppError::InvalidToken)));
}

#[test]
fn exigir_un_rol() {
    let ok = RequireRole::check(claims("admin"), "admin").unwrap();
    assert_eq!(ok.0.sub, "ana");
    assert!(matches!(RequireRole::check(claims("user"), "admin"), Err(AppError::Unauthorized)));
    assert!(matches!(RequireRole::check(claims("Admin"), "admin"), Err(AppError::Unauthorized)));
}

#[test]
fn dashboard_segun_rol() {
    assert_eq!(contenido_dashboard("admin"), "Vista completa del dashboard");
    assert_eq!(contenido_dashboard("user"), "Vista limitada del dashboard");
    assert_eq!(contenido_dashboard(""), "Vista limitada del dashboard");
}

#[test]
fn respuestas_de_error() {
    assert_eq!(AppError::InvalidCredentials.estado_y_mensaje(), (401, "Credenciales inválidas".to_string()));
    assert_eq!(AppError::InvalidToken.estado_y_mensaje(), (401, "Token inválido o expirado".to_string()));
    assert_eq!(AppError::Unauthorized.estado_y_mensaje(), (403, "No autorizado".to_string()));
    assert_eq!(AppError::Internal("x".to_string()).estado_y_mensaje(), (500, "Error interno".to_string()));
    assert_eq!(AppError::Internal("x".to_string()).mensaje(), "Error interno del servidor");
}

#[test]
fn login_a_una_hora_dada() {
    let pedido = LoginRequest { username: "user".to_string(), password: "abcd".to_string() };
    let r = login_con_hora(&pedido, SECRETO, 1000).unwrap();
    assert_eq!(r.token_type, "Bearer");
    let mut m = serde_json::Map::new();
    m.insert("sub".to_string(), serde_json::Value::from("user"));
    m.insert("role".to_string(), serde_json::Value::from("user"));
    m.insert("exp".to_string(), serde_json::Value::from(4600u64));
    m.insert("iat".to_string(), serde_json::Value::from(1000u64));
    let esperado = jsonwebtoken::encode(
        &jsonwebtoken::Header::default(),
        &m,
        &jsonwebtoken::EncodingKey::from_secret(SECRETO.as_bytes()),
    )
    .unwrap();
    assert_eq!(r.token, esperado);
    assert!(matches!(
        login_con_hora(&pedido, SECRETO, -1),
        Err(AppError::Internal(m)) if m == "hora fuera de rango"
    ));
    let malo = LoginRequest { username: "user".to_string(), password: "1234".to_string() };
    assert!(matches!(login_con_hora(&malo, SECRETO, -1), Err(AppError::InvalidCredentials)));
    let ahora = std::time::SystemTime::now().duration_since(std::time::UNIX_EPOCH).unwrap().as_secs() as i64;
    let r = login_con_hora(&pedido, SECRETO, ahora).unwrap();
    let AuthUser(c) = AuthUser::desde_cabecera(Some(&format!("Bearer {}", r.token)), SECRETO).unwrap();
    assert_eq!((c.sub.as_str(), c.role.as_str(), c.iat, c.exp), ("user", "user", ahora as usize, ahora as usize + 3600));
}
