//! Lo que responden las rutas de autenticación, sin el transporte HTTP.
use vstd::prelude::*;
use vstd::string::StringExecFns;

use super::firma::carga_jwt;
use super::jwt::{AuthResponse, AuthUser, TokenPair, UserRole};
use super::jwt_service::{
    lee_claims, mensaje_jwt_error, token_de_acceso, token_de_refresco, vigencias_validas, JwtError,
    JwtService,
};
use super::middleware::AuthenticatedUser;
use crate::texto::{contiene, contiene_texto};

verus! {

/// Credenciales de un login.
pub struct LoginRequest {
    pub email: String,
    pub password: String,
}

/// Pedido de refresco de tokens.
pub struct RefreshRequest {
    pub refresh_token: String,
}

/// Respuesta uniforme de la API: éxito, datos y error.
pub struct ApiResponse<T> {
    pub success: bool,
    pub data: Option<T>,
    pub error: Option<String>,
}

/// Una respuesta fallida con ese mensaje.
pub open spec fn es_fallo<T>(r: ApiResponse<T>, mensaje: Seq<char>) -> bool {
    &&& !r.success
    &&& r.data is None
    &&& r.error matches Some(e) && e@ == mensaje
}

/// El identificador del único usuario de prueba.
pub open spec fn id_usuario_prueba() -> Seq<char> {
    "12345"@
}

/// El rol que se da a un email: administrador si contiene "admin".
pub open spec fn rol_para_email(email: Seq<char>) -> UserRole {
    if contiene(email, "admin"@) {
        UserRole::Admin
    } else {
        UserRole::User
    }
}

fn fallo<T>(mensaje: String) -> (r: ApiResponse<T>)
    ensures
        es_fallo(r, mensaje@),
{
    ApiResponse { success: false, data: None, error: Some(mensaje) }
}

/// El login: rechaza con 400 un email o una contraseña vacíos; si no, emite
/// un par de tokens para el usuario de prueba, administrador si el email
/// contiene "admin", y responde según lo que dio esa emisión: 200 con el par,
/// o 500 con el error de la emisión.
pub fn responder_login(jwt_service: &JwtService, payload: &LoginRequest) -> (r: (
    u16,
    ApiResponse<AuthResponse>,
))
    requires
        payload.email@.len() > 0 && payload.password@.len() > 0 ==> vigencias_validas(
            jwt_service.configuracion(),
        ),
    ensures
        payload.email@.len() == 0 || payload.password@.len() == 0 ==> r.0 == 400 && es_fallo(
            r.1,
            "Email y contrseña son requeridos"@,
        ),
        payload.email@.len() > 0 && payload.password@.len() > 0 ==> (r.0 == 200 || r.0 == 500),
        r.0 == 200 ==> {
            let rol = rol_para_email(payload.email@);
            &&& r.1.success
            &&& r.1.error is None
            &&& r.1.data matches Some(d)
            &&& d.user.id@ == id_usuario_prueba()
            &&& d.user.email@ == payload.email@
            &&& d.user.role == rol
            &&& token_de_acceso(
                jwt_service.configuracion(),
                d.tokens.access_token@,
                id_usuario_prueba(),
                payload.email@,
                rol,
            )
            &&& token_de_refresco(
                jwt_service.configuracion(),
                d.tokens.refresh_token@,
                id_usuario_prueba(),
            )
            &&& d.tokens.token_type@ == "Bearer"@
            &&& d.tokens.expires_in == jwt_service.configuracion().access_token_expiry * 3600
        },
        r.0 == 500 ==> exists|e: JwtError|
            e is GenerationError && #[trigger] es_fallo(
                r.1,
                "Error al generar tokens: "@ + mensaje_jwt_error(e),
            ),
        payload.email@.len() > 0 && payload.password@.len() > 0 ==> exists|
            uid: &str,
            email: &str,
            emision: Result<TokenPair, JwtError>,
        |
            #![trigger call_ensures(JwtService::create_token_pair, (jwt_service, uid, email, rol_para_email(payload.email@)), emision)]
            uid@ == id_usuario_prueba() && email@ == payload.email@ && call_ensures(
                JwtService::create_token_pair,
                (jwt_service, uid, email, rol_para_email(payload.email@)),
                emision,
            ) && responde_emision(r, emision, payload.email@, rol_para_email(payload.email@)),
{
    proof {
        reveal_strlit("12345");
    }
    if payload.email.as_str().is_empty() || payload.password.as_str().is_empty() {
        return (400, fallo(String::from_str("Email y contrseña son requeridos")));
    }
    let user_id = "12345";
    let role = if contiene_texto(payload.email.as_str(), "admin") {
        UserRole::Admin
    } else {
        UserRole::User
    };
    let usuario = AuthUser {
        id: String::from_str(user_id),
        email: String::from_str(payload.email.as_str()),
        role,
    };
    let email = payload.email.as_str();
    let emitir = JwtService::create_token_pair;
    let emision = emitir(jwt_service, user_id, email, role);
    let r = respuesta_login(emision, usuario);
    assert(responde_emision(r, emision, payload.email@, role));
    r
}

/// `r` es la respuesta del login a esa emisión del par de tokens: 200 con el
/// par y el usuario de prueba con ese email y rol, o 500 con el error de la
/// emisión.
pub open spec fn responde_emision(
    r: (u16, ApiResponse<AuthResponse>),
    emision: Result<TokenPair, JwtError>,
    email: Seq<char>,
    rol: UserRole,
) -> bool {
    match emision {
        Ok(p) => {
            &&& r.0 == 200
            &&& r.1.success
            &&& r.1.error is None
            &&& r.1.data matches Some(d)
            &&& d.tokens == p
            &&& d.user.id@ == id_usuario_prueba()
            &&& d.user.email@ == email
            &&& d.user.role == rol
        },
        Err(e) => r.0 == 500 && es_fallo(r.1, "Error al generar tokens: "@ + mensaje_jwt_error(e)),
    }
}

/// La respuesta del login según lo que dio la emisión del par de tokens:
/// 200 con los tokens y el usuario, o 500 con el error de la emisión.
pub fn respuesta_login(emision: Result<TokenPair, JwtError>, usuario: AuthUser) -> (r: (
    u16,
    ApiResponse<AuthResponse>,
))
    ensures
        match emision {
            Ok(p) => {
                &&& r.0 == 200
                &&& r.1.success
                &&& r.1.error is None
                &&& r.1.data == Some(AuthResponse { tokens: p, user: usuario })
            },
            Err(e) => r.0 == 500 && es_fallo(r.1, "Error al generar tokens: "@ + mensaje_jwt_error(e)),
        },
{
    match emision {
        Ok(tokens) => (
            200,
            ApiResponse { success: true, data: Some(AuthResponse { tokens, user: usuario }), error: None },
        ),
        Err(e) => {
            let mensaje = String::from_str("Error al generar tokens: ").concat(e.mensaje().as_str());
            (500, fallo(mensaje))
        },
    }
}

/// El refresco: con un token de refresco válido responde 200 y un par nuevo;
/// un token vencido da 401 y cualquier otro error 400.
pub fn responder_refresh(jwt_service: &JwtService, payload: &RefreshRequest) -> (r: (
    u16,
    ApiResponse<TokenPair>,
))
    ensures
        r.0 == 200 || r.0 == 400 || r.0 == 401,
        r.0 == 200 ==> {
            &&& r.1.success
            &&& r.1.error is None
            &&& r.1.data matches Some(p)
            &&& lee_claims(
                carga_jwt(payload.refresh_token@, jwt_service.configuracion().refresh_token_secret@),
            ) matches Some(c)
            &&& token_de_acceso(jwt_service.configuracion(), p.access_token@, c.0, c.1, c.2)
            &&& token_de_refresco(jwt_service.configuracion(), p.refresh_token@, c.0)
        },
        r.0 == 401 ==> es_fallo(
            r.1,
            "Error al refrescar token: "@ + mensaje_jwt_error(JwtError::TokenExpired),
        ),
        r.0 == 400 ==> exists|e: JwtError|
            !(e is TokenExpired) && #[trigger] es_fallo(
                r.1,
                "Error al refrescar token: "@ + mensaje_jwt_error(e),
            ),
{
    respuesta_refresco(jwt_service.refresh_tokens(payload.refresh_token.as_str()))
}

/// La respuesta del refresco según lo que dio `refresh_tokens`: 200 con el
/// par nuevo; un token vencido da 401 y cualquier otro error 400, con el
/// mensaje del error.
pub fn respuesta_refresco(refresco: Result<TokenPair, JwtError>) -> (r: (u16, ApiResponse<TokenPair>))
    ensures
        match refresco {
            Ok(p) => {
                &&& r.0 == 200
                &&& r.1.success
                &&& r.1.error is None
                &&& r.1.data == Some(p)
            },
            Err(e) => {
                &&& r.0 == if e is TokenExpired { 401u16 } else { 400u16 }
                &&& es_fallo(r.1, "Error al refrescar token: "@ + mensaje_jwt_error(e))
            },
        },
{
    match refresco {
        Ok(tokens) => (200, ApiResponse { success: true, data: Some(tokens), error: None }),
        Err(e) => {
            let mensaje = String::from_str("Error al refrescar token: ").concat(e.mensaje().as_str());
            let estado: u16 = match e {
                JwtError::TokenExpired => 401,
                _ => 400,
            };
            (estado, fallo(mensaje))
        },
    }
}

/// Los datos del usuario autenticado.
pub fn responder_usuario_actual(user: AuthenticatedUser) -> (r: ApiResponse<AuthUser>)
    ensures
        r.success,
        r.error is None,
        r.data matches Some(u) && u.id@ == user.user_id@ && u.email@ == user.email@ && u.role
            == user.role,
{
    ApiResponse {
        success: true,
        data: Some(AuthUser { id: user.user_id, email: user.email, role: user.role }),
        error: None,
    }
}

/// El área de administración: 403 a quien no es administrador; al
/// administrador, 200 y un saludo con su email.
pub fn responder_admin(user: &AuthenticatedUser) -> (r: (u16, ApiResponse<String>))
    ensures
        user.role != UserRole::Admin ==> r.0 == 403 && es_fallo(r.1, "Permisos insuficientes"@),
        user.role == UserRole::Admin ==> {
            &&& r.0 == 200
            &&& r.1.success
            &&& r.1.error is None
            &&& r.1.data matches Some(m)
            &&& m@ == "Hola admin "@ + user.email@ + ", tienes acceso a esta área protegida"@
        },
{
    if user.role != UserRole::Admin {
        return (403, fallo(String::from_str("Permisos insuficientes")));
    }
    let saludo = String::from_str("Hola admin ").concat(user.email.as_str()).concat(
        ", tienes acceso a esta área protegida",
    );
    (200, ApiResponse { success: true, data: Some(saludo), error: None })
}

} // verus!
