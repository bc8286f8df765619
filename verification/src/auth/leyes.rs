//! Leyes de los tokens: lo que se valida de un token es lo que se emitió.
use vstd::prelude::*;

use super::firma::carga_jwt;
use super::jwt::{nombre_rol, rol_de_nombre, vista_claims, Claims, JwtConfig, UserRole};
use super::jwt::{AuthResponse, TokenPair};
use super::jwt_service::{lee_claims, mensaje_jwt_error, token_de_acceso, token_de_refresco, JwtError, JwtService};
use super::middleware::{claims_de_cabecera, token_bearer};
use super::routes::{id_usuario_prueba, responder_login, rol_para_email, ApiResponse, LoginRequest};

verus! {

/// Validar un token de acceso emitido para un usuario devuelve sus datos:
/// el mismo identificador, email y rol, y una vigencia de
/// `access_token_expiry` horas.
pub proof fn ley_validar_lo_emitido(
    config: JwtConfig,
    token: Seq<char>,
    sub: Seq<char>,
    email: Seq<char>,
    role: UserRole,
    validado: Claims,
)
    requires
        token_de_acceso(config, token, sub, email, role),
        lee_claims(carga_jwt(token, config.access_token_secret@)) == Some(vista_claims(validado)),
    ensures
        validado.sub@ == sub,
        validado.email@ == email,
        validado.role == role,
        validado.exp == validado.iat + config.access_token_expiry * 3600,
        validado.jti@.len() == 36,
{
}

/// Validar un token de refresco emitido para un usuario devuelve su
/// identificador, sin email y con el rol mínimo.
pub proof fn ley_validar_refresco_emitido(
    config: JwtConfig,
    token: Seq<char>,
    sub: Seq<char>,
    validado: Claims,
)
    requires
        token_de_refresco(config, token, sub),
        lee_claims(carga_jwt(token, config.refresh_token_secret@)) == Some(vista_claims(validado)),
    ensures
        validado.sub@ == sub,
        validado.email@ == Seq::<char>::empty(),
        validado.role == UserRole::User,
        validado.exp == validado.iat + config.refresh_token_expiry * 86400,
{
}

/// Refrescar con un token de refresco emitido para un usuario da un token de
/// acceso para ese mismo usuario, sin email y con el rol mínimo.
pub proof fn ley_refrescar_lo_emitido(
    config: JwtConfig,
    refresco: Seq<char>,
    sub: Seq<char>,
    nuevo_acceso: Seq<char>,
    c: (Seq<char>, Seq<char>, UserRole, i64, i64, Seq<char>),
)
    requires
        token_de_refresco(config, refresco, sub),
        lee_claims(carga_jwt(refresco, config.refresh_token_secret@)) == Some(c),
        token_de_acceso(config, nuevo_acceso, c.0, c.1, c.2),
    ensures
        token_de_acceso(config, nuevo_acceso, sub, Seq::empty(), UserRole::User),
{
}

/// El nombre de cada rol se lee de vuelta como ese rol.
pub proof fn ley_nombre_rol(rol: UserRole)
    ensures
        rol_de_nombre(nombre_rol(rol)) == Some(rol),
{
    reveal_strlit("User");
    reveal_strlit("Admin");
    reveal_strlit("Moderator");
    assert("User"@[0] == 'U' && "Admin"@[0] == 'A' && "Moderator"@[0] == 'M');
}

} // verus!

verus! {

/// Cada rol se escribe en los claims, y se lee de ellos, con el nombre de su
/// variante: "User", "Admin" y "Moderator"; ningún otro nombre es un rol.
pub proof fn ley_nombres_de_rol()
    ensures
        nombre_rol(UserRole::User) == "User"@,
        nombre_rol(UserRole::Admin) == "Admin"@,
        nombre_rol(UserRole::Moderator) == "Moderator"@,
        rol_de_nombre("User"@) == Some(UserRole::User),
        rol_de_nombre("Admin"@) == Some(UserRole::Admin),
        rol_de_nombre("Moderator"@) == Some(UserRole::Moderator),
        forall|n: Seq<char>|
            n != "User"@ && n != "Admin"@ && n != "Moderator"@ ==> #[trigger] rol_de_nombre(n)
                is None,
{
    reveal_strlit("User");
    reveal_strlit("Admin");
    reveal_strlit("Moderator");
    assert("User"@[0] == 'U' && "Admin"@[0] == 'A' && "Moderator"@[0] == 'M');
}

/// El middleware deja en la petición lo que aceptó el validador, con
/// cualquier rol: si validar como token de acceso el token de una cabecera
/// `Bearer <t>` sólo puede dar `validacion`, el middleware deja sus claims
/// cuando es `Ok` y nada cuando es un rechazo.
pub proof fn ley_middleware_acepta_lo_validado(
    servicio: &JwtService,
    cabecera: &str,
    r: Option<Claims>,
    validacion: Result<Claims, JwtError>,
)
    requires
        token_bearer(cabecera@) is Some,
        call_ensures(claims_de_cabecera, (Some(servicio), Some(cabecera)), r),
        forall|token: &str, v: Result<Claims, JwtError>|
            token@ == token_bearer(cabecera@)->0 && #[trigger] call_ensures(
                JwtService::validate_access_token,
                (servicio, token),
                v,
            ) ==> v == validacion,
    ensures
        match validacion {
            Ok(c) => r == Some(c),
            Err(_) => r is None,
        },
{
}

/// El login responde lo que dio la emisión del par de tokens: con email y
/// contraseña no vacíos, si emitir el par para el usuario de prueba con ese
/// email y su rol sólo puede dar `emision`, el login responde 200 con ese par
/// (y el usuario) cuando es `Ok`, y 500 con el mensaje de su error cuando no.
pub proof fn ley_login_responde_la_emision(
    servicio: &JwtService,
    payload: &LoginRequest,
    r: (u16, ApiResponse<AuthResponse>),
    emision: Result<TokenPair, JwtError>,
)
    requires
        payload.email@.len() > 0,
        payload.password@.len() > 0,
        call_ensures(responder_login, (servicio, payload), r),
        forall|uid: &str, email: &str, v: Result<TokenPair, JwtError>|
            uid@ == id_usuario_prueba() && email@ == payload.email@ && #[trigger] call_ensures(
                JwtService::create_token_pair,
                (servicio, uid, email, rol_para_email(payload.email@)),
                v,
            ) ==> v == emision,
    ensures
        match emision {
            Ok(p) => {
                &&& r.0 == 200
                &&& r.1.success
                &&& r.1.error is None
                &&& r.1.data matches Some(d)
                &&& d.tokens == p
                &&& d.user.id@ == "12345"@
                &&& d.user.email@ == payload.email@
                &&& d.user.role == rol_para_email(payload.email@)
            },
            Err(e) => {
                &&& r.0 == 500
                &&& !r.1.success
                &&& r.1.data is None
                &&& r.1.error matches Some(m) && m@ == "Error al generar tokens: "@
                    + mensaje_jwt_error(e)
            },
        },
{
}

} // verus!
