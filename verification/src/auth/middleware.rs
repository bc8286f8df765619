//! Lo que decide el middleware de autenticación: qué claims lleva una petición.
use vstd::prelude::*;
use vstd::string::StringExecFns;

use super::jwt::{vista_claims, Claims, UserRole};
use super::jwt_service::{lee_claims, JwtError, JwtService};
use super::firma::{carga_jwt, firma_hs256_valida};
use crate::texto::{empieza_con, quitar_prefijo};

verus! {

/// El usuario de una petición autenticada.
pub struct AuthenticatedUser {
    pub user_id: String,
    pub email: String,
    pub role: UserRole,
}

/// El token de una cabecera `Authorization` con la forma `Bearer <token>`.
pub open spec fn token_bearer(cabecera: Seq<char>) -> Option<Seq<char>> {
    if empieza_con(cabecera, "Bearer "@) {
        Some(cabecera.skip(7))
    } else {
        None
    }
}

/// Los claims con que el middleware marca la petición: los del token de
/// acceso de la cabecera, si hay servicio, cabecera con `Bearer ` y el token
/// valida (lo que exige que esté firmado con el secreto de acceso).
/// Qué acepta el validador depende de la hora; lo que responde pasa por
/// `claims_de_validacion`, y cuando acepta, los claims son los que el token lleva.
pub fn claims_de_cabecera(jwt_service: Option<&JwtService>, cabecera: Option<&str>) -> (r: Option<
    Claims,
>)
    ensures
        jwt_service is None ==> r is None,
        cabecera is None ==> r is None,
        cabecera matches Some(h) && token_bearer(h@) is None ==> r is None,
        r matches Some(c) ==> jwt_service matches Some(s) && cabecera matches Some(h)
            && token_bearer(h@) matches Some(t) && firma_hs256_valida(
            t,
            s.configuracion().access_token_secret@,
        ) && lee_claims(carga_jwt(t, s.configuracion().access_token_secret@)) == Some(
            vista_claims(c),
        ),
        jwt_service is Some && cabecera is Some && token_bearer(cabecera->0@) is Some ==> exists|
            token: &str,
            validacion: Result<Claims, JwtError>,
        |
            #![trigger call_ensures(JwtService::validate_access_token, (jwt_service->0, token), validacion)]
            token@ == token_bearer(cabecera->0@)->0 && call_ensures(
                JwtService::validate_access_token,
                (jwt_service->0, token),
                validacion,
            ) && r == claims_aceptados(validacion),
{
    proof {
        reveal_strlit("Bearer ");
    }
    match (jwt_service, cabecera) {
        (Some(servicio), Some(valor)) => match quitar_prefijo(valor, "Bearer ") {
            Some(token) => {
                let validar = JwtService::validate_access_token;
                let validacion = validar(servicio, token);
                claims_de_validacion(validacion)
            },
            None => None,
        },
        _ => None,
    }
}

/// Los claims de un token aceptado; nada si se rechazó.
pub open spec fn claims_aceptados(validacion: Result<Claims, JwtError>) -> Option<Claims> {
    match validacion {
        Ok(c) => Some(c),
        Err(_) => None,
    }
}

/// Lo que el middleware deja en la petición según lo que respondió el
/// validador del token de acceso: los claims si lo aceptó, nada si lo rechazó.
pub fn claims_de_validacion(validacion: Result<Claims, JwtError>) -> (r: Option<Claims>)
    ensures
        match validacion {
            Ok(c) => r == Some(c),
            Err(_) => r is None,
        },
{
    match validacion {
        Ok(claims) => Some(claims),
        Err(_) => None,
    }
}

impl AuthenticatedUser {
    /// El usuario que corresponde a los claims que dejó el middleware;
    /// sin claims, la petición no está autenticada.
    pub fn desde_claims(claims: Option<&Claims>) -> (r: Option<AuthenticatedUser>)
        ensures
            match claims {
                Some(c) => r matches Some(u) && u.user_id@ == c.sub@ && u.email@ == c.email@
                    && u.role == c.role,
                None => r is None,
            },
    {
        match claims {
            Some(c) => Some(
                AuthenticatedUser {
                    user_id: String::from_str(c.sub.as_str()),
                    email: String::from_str(c.email.as_str()),
                    role: c.role,
                },
            ),
            None => None,
        }
    }
}

} // verus!
