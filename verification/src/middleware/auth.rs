//! Extracción de los claims de la API desde la cabecera `Authorization`.
use vstd::prelude::*;

use crate::auth::firma::{carga_jwt, contenido_claims, firma_hs256_valida, natural_de, texto_de, verificar_hs256};
use crate::auth::middleware::token_bearer;
use crate::errors::AppError;
use crate::models::users::{lee_claims_usuario, vista_claims_usuario, Claims};
use crate::texto::{iguales, quitar_prefijo};

verus! {

/// Un usuario autenticado con un token de la API válido.
pub struct AuthUser(pub Claims);

/// Un usuario autenticado con el rol exigido.
pub struct RequireRole(pub Claims);

/// Lee los claims de la API de un objeto JSON ya verificado.
pub fn claims_usuario_desde_mapa(m: &serde_json::Map<String, serde_json::Value>) -> (r: Result<
    Claims,
    AppError,
>)
    ensures
        match lee_claims_usuario(contenido_claims(*m)) {
            Some(v) => r matches Ok(c) && vista_claims_usuario(c) == v,
            None => r matches Err(AppError::InvalidToken),
        },
{
    let sub = texto_de(m, "sub");
    let role = texto_de(m, "role");
    let exp = natural_de(m, "exp");
    let iat = natural_de(m, "iat");
    proof {
        reveal_strlit("sub");
        reveal_strlit("role");
        reveal_strlit("exp");
        reveal_strlit("iat");
    }
    match (sub, role, exp, iat) {
        (Some(sub), Some(role), Some(exp), Some(iat)) => {
            if exp <= usize::MAX as u64 && iat <= usize::MAX as u64 {
                Ok(Claims { sub, role, exp: exp as usize, iat: iat as usize })
            } else {
                Err(AppError::InvalidToken)
            }
        },
        _ => Err(AppError::InvalidToken),
    }
}

impl AuthUser {
    /// El usuario de una petición: sin cabecera `Authorization` (o ilegible)
    /// no está autorizado; sin la forma `Bearer <token>`, o si el token no
    /// valida con el secreto (firma HS256 incluida), el token es inválido.
    pub fn desde_cabecera(cabecera: Option<&str>, secreto: &str) -> (r: Result<AuthUser, AppError>)
        ensures
            cabecera is None <==> r matches Err(AppError::Unauthorized),
            cabecera matches Some(h) && token_bearer(h@) is None ==> r matches Err(
                AppError::InvalidToken,
            ),
            r matches Ok(u) ==> cabecera matches Some(h) && token_bearer(h@) matches Some(t)
                && firma_hs256_valida(t, secreto@) && lee_claims_usuario(carga_jwt(t, secreto@)) == Some(vista_claims_usuario(u.0)),
            r matches Err(e) ==> e is Unauthorized || e is InvalidToken,
    {
        proof {
            reveal_strlit("Bearer ");
        }
        let valor = match cabecera {
            Some(v) => v,
            None => return Err(AppError::Unauthorized),
        };
        let token = match quitar_prefijo(valor, "Bearer ") {
            Some(t) => t,
            None => return Err(AppError::InvalidToken),
        };
        match verificar_hs256(token, secreto) {
            Ok(m) => match claims_usuario_desde_mapa(&m) {
                Ok(c) => Ok(AuthUser(c)),
                Err(_) => Err(AppError::InvalidToken),
            },
            Err(_) => Err(AppError::InvalidToken),
        }
    }
}

impl RequireRole {
    /// Acepta los claims sólo si su rol es exactamente el exigido.
    pub fn check(claims: Claims, required_role: &str) -> (r: Result<Self, AppError>)
        ensures
            claims.role@ == required_role@ <==> r is Ok,
            r matches Ok(rr) ==> rr.0 == claims,
            r matches Err(e) ==> e is Unauthorized,
    {
        if !iguales(claims.role.as_str(), required_role) {
            return Err(AppError::Unauthorized);
        }
        Ok(RequireRole(claims))
    }
}

} // verus!
