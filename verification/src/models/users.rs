//! Usuarios, login y claims de la API.
use vstd::prelude::*;

use crate::auth::firma::ValorClaim;

verus! {

/// Un usuario del sistema.
#[derive(Debug)]
pub struct User {
    pub id: u32,
    pub username: String,
    pub password_hash: String,
    pub role: String,
}

/// Credenciales que envía el cliente.
#[derive(Debug)]
pub struct LoginRequest {
    pub username: String,
    pub password: String,
}

/// Respuesta a un login exitoso.
#[derive(Debug)]
pub struct LoginResponse {
    pub token: String,
    pub token_type: String,
}

/// Claims de los tokens de la API.
#[derive(Debug)]
pub struct Claims {
    pub sub: String,
    pub role: String,
    /// Expiración, en segundos Unix.
    pub exp: usize,
    /// Emisión, en segundos Unix.
    pub iat: usize,
}

/// Los campos de unos claims como valores planos.
pub open spec fn vista_claims_usuario(c: Claims) -> (Seq<char>, Seq<char>, usize, usize) {
    (c.sub@, c.role@, c.exp, c.iat)
}

/// Los claims de un token de la API como objeto JSON.
pub open spec fn mapa_claims_usuario(v: (Seq<char>, Seq<char>, usize, usize)) -> Map<
    Seq<char>,
    ValorClaim,
> {
    Map::empty().insert("sub"@, ValorClaim::Texto(v.0)).insert(
        "role"@,
        ValorClaim::Texto(v.1),
    ).insert("exp"@, ValorClaim::Entero(v.2 as int)).insert(
        "iat"@,
        ValorClaim::Entero(v.3 as int),
    )
}

/// Los claims de la API que se leen de un objeto JSON: `sub` y `role`
/// cadenas, `exp` e `iat` enteros no negativos que caben en `usize`.
pub open spec fn lee_claims_usuario(m: Map<Seq<char>, ValorClaim>) -> Option<
    (Seq<char>, Seq<char>, usize, usize),
> {
    match (m.get("sub"@), m.get("role"@), m.get("exp"@), m.get("iat"@)) {
        (
            Some(ValorClaim::Texto(s)),
            Some(ValorClaim::Texto(r)),
            Some(ValorClaim::Entero(x)),
            Some(ValorClaim::Entero(i)),
        ) => if 0 <= x <= usize::MAX && 0 <= i <= usize::MAX {
            Some((s, r, x as usize, i as usize))
        } else {
            None
        },
        _ => None,
    }
}

/// Leer los claims escritos da los mismos claims.
pub proof fn ley_leer_lo_escrito_usuario(v: (Seq<char>, Seq<char>, usize, usize))
    ensures
        lee_claims_usuario(mapa_claims_usuario(v)) == Some(v),
{
    reveal_strlit("sub");
    reveal_strlit("role");
    reveal_strlit("exp");
    reveal_strlit("iat");
    assert("sub"@[0] == 's' && "role"@[0] == 'r' && "exp"@[0] == 'e' && "iat"@[0] == 'i');
    assert("sub"@ != "role"@);
    assert("sub"@ != "exp"@);
    assert("sub"@ != "iat"@);
    assert("role"@ != "exp"@);
    assert("role"@ != "iat"@);
    assert("exp"@ != "iat"@);
}

} // verus!
