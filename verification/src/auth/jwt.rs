//! Los datos que viajan dentro de los JWT y en las respuestas de autenticación.
use vstd::prelude::*;
use vstd::string::StringExecFns;

verus! {

/// Rol de un usuario.
#[derive(Debug, Clone, Copy, PartialEq, Eq, Structural)]
pub enum UserRole {
    User,
    Admin,
    Moderator,
}

/// El nombre con que un rol se escribe en los claims.
pub open spec fn nombre_rol(rol: UserRole) -> Seq<char> {
    match rol {
        UserRole::User => "User"@,
        UserRole::Admin => "Admin"@,
        UserRole::Moderator => "Moderator"@,
    }
}

/// El rol que corresponde a un nombre, si alguno corresponde.
pub open spec fn rol_de_nombre(nombre: Seq<char>) -> Option<UserRole> {
    if nombre == "User"@ {
        Some(UserRole::User)
    } else if nombre == "Admin"@ {
        Some(UserRole::Admin)
    } else if nombre == "Moderator"@ {
        Some(UserRole::Moderator)
    } else {
        None
    }
}

impl UserRole {
    /// El nombre del rol.
    pub fn nombre(&self) -> (s: String)
        ensures
            s@ == nombre_rol(*self),
    {
        match self {
            UserRole::User => String::from_str("User"),
            UserRole::Admin => String::from_str("Admin"),
            UserRole::Moderator => String::from_str("Moderator"),
        }
    }

    /// El rol con ese nombre exacto, si existe.
    pub fn desde_nombre(nombre: &str) -> (r: Option<UserRole>)
        ensures
            r == rol_de_nombre(nombre@),
    {
        let n = String::from_str(nombre);
        if n == String::from_str("User") {
            Some(UserRole::User)
        } else if n == String::from_str("Admin") {
            Some(UserRole::Admin)
        } else if n == String::from_str("Moderator") {
            Some(UserRole::Moderator)
        } else {
            None
        }
    }
}

/// Los claims de un JWT de acceso o de refresco.
#[derive(Debug)]
pub struct Claims {
    /// Identificador del usuario.
    pub sub: String,
    pub email: String,
    pub role: UserRole,
    /// Expiración, en segundos Unix.
    pub exp: i64,
    /// Emisión, en segundos Unix.
    pub iat: i64,
    /// Identificador del token.
    pub jti: String,
}

/// Los campos de unos claims como valores planos.
pub type VistaClaims = (Seq<char>, Seq<char>, UserRole, i64, i64, Seq<char>);

/// Los campos de unos claims como valores planos.
pub open spec fn vista_claims(c: Claims) -> VistaClaims {
    (c.sub@, c.email@, c.role, c.exp, c.iat, c.jti@)
}

/// Un par de tokens: acceso y refresco.
#[derive(Debug)]
pub struct TokenPair {
    pub access_token: String,
    pub refresh_token: String,
    /// Siempre "Bearer".
    pub token_type: String,
    /// Segundos hasta que vence el token de acceso.
    pub expires_in: i64,
}

/// Secretos y vigencias con que se firman los tokens.
#[derive(Debug, Clone)]
pub struct JwtConfig {
    pub access_token_secret: String,
    pub refresh_token_secret: String,
    /// Vigencia del token de acceso, en horas.
    pub access_token_expiry: i64,
    /// Vigencia del token de refresco, en días.
    pub refresh_token_expiry: i64,
    pub issuer: String,
}

/// Respuesta de un login exitoso.
#[derive(Debug)]
pub struct AuthResponse {
    pub tokens: TokenPair,
    pub user: AuthUser,
}

/// El usuario autenticado, tal como se le muestra.
#[derive(Debug, Clone)]
pub struct AuthUser {
    pub id: String,
    pub email: String,
    pub role: UserRole,
}

} // verus!
