//! Errores de la API y cómo se responden.
use vstd::prelude::*;
use vstd::string::StringExecFns;

verus! {

/// Errores de autenticación de la API.
#[derive(Debug)]
pub enum AppError {
    InvalidCredentials,
    InvalidToken,
    Unauthorized,
    /// Un error interno, con su descripción.
    Internal(String),
}

/// El texto de cada error.
pub open spec fn texto_app_error(e: AppError) -> Seq<char> {
    match e {
        AppError::InvalidCredentials => "Credenciales inválidas"@,
        AppError::InvalidToken => "Token inválido o expirado"@,
        AppError::Unauthorized => "No autorizado"@,
        AppError::Internal(_) => "Error interno del servidor"@,
    }
}

/// El código HTTP y el mensaje con que se responde cada error: los internos
/// no muestran su texto.
pub open spec fn respuesta_app_error(e: AppError) -> (u16, Seq<char>) {
    match e {
        AppError::InvalidCredentials => (401, texto_app_error(e)),
        AppError::InvalidToken => (401, texto_app_error(e)),
        AppError::Unauthorized => (403, texto_app_error(e)),
        AppError::Internal(_) => (500, "Error interno"@),
    }
}

impl AppError {
    /// El texto del error.
    pub fn mensaje(&self) -> (s: String)
        ensures
            s@ == texto_app_error(*self),
    {
        match self {
            AppError::InvalidCredentials => String::from_str("Credenciales inválidas"),
            AppError::InvalidToken => String::from_str("Token inválido o expirado"),
            AppError::Unauthorized => String::from_str("No autorizado"),
            AppError::Internal(_) => String::from_str("Error interno del servidor"),
        }
    }

    /// El código HTTP y el mensaje de la respuesta.
    pub fn estado_y_mensaje(&self) -> (r: (u16, String))
        ensures
            (r.0, r.1@) == respuesta_app_error(*self),
    {
        match self {
            AppError::InvalidCredentials => (401, self.mensaje()),
            AppError::InvalidToken => (401, self.mensaje()),
            AppError::Unauthorized => (403, self.mensaje()),
            AppError::Internal(_) => (500, String::from_str("Error interno")),
        }
    }
}

} // verus!
