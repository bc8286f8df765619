//! Emisión y validación de los tokens de acceso y de refresco.
use vstd::prelude::*;
use vstd::string::StringExecFns;

use super::firma::{
    ahora_y_despues, carga_jwt, claims_planos, firma_hs256_valida, puntos, contenido_claims, entero_de, firmar_hs256,
    insertar_entero, insertar_texto, mapa_vacio, nuevo_uuid, texto_de, verificar_hs256, FalloJwt,
    ValorClaim,
};
use super::jwt::{
    nombre_rol, rol_de_nombre, vista_claims, Claims, JwtConfig, TokenPair, UserRole, VistaClaims,
};

verus! {

/// Errores al emitir o validar tokens.
#[derive(Debug)]
pub enum JwtError {
    InvalidToken(String),
    TokenExpired,
    GenerationError(String),
    ValidationError(String),
}

/// El texto con que se muestra cada error.
pub open spec fn mensaje_jwt_error(e: JwtError) -> Seq<char> {
    match e {
        JwtError::InvalidToken(m) => "Token inválido: "@ + m@,
        JwtError::TokenExpired => "Token expirado"@,
        JwtError::GenerationError(m) => "Error al generar token: "@ + m@,
        JwtError::ValidationError(m) => "Error de validación: "@ + m@,
    }
}

impl JwtError {
    /// El error con que se informa un token rechazado: vencido, o inválido
    /// con el mensaje del verificador.
    pub fn desde_fallo(fallo: FalloJwt) -> (e: JwtError)
        ensures
            match fallo {
                FalloJwt::Expirado => e is TokenExpired,
                FalloJwt::Invalido(m) => e matches JwtError::InvalidToken(n) && n@ == m@,
            },
    {
        match fallo {
            FalloJwt::Expirado => JwtError::TokenExpired,
            FalloJwt::Invalido(m) => JwtError::InvalidToken(m),
        }
    }

    /// El texto del error.
    pub fn mensaje(&self) -> (s: String)
        ensures
            s@ == mensaje_jwt_error(*self),
    {
        match self {
            JwtError::InvalidToken(m) => String::from_str("Token inválido: ").concat(m.as_str()),
            JwtError::TokenExpired => String::from_str("Token expirado"),
            JwtError::GenerationError(m) => String::from_str("Error al generar token: ").concat(
                m.as_str(),
            ),
            JwtError::ValidationError(m) => String::from_str("Error de validación: ").concat(
                m.as_str(),
            ),
        }
    }
}

/// Un lapso en segundos que `chrono::TimeDelta` puede representar.
pub open spec fn segundos_representables(s: int) -> bool {
    -9223372036854775 <= s <= 9223372036854775
}

/// Las vigencias de la configuración se pueden convertir a segundos sin salir de rango.
pub open spec fn vigencias_validas(config: JwtConfig) -> bool {
    &&& segundos_representables(config.access_token_expiry * 3600)
    &&& segundos_representables(config.refresh_token_expiry * 86400)
}

/// Los claims de un token como objeto JSON.
pub open spec fn mapa_claims(v: VistaClaims) -> Map<Seq<char>, ValorClaim> {
    Map::empty().insert("sub"@, ValorClaim::Texto(v.0)).insert(
        "email"@,
        ValorClaim::Texto(v.1),
    ).insert("role"@, ValorClaim::Texto(nombre_rol(v.2))).insert(
        "exp"@,
        ValorClaim::Entero(v.3 as int),
    ).insert("iat"@, ValorClaim::Entero(v.4 as int)).insert("jti"@, ValorClaim::Texto(v.5))
}

/// Los claims que se leen de un objeto JSON: están los seis campos con el tipo
/// correcto y el rol es uno de los conocidos.
pub open spec fn lee_claims(m: Map<Seq<char>, ValorClaim>) -> Option<VistaClaims> {
    match (m.get("sub"@), m.get("email"@), m.get("role"@), m.get("exp"@), m.get("iat"@), m.get("jti"@)) {
        (
            Some(ValorClaim::Texto(s)),
            Some(ValorClaim::Texto(e)),
            Some(ValorClaim::Texto(r)),
            Some(ValorClaim::Entero(x)),
            Some(ValorClaim::Entero(i)),
            Some(ValorClaim::Texto(j)),
        ) => match rol_de_nombre(r) {
            Some(rol) => if i64::MIN <= x <= i64::MAX && i64::MIN <= i <= i64::MAX {
                Some((s, e, rol, x as i64, i as i64, j))
            } else {
                None
            },
            None => None,
        },
        _ => None,
    }
}

/// El mensaje con que se rechazan unos claims incompletos o mal formados.
pub open spec fn mensaje_claims_invalidos() -> Seq<char> {
    "claims incompletos o mal formados"@
}

/// El mensaje con que se rechaza una expiración fuera del rango de fechas.
pub open spec fn mensaje_fecha_fuera_de_rango() -> Seq<char> {
    "fecha de expiración fuera de rango"@
}

/// `t` es un token de acceso emitido con esta configuración para ese usuario:
/// firmado con el secreto de acceso, lleva sus datos, vence
/// `access_token_expiry` horas después de emitido y tiene un identificador
/// de 36 caracteres.
pub open spec fn token_de_acceso(
    config: JwtConfig,
    t: Seq<char>,
    sub: Seq<char>,
    email: Seq<char>,
    role: UserRole,
) -> bool {
    &&& firma_hs256_valida(t, config.access_token_secret@)
    &&& lee_claims(carga_jwt(t, config.access_token_secret@)) matches Some(c) && c.0 == sub && c.1
        == email && c.2 == role && c.3 == c.4 + config.access_token_expiry * 3600 && c.5.len()
        == 36
}

/// `t` es un token de refresco emitido con esta configuración para ese usuario:
/// firmado con el secreto de refresco, sin email, con el rol mínimo y vigente
/// `refresh_token_expiry` días.
pub open spec fn token_de_refresco(config: JwtConfig, t: Seq<char>, sub: Seq<char>) -> bool {
    &&& firma_hs256_valida(t, config.refresh_token_secret@)
    &&& lee_claims(carga_jwt(t, config.refresh_token_secret@)) matches Some(c) && c.0 == sub && c.1
        == Seq::<char>::empty() && c.2 == UserRole::User && c.3 == c.4
        + config.refresh_token_expiry * 86400 && c.5.len() == 36
}

/// Leer los claims escritos da los mismos claims.
pub proof fn ley_leer_lo_escrito(v: VistaClaims)
    ensures
        lee_claims(mapa_claims(v)) == Some(v),
{
    reveal_strlit("sub");
    reveal_strlit("email");
    reveal_strlit("role");
    reveal_strlit("exp");
    reveal_strlit("iat");
    reveal_strlit("jti");
    reveal_strlit("User");
    reveal_strlit("Admin");
    reveal_strlit("Moderator");
    let m = mapa_claims(v);
    assert("sub"@[0] == 's' && "email"@[0] == 'e' && "role"@[0] == 'r');
    assert("exp"@[0] == 'e' && "iat"@[0] == 'i' && "jti"@[0] == 'j');
    assert("email"@.len() == 5 && "exp"@.len() == 3);
    assert("User"@[0] == 'U' && "Admin"@[0] == 'A' && "Moderator"@[0] == 'M');
    assert("sub"@ != "email"@);
    assert("sub"@ != "role"@);
    assert("sub"@ != "exp"@);
    assert("sub"@ != "iat"@);
    assert("sub"@ != "jti"@);
    assert("email"@ != "role"@);
    assert("email"@ != "exp"@);
    assert("email"@ != "iat"@);
    assert("email"@ != "jti"@);
    assert("role"@ != "exp"@);
    assert("role"@ != "iat"@);
    assert("role"@ != "jti"@);
    assert("exp"@ != "iat"@);
    assert("exp"@ != "jti"@);
    assert("iat"@ != "jti"@);
    assert("User"@ != "Admin"@);
    assert("User"@ != "Moderator"@);
    assert("Admin"@ != "Moderator"@);
    assert(rol_de_nombre(nombre_rol(v.2)) == Some(v.2));
}

/// Un servicio que emite y valida tokens con una configuración fija.
#[derive(Clone)]
pub struct JwtService {
    config: JwtConfig,
}

impl JwtService {
    /// La configuración del servicio.
    pub closed spec fn configuracion(&self) -> JwtConfig {
        self.config
    }

    /// Si las vigencias de la configuración se pueden convertir a segundos:
    /// cuando no, emitir tokens falla como falla `chrono::TimeDelta`.
    pub fn vigencias_ok(&self) -> (r: bool)
        ensures
            r == vigencias_validas(self.configuracion()),
    {
        -2562047788015 <= self.config.access_token_expiry && self.config.access_token_expiry
            <= 2562047788015 && -106751991167 <= self.config.refresh_token_expiry
            && self.config.refresh_token_expiry <= 106751991167
    }

    pub fn new(config: JwtConfig) -> (s: Self)
        ensures
            s.configuracion() == config,
    {
        Self { config }
    }

    /// Firma unos claims con un secreto.
    fn encode_token(&self, claims: &Claims, secret: &str) -> (r: Result<String, JwtError>)
        ensures
            r matches Ok(t) && carga_jwt(t@, secret@) == mapa_claims(vista_claims(*claims))
                && firma_hs256_valida(t@, secret@),
    {
        let mut m = mapa_vacio();
        insertar_texto(&mut m, "sub", claims.sub.as_str());
        insertar_texto(&mut m, "email", claims.email.as_str());
        let rol = claims.role.nombre();
        insertar_texto(&mut m, "role", rol.as_str());
        insertar_entero(&mut m, "exp", claims.exp);
        insertar_entero(&mut m, "iat", claims.iat);
        insertar_texto(&mut m, "jti", claims.jti.as_str());
        assert(contenido_claims(m) == mapa_claims(vista_claims(*claims)));
        assert(claims_planos(contenido_claims(m)));
        match firmar_hs256(&m, secret) {
            Ok(t) => Ok(t),
            Err(e) => Err(JwtError::GenerationError(e)),
        }
    }

    /// Arma los claims de un token emitido en `iat`, con la expiración que
    /// dio el reloj (`None` si cae fuera del rango de fechas) y un
    /// identificador de token.
    pub fn armar_claims(
        user_id: &str,
        email: &str,
        role: UserRole,
        iat: i64,
        exp: Option<i64>,
        jti: String,
    ) -> (r: Result<Claims, JwtError>)
        ensures
            match exp {
                Some(x) => r matches Ok(c) && vista_claims(c) == (
                    user_id@,
                    email@,
                    role,
                    x,
                    iat,
                    jti@,
                ),
                None => r matches Err(JwtError::GenerationError(m)) && m@
                    == mensaje_fecha_fuera_de_rango(),
            },
    {
        match exp {
            Some(exp) => Ok(
                Claims {
                    sub: String::from_str(user_id),
                    email: String::from_str(email),
                    role,
                    exp,
                    iat,
                    jti,
                },
            ),
            None => Err(
                JwtError::GenerationError(String::from_str("fecha de expiración fuera de rango")),
            ),
        }
    }

    /// Arma unos claims emitidos ahora, que vencen `segundos` después.
    fn claims_desde_ahora(
        user_id: &str,
        email: &str,
        role: UserRole,
        segundos: i64,
    ) -> (r: Result<Claims, JwtError>)
        ensures
            r matches Ok(c) ==> c.sub@ == user_id@ && c.email@ == email@ && c.role == role && c.exp
                == c.iat + segundos && c.jti@.len() == 36,
            r matches Err(e) ==> e matches JwtError::GenerationError(m) && m@
                == mensaje_fecha_fuera_de_rango(),
    {
        let (ahora, fin) = ahora_y_despues(segundos);
        Self::armar_claims(user_id, email, role, ahora, fin, nuevo_uuid())
    }

    /// Crea un token de acceso para el usuario, vigente `access_token_expiry` horas.
    pub fn create_access_token(&self, user_id: &str, email: &str, role: UserRole) -> (r: Result<
        String,
        JwtError,
    >)
        requires
            segundos_representables(self.configuracion().access_token_expiry * 3600),
        ensures
            r matches Ok(t) ==> token_de_acceso(self.configuracion(), t@, user_id@, email@, role),
            r matches Err(e) ==> e matches JwtError::GenerationError(m) && m@
                == mensaje_fecha_fuera_de_rango(),
    {
        let segundos = self.config.access_token_expiry * 3600;
        let claims = Self::claims_desde_ahora(user_id, email, role, segundos)?;
        let r = self.encode_token(&claims, self.config.access_token_secret.as_str());
        proof { ley_leer_lo_escrito(vista_claims(claims)); }
        r
    }

    /// Crea un token de refresco para el usuario, sin email y con el rol mínimo,
    /// vigente `refresh_token_expiry` días.
    pub fn create_refresh_token(&self, user_id: &str) -> (r: Result<String, JwtError>)
        requires
            segundos_representables(self.configuracion().refresh_token_expiry * 86400),
        ensures
            r matches Ok(t) ==> token_de_refresco(self.configuracion(), t@, user_id@),
            r matches Err(e) ==> e matches JwtError::GenerationError(m) && m@
                == mensaje_fecha_fuera_de_rango(),
    {
        let segundos = self.config.refresh_token_expiry * 86400;
        let claims = Self::claims_desde_ahora(user_id, "", UserRole::User, segundos)?;
        proof {
            reveal_strlit("");
            assert(""@ =~= Seq::<char>::empty());
        }
        let r = self.encode_token(&claims, self.config.refresh_token_secret.as_str());
        proof { ley_leer_lo_escrito(vista_claims(claims)); }
        r
    }

    /// Crea el par de tokens de acceso y de refresco.
    pub fn create_token_pair(&self, user_id: &str, email: &str, role: UserRole) -> (r: Result<
        TokenPair,
        JwtError,
    >)
        requires
            vigencias_validas(self.configuracion()),
        ensures
            r matches Ok(p) ==> {
                &&& token_de_acceso(self.configuracion(), p.access_token@, user_id@, email@, role)
                &&& token_de_refresco(self.configuracion(), p.refresh_token@, user_id@)
                &&& p.token_type@ == "Bearer"@
                &&& p.expires_in == self.configuracion().access_token_expiry * 3600
            },
            r matches Err(e) ==> e matches JwtError::GenerationError(m) && m@
                == mensaje_fecha_fuera_de_rango(),
    {
        let access_token = self.create_access_token(user_id, email, role)?;
        let refresh_token = self.create_refresh_token(user_id)?;
        Ok(
            TokenPair {
                access_token,
                refresh_token,
                token_type: String::from_str("Bearer"),
                expires_in: self.config.access_token_expiry * 3600,
            },
        )
    }

    /// Valida un token de acceso y devuelve sus claims: sólo acepta un token
    /// firmado con el secreto de acceso.
    pub fn validate_access_token(&self, token: &str) -> (r: Result<Claims, JwtError>)
        ensures
            r is Ok ==> firma_hs256_valida(token@, self.configuracion().access_token_secret@),
            r matches Err(JwtError::TokenExpired) ==> firma_hs256_valida(
                token@,
                self.configuracion().access_token_secret@,
            ),
            !firma_hs256_valida(token@, self.configuracion().access_token_secret@) ==> r matches Err(
                JwtError::InvalidToken(_),
            ),
            puntos(token@) != 2 ==> r matches Err(JwtError::InvalidToken(_)),
            r matches Ok(c) ==> lee_claims(
                carga_jwt(token@, self.configuracion().access_token_secret@),
            ) == Some(vista_claims(c)),
            r matches Err(e) ==> e is TokenExpired || e is InvalidToken,
    {
        self.decode_token(token, self.config.access_token_secret.as_str())
    }

    /// Valida un token de refresco y devuelve sus claims: sólo acepta un token
    /// firmado con el secreto de refresco.
    pub fn validate_refresh_token(&self, token: &str) -> (r: Result<Claims, JwtError>)
        ensures
            r is Ok ==> firma_hs256_valida(token@, self.configuracion().refresh_token_secret@),
            r matches Err(JwtError::TokenExpired) ==> firma_hs256_valida(
                token@,
                self.configuracion().refresh_token_secret@,
            ),
            !firma_hs256_valida(token@, self.configuracion().refresh_token_secret@) ==> r matches Err(
                JwtError::InvalidToken(_),
            ),
            puntos(token@) != 2 ==> r matches Err(JwtError::InvalidToken(_)),
            r matches Ok(c) ==> lee_claims(
                carga_jwt(token@, self.configuracion().refresh_token_secret@),
            ) == Some(vista_claims(c)),
            r matches Err(e) ==> e is TokenExpired || e is InvalidToken,
    {
        self.decode_token(token, self.config.refresh_token_secret.as_str())
    }

    /// Con un token de refresco válido, emite un par nuevo para el mismo
    /// usuario, con el email y el rol que ese token lleva. Un rechazo del token
    /// pasa tal cual, con cualquier configuración. Si el token es válido pero
    /// las vigencias de la configuración no se pueden convertir a segundos (allí
    /// `chrono::TimeDelta` no da un lapso), el par no se emite y el error es el
    /// de una fecha fuera de rango.
    pub fn refresh_tokens(&self, refresh_token: &str) -> (r: Result<TokenPair, JwtError>)
        ensures
            !vigencias_validas(self.configuracion()) ==> r is Err,
            r is Ok ==> firma_hs256_valida(
                refresh_token@,
                self.configuracion().refresh_token_secret@,
            ),
            r matches Ok(p) ==> lee_claims(
                carga_jwt(refresh_token@, self.configuracion().refresh_token_secret@),
            ) matches Some(c) && token_de_acceso(
                self.configuracion(),
                p.access_token@,
                c.0,
                c.1,
                c.2,
            ) && token_de_refresco(self.configuracion(), p.refresh_token@, c.0)
                && p.token_type@ == "Bearer"@ && p.expires_in
                == self.configuracion().access_token_expiry * 3600,
            r matches Err(e) ==> e is TokenExpired || e is InvalidToken || e is GenerationError,
            r matches Err(JwtError::TokenExpired) ==> firma_hs256_valida(
                refresh_token@,
                self.configuracion().refresh_token_secret@,
            ),
            !firma_hs256_valida(refresh_token@, self.configuracion().refresh_token_secret@)
                ==> r matches Err(JwtError::InvalidToken(_)),
            puntos(refresh_token@) != 2 ==> r matches Err(JwtError::InvalidToken(_)),
            r matches Err(JwtError::GenerationError(m)) ==> m@ == mensaje_fecha_fuera_de_rango(),
    {
        let validacion = self.validate_refresh_token(refresh_token);
        match validacion {
            Ok(_) => {
                if !self.vigencias_ok() {
                    return Err(
                        JwtError::GenerationError(
                            String::from_str("fecha de expiración fuera de rango"),
                        ),
                    );
                }
            },
            Err(_) => {},
        }
        self.refrescar_con(validacion)
    }

    /// El refresco según lo que dio la validación del token de refresco: un
    /// rechazo pasa tal cual; con claims válidos, se emite un par nuevo para
    /// el mismo usuario, con el email y el rol que esos claims llevan (para
    /// eso las vigencias de la configuración deben poder convertirse a segundos).
    pub fn refrescar_con(&self, validacion: Result<Claims, JwtError>) -> (r: Result<TokenPair, JwtError>)
        requires
            validacion is Ok ==> vigencias_validas(self.configuracion()),
        ensures
            validacion matches Err(e) ==> r == Err::<TokenPair, JwtError>(e),
            validacion matches Ok(c) ==> {
                &&& r matches Ok(p) ==> {
                    &&& token_de_acceso(self.configuracion(), p.access_token@, c.sub@, c.email@, c.role)
                    &&& token_de_refresco(self.configuracion(), p.refresh_token@, c.sub@)
                    &&& p.token_type@ == "Bearer"@
                    &&& p.expires_in == self.configuracion().access_token_expiry * 3600
                }
                &&& r matches Err(e) ==> e matches JwtError::GenerationError(m) && m@
                    == mensaje_fecha_fuera_de_rango()
            },
    {
        match validacion {
            Ok(claims) => self.create_token_pair(claims.sub.as_str(), claims.email.as_str(), claims.role),
            Err(e) => Err(e),
        }
    }

    /// Verifica un token con un secreto y lee sus claims.
    fn decode_token(&self, token: &str, secret: &str) -> (r: Result<Claims, JwtError>)
        ensures
            r is Ok ==> firma_hs256_valida(token@, secret@),
            r matches Ok(c) ==> lee_claims(carga_jwt(token@, secret@)) == Some(vista_claims(c)),
            r matches Err(e) ==> e is TokenExpired || e is InvalidToken,
            r matches Err(JwtError::TokenExpired) ==> firma_hs256_valida(token@, secret@),
            !firma_hs256_valida(token@, secret@) ==> r matches Err(JwtError::InvalidToken(_)),
            puntos(token@) != 2 ==> r matches Err(JwtError::InvalidToken(_)),
    {
        claims_de_verificacion(verificar_hs256(token, secret))
    }
}

/// Lo que resulta de validar un token según lo que respondió el verificador:
/// los claims leídos del objeto verificado, o el error que corresponde al
/// rechazo (vencido, o inválido con el mensaje del verificador).
pub fn claims_de_verificacion(
    verificacion: Result<serde_json::Map<String, serde_json::Value>, FalloJwt>,
) -> (r: Result<Claims, JwtError>)
    ensures
        match verificacion {
            Ok(m) => match lee_claims(contenido_claims(m)) {
                Some(v) => r matches Ok(c) && vista_claims(c) == v,
                None => r matches Err(JwtError::InvalidToken(msg)) && msg@
                    == mensaje_claims_invalidos(),
            },
            Err(FalloJwt::Expirado) => r matches Err(JwtError::TokenExpired),
            Err(FalloJwt::Invalido(m)) => r matches Err(JwtError::InvalidToken(n)) && n@ == m@,
        },
{
    match verificacion {
        Ok(m) => claims_desde_mapa(&m),
        Err(fallo) => Err(JwtError::desde_fallo(fallo)),
    }
}

/// Lee los claims de un objeto JSON ya verificado: sólo si están los seis
/// campos con su tipo y el rol es conocido.
pub fn claims_desde_mapa(m: &serde_json::Map<String, serde_json::Value>) -> (r: Result<
    Claims,
    JwtError,
>)
    ensures
        match lee_claims(contenido_claims(*m)) {
            Some(v) => r matches Ok(c) && vista_claims(c) == v,
            None => r matches Err(JwtError::InvalidToken(msg)) && msg@
                == mensaje_claims_invalidos(),
        },
{
    let sub = texto_de(m, "sub");
    let email = texto_de(m, "email");
    let role = texto_de(m, "role");
    let exp = entero_de(m, "exp");
    let iat = entero_de(m, "iat");
    let jti = texto_de(m, "jti");
    proof {
        reveal_strlit("sub");
        reveal_strlit("email");
        reveal_strlit("role");
        reveal_strlit("exp");
        reveal_strlit("iat");
        reveal_strlit("jti");
    }
    match (sub, email, role, exp, iat, jti) {
        (Some(sub), Some(email), Some(role), Some(exp), Some(iat), Some(jti)) => {
            match UserRole::desde_nombre(role.as_str()) {
                Some(role) => Ok(Claims { sub, email, role, exp, iat, jti }),
                None => Err(JwtError::InvalidToken(String::from_str("claims incompletos o mal formados"))),
            }
        },
        _ => Err(JwtError::InvalidToken(String::from_str("claims incompletos o mal formados"))),
    }
}

} // verus!
