//! El login de la API con la base de usuarios de prueba.
use vstd::prelude::*;
use vstd::string::StringExecFns;

use crate::auth::firma::{
    ahora_y_despues, carga_jwt, claims_planos, contenido_claims, firmar_hs256, insertar_natural,
    insertar_texto, jwt_hs256, mapa_vacio,
};
use crate::auth::middleware::token_bearer;
use crate::errors::AppError;
use crate::models::users::{
    ley_leer_lo_escrito_usuario, lee_claims_usuario, mapa_claims_usuario, LoginRequest,
    LoginResponse, User,
};

verus! {

/// Un usuario como valores planos: id, nombre, contraseña y rol.
pub type VistaUsuario = (u32, Seq<char>, Seq<char>, Seq<char>);

pub open spec fn vista_usuario(u: User) -> VistaUsuario {
    (u.id, u.username@, u.password_hash@, u.role@)
}

/// Los usuarios de prueba.
pub open spec fn usuarios_prueba() -> Seq<VistaUsuario> {
    seq![(1u32, "admin"@, "1234"@, "admin"@), (2u32, "user"@, "abcd"@, "user"@)]
}

/// El primer usuario con ese nombre.
pub open spec fn buscar_usuario(usuarios: Seq<VistaUsuario>, nombre: Seq<char>) -> Option<
    VistaUsuario,
>
    decreases usuarios.len(),
{
    if usuarios.len() == 0 {
        None
    } else if usuarios[0].1 == nombre {
        Some(usuarios[0])
    } else {
        buscar_usuario(usuarios.skip(1), nombre)
    }
}

/// La base de usuarios de prueba.
pub fn mock_users() -> (r: Vec<User>)
    ensures
        r@.len() == 2,
        forall|i: int| 0 <= i < 2 ==> vista_usuario(#[trigger] r@[i]) == usuarios_prueba()[i],
{
    let mut r = Vec::new();
    r.push(
        User {
            id: 1,
            username: String::from_str("admin"),
            password_hash: String::from_str("1234"),
            role: String::from_str("admin"),
        },
    );
    r.push(
        User {
            id: 2,
            username: String::from_str("user"),
            password_hash: String::from_str("abcd"),
            role: String::from_str("user"),
        },
    );
    r
}

/// Si una hora (segundos Unix) cabe en los claims de un token de una hora.
pub open spec fn hora_representable(ahora: int) -> bool {
    0 <= ahora <= usize::MAX - 3600
}

/// El mensaje con que se rechaza una hora que no cabe en los claims.
pub open spec fn mensaje_hora_fuera_de_rango() -> Seq<char> {
    "hora fuera de rango"@
}

/// Los claims del token de un usuario emitido en `ahora`, que vence una hora después.
pub open spec fn claims_login(u: VistaUsuario, ahora: int) -> (Seq<char>, Seq<char>, usize, usize) {
    (u.1, u.3, (ahora + 3600) as usize, ahora as usize)
}

/// El login: busca el usuario por nombre y compara la contraseña; si
/// coinciden, firma con el secreto un token de una hora con su nombre y su rol,
/// emitido a la hora que da el reloj. Un nombre desconocido o una contraseña
/// distinta son credenciales inválidas. El error interno sólo aparece si el
/// reloj da una hora que no cabe en los claims.
pub fn responder_login(payload: &LoginRequest, secreto: &str) -> (r: Result<
    LoginResponse,
    AppError,
>)
    ensures
        match buscar_usuario(usuarios_prueba(), payload.username@) {
            None => r matches Err(AppError::InvalidCredentials),
            Some(u) => if u.2 != payload.password@ {
                r matches Err(AppError::InvalidCredentials)
            } else {
                ||| r matches Err(AppError::Internal(m)) && m@ == mensaje_hora_fuera_de_rango()
                ||| r matches Ok(resp) && resp.token_type@ == "Bearer"@ && exists|ahora: int|
                    hora_representable(ahora) && resp.token@ == #[trigger] jwt_hs256(
                        mapa_claims_usuario(claims_login(u, ahora)),
                        secreto@,
                    ) && lee_claims_usuario(carga_jwt(resp.token@, secreto@)) == Some(
                        claims_login(u, ahora),
                    )
            },
        },
        r matches Ok(resp) ==> {
            &&& resp.token_type@ == "Bearer"@
            &&& buscar_usuario(usuarios_prueba(), payload.username@) matches Some(u)
            &&& lee_claims_usuario(carga_jwt(resp.token@, secreto@)) matches Some(c)
            &&& c.0 == u.1 && c.1 == u.3 && c.2 == c.3 + 3600
        },
{
    let (ahora, _) = ahora_y_despues(0);
    login_con_hora(payload, secreto, ahora)
}

/// El login a una hora dada (segundos Unix): credenciales inválidas si el
/// nombre no existe o la contraseña no coincide; si la hora no cabe en los
/// claims, error interno; si no, el token HS256 firmado con el secreto con el
/// nombre y el rol del usuario, emitido a esa hora y vigente una hora.
pub fn login_con_hora(payload: &LoginRequest, secreto: &str, ahora: i64) -> (r: Result<
    LoginResponse,
    AppError,
>)
    ensures
        match buscar_usuario(usuarios_prueba(), payload.username@) {
            None => r matches Err(AppError::InvalidCredentials),
            Some(u) => if u.2 != payload.password@ {
                r matches Err(AppError::InvalidCredentials)
            } else if !hora_representable(ahora as int) {
                r matches Err(AppError::Internal(m)) && m@ == mensaje_hora_fuera_de_rango()
            } else {
                &&& r matches Ok(resp)
                &&& resp.token_type@ == "Bearer"@
                &&& resp.token@ == jwt_hs256(
                    mapa_claims_usuario(claims_login(u, ahora as int)),
                    secreto@,
                )
                &&& lee_claims_usuario(carga_jwt(resp.token@, secreto@)) == Some(
                    claims_login(u, ahora as int),
                )
            },
        },
{
    let usuarios = mock_users();
    let mut i: usize = 0;
    let mut encontrado: Option<usize> = None;
    assert(usuarios@.map_values(|u: User| vista_usuario(u)) =~= usuarios_prueba());
    assert(usuarios_prueba().skip(0) =~= usuarios_prueba());
    while i < usuarios.len()
        invariant_except_break
            encontrado is None,
        invariant
            usuarios@.len() == 2,
            forall|k: int| 0 <= k < 2 ==> vista_usuario(#[trigger] usuarios@[k]) == usuarios_prueba()[k],
            i <= 2,
            buscar_usuario(usuarios_prueba(), payload.username@) == buscar_usuario(
                usuarios_prueba().skip(i as int),
                payload.username@,
            ),
        ensures
            match encontrado {
                Some(k) => k < 2 && buscar_usuario(usuarios_prueba(), payload.username@) == Some(
                    usuarios_prueba()[k as int],
                ),
                None => buscar_usuario(usuarios_prueba(), payload.username@) is None,
            },
        decreases 2 - i,
    {
        let ghost resto = usuarios_prueba().skip(i as int);
        assert(resto[0] == usuarios_prueba()[i as int]);
        assert(resto.skip(1) =~= usuarios_prueba().skip(i + 1));
        if usuarios[i].username == payload.username {
            encontrado = Some(i);
            break;
        }
        i += 1;
    }
    let k = match encontrado {
        Some(k) => k,
        None => return Err(AppError::InvalidCredentials),
    };
    let usuario = &usuarios[k];
    if usuario.password_hash != payload.password {
        return Err(AppError::InvalidCredentials);
    }
    if ahora < 0 || ahora as u64 > usize::MAX as u64 - 3600 {
        return Err(AppError::Internal(String::from_str("hora fuera de rango")));
    }
    let iat = ahora as usize;
    let exp = iat + 3600;
    let mut m = mapa_vacio();
    insertar_texto(&mut m, "sub", usuario.username.as_str());
    insertar_texto(&mut m, "role", usuario.role.as_str());
    insertar_natural(&mut m, "exp", exp as u64);
    insertar_natural(&mut m, "iat", iat as u64);
    let ghost v = (usuario.username@, usuario.role@, exp, iat);
    assert(v == claims_login(vista_usuario(*usuario), ahora as int));
    assert(contenido_claims(m) == mapa_claims_usuario(v));
    assert(claims_planos(contenido_claims(m)));
    proof { ley_leer_lo_escrito_usuario(v); }
    match firmar_hs256(&m, secreto) {
        Ok(token) => Ok(LoginResponse { token, token_type: String::from_str("Bearer") }),
        Err(e) => Err(AppError::Internal(e)),
    }
}

} // verus!

verus! {

/// Presentar el token de un login como `Bearer <token>` da, al validarlo con
/// el mismo secreto, el usuario y el rol con que se emitió.
pub proof fn ley_login_y_cabecera(
    token: Seq<char>,
    secreto: Seq<char>,
    usuario: VistaUsuario,
    emitidos: (Seq<char>, Seq<char>, usize, usize),
    validados: (Seq<char>, Seq<char>, usize, usize),
)
    requires
        lee_claims_usuario(carga_jwt(token, secreto)) == Some(emitidos),
        emitidos.0 == usuario.1 && emitidos.1 == usuario.3,
        token_bearer("Bearer "@ + token) matches Some(t) && lee_claims_usuario(carga_jwt(t, secreto))
            == Some(validados),
    ensures
        validados.0 == usuario.1,
        validados.1 == usuario.3,
        validados.2 == emitidos.2,
{
    reveal_strlit("Bearer ");
    assert(("Bearer "@ + token).take(7) =~= "Bearer "@);
    assert(("Bearer "@ + token).skip(7) =~= token);
}

} // verus!
