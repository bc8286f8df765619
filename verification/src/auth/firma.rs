//! Frontera con las bibliotecas externas que firman y verifican los JWT
//! (`jsonwebtoken`, `serde_json`), que dan la hora (`chrono`) y que generan
//! identificadores (`uuid`).
use vstd::prelude::*;

verus! {

#[verifier::external_type_specification]
#[verifier::external_body]
pub struct ExValorJson(serde_json::Value);

#[verifier::external_type_specification]
#[verifier::external_body]
#[verifier::reject_recursive_types(K)]
#[verifier::reject_recursive_types(V)]
pub struct ExMapaJson<K, V>(serde_json::Map<K, V>);

/// Lo que los claims de un JWT guardan bajo una clave, visto como valor plano.
pub enum ValorClaim {
    /// Una cadena JSON.
    Texto(Seq<char>),
    /// Un número JSON entero (los que `serde_json` guarda sin pérdida, entre
    /// `i64::MIN` y `u64::MAX`).
    Entero(int),
    /// Cualquier otro valor JSON.
    Otro,
}

/// Los claims de un objeto JSON, clave por clave.
pub uninterp spec fn contenido_claims(m: serde_json::Map<String, serde_json::Value>) -> Map<
    Seq<char>,
    ValorClaim,
>;

/// El JWT que `jsonwebtoken::encode` arma con la cabecera por defecto (HS256)
/// para unos claims y un secreto.
pub uninterp spec fn jwt_hs256(claims: Map<Seq<char>, ValorClaim>, secreto: Seq<char>) -> Seq<char>;

/// Los claims que lleva un JWT, tal como `jsonwebtoken::decode` los entrega
/// cuando la firma con ese secreto es válida.
pub uninterp spec fn carga_jwt(token: Seq<char>, secreto: Seq<char>) -> Map<Seq<char>, ValorClaim>;

/// La firma HS256 de un JWT verifica con ese secreto: la cabecera declara
/// HS256 y la tercera parte del token es el HMAC-SHA256, con el secreto como
/// clave, de las dos primeras.
pub uninterp spec fn firma_hs256_valida(token: Seq<char>, secreto: Seq<char>) -> bool;

/// Cuántos puntos tiene un texto. Un JWT compacto tiene exactamente dos: separan
/// la cabecera, la carga y la firma.
pub open spec fn puntos(t: Seq<char>) -> nat
    decreases t.len(),
{
    if t.len() == 0 {
        0
    } else {
        puntos(t.drop_last()) + if t.last() == '.' {
            1nat
        } else {
            0nat
        }
    }
}

/// Un objeto JSON sin claims.
pub open spec fn claims_vacios() -> Map<Seq<char>, ValorClaim> {
    Map::empty()
}

/// Los claims que `jwt_hs256` sabe representar sin pérdida: cadenas y enteros.
pub open spec fn claims_planos(c: Map<Seq<char>, ValorClaim>) -> bool {
    forall|k: Seq<char>| #[trigger] c.contains_key(k) ==> !(c[k] is Otro)
}

/// Por qué no se aceptó un JWT.
#[derive(Debug, PartialEq, Eq)]
pub enum FalloJwt {
    /// La firma es válida pero el token ya expiró.
    Expirado,
    /// Cualquier otro problema, con el mensaje de `jsonwebtoken`.
    Invalido(String),
}

/// `serde_json::Map::new`: un objeto JSON vacío.
#[verifier::external_body]
pub(crate) fn mapa_vacio() -> (m: serde_json::Map<String, serde_json::Value>)
    ensures
        contenido_claims(m) == claims_vacios(),
{
    serde_json::Map::new()
}

/// `serde_json::Map::insert` de una cadena: la clave queda con ese texto,
/// reemplazando lo que tuviera.
#[verifier::external_body]
pub(crate) fn insertar_texto(m: &mut serde_json::Map<String, serde_json::Value>, clave: &str, valor: &str)
    ensures
        contenido_claims(*final(m)) == contenido_claims(*old(m)).insert(
            clave@,
            ValorClaim::Texto(valor@),
        ),
{
    m.insert(clave.to_string(), serde_json::Value::from(valor));
}

/// `serde_json::Map::insert` de un entero: la clave queda con ese número,
/// reemplazando lo que tuviera.
#[verifier::external_body]
pub(crate) fn insertar_entero(m: &mut serde_json::Map<String, serde_json::Value>, clave: &str, valor: i64)
    ensures
        contenido_claims(*final(m)) == contenido_claims(*old(m)).insert(
            clave@,
            ValorClaim::Entero(valor as int),
        ),
{
    m.insert(clave.to_string(), serde_json::Value::from(valor));
}

/// `serde_json::Map::insert` de un natural: la clave queda con ese número,
/// reemplazando lo que tuviera.
#[verifier::external_body]
pub(crate) fn insertar_natural(m: &mut serde_json::Map<String, serde_json::Value>, clave: &str, valor: u64)
    ensures
        contenido_claims(*final(m)) == contenido_claims(*old(m)).insert(
            clave@,
            ValorClaim::Entero(valor as int),
        ),
{
    m.insert(clave.to_string(), serde_json::Value::from(valor));
}

/// `serde_json::Map::get` seguido de `Value::as_str`: la cadena guardada bajo
/// la clave, si la hay y es una cadena.
#[verifier::external_body]
pub(crate) fn texto_de(m: &serde_json::Map<String, serde_json::Value>, clave: &str) -> (r: Option<String>)
    ensures
        match contenido_claims(*m).get(clave@) {
            Some(ValorClaim::Texto(s)) => r matches Some(t) && t@ == s,
            _ => r is None,
        },
{
    m.get(clave).and_then(serde_json::Value::as_str).map(String::from)
}

/// `serde_json::Map::get` seguido de `Value::as_i64`: el entero guardado bajo
/// la clave, si lo hay y cabe en `i64`.
#[verifier::external_body]
pub(crate) fn entero_de(m: &serde_json::Map<String, serde_json::Value>, clave: &str) -> (r: Option<i64>)
    ensures
        match contenido_claims(*m).get(clave@) {
            Some(ValorClaim::Entero(n)) => if i64::MIN <= n <= i64::MAX {
                r == Some(n as i64)
            } else {
                r is None
            },
            _ => r is None,
        },
{
    m.get(clave).and_then(serde_json::Value::as_i64)
}

/// `serde_json::Map::get` seguido de `Value::as_u64`: el entero no negativo
/// guardado bajo la clave, si lo hay y cabe en `u64`.
#[verifier::external_body]
pub(crate) fn natural_de(m: &serde_json::Map<String, serde_json::Value>, clave: &str) -> (r: Option<u64>)
    ensures
        match contenido_claims(*m).get(clave@) {
            Some(ValorClaim::Entero(n)) => if 0 <= n <= u64::MAX {
                r == Some(n as u64)
            } else {
                r is None
            },
            _ => r is None,
        },
{
    m.get(clave).and_then(serde_json::Value::as_u64)
}

/// `jsonwebtoken::encode` con la cabecera por defecto (HS256) y una clave
/// HMAC hecha del secreto. Con claims de cadenas y enteros la serialización
/// no falla y la firma HMAC tampoco, así que el resultado es siempre `Ok`.
/// Además, lo que `decode` recupera de ese token con el mismo secreto son
/// exactamente los mismos claims: JSON guarda sin pérdida cadenas y enteros.
/// La firma del token es el HMAC-SHA256 de su cabecera y su carga con ese
/// secreto, así que verifica con él.
#[verifier::external_body]
pub(crate) fn firmar_hs256(claims: &serde_json::Map<String, serde_json::Value>, secreto: &str) -> (r: Result<String, String>)
    requires
        claims_planos(contenido_claims(*claims)),
    ensures
        r is Ok,
        r matches Ok(t) ==> t@ == jwt_hs256(contenido_claims(*claims), secreto@),
        r matches Ok(t) ==> carga_jwt(t@, secreto@) == contenido_claims(*claims),
        r matches Ok(t) ==> firma_hs256_valida(t@, secreto@),
{
    let clave = jsonwebtoken::EncodingKey::from_secret(secreto.as_bytes());
    jsonwebtoken::encode(&jsonwebtoken::Header::default(), claims, &clave).map_err(|e| e.to_string())
}

/// `jsonwebtoken::decode` con `Validation::new(Algorithm::HS256)`: verifica la
/// firma con el secreto, exige `exp` y rechaza los tokens vencidos según la
/// hora del sistema. Primero separa el token en sus tres partes y verifica la
/// firma; sólo después mira la expiración. Así, un texto sin exactamente dos
/// puntos se rechaza como inválido, un token vencido tiene la firma válida, y
/// un token aceptado también; entonces entrega los claims que el token lleva.
/// Si un token bien firmado se acepta o se rechaza por vencido depende de la
/// hora: eso no se afirma.
#[verifier::external_body]
pub(crate) fn verificar_hs256(token: &str, secreto: &str) -> (r: Result<serde_json::Map<String, serde_json::Value>, FalloJwt>)
    ensures
        r matches Ok(m) ==> contenido_claims(m) == carga_jwt(token@, secreto@),
        r is Ok ==> firma_hs256_valida(token@, secreto@),
        r matches Err(FalloJwt::Expirado) ==> firma_hs256_valida(token@, secreto@),
        puntos(token@) != 2 ==> r matches Err(FalloJwt::Invalido(_)),
{
    let clave = jsonwebtoken::DecodingKey::from_secret(secreto.as_bytes());
    let validacion = jsonwebtoken::Validation::new(jsonwebtoken::Algorithm::HS256);
    match jsonwebtoken::decode::<serde_json::Map<String, serde_json::Value>>(token, &clave, &validacion) {
        Ok(datos) => Ok(datos.claims),
        Err(e) => match e.kind() {
            jsonwebtoken::errors::ErrorKind::ExpiredSignature => Err(FalloJwt::Expirado),
            _ => Err(FalloJwt::Invalido(e.to_string())),
        },
    }
}

/// `chrono::Utc::now()`, y ese instante más `segundos` con
/// `TimeDelta::try_seconds` y `checked_add_signed`, ambos en segundos Unix.
/// El segundo es `None` cuando la suma sale del rango de `chrono`; la hora
/// misma no se afirma.
#[verifier::external_body]
pub(crate) fn ahora_y_despues(segundos: i64) -> (r: (i64, Option<i64>))
    ensures
        r.1 matches Some(fin) ==> fin == r.0 + segundos,
{
    let ahora = chrono::Utc::now();
    let fin = match chrono::TimeDelta::try_seconds(segundos) {
        Some(lapso) => ahora.checked_add_signed(lapso),
        None => None,
    };
    (ahora.timestamp(), fin.as_ref().map(chrono::DateTime::timestamp))
}

/// `uuid::Uuid::new_v4().to_string()`: un UUID aleatorio en la forma con
/// guiones, de 36 caracteres.
#[verifier::external_body]
pub(crate) fn nuevo_uuid() -> (r: String)
    ensures
        r@.len() == 36,
{
    uuid::Uuid::new_v4().to_string()
}

} // verus!
