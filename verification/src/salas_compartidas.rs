//! Frontera con `dashmap` y con los canales `broadcast` de `tokio`, para las
//! salas de carrera y sus jugadores.
use vstd::prelude::*;

use crate::state::{EstadoJugador, Sala};
use crate::tiempo::Instante;

verus! {

#[verifier::external_type_specification]
#[verifier::external_body]
#[verifier::reject_recursive_types(K)]
#[verifier::reject_recursive_types(V)]
#[verifier::reject_recursive_types(S)]
pub struct ExDashMap<K, V, S>(dashmap::DashMap<K, V, S>);

#[verifier::external_type_specification]
#[verifier::external_body]
#[verifier::reject_recursive_types(T)]
pub struct ExSender<T>(tokio::sync::broadcast::Sender<T>);

/// Las salas guardadas, por nombre.
pub uninterp spec fn salas_en(m: dashmap::DashMap<String, Sala>) -> Map<Seq<char>, Sala>;

/// Los jugadores guardados, por nombre de usuario.
pub uninterp spec fn jugadores_en(m: dashmap::DashMap<String, EstadoJugador>) -> Map<
    Seq<char>,
    EstadoJugador,
>;

/// El canal al que envía un emisor `broadcast`: sus clones envían al mismo.
pub uninterp spec fn canal_de(tx: tokio::sync::broadcast::Sender<String>) -> int;

/// Ninguna sala.
pub open spec fn sin_salas() -> Map<Seq<char>, Sala> {
    Map::empty()
}

/// Ningún jugador.
pub open spec fn sin_jugadores() -> Map<Seq<char>, EstadoJugador> {
    Map::empty()
}

/// La colección tiene exactamente `n` claves.
pub open spec fn tiene_cantidad(m: Map<Seq<char>, EstadoJugador>, n: nat) -> bool {
    m.dom().finite() && m.dom().len() == n
}

/// La lista recorre la colección: cada clave aparece una sola vez, con su
/// estado, y no falta ninguna.
pub open spec fn enumera(m: Map<Seq<char>, EstadoJugador>, s: Seq<(String, EstadoJugador)>) -> bool {
    &&& forall|i: int| 0 <= i < s.len() ==> m.contains_key((#[trigger] s[i]).0@) && m[s[i].0@] == s[i].1
    &&& forall|i: int, j: int| 0 <= i < j < s.len() ==> (#[trigger] s[i]).0@ != (#[trigger] s[j]).0@
    &&& forall|k: Seq<char>| #[trigger] m.contains_key(k) ==> exists|i: int| 0 <= i < s.len() && (#[trigger] s[i]).0@ == k
}

/// `DashMap::new` para las salas: ninguna.
#[verifier::external_body]
pub(crate) fn salas_vacias() -> (m: dashmap::DashMap<String, Sala>)
    ensures
        salas_en(m) == sin_salas(),
{
    dashmap::DashMap::new()
}

/// `DashMap::remove` de una sala: la quita y la devuelve, si estaba.
#[verifier::external_body]
pub(crate) fn quitar_sala(m: &mut dashmap::DashMap<String, Sala>, k: &str) -> (r: Option<Sala>)
    ensures
        salas_en(*final(m)) == salas_en(*old(m)).remove(k@),
        match salas_en(*old(m)).get(k@) {
            Some(s) => r == Some(s),
            None => r is None,
        },
{
    m.remove(k).map(|(_, v)| v)
}

/// `DashMap::insert` de una sala: queda guardada con ese nombre, reemplazando
/// la que hubiera.
#[verifier::external_body]
pub(crate) fn poner_sala(m: &mut dashmap::DashMap<String, Sala>, k: &str, v: Sala)
    ensures
        salas_en(*final(m)) == salas_en(*old(m)).insert(k@, v),
{
    m.insert(k.to_string(), v);
}

/// `DashMap::new` para los jugadores: ninguno.
#[verifier::external_body]
pub(crate) fn jugadores_vacios() -> (m: dashmap::DashMap<String, EstadoJugador>)
    ensures
        jugadores_en(m) == sin_jugadores(),
{
    dashmap::DashMap::new()
}

/// `DashMap::remove` de un jugador: lo quita y lo devuelve, si estaba.
#[verifier::external_body]
pub(crate) fn quitar_jugador(m: &mut dashmap::DashMap<String, EstadoJugador>, k: &str) -> (r: Option<
    EstadoJugador,
>)
    ensures
        jugadores_en(*final(m)) == jugadores_en(*old(m)).remove(k@),
        match jugadores_en(*old(m)).get(k@) {
            Some(j) => r == Some(j),
            None => r is None,
        },
{
    m.remove(k).map(|(_, v)| v)
}

/// `DashMap::insert` de un jugador: queda guardado con esa clave,
/// reemplazando al que hubiera.
#[verifier::external_body]
pub(crate) fn poner_jugador(m: &mut dashmap::DashMap<String, EstadoJugador>, k: &str, v: EstadoJugador)
    ensures
        jugadores_en(*final(m)) == jugadores_en(*old(m)).insert(k@, v),
{
    m.insert(k.to_string(), v);
}

/// `DashMap::len` de los jugadores: cuántos hay. La colección es finita.
#[verifier::external_body]
pub(crate) fn cantidad_jugadores(m: &dashmap::DashMap<String, EstadoJugador>) -> (r: usize)
    ensures
        tiene_cantidad(jugadores_en(*m), r as nat),
{
    m.len()
}

/// `DashMap::iter` de los jugadores, con cada entrada copiada (clave y
/// estado): cada clave guardada aparece una sola vez, con su estado, en un
/// orden que `dashmap` no fija. Como todo `Vec` de elementos no vacíos, no
/// pasa de `isize::MAX` elementos.
#[verifier::external_body]
pub(crate) fn entradas_jugadores(m: &dashmap::DashMap<String, EstadoJugador>) -> (r: Vec<
    (String, EstadoJugador),
>)
    ensures
        enumera(jugadores_en(*m), r@),
        r@.len() <= isize::MAX,
{
    m.iter().map(|e| (e.key().clone(), e.value().clone())).collect()
}

/// `tokio::sync::broadcast::channel(64)`: el emisor de un canal nuevo con
/// capacidad para 64 mensajes; el receptor inicial se descarta. Que el canal
/// sea distinto de los demás no se afirma: un emisor no dice nada de los otros.
#[verifier::external_body]
pub(crate) fn canal_nuevo() -> (tx: tokio::sync::broadcast::Sender<String>) {
    tokio::sync::broadcast::channel(64).0
}

/// `Sender::clone`: otro emisor del mismo canal (la documentación de `tokio`:
/// "a handle to the same channel").
#[verifier::external_body]
pub(crate) fn clonar_emisor(tx: &tokio::sync::broadcast::Sender<String>) -> (r: tokio::sync::broadcast::Sender<String>)
    ensures
        canal_de(r) == canal_de(*tx),
{
    tx.clone()
}

/// `chrono::Utc::now()` como segundos Unix y nanosegundos. La hora misma no
/// se afirma; el reloj del sistema siempre da un instante del rango de
/// `chrono` sin segundo intercalar.
#[verifier::external_body]
pub(crate) fn instante_actual() -> (r: Instante)
    ensures
        r.valido(),
{
    let ahora = chrono::Utc::now();
    Instante { segundos: ahora.timestamp(), nanos: ahora.timestamp_subsec_nanos() }
}

} // verus!
