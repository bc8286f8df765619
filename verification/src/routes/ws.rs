//! Lo que decide la conexión de un jugador a una sala, mensaje a mensaje.
use vstd::prelude::*;
use vstd::string::StringExecFns;
use vstd::utf8::encode_utf8;

use crate::state::{
    con_fin, jugador_nuevo, lista_estados, lugar_al_terminar, AppState, EstadoJugador, EventoSala,
    VistaSala,
};
use crate::texto::{contar_palabras, palabras};

verus! {

/// Parámetros de la conexión.
pub struct WsParams {
    pub usuario: String,
}

/// Lo que manda el cliente durante la carrera.
#[derive(Debug)]
pub enum MensajeCliente {
    Progreso { posicion: u16, errores: u16, caracteres_correctos: u16, tiempo_inicio_ms: i64 },
    Termino { tiempo_segundos: i64, errores: u16, caracteres_correctos: u16, total_caracteres: u16 },
}

/// Un mensaje del cliente con sus métricas ya calculadas: precisión y
/// palabras por minuto como bits IEEE-754 de su `f64`.
pub enum Jugada {
    Avance { posicion: u16, errores: u16, precision: u64, wpm: u64 },
    Fin { tiempo_segundos: i64, precision: u64, wpm: u64 },
}

/// Al entrar a una sala: se registra al jugador, se le manda el texto de la
/// carrera (si la sala existe) y se anuncia su entrada con el estado de
/// todos los jugadores, para que quien llega tarde vea el avance previo.
pub fn entrar_a_sala(state: &mut AppState, room_id: &str, usuario: &str) -> (r: (
    Option<EventoSala>,
    EventoSala,
))
    requires
        old(state).bien_formado(),
    ensures
        final(state).bien_formado(),
        !old(state)@.contains_key(room_id@) ==> final(state)@ == old(state)@,
        old(state)@.contains_key(room_id@) ==> exists|j: EstadoJugador|
            jugador_nuevo(j, usuario@) && #[trigger] final(state)@ == old(state)@.insert(
                room_id@,
                VistaSala {
                    jugadores: old(state)@[room_id@].jugadores.insert(usuario@, j),
                    ..old(state)@[room_id@]
                },
            ),
        !old(state)@.contains_key(room_id@) ==> r.0 is None,
        old(state)@.contains_key(room_id@) ==> {
            &&& r.0 matches Some(EventoSala::TextoCarrera { id, texto, caracteres, palabras: cuenta })
            &&& id == old(state)@[room_id@].leccion_id
            &&& texto@ == old(state)@[room_id@].texto
            &&& caracteres == encode_utf8(texto@).len() as usize
            &&& cuenta == palabras(texto@)
        },
        r.1 matches EventoSala::JugadorUnido { usuario: u, total_jugadores, estado_sala } && u@
            == usuario@ && if old(state)@.contains_key(room_id@) {
            &&& lista_estados(final(state)@[room_id@].jugadores, estado_sala@)
            &&& total_jugadores == final(state)@[room_id@].jugadores.dom().len()
        } else {
            estado_sala@.len() == 0 && total_jugadores == 0
        },
{
    state.unir_jugador(room_id, usuario);
    let texto = match state.texto_sala(room_id) {
        Some((id, texto)) => {
            let palabras = contar_palabras(texto.as_str());
            let caracteres = texto.as_str().len();
            Some(EventoSala::TextoCarrera { id, texto, caracteres, palabras })
        },
        None => None,
    };
    let estado_sala = state.estado_jugadores(room_id);
    let total = state.total_jugadores(room_id);
    let anuncio = EventoSala::JugadorUnido {
        usuario: String::from_str(usuario),
        total_jugadores: total,
        estado_sala,
    };
    (texto, anuncio)
}

/// Un mensaje del cliente: el avance se anota y se anuncia tal cual; el fin
/// marca al jugador como terminado y anuncia su posición en el ranking, que
/// no cambia si el fin se repite.
pub fn procesar_jugada(state: &mut AppState, room_id: &str, usuario: &str, jugada: Jugada) -> (r:
    EventoSala)
    requires
        old(state).bien_formado(),
    ensures
        final(state).bien_formado(),
        match jugada {
            Jugada::Avance { posicion, errores, precision, wpm } => {
                &&& final(state)@ == if old(state)@.contains_key(room_id@) && old(
                    state,
                )@[room_id@].jugadores.contains_key(usuario@) {
                    let sala = old(state)@[room_id@];
                    let j = sala.jugadores[usuario@];
                    old(state)@.insert(
                        room_id@,
                        VistaSala {
                            jugadores: sala.jugadores.insert(
                                usuario@,
                                EstadoJugador { posicion, errores, precision, wpm, ..j },
                            ),
                            ..sala
                        },
                    )
                } else {
                    old(state)@
                }
                &&& r matches EventoSala::Progreso { usuario: u, posicion: p, errores: e, precision: pr, wpm: w }
                &&& u@ == usuario@ && p == posicion && e == errores && pr == precision && w == wpm
            },
            Jugada::Fin { tiempo_segundos, precision, wpm } => {
                &&& r matches EventoSala::JugadorTermino { usuario: u, tiempo_segundos: t, precision: pr, wpm: w, posicion_ranking }
                &&& u@ == usuario@ && t == tiempo_segundos && pr == precision && w == wpm
                &&& posicion_ranking == if old(state)@.contains_key(room_id@) {
                    lugar_al_terminar(old(state)@[room_id@].jugadores, usuario@)
                } else {
                    1
                }
                &&& final(state)@ == if old(state)@.contains_key(room_id@) && old(
                    state,
                )@[room_id@].jugadores.contains_key(usuario@) {
                    let sala = old(state)@[room_id@];
                    old(state)@.insert(
                        room_id@,
                        VistaSala {
                            jugadores: sala.jugadores.insert(
                                usuario@,
                                con_fin(
                                    sala.jugadores[usuario@],
                                    tiempo_segundos,
                                    precision,
                                    wpm,
                                    posicion_ranking,
                                ),
                            ),
                            ..sala
                        },
                    )
                } else {
                    old(state)@
                }
            },
        },
{
    match jugada {
        Jugada::Avance { posicion, errores, precision, wpm } => {
            state.actualizar_progreso(room_id, usuario, posicion, errores, precision, wpm);
            EventoSala::Progreso {
                usuario: String::from_str(usuario),
                posicion,
                errores,
                precision,
                wpm,
            }
        },
        Jugada::Fin { tiempo_segundos, precision, wpm } => {
            let ranking = state.marcar_terminado(room_id, usuario, tiempo_segundos, precision, wpm);
            EventoSala::JugadorTermino {
                usuario: String::from_str(usuario),
                tiempo_segundos,
                precision,
                wpm,
                posicion_ranking: ranking,
            }
        },
    }
}

/// Al salir: se quita al jugador (y la sala, si queda vacía) y se anuncia
/// su salida.
pub fn salir_de_sala(state: &mut AppState, room_id: &str, usuario: &str) -> (r: EventoSala)
    requires
        old(state).bien_formado(),
    ensures
        final(state).bien_formado(),
        final(state)@ == if old(state)@.contains_key(room_id@) {
            let sala = old(state)@[room_id@];
            let quedan = sala.jugadores.remove(usuario@);
            if quedan.dom().is_empty() {
                old(state)@.remove(room_id@)
            } else {
                old(state)@.insert(room_id@, VistaSala { jugadores: quedan, ..sala })
            }
        } else {
            old(state)@
        },
        r matches EventoSala::JugadorSalio { usuario: u } && u@ == usuario@,
{
    state.remover_jugador(room_id, usuario);
    EventoSala::JugadorSalio { usuario: String::from_str(usuario) }
}

} // verus!
