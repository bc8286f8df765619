//! Leyes de las salas y del tiempo de juego.
use vstd::prelude::*;

use crate::state::{con_fin, lugar_al_terminar, termino_otro, terminados_otros, EstadoJugador, VistaSala};
use crate::tiempo::{segundos_entre, Instante};

verus! {

/// Si ningún otro jugador terminó, quien termina por primera vez queda primero.
pub proof fn ley_primero_en_terminar(m: Map<Seq<char>, EstadoJugador>, usuario: Seq<char>)
    requires
        forall|k: Seq<char>| #[trigger] m.contains_key(k) && m[k].usuario@ != usuario ==> !m[k].terminado,
        m.contains_key(usuario) ==> m[usuario].lugar_ranking is None,
    ensures
        terminados_otros(m, usuario) == 0,
        lugar_al_terminar(m, usuario) == 1,
{
    assert(m.dom().filter(termino_otro(m, usuario)) =~= Set::<Seq<char>>::empty());
}

/// Terminar de nuevo no cambia la posición en el ranking: la que se anota al
/// terminar es la que se devuelve la vez siguiente, con cualquier tiempo,
/// precisión y velocidad.
pub proof fn ley_fin_repetido(
    m: Map<Seq<char>, EstadoJugador>,
    usuario: Seq<char>,
    tiempo_segundos: i64,
    precision: u64,
    wpm: u64,
    lugar: usize,
)
    requires
        m.contains_key(usuario),
        lugar == lugar_al_terminar(m, usuario),
    ensures
        lugar_al_terminar(
            m.insert(usuario, con_fin(m[usuario], tiempo_segundos, precision, wpm, lugar)),
            usuario,
        ) == lugar_al_terminar(m, usuario),
{
}

/// El lugar en el ranking nunca supera la cantidad de jugadores de la sala.
pub proof fn ley_ranking_acotado(m: Map<Seq<char>, EstadoJugador>, usuario: Seq<char>)
    requires
        m.dom().finite(),
        m.contains_key(usuario),
        m[usuario].usuario@ == usuario,
    ensures
        1 + terminados_otros(m, usuario) <= m.dom().len(),
{
    let p = termino_otro(m, usuario);
    let sin = m.dom().remove(usuario);
    sin.lemma_len_filter(p);
    assert(m.dom().filter(p) =~= sin.filter(p));
}

/// Un jugador que entra y sale de una sala donde no estaba la deja con los
/// mismos jugadores; y la sala se cierra sólo si estaba vacía.
pub proof fn ley_entrar_y_salir(sala: VistaSala, usuario: Seq<char>, j: EstadoJugador)
    requires
        !sala.jugadores.contains_key(usuario),
    ensures
        sala.jugadores.insert(usuario, j).remove(usuario) == sala.jugadores,
        sala.jugadores.insert(usuario, j).remove(usuario).dom().is_empty()
            == sala.jugadores.dom().is_empty(),
{
    assert(sala.jugadores.insert(usuario, j).remove(usuario) =~= sala.jugadores);
}

/// De un instante a sí mismo no pasa tiempo.
pub proof fn ley_duracion_nula(a: Instante)
    ensures
        segundos_entre(a, a) == 0,
{
}

/// La duración de `b` a `a` es la opuesta de la de `a` a `b`.
pub proof fn ley_duracion_opuesta(a: Instante, b: Instante)
    ensures
        segundos_entre(b, a) == -segundos_entre(a, b),
{
}

} // verus!
