//! Las salas de carrera: quién juega en cada una y cómo avanza.
use vstd::prelude::*;

use vstd::string::StringExecFns;

use crate::models::carrera::LeccionResponse;
use crate::salas_compartidas::{
    canal_de, canal_nuevo, clonar_emisor, instante_actual, jugadores_en, jugadores_vacios, poner_jugador,
    poner_sala, quitar_jugador, quitar_sala, salas_en, salas_vacias, enumera, entradas_jugadores,
    cantidad_jugadores, tiene_cantidad,
};
use crate::services::carrera::leccion_de_respaldo;
use crate::texto::iguales;
use crate::tiempo::Instante;

verus! {

/// Lo que se anuncia a los jugadores de una sala. Los valores decimales
/// (precisión y palabras por minuto) viajan como los bits IEEE-754 de su `f64`.
#[derive(Debug)]
pub enum EventoSala {
    Progreso { usuario: String, posicion: u16, errores: u16, precision: u64, wpm: u64 },
    JugadorTermino {
        usuario: String,
        tiempo_segundos: i64,
        precision: u64,
        wpm: u64,
        posicion_ranking: usize,
    },
    JugadorUnido { usuario: String, total_jugadores: usize, estado_sala: Vec<EstadoJugador> },
    JugadorSalio { usuario: String },
    TextoCarrera { id: usize, texto: String, caracteres: usize, palabras: usize },
    Error { mensaje: String },
}

/// El estado de un jugador dentro de una sala. Precisión y palabras por
/// minuto son los bits IEEE-754 de su `f64`.
#[derive(Debug, Clone)]
pub struct EstadoJugador {
    pub usuario: String,
    pub posicion: u16,
    pub errores: u16,
    pub precision: u64,
    pub wpm: u64,
    pub terminado: bool,
    pub tiempo_segundos: Option<i64>,
    pub conectado_en: Instante,
    /// El lugar en el ranking que obtuvo al terminar por primera vez.
    pub lugar_ranking: Option<usize>,
}

/// Una sala activa: su canal, su lección y sus jugadores.
pub struct Sala {
    pub tx: tokio::sync::broadcast::Sender<String>,
    pub leccion_id: usize,
    pub texto: String,
    pub jugadores: dashmap::DashMap<String, EstadoJugador>,
}

} // verus!

verus! {

/// Los bits IEEE-754 de `100.0_f64`: la precisión de quien recién entra.
pub open spec fn bits_cien() -> u64 {
    0x4059_0000_0000_0000
}

/// `j` es el estado de un jugador que recién entra: sin avance ni errores,
/// precisión 100, 0 palabras por minuto, sin terminar, conectado en un
/// instante válido.
pub open spec fn jugador_nuevo(j: EstadoJugador, usuario: Seq<char>) -> bool {
    &&& j.usuario@ == usuario
    &&& j.posicion == 0
    &&& j.errores == 0
    &&& j.precision == bits_cien()
    &&& j.wpm == 0
    &&& !j.terminado
    &&& j.tiempo_segundos is None
    &&& j.conectado_en.valido()
    &&& j.lugar_ranking is None
}

impl EstadoJugador {
    /// El estado de un jugador que recién entra, conectado ahora.
    pub fn nuevo(usuario: String) -> (j: Self)
        ensures
            jugador_nuevo(j, usuario@),
    {
        Self {
            usuario,
            posicion: 0,
            errores: 0,
            precision: 0x4059_0000_0000_0000,
            wpm: 0,
            terminado: false,
            tiempo_segundos: None,
            conectado_en: instante_actual(),
            lugar_ranking: None,
        }
    }
}

/// Una sala como valores planos: su lección, sus jugadores y el canal al que
/// envía su emisor.
pub struct VistaSala {
    pub leccion_id: usize,
    pub texto: Seq<char>,
    pub jugadores: Map<Seq<char>, EstadoJugador>,
    pub canal: int,
}

pub open spec fn vista_sala(s: Sala) -> VistaSala {
    VistaSala {
        leccion_id: s.leccion_id,
        texto: s.texto@,
        jugadores: jugadores_en(s.jugadores),
        canal: canal_de(s.tx),
    }
}

/// Cada sala tiene una cantidad finita de jugadores.
pub open spec fn jugadores_finitos(salas: Map<Seq<char>, VistaSala>) -> bool {
    forall|sala: Seq<char>| #[trigger] salas.contains_key(sala) ==> salas[sala].jugadores.dom().finite()
}

/// Cada jugador está guardado bajo su propio nombre de usuario.
pub open spec fn jugadores_bien_guardados(salas: Map<Seq<char>, VistaSala>) -> bool {
    forall|sala: Seq<char>, k: Seq<char>|
        #[trigger] salas.contains_key(sala) && #[trigger] salas[sala].jugadores.contains_key(k)
            ==> salas[sala].jugadores[k].usuario@ == k
}

/// Lección y texto con que se abre una sala: la cargada o, si no se pudo,
/// la de respaldo.
pub open spec fn leccion_para_sala(leccion: Option<LeccionResponse>) -> (usize, Seq<char>) {
    match leccion {
        Some(l) => (l.id, l.texto@),
        None => (0, "No se pudo cargar la lección"@),
    }
}

/// Cuántos jugadores, aparte de `usuario`, ya terminaron.
pub open spec fn terminados_otros(m: Map<Seq<char>, EstadoJugador>, usuario: Seq<char>) -> nat {
    m.dom().filter(termino_otro(m, usuario)).len()
}

/// La clave es de un jugador distinto de `usuario` que ya terminó.
pub open spec fn termino_otro(m: Map<Seq<char>, EstadoJugador>, usuario: Seq<char>) -> spec_fn(
    Seq<char>,
) -> bool {
    |k: Seq<char>| m[k].terminado && m[k].usuario@ != usuario
}

/// El estado de un jugador que terminó con ese tiempo, precisión y velocidad,
/// en ese lugar del ranking.
pub open spec fn con_fin(
    j: EstadoJugador,
    tiempo_segundos: i64,
    precision: u64,
    wpm: u64,
    lugar: usize,
) -> EstadoJugador {
    EstadoJugador {
        terminado: true,
        tiempo_segundos: Some(tiempo_segundos),
        precision,
        wpm,
        lugar_ranking: Some(lugar),
        ..j
    }
}

/// El lugar en el ranking de `usuario` al terminar: el que ya obtuvo, si había
/// terminado antes; si no, uno más que los jugadores que terminaron antes que él.
pub open spec fn lugar_al_terminar(m: Map<Seq<char>, EstadoJugador>, usuario: Seq<char>) -> int {
    match if m.contains_key(usuario) { m[usuario].lugar_ranking } else { None } {
        Some(p) => p as int,
        None => 1int + terminados_otros(m, usuario),
    }
}

/// Las claves de las primeras `n` entradas.
pub open spec fn claves_hasta(s: Seq<(String, EstadoJugador)>, n: int) -> Set<Seq<char>>
    decreases n,
{
    if n <= 0 {
        Set::empty()
    } else {
        claves_hasta(s, n - 1).insert(s[n - 1].0@)
    }
}

/// Cuántas de las primeras `n` entradas son de otro jugador que ya terminó.
pub open spec fn cuenta_terminados(s: Seq<(String, EstadoJugador)>, usuario: Seq<char>, n: int) -> nat
    decreases n,
{
    if n <= 0 {
        0
    } else {
        cuenta_terminados(s, usuario, n - 1) + if s[n - 1].1.terminado && s[n - 1].1.usuario@
            != usuario {
            1nat
        } else {
            0nat
        }
    }
}

/// Contar sobre un recorrido de los jugadores da lo mismo que contar sobre
/// el conjunto de sus claves.
pub proof fn lema_cuenta_terminados(
    m: Map<Seq<char>, EstadoJugador>,
    s: Seq<(String, EstadoJugador)>,
    usuario: Seq<char>,
    n: int,
)
    requires
        enumera(m, s),
        0 <= n <= s.len(),
    ensures
        claves_hasta(s, n).finite(),
        claves_hasta(s, n).len() == n,
        cuenta_terminados(s, usuario, n) <= n,
        cuenta_terminados(s, usuario, n) == claves_hasta(s, n).filter(termino_otro(m, usuario)).len(),
        forall|k: Seq<char>|
            #[trigger] claves_hasta(s, n).contains(k) <==> exists|i: int|
                0 <= i < n && (#[trigger] s[i]).0@ == k,
    decreases n,
{
    let p = termino_otro(m, usuario);
    if n > 0 {
        lema_cuenta_terminados(m, s, usuario, n - 1);
        let c = claves_hasta(s, n - 1);
        let x = s[n - 1].0@;
        assert(!c.contains(x)) by {
            if c.contains(x) {
                let i = choose|i: int| 0 <= i < n - 1 && (#[trigger] s[i]).0@ == x;
                assert(s[i].0@ != s[n - 1].0@);
            }
        }
        c.lemma_len_filter(p);
        assert(m[x] == s[n - 1].1);
        if p(x) {
            assert(c.insert(x).filter(p) =~= c.filter(p).insert(x));
        } else {
            assert(c.insert(x).filter(p) =~= c.filter(p));
        }
        assert forall|k: Seq<char>|
            #[trigger] claves_hasta(s, n).contains(k) <==> exists|i: int|
                0 <= i < n && (#[trigger] s[i]).0@ == k by {
            if claves_hasta(s, n).contains(k) && k != x {
                assert(c.contains(k));
            }
            if exists|i: int| 0 <= i < n && (#[trigger] s[i]).0@ == k {
                let i = choose|i: int| 0 <= i < n && (#[trigger] s[i]).0@ == k;
                if i < n - 1 {
                    assert(c.contains(k));
                }
            }
        }
    } else {
        assert(claves_hasta(s, 0).filter(p) =~= Set::<Seq<char>>::empty());
    }
}

/// Un recorrido completo tiene exactamente las claves de la colección.
pub proof fn lema_recorrido_completo(m: Map<Seq<char>, EstadoJugador>, s: Seq<(String, EstadoJugador)>, usuario: Seq<char>)
    requires
        enumera(m, s),
    ensures
        cuenta_terminados(s, usuario, s.len() as int) == terminados_otros(m, usuario),
        m.dom().finite(),
        m.dom().len() == s.len(),
{
    lema_cuenta_terminados(m, s, usuario, s.len() as int);
    assert(claves_hasta(s, s.len() as int) =~= m.dom()) by {
        assert forall|k: Seq<char>| m.dom().contains(k) implies claves_hasta(s, s.len() as int).contains(k) by {
            assert(m.contains_key(k));
            let i = choose|i: int| 0 <= i < s.len() && (#[trigger] s[i]).0@ == k;
        }
        assert forall|k: Seq<char>| claves_hasta(s, s.len() as int).contains(k) implies m.dom().contains(k) by {
            let i = choose|i: int| 0 <= i < s.len() && (#[trigger] s[i]).0@ == k;
        }
    }
    let p = termino_otro(m, usuario);
    assert(claves_hasta(s, s.len() as int).filter(p) =~= m.dom().filter(p));
}

/// La lista tiene el estado de cada jugador guardado, una vez cada uno.
pub open spec fn lista_estados(m: Map<Seq<char>, EstadoJugador>, r: Seq<EstadoJugador>) -> bool {
    &&& m.dom().finite()
    &&& r.len() == m.dom().len()
    &&& forall|i: int| 0 <= i < r.len() ==> #[trigger] m.contains_key(r[i].usuario@) && m[r[i].usuario@] == r[i]
    &&& forall|i: int, j: int| 0 <= i < j < r.len() ==> (#[trigger] r[i]).usuario@ != (#[trigger] r[j]).usuario@
}

/// El estado de todas las salas activas.
pub struct AppState {
    salas: dashmap::DashMap<String, Sala>,
}

impl View for AppState {
    type V = Map<Seq<char>, VistaSala>;

    closed spec fn view(&self) -> Map<Seq<char>, VistaSala> {
        salas_en(self.salas).map_values(|s: Sala| vista_sala(s))
    }
}

impl AppState {
    /// Cada jugador está guardado bajo su nombre de usuario, y cada sala tiene
    /// una cantidad finita de jugadores.
    pub open spec fn bien_formado(&self) -> bool {
        jugadores_bien_guardados(self@) && jugadores_finitos(self@)
    }

    /// Sin salas.
    pub fn new() -> (s: Self)
        ensures
            s@ == Map::<Seq<char>, VistaSala>::empty(),
            s.bien_formado(),
    {
        let s = Self { salas: salas_vacias() };
        assert(s@ =~= Map::<Seq<char>, VistaSala>::empty());
        s
    }

    /// Saca una sala, le aplica `f` y la vuelve a guardar: la vista cambia
    /// sólo en esa sala.
    proof fn lema_reponer(
        antes: Map<Seq<char>, Sala>,
        despues: Map<Seq<char>, Sala>,
        k: Seq<char>,
        s: Sala,
    )
        requires
            despues == antes.remove(k).insert(k, s),
        ensures
            despues.map_values(|x: Sala| vista_sala(x)) == antes.map_values(
                |x: Sala| vista_sala(x),
            ).insert(k, vista_sala(s)),
    {
        assert(despues.map_values(|x: Sala| vista_sala(x)) =~= antes.map_values(
            |x: Sala| vista_sala(x),
        ).insert(k, vista_sala(s)));
    }

    /// El emisor de la sala, si existe. No cambia nada.
    pub fn sala_existente(&mut self, room_id: &str) -> (r: Option<
        tokio::sync::broadcast::Sender<String>,
    >)
        ensures
            final(self)@ == old(self)@,
            r is Some <==> old(self)@.contains_key(room_id@),
            r matches Some(tx) ==> canal_de(tx) == old(self)@[room_id@].canal,
    {
        match quitar_sala(&mut self.salas, room_id) {
            Some(sala) => {
                let tx = clonar_emisor(&sala.tx);
                let ghost antes = salas_en(old(self).salas);
                let ghost s = sala;
                poner_sala(&mut self.salas, room_id, sala);
                proof {
                    Self::lema_reponer(antes, salas_en(self.salas), room_id@, s);
                    assert(antes.insert(room_id@, s) =~= antes);
                    assert(self@ =~= old(self)@);
                }
                Some(tx)
            },
            None => {
                assert(salas_en(self.salas) =~= salas_en(old(self).salas));
                None
            },
        }
    }

    /// Un emisor del canal de la sala; si no existe, la abre con la lección
    /// cargada (o la de respaldo si no se pudo cargar), sin jugadores y con un
    /// canal nuevo.
    pub fn obtener_o_crear_sala(&mut self, room_id: &str, leccion: Option<LeccionResponse>) -> (r:
        tokio::sync::broadcast::Sender<String>)
        requires
            old(self).bien_formado(),
        ensures
            final(self).bien_formado(),
            old(self)@.contains_key(room_id@) ==> final(self)@ == old(self)@,
            !old(self)@.contains_key(room_id@) ==> final(self)@ == old(self)@.insert(
                room_id@,
                VistaSala {
                    leccion_id: leccion_para_sala(leccion).0,
                    texto: leccion_para_sala(leccion).1,
                    jugadores: Map::empty(),
                    canal: canal_de(r),
                },
            ),
            final(self)@.contains_key(room_id@) && canal_de(r) == final(self)@[room_id@].canal,
    {
        if let Some(tx) = self.sala_existente(room_id) {
            return tx;
        }
        let l = match leccion {
            Some(l) => l,
            None => leccion_de_respaldo(),
        };
        let tx = canal_nuevo();
        let sala = Sala {
            tx: clonar_emisor(&tx),
            leccion_id: l.id,
            texto: l.texto,
            jugadores: jugadores_vacios(),
        };
        let ghost antes = salas_en(self.salas);
        let ghost s = sala;
        poner_sala(&mut self.salas, room_id, sala);
        proof {
            assert(antes.remove(room_id@) =~= antes);
            Self::lema_reponer(antes, salas_en(self.salas), room_id@, s);
            assert(vista_sala(s).jugadores =~= Map::<Seq<char>, EstadoJugador>::empty());
        }
        tx
    }

    /// Registra a un jugador recién conectado en la sala, si existe; si ya
    /// estaba, vuelve a empezar.
    pub fn unir_jugador(&mut self, room_id: &str, usuario: &str)
        requires
            old(self).bien_formado(),
        ensures
            final(self).bien_formado(),
            !old(self)@.contains_key(room_id@) ==> final(self)@ == old(self)@,
            old(self)@.contains_key(room_id@) ==> exists|j: EstadoJugador|
                jugador_nuevo(j, usuario@) && #[trigger] final(self)@ == old(self)@.insert(
                    room_id@,
                    VistaSala {
                        jugadores: old(self)@[room_id@].jugadores.insert(usuario@, j),
                        ..old(self)@[room_id@]
                    },
                ),
    {
        match quitar_sala(&mut self.salas, room_id) {
            Some(mut sala) => {
                let ghost antes = salas_en(old(self).salas);
                let nuevo = EstadoJugador::nuevo(String::from_str(usuario));
                let ghost j = nuevo;
                poner_jugador(&mut sala.jugadores, usuario, nuevo);
                let ghost s = sala;
                poner_sala(&mut self.salas, room_id, sala);
                proof {
                    Self::lema_reponer(antes, salas_en(self.salas), room_id@, s);
                    assert(vista_sala(s) == VistaSala {
                        jugadores: old(self)@[room_id@].jugadores.insert(usuario@, j),
                        ..old(self)@[room_id@]
                    });
                }
            },
            None => {
                assert(salas_en(self.salas) =~= salas_en(old(self).salas));
            },
        }
    }

    /// Anota el avance de un jugador, si la sala y el jugador existen.
    pub fn actualizar_progreso(
        &mut self,
        room_id: &str,
        usuario: &str,
        posicion: u16,
        errores: u16,
        precision: u64,
        wpm: u64,
    )
        requires
            old(self).bien_formado(),
        ensures
            final(self).bien_formado(),
            final(self)@ == if old(self)@.contains_key(room_id@) && old(
                self,
            )@[room_id@].jugadores.contains_key(usuario@) {
                let sala = old(self)@[room_id@];
                let j = sala.jugadores[usuario@];
                old(self)@.insert(
                    room_id@,
                    VistaSala {
                        jugadores: sala.jugadores.insert(
                            usuario@,
                            EstadoJugador { posicion, errores, precision, wpm, ..j },
                        ),
                        ..sala
                    },
                )
            } else {
                old(self)@
            },
    {
        match quitar_sala(&mut self.salas, room_id) {
            Some(mut sala) => {
                let ghost antes = salas_en(old(self).salas);
                let ghost jug_antes = jugadores_en(sala.jugadores);
                match quitar_jugador(&mut sala.jugadores, usuario) {
                    Some(mut j) => {
                        j.posicion = posicion;
                        j.errores = errores;
                        j.precision = precision;
                        j.wpm = wpm;
                        poner_jugador(&mut sala.jugadores, usuario, j);
                        assert(jugadores_en(sala.jugadores) =~= jug_antes.insert(usuario@, j));
                    },
                    None => {
                        assert(jugadores_en(sala.jugadores) =~= jug_antes);
                    },
                }
                let ghost s = sala;
                poner_sala(&mut self.salas, room_id, sala);
                proof {
                    Self::lema_reponer(antes, salas_en(self.salas), room_id@, s);
                }
                assert(self@ =~= (if old(self)@.contains_key(room_id@) && old(
                    self,
                )@[room_id@].jugadores.contains_key(usuario@) {
                    let sala = old(self)@[room_id@];
                    let j = sala.jugadores[usuario@];
                    old(self)@.insert(
                        room_id@,
                        VistaSala {
                            jugadores: sala.jugadores.insert(
                                usuario@,
                                EstadoJugador { posicion, errores, precision, wpm, ..j },
                            ),
                            ..sala
                        },
                    )
                } else {
                    old(self)@
                }));
            },
            None => {
                assert(salas_en(self.salas) =~= salas_en(old(self).salas));
            },
        }
    }

    /// Marca a un jugador como terminado, si la sala y el jugador existen, y
    /// devuelve su posición en el ranking: la que ya obtuvo si había terminado
    /// antes; si no, uno más que los jugadores de la sala que terminaron antes
    /// que él, y esa posición le queda anotada. Sin sala, la posición es 1.
    pub fn marcar_terminado(
        &mut self,
        room_id: &str,
        usuario: &str,
        tiempo_segundos: i64,
        precision: u64,
        wpm: u64,
    ) -> (r: usize)
        requires
            old(self).bien_formado(),
        ensures
            final(self).bien_formado(),
            r == if old(self)@.contains_key(room_id@) {
                lugar_al_terminar(old(self)@[room_id@].jugadores, usuario@)
            } else {
                1
            },
            final(self)@ == if old(self)@.contains_key(room_id@) && old(
                self,
            )@[room_id@].jugadores.contains_key(usuario@) {
                let sala = old(self)@[room_id@];
                old(self)@.insert(
                    room_id@,
                    VistaSala {
                        jugadores: sala.jugadores.insert(
                            usuario@,
                            con_fin(sala.jugadores[usuario@], tiempo_segundos, precision, wpm, r),
                        ),
                        ..sala
                    },
                )
            } else {
                old(self)@
            },
    {
        match quitar_sala(&mut self.salas, room_id) {
            Some(mut sala) => {
                let ghost antes = salas_en(old(self).salas);
                let ghost m = jugadores_en(sala.jugadores);
                assert(old(self)@[room_id@] == vista_sala(sala));
                let entradas = entradas_jugadores(&sala.jugadores);
                let mut cuenta: usize = 0;
                let mut i: usize = 0;
                while i < entradas.len()
                    invariant
                        enumera(m, entradas@),
                        entradas@.len() <= isize::MAX,
                        i <= entradas@.len(),
                        cuenta == cuenta_terminados(entradas@, usuario@, i as int),
                    decreases entradas@.len() - i,
                {
                    proof { lema_cuenta_terminados(m, entradas@, usuario@, i as int); }
                    let estado = &entradas[i].1;
                    if estado.terminado && !iguales(estado.usuario.as_str(), usuario) {
                        cuenta += 1;
                    }
                    i += 1;
                }
                proof {
                    lema_cuenta_terminados(m, entradas@, usuario@, entradas@.len() as int);
                    lema_recorrido_completo(m, entradas@, usuario@);
                }
                let lugar_nuevo = cuenta + 1;
                let lugar = match quitar_jugador(&mut sala.jugadores, usuario) {
                    Some(mut j) => {
                        let lugar = match j.lugar_ranking {
                            Some(p) => p,
                            None => lugar_nuevo,
                        };
                        let ghost j0 = j;
                        j.terminado = true;
                        j.tiempo_segundos = Some(tiempo_segundos);
                        j.precision = precision;
                        j.wpm = wpm;
                        j.lugar_ranking = Some(lugar);
                        assert(j == con_fin(j0, tiempo_segundos, precision, wpm, lugar));
                        poner_jugador(&mut sala.jugadores, usuario, j);
                        assert(jugadores_en(sala.jugadores) =~= m.insert(usuario@, j));
                        lugar
                    },
                    None => {
                        assert(jugadores_en(sala.jugadores) =~= m);
                        lugar_nuevo
                    },
                };
                let ghost s = sala;
                poner_sala(&mut self.salas, room_id, sala);
                proof {
                    Self::lema_reponer(antes, salas_en(self.salas), room_id@, s);
                }
                assert(self@ =~= (if old(self)@.contains_key(room_id@) && old(
                    self,
                )@[room_id@].jugadores.contains_key(usuario@) {
                    let sala = old(self)@[room_id@];
                    old(self)@.insert(
                        room_id@,
                        VistaSala {
                            jugadores: sala.jugadores.insert(
                                usuario@,
                                con_fin(sala.jugadores[usuario@], tiempo_segundos, precision, wpm, lugar),
                            ),
                            ..sala
                        },
                    )
                } else {
                    old(self)@
                }));
                lugar
            },
            None => {
                assert(salas_en(self.salas) =~= salas_en(old(self).salas));
                1
            },
        }
    }

    /// Saca a un jugador de la sala, si existe; la sala se cierra exactamente
    /// cuando queda sin jugadores.
    pub fn remover_jugador(&mut self, room_id: &str, usuario: &str)
        requires
            old(self).bien_formado(),
        ensures
            final(self).bien_formado(),
            final(self)@ == if old(self)@.contains_key(room_id@) {
                let sala = old(self)@[room_id@];
                let quedan = sala.jugadores.remove(usuario@);
                if quedan.dom().is_empty() {
                    old(self)@.remove(room_id@)
                } else {
                    old(self)@.insert(room_id@, VistaSala { jugadores: quedan, ..sala })
                }
            } else {
                old(self)@
            },
    {
        match quitar_sala(&mut self.salas, room_id) {
            Some(mut sala) => {
                let ghost antes = salas_en(old(self).salas);
                assert(old(self)@[room_id@] == vista_sala(sala));
                let _ = quitar_jugador(&mut sala.jugadores, usuario);
                if cantidad_jugadores(&sala.jugadores) == 0 {
                    proof { jugadores_en(sala.jugadores).dom().lemma_len0_is_empty(); }
                    assert(self@ =~= old(self)@.remove(room_id@));
                } else {
                    assert(!jugadores_en(sala.jugadores).dom().is_empty()) by {
                        if jugadores_en(sala.jugadores).dom().is_empty() {
                            assert(jugadores_en(sala.jugadores).dom() == Set::<Seq<char>>::empty());
                            broadcast use vstd::set::axiom_set_empty_len;
                        }
                    }
                    let ghost s = sala;
                    poner_sala(&mut self.salas, room_id, sala);
                    proof {
                        Self::lema_reponer(antes, salas_en(self.salas), room_id@, s);
                        assert forall|r: Seq<char>, k: Seq<char>|
                            #[trigger] self@.contains_key(r) && #[trigger] self@[r].jugadores.contains_key(k)
                            implies self@[r].jugadores[k].usuario@ == k by {
                            if r != room_id@ {
                                assert(old(self)@.contains_key(r));
                                assert(old(self)@[r].jugadores.contains_key(k));
                            } else {
                                assert(old(self)@[room_id@].jugadores.contains_key(k));
                            }
                        }
                    }
                }
            },
            None => {
                assert(salas_en(self.salas) =~= salas_en(old(self).salas));
            },
        }
    }

    /// La lección y el texto de la sala, si existe. No cambia nada.
    pub fn texto_sala(&mut self, room_id: &str) -> (r: Option<(usize, String)>)
        ensures
            final(self)@ == old(self)@,
            r is Some <==> old(self)@.contains_key(room_id@),
            r matches Some(p) ==> p.0 == old(self)@[room_id@].leccion_id && p.1@ == old(
                self,
            )@[room_id@].texto,
    {
        match quitar_sala(&mut self.salas, room_id) {
            Some(sala) => {
                let r = (sala.leccion_id, sala.texto.clone());
                let ghost antes = salas_en(old(self).salas);
                let ghost s = sala;
                poner_sala(&mut self.salas, room_id, sala);
                proof {
                    Self::lema_reponer(antes, salas_en(self.salas), room_id@, s);
                    assert(antes.insert(room_id@, s) =~= antes);
                    assert(self@ =~= old(self)@);
                }
                Some(r)
            },
            None => {
                assert(salas_en(self.salas) =~= salas_en(old(self).salas));
                None
            },
        }
    }

    /// El estado de todos los jugadores de la sala, en un orden que no se
    /// fija: cada jugador una vez. Sin sala, ninguno. No cambia nada.
    pub fn estado_jugadores(&mut self, room_id: &str) -> (r: Vec<EstadoJugador>)
        requires
            old(self).bien_formado(),
        ensures
            final(self)@ == old(self)@,
            !old(self)@.contains_key(room_id@) ==> r@.len() == 0,
            old(self)@.contains_key(room_id@) ==> lista_estados(
                old(self)@[room_id@].jugadores,
                r@,
            ),
    {
        match quitar_sala(&mut self.salas, room_id) {
            Some(sala) => {
                let mut entradas = entradas_jugadores(&sala.jugadores);
                let ghost m = jugadores_en(sala.jugadores);
                let ghost original = entradas@;
                assert(old(self)@[room_id@] == vista_sala(sala));
                assert forall|k: Seq<char>| #[trigger] m.contains_key(k) implies m[k].usuario@ == k by {
                    assert(old(self)@.contains_key(room_id@));
                    assert(old(self)@[room_id@].jugadores.contains_key(k));
                }
                proof { lema_recorrido_completo(m, original, Seq::empty()); }
                let mut r: Vec<EstadoJugador> = Vec::new();
                while entradas.len() > 0
                    invariant
                        enumera(m, original),
                        forall|k: Seq<char>| #[trigger] m.contains_key(k) ==> m[k].usuario@ == k,
                        entradas@.len() + r@.len() == original.len(),
                        forall|i: int| 0 <= i < entradas@.len() ==> entradas@[i] == original[i],
                        forall|i: int|
                            0 <= i < r@.len() ==> #[trigger] r@[i] == original[original.len() - 1 - i].1,
                    decreases entradas@.len(),
                {
                    let (_, estado) = entradas.pop().unwrap();
                    r.push(estado);
                }
                proof {
                    assert forall|i: int| 0 <= i < r@.len() implies #[trigger] m.contains_key(
                        r@[i].usuario@,
                    ) && m[r@[i].usuario@] == r@[i] by {
                        let e = original[original.len() - 1 - i];
                        assert(m.contains_key(e.0@));
                    }
                    assert forall|i: int, j: int|
                        0 <= i < j < r@.len() implies (#[trigger] r@[i]).usuario@ != (
                        #[trigger] r@[j]).usuario@ by {
                        let a = original[original.len() - 1 - i];
                        let b = original[original.len() - 1 - j];
                        assert(m.contains_key(a.0@) && m.contains_key(b.0@));
                        assert(a.0@ != b.0@);
                    }
                }
                let ghost antes = salas_en(old(self).salas);
                let ghost s = sala;
                poner_sala(&mut self.salas, room_id, sala);
                proof {
                    Self::lema_reponer(antes, salas_en(self.salas), room_id@, s);
                    assert(antes.insert(room_id@, s) =~= antes);
                    assert(self@ =~= old(self)@);
                }
                r
            },
            None => {
                assert(salas_en(self.salas) =~= salas_en(old(self).salas));
                Vec::new()
            },
        }
    }

    /// Cuántos jugadores tiene la sala; sin sala, cero. No cambia nada.
    pub fn total_jugadores(&mut self, room_id: &str) -> (r: usize)
        ensures
            final(self)@ == old(self)@,
            old(self)@.contains_key(room_id@) ==> tiene_cantidad(
                old(self)@[room_id@].jugadores,
                r as nat,
            ),
            !old(self)@.contains_key(room_id@) ==> r == 0,
    {
        match quitar_sala(&mut self.salas, room_id) {
            Some(sala) => {
                let r = cantidad_jugadores(&sala.jugadores);
                let ghost antes = salas_en(old(self).salas);
                let ghost s = sala;
                poner_sala(&mut self.salas, room_id, sala);
                proof {
                    Self::lema_reponer(antes, salas_en(self.salas), room_id@, s);
                    assert(antes.insert(room_id@, s) =~= antes);
                    assert(self@ =~= old(self)@);
                }
                r
            },
            None => {
                assert(salas_en(self.salas) =~= salas_en(old(self).salas));
                0
            },
        }
    }
}

} // verus!
