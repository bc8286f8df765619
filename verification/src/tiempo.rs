//! Instantes como valores planos y la duración entre ellos.
use vstd::prelude::*;

verus! {

/// Un instante UTC: segundos Unix y nanosegundos dentro del segundo.
#[derive(Debug, Clone, Copy, PartialEq, Eq, Structural)]
pub struct Instante {
    pub segundos: i64,
    pub nanos: u32,
}

/// Límite holgado del rango de fechas de `chrono` (unos ±262 000 años).
pub open spec fn limite_segundos() -> int {
    0x4000_0000_0000_0000
}

impl Instante {
    /// Los nanosegundos no completan un segundo y los segundos están en el
    /// rango de fechas representables.
    pub open spec fn valido(self) -> bool {
        &&& self.nanos < 1_000_000_000
        &&& -limite_segundos() < self.segundos < limite_segundos()
    }

    /// Si el instante es válido.
    pub fn es_valido(&self) -> (r: bool)
        ensures
            r == self.valido(),
    {
        self.nanos < 1_000_000_000 && -0x4000_0000_0000_0000 < self.segundos && self.segundos
            < 0x4000_0000_0000_0000
    }
}

/// Los segundos enteros de `fin - inicio`, truncados hacia cero: lo que da
/// `signed_duration_since(..).num_seconds()` en `chrono`.
pub open spec fn segundos_entre(inicio: Instante, fin: Instante) -> int {
    let total = (fin.segundos - inicio.segundos) * 1_000_000_000 + (fin.nanos - inicio.nanos);
    if total >= 0 {
        total / 1_000_000_000
    } else {
        -((-total) / 1_000_000_000)
    }
}

/// Los segundos enteros transcurridos de `inicio` a `fin`, truncados hacia cero.
pub fn duracion_segundos(inicio: Instante, fin: Instante) -> (r: i64)
    requires
        inicio.valido(),
        fin.valido(),
    ensures
        r == segundos_entre(inicio, fin),
{
    let mut segs: i64 = fin.segundos - inicio.segundos;
    let mut nanos: i64 = fin.nanos as i64 - inicio.nanos as i64;
    if nanos < 0 {
        segs = segs - 1;
        nanos = nanos + 1_000_000_000;
    }
    let r = if segs < 0 && nanos > 0 {
        segs + 1
    } else {
        segs
    };
    proof {
        let total = (fin.segundos - inicio.segundos) * 1_000_000_000 + (fin.nanos - inicio.nanos);
        assert(total == segs * 1_000_000_000 + nanos);
        assert(0 <= nanos < 1_000_000_000);
        if total >= 0 {
            assert(segs >= 0);
            assert(total / 1_000_000_000 == segs) by (nonlinear_arith)
                requires
                    total == segs * 1_000_000_000 + nanos,
                    0 <= nanos < 1_000_000_000,
                    segs >= 0,
            ;
        } else {
            assert(segs < 0);
            if nanos > 0 {
                assert((-total) / 1_000_000_000 == -(segs + 1)) by (nonlinear_arith)
                    requires
                        total == segs * 1_000_000_000 + nanos,
                        0 < nanos < 1_000_000_000,
                        segs < 0,
                ;
            } else {
                assert((-total) / 1_000_000_000 == -segs) by (nonlinear_arith)
                    requires
                        total == segs * 1_000_000_000,
                        segs < 0,
                ;
            }
        }
    }
    r
}

} // verus!
