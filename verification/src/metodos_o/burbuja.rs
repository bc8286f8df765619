//! Números al azar para ordenar.
use vstd::prelude::*;

use crate::azar::{entero_entre, generador};

verus! {

/// `cantidad` números al azar entre `min` y `max`, ambos incluidos.
pub fn generar_numeros(cantidad: usize, min: i32, max: i32) -> (r: Vec<i32>)
    requires
        cantidad == 0 || min <= max,
    ensures
        r@.len() == cantidad,
        forall|i: int| 0 <= i < r@.len() ==> min <= #[trigger] r@[i] <= max,
{
    let mut g = generador();
    let mut numeros: Vec<i32> = Vec::with_capacity(cantidad);
    let mut k: usize = 0;
    while k < cantidad
        invariant
            k <= cantidad,
            cantidad > 0 ==> min <= max,
            numeros@.len() == k,
            forall|i: int| 0 <= i < numeros@.len() ==> min <= #[trigger] numeros@[i] <= max,
        decreases cantidad - k,
    {
        let n = entero_entre(&mut g, min as i64, max as i64);
        numeros.push(n as i32);
        k += 1;
    }
    numeros
}

} // verus!
