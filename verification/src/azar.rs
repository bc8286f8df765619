//! Frontera con el generador aleatorio de `rand`.
use vstd::prelude::*;

verus! {

#[verifier::external_type_specification]
#[verifier::external_body]
pub struct ExThreadRng(rand::rngs::ThreadRng);

/// `rand::rng()`: el generador del hilo actual.
#[verifier::external_body]
pub(crate) fn generador() -> (g: rand::rngs::ThreadRng) {
    rand::rng()
}

/// `Rng::random_range(min..=max)`: un entero al azar entre los dos extremos,
/// incluidos. Cuál sale depende del azar; sólo se afirma que está en el rango.
/// Con el rango vacío `rand` entra en pánico, por eso se exige `min <= max`.
#[verifier::external_body]
pub(crate) fn entero_entre(g: &mut rand::rngs::ThreadRng, min: i64, max: i64) -> (r: i64)
    requires
        min <= max,
    ensures
        min <= r <= max,
{
    rand::Rng::random_range(g, min..=max)
}

} // verus!
