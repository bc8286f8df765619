use vstd::prelude::*;

verus! {

/// La especie de una mascota.
#[derive(Debug, Clone, Copy, PartialEq, Eq, Structural)]
pub enum Especie {
    Gato,
    Hamster,
}

} // verus!
