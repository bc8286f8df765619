use vstd::prelude::*;

verus! {

/// El párrafo que se envía al cliente para tipear.
#[derive(Debug)]
pub struct LeccionResponse {
    pub id: usize,
    pub texto: String,
    pub caracteres: usize,
    pub palabras: usize,
}

} // verus!
