//! Personas y sus mascotas.
use vstd::prelude::*;

use crate::michi::Mascota;

verus! {

/// Una persona con sus mascotas, en el orden en que las adoptó.
#[derive(Debug)]
pub struct Persona {
    pub nombre: String,
    pub edad: u32,
    pub mascotas: Vec<Mascota>,
}

impl Persona {
    /// Una persona sin mascotas.
    pub fn nueva(nombre: String, edad: u32) -> (p: Self)
        ensures
            p.nombre == nombre,
            p.edad == edad,
            p.mascotas@.len() == 0,
    {
        Self { nombre, edad, mascotas: Vec::new() }
    }

    /// Agrega una mascota al final.
    pub fn agregar_mascota(&mut self, mascota: Mascota)
        ensures
            final(self).mascotas@ == old(self).mascotas@.push(mascota),
            final(self).nombre == old(self).nombre,
            final(self).edad == old(self).edad,
    {
        self.mascotas.push(mascota);
    }

    /// Si tiene al menos una mascota.
    pub fn tiene_mascotas(&self) -> (r: bool)
        ensures
            r == (self.mascotas@.len() > 0),
    {
        !self.mascotas.is_empty()
    }

    /// Cuántas mascotas tiene.
    pub fn cantidad_mascotas(&self) -> (r: usize)
        ensures
            r == self.mascotas@.len(),
    {
        self.mascotas.len()
    }
}

} // verus!
