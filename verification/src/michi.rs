//! Mascotas.
use vstd::prelude::*;
use vstd::string::StringExecFns;

use crate::especie::Especie;
use crate::tiempo::Instante;

verus! {

/// Una mascota.
#[derive(Debug)]
pub struct Mascota {
    pub nombre: String,
    pub fecha_nacimiento: Instante,
    pub color: String,
    pub comida_favorita: String,
    pub especie: Especie,
    modificado: bool,
}

/// Los datos de una mascota como valores planos.
pub struct VistaMascota {
    pub nombre: Seq<char>,
    pub fecha_nacimiento: Instante,
    pub color: Seq<char>,
    pub comida_favorita: Seq<char>,
    pub especie: Especie,
    /// Si fue modificada desde que se registró.
    pub modificado: bool,
}

impl View for Mascota {
    type V = VistaMascota;

    closed spec fn view(&self) -> VistaMascota {
        VistaMascota {
            nombre: self.nombre@,
            fecha_nacimiento: self.fecha_nacimiento,
            color: self.color@,
            comida_favorita: self.comida_favorita@,
            especie: self.especie,
            modificado: self.modificado,
        }
    }
}

impl Mascota {
    /// Una mascota recién registrada, sin modificaciones.
    pub fn new(
        nombre: String,
        fecha: Instante,
        color: String,
        comida_favorita: String,
        especie: Especie,
    ) -> (m: Self)
        ensures
            m@ == (VistaMascota {
                nombre: nombre@,
                fecha_nacimiento: fecha,
                color: color@,
                comida_favorita: comida_favorita@,
                especie,
                modificado: false,
            }),
    {
        Self {
            nombre,
            fecha_nacimiento: fecha,
            color,
            comida_favorita,
            especie,
            modificado: false,
        }
    }

    /// La presentación de la mascota: "Hola soy <nombre>".
    pub fn tarjeta(&self) -> (s: String)
        ensures
            s@ == "Hola soy "@ + self@.nombre,
    {
        String::from_str("Hola soy ").concat(self.nombre.as_str())
    }

    /// Cambia la comida favorita y deja la mascota marcada como modificada.
    pub fn actualizar_comida_favorita(&mut self, nueva_comida: String)
        ensures
            final(self)@ == (VistaMascota {
                comida_favorita: nueva_comida@,
                modificado: true,
                ..old(self)@
            }),
    {
        self.comida_favorita = nueva_comida;
        self.modificado = true;
    }

    /// Si la mascota fue modificada desde que se registró.
    pub fn modificado(&self) -> (r: bool)
        ensures
            r == self@.modificado,
    {
        self.modificado
    }
}

} // verus!
