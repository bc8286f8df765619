//! Estadísticas de una lección.
use vstd::prelude::*;

use crate::tiempo::Instante;

verus! {

/// Errores cometidos en una tecla.
#[derive(Debug, Clone, Copy)]
pub struct Errores {
    pub tecla: char,
    pub cantidad: u16,
}

/// Estadísticas de una lección.
#[derive(Debug)]
pub struct Estadisticas {
    /// La lección a la que corresponden, si se indicó.
    pub id_leccion: Option<u16>,
    pub tecla_actual: String,
    pub posicion_actual: u16,
    pub total_errores: u16,
    pub error_por_tecla: Vec<Errores>,
    pub total_caracteres_leccion: u16,
    pub caracteres_correctos: u16,
    pub tiempo_inicio: Option<Instante>,
    pub tiempo_fin: Option<Instante>,
}

impl Estadisticas {
    /// Los instantes que trae son válidos.
    pub open spec fn tiempos_validos(&self) -> bool {
        &&& self.tiempo_inicio matches Some(i) ==> i.valido()
        &&& self.tiempo_fin matches Some(f) ==> f.valido()
    }
}

} // verus!
