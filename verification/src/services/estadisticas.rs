//! Lo que se calcula con enteros al registrar los resultados de una lección.
use vstd::prelude::*;
use vstd::string::StringExecFns;

use crate::models::estadisticas::Estadisticas;
use crate::tiempo::{duracion_segundos, segundos_entre};

verus! {

/// Servicio de estadísticas.
pub struct EstadisticasService;

/// Lo que se registra de una lección terminada, aparte de las métricas.
pub struct ResumenRegistro {
    /// Si se tipearon correctamente todos los caracteres de la lección.
    pub completada: bool,
    /// Segundos entre el inicio y el fin, si se conocen ambos.
    pub tiempo_segundos: Option<i64>,
}

/// Segundos entre inicio y fin, si se conocen ambos.
pub open spec fn tiempo_transcurrido(e: Estadisticas) -> Option<int> {
    match (e.tiempo_inicio, e.tiempo_fin) {
        (Some(inicio), Some(fin)) => Some(segundos_entre(inicio, fin)),
        _ => None,
    }
}

impl EstadisticasService {
    /// `tiempo_transcurrido` como `Option<i64>`.
    pub open spec fn tiempo_i64(e: Estadisticas) -> Option<i64> {
        match tiempo_transcurrido(e) {
            Some(s) => Some(s as i64),
            None => None,
        }
    }

    /// Segundos transcurridos entre inicio y fin, truncados hacia cero.
    pub fn calcular_tiempo_transcurrido(estadisticas: &Estadisticas) -> (r: Option<i64>)
        requires
            estadisticas.tiempos_validos(),
        ensures
            r == Self::tiempo_i64(*estadisticas),
            r matches Some(s) ==> tiempo_transcurrido(*estadisticas) == Some(s as int),
    {
        match (&estadisticas.tiempo_inicio, &estadisticas.tiempo_fin) {
            (Some(inicio), Some(fin)) => Some(duracion_segundos(*inicio, *fin)),
            _ => None,
        }
    }

    /// Valida un registro: hace falta la lección y que esté finalizada. Si lo
    /// está, dice si se completó y cuánto duró.
    pub fn resumen_registro(estadisticas: &Estadisticas) -> (r: Result<ResumenRegistro, String>)
        requires
            estadisticas.tiempos_validos(),
        ensures
            estadisticas.id_leccion is None ==> (r matches Err(m) && m@
                == "Identificacion de leccion ausente"@),
            estadisticas.id_leccion is Some && estadisticas.tiempo_fin is None ==> (r matches Err(
                m,
            ) && m@ == "La lección no ha sido finalizada"@),
            estadisticas.id_leccion is Some && estadisticas.tiempo_fin is Some ==> (r matches Ok(
                resumen,
            ) && resumen.completada == (estadisticas.caracteres_correctos
                == estadisticas.total_caracteres_leccion) && resumen.tiempo_segundos
                == EstadisticasService::tiempo_i64(*estadisticas)),
    {
        if estadisticas.id_leccion.is_none() {
            return Err(String::from_str("Identificacion de leccion ausente"));
        }
        if estadisticas.tiempo_fin.is_none() {
            return Err(String::from_str("La lección no ha sido finalizada"));
        }
        Ok(
            ResumenRegistro {
                completada: estadisticas.caracteres_correctos
                    == estadisticas.total_caracteres_leccion,
                tiempo_segundos: Self::calcular_tiempo_transcurrido(estadisticas),
            },
        )
    }
}

} // verus!
