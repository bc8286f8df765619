//! Lecciones al azar para las carreras.
use vstd::prelude::*;
use vstd::string::StringExecFns;

use crate::azar::{entero_entre, generador};

verus! {

/// Una carrera con su texto.
#[derive(Debug)]
pub struct Carrera {
    pub texto_generado: String,
}

/// Las lecciones en español de las que se elige al azar.
pub open spec fn lecciones_esp() -> Seq<Seq<char>> {
    seq![
        "La tecnología avanza a pasos agigantados, transformando cada aspecto de nuestra vida cotidiana."@,
        "La inteligencia artificial y el aprendizaje automático están revolucionando industrias enteras."@,
        "Ofreciendo soluciones antes consideradas imposibles. Estas herramientas no solo optimizan tareas repetitivas"@,
        ", sino que también abren puertas a descubrimientos científicos."@,
        "El desarrollo sostenible se ha convertido en una prioridad global ante los crecientes desafíos ambientales."@,
        " La colaboración internacional y la innovación tecnológica son clave para encontrar soluciones."@,
        "La educación del siglo XXI requiere una transformación profunda para preparar a las nuevas generaciones en un mundo en constante cambio."@,
        "Las habilidades digitales y el pensamiento crítico son esenciales."@,
    ]
}

/// La lección en esa posición.
pub fn leccion_esp(indice: usize) -> (s: String)
    requires
        indice < 8,
    ensures
        s@ == lecciones_esp()[indice as int],
{
    match indice {
        0 => String::from_str("La tecnología avanza a pasos agigantados, transformando cada aspecto de nuestra vida cotidiana."),
        1 => String::from_str("La inteligencia artificial y el aprendizaje automático están revolucionando industrias enteras."),
        2 => String::from_str("Ofreciendo soluciones antes consideradas imposibles. Estas herramientas no solo optimizan tareas repetitivas"),
        3 => String::from_str(", sino que también abren puertas a descubrimientos científicos."),
        4 => String::from_str("El desarrollo sostenible se ha convertido en una prioridad global ante los crecientes desafíos ambientales."),
        5 => String::from_str(" La colaboración internacional y la innovación tecnológica son clave para encontrar soluciones."),
        6 => String::from_str("La educación del siglo XXI requiere una transformación profunda para preparar a las nuevas generaciones en un mundo en constante cambio."),
        _ => String::from_str("Las habilidades digitales y el pensamiento crítico son esenciales."),
    }
}

impl Carrera {
    /// Una de las lecciones en español, elegida al azar.
    pub fn leccion_aleatoria() -> (s: String)
        ensures
            exists|i: int| 0 <= i < 8 && s@ == #[trigger] lecciones_esp()[i],
    {
        let mut g = generador();
        let indice = entero_entre(&mut g, 0, 7);
        let s = leccion_esp(indice as usize);
        assert(s@ == lecciones_esp()[indice as int]);
        s
    }
}

} // verus!
