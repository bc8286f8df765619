//! El banco de párrafos de las lecciones y cómo se guardan y se leen.
use vstd::prelude::*;
use vstd::string::StringExecFns;

use crate::models::carrera::LeccionResponse;
use crate::texto::{contar_palabras, palabras};

verus! {

/// El banco de párrafos para las lecciones de tipeo.
pub open spec fn parrafos() -> Seq<Seq<char>> {
    seq![
        "La programación es el arte de decirle a otra persona lo que quieres que haga la computadora."@,
        "Rust es un lenguaje de programación enfocado en seguridad, velocidad y concurrencia sin necesidad de un recolector de basura."@,
        "El código limpio siempre parece que fue escrito por alguien a quien le importa lo que hace."@,
        "La simplicidad es la sofisticación máxima en el diseño de software moderno."@,
        "Aprender a programar es aprender a pensar de una manera completamente nueva y estructurada."@,
        "Todo programa tiene al menos un error y puede ser reducido en una línea. Por lo tanto, todo programa puede ser reducido a un error."@,
        "El mejor código es el que no necesita comentarios para ser entendido por cualquier desarrollador."@,
        "La experiencia es el nombre que la gente le da a sus errores cuando programa por primera vez."@,
    ]
}

/// Si hay que sembrar el banco de lecciones: sólo cuando la tabla no tiene
/// ninguna fila.
pub fn debe_sembrar(filas_existentes: i64) -> (r: bool)
    ensures
        r == (filas_existentes == 0),
{
    filas_existentes == 0
}

/// El párrafo en esa posición del banco.
pub fn parrafo(indice: usize) -> (s: String)
    requires
        indice < 8,
    ensures
        s@ == parrafos()[indice as int],
{
    match indice {
        0 => String::from_str("La programación es el arte de decirle a otra persona lo que quieres que haga la computadora."),
        1 => String::from_str("Rust es un lenguaje de programación enfocado en seguridad, velocidad y concurrencia sin necesidad de un recolector de basura."),
        2 => String::from_str("El código limpio siempre parece que fue escrito por alguien a quien le importa lo que hace."),
        3 => String::from_str("La simplicidad es la sofisticación máxima en el diseño de software moderno."),
        4 => String::from_str("Aprender a programar es aprender a pensar de una manera completamente nueva y estructurada."),
        5 => String::from_str("Todo programa tiene al menos un error y puede ser reducido en una línea. Por lo tanto, todo programa puede ser reducido a un error."),
        6 => String::from_str("El mejor código es el que no necesita comentarios para ser entendido por cualquier desarrollador."),
        _ => String::from_str("La experiencia es el nombre que la gente le da a sus errores cuando programa por primera vez."),
    }
}

/// Una fila de la tabla de lecciones: texto, caracteres y palabras.
pub struct FilaLeccion {
    pub texto: String,
    pub caracteres: usize,
    pub palabras: usize,
}

/// Las filas con que se siembra la tabla de lecciones vacía: cada párrafo
/// del banco, en orden, con su número de caracteres y de palabras.
pub fn filas_semilla() -> (r: Vec<FilaLeccion>)
    ensures
        r@.len() == parrafos().len(),
        forall|i: int|
            0 <= i < r@.len() ==> {
                &&& (#[trigger] r@[i]).texto@ == parrafos()[i]
                &&& r@[i].caracteres == parrafos()[i].len()
                &&& r@[i].palabras == palabras(parrafos()[i])
            },
{
    let mut filas: Vec<FilaLeccion> = Vec::new();
    let mut i: usize = 0;
    while i < 8
        invariant
            i <= 8,
            filas@.len() == i,
            forall|k: int|
                0 <= k < i ==> {
                    &&& (#[trigger] filas@[k]).texto@ == parrafos()[k]
                    &&& filas@[k].caracteres == parrafos()[k].len()
                    &&& filas@[k].palabras == palabras(parrafos()[k])
                },
        decreases 8 - i,
    {
        let texto = parrafo(i);
        let caracteres = texto.as_str().unicode_len();
        let cuenta = contar_palabras(texto.as_str());
        filas.push(FilaLeccion { texto, caracteres, palabras: cuenta });
        i += 1;
    }
    filas
}

/// La lección que se responde a partir de una fila leída de la tabla; los
/// enteros de la base se convierten con `as usize`.
pub fn leccion_desde_fila(id: i64, texto: String, caracteres: i64, palabras: i64) -> (r: LeccionResponse)
    ensures
        r.id == id as usize,
        r.texto == texto,
        r.caracteres == caracteres as usize,
        r.palabras == palabras as usize,
{
    LeccionResponse {
        id: id as usize,
        texto,
        caracteres: caracteres as usize,
        palabras: palabras as usize,
    }
}

/// La lección con que se abre una sala cuando no se pudo leer una de la base.
pub fn leccion_de_respaldo() -> (r: LeccionResponse)
    ensures
        r.id == 0,
        r.texto@ == "No se pudo cargar la lección"@,
        r.caracteres == 0,
        r.palabras == 0,
{
    LeccionResponse {
        id: 0,
        texto: String::from_str("No se pudo cargar la lección"),
        caracteres: 0,
        palabras: 0,
    }
}

} // verus!
