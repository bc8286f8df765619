use vstd::prelude::*;

use super::biblioteca::{disponibles, primer_indice};
use super::libro::{devuelto, prestado, Libro};

verus! {

/// Prestar un libro disponible y devolverlo lo deja como estaba.
pub proof fn ley_prestar_devolver(libro: Libro)
    requires
        libro.disponible,
    ensures
        devuelto(prestado(libro)) == libro,
{
}

/// Un libro prestado ya no se puede volver a prestar.
pub proof fn ley_prestado_no_disponible(libro: Libro)
    ensures
        !prestado(libro).disponible,
        prestado(prestado(libro)) == prestado(libro),
{
}

/// Nunca hay más libros disponibles que libros.
pub proof fn ley_disponibles_acotados(libros: Seq<Libro>)
    ensures
        disponibles(libros).len() <= libros.len(),
    decreases libros.len(),
{
    if libros.len() > 0 {
        ley_disponibles_acotados(libros.drop_last());
    }
}

/// Prestar un libro disponible deja exactamente un libro disponible menos.
pub proof fn ley_prestar_resta_uno(libros: Seq<Libro>, i: int)
    requires
        0 <= i < libros.len(),
        libros[i].disponible,
    ensures
        disponibles(libros.update(i, prestado(libros[i]))).len()
            + 1 == disponibles(libros).len(),
    decreases libros.len(),
{
    let nuevo = libros.update(i, prestado(libros[i]));
    if i == libros.len() - 1 {
        assert(nuevo.drop_last() =~= libros.drop_last());
    } else {
        ley_prestar_resta_uno(libros.drop_last(), i);
        assert(nuevo.drop_last() =~= libros.drop_last().update(i, prestado(libros[i])));
    }
}

/// Tras agregar un libro, buscar su título da el primer libro que ya lo tenía,
/// o el recién agregado si ninguno lo tenía.
pub proof fn ley_buscar_tras_agregar(libros: Seq<Libro>, libro: Libro)
    ensures
        primer_indice(libros.push(libro), libro.titulo@) == match primer_indice(
            libros,
            libro.titulo@,
        ) {
            Some(i) => Some(i),
            None => Some(libros.len() as int),
        },
{
    assert(libros.push(libro).drop_last() =~= libros);
}

/// Agregar un libro no cambia lo que se encuentra con otro título.
pub proof fn ley_agregar_no_afecta_otros(libros: Seq<Libro>, libro: Libro, titulo: Seq<char>)
    requires
        libro.titulo@ != titulo,
    ensures
        primer_indice(libros.push(libro), titulo) == primer_indice(libros, titulo),
{
    assert(libros.push(libro).drop_last() =~= libros);
}

} // verus!

verus! {

/// Los libros disponibles son exactamente los libros de la biblioteca que no
/// están prestados, en el orden de la biblioteca: la lista es el filtro de los
/// libros por su indicador `disponible`; cada libro listado está disponible y
/// es de la biblioteca, y ningún libro disponible queda afuera.
pub proof fn ley_disponibles_son_el_filtro(libros: Seq<Libro>)
    ensures
        disponibles(libros) == libros.filter(|l: Libro| l.disponible),
        forall|k: int|
            0 <= k < disponibles(libros).len() ==> (#[trigger] disponibles(libros)[k]).disponible
                && libros.contains(disponibles(libros)[k]),
        forall|i: int|
            0 <= i < libros.len() && (#[trigger] libros[i]).disponible ==> disponibles(
                libros,
            ).contains(libros[i]),
    decreases libros.len(),
{
    reveal(Seq::filter);
    if libros.len() > 0 {
        let previos = libros.drop_last();
        ley_disponibles_son_el_filtro(previos);
        let d = disponibles(previos);
        assert forall|k: int| 0 <= k < disponibles(libros).len() implies (#[trigger] disponibles(
            libros,
        )[k]).disponible && libros.contains(disponibles(libros)[k]) by {
            if k < d.len() {
                assert(disponibles(libros)[k] == d[k]);
                let j = choose|j: int| 0 <= j < previos.len() && previos[j] == d[k];
                assert(libros[j] == d[k]);
            } else {
                assert(disponibles(libros)[k] == libros.last());
                assert(libros[libros.len() - 1] == libros.last());
            }
        }
        assert forall|i: int| 0 <= i < libros.len() && (#[trigger] libros[i]).disponible implies disponibles(
            libros,
        ).contains(libros[i]) by {
            if i < libros.len() - 1 {
                assert(previos[i] == libros[i]);
                assert(d.contains(libros[i]));
                let k = choose|k: int| 0 <= k < d.len() && d[k] == libros[i];
                assert(disponibles(libros)[k] == d[k]);
            } else {
                assert(disponibles(libros)[d.len() as int] == libros[i]);
            }
        }
    }
}

} // verus!
