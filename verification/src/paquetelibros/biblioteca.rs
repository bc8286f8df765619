use vstd::prelude::*;
use vstd::pervasive::VecAdditionalExecFns;
use vstd::string::StringExecFns;

use super::libro::{mensaje_ya_prestado, prestado, Libro};
use super::leyes::ley_disponibles_son_el_filtro;

verus! {

/// Una colección ordenada de libros: el orden es el de llegada.
#[derive(Debug, Clone)]
pub struct Biblioteca {
    libros: Vec<Libro>,
}

/// Posición del primer libro con ese título, si hay alguno.
pub open spec fn primer_indice(libros: Seq<Libro>, titulo: Seq<char>) -> Option<int>
    decreases libros.len(),
{
    if libros.len() == 0 {
        None
    } else {
        match primer_indice(libros.drop_last(), titulo) {
            Some(i) => Some(i),
            None => if libros.last().titulo@ == titulo {
                Some(libros.len() - 1)
            } else {
                None
            },
        }
    }
}

/// Los libros disponibles, en el orden en que están.
pub open spec fn disponibles(libros: Seq<Libro>) -> Seq<Libro>
    decreases libros.len(),
{
    if libros.len() == 0 {
        Seq::empty()
    } else if libros.last().disponible {
        disponibles(libros.drop_last()).push(libros.last())
    } else {
        disponibles(libros.drop_last())
    }
}

/// Mensaje con el que se rechaza prestar un título que no está en la biblioteca.
pub open spec fn mensaje_no_encontrado(titulo: Seq<char>) -> Seq<char> {
    "Libro '"@ + titulo + "' no encontrado"@
}

/// `primer_indice` es la primera posición cuyo título coincide.
pub proof fn lema_primer_indice(libros: Seq<Libro>, titulo: Seq<char>, i: int)
    requires
        0 <= i <= libros.len(),
        forall|j: int| 0 <= j < i ==> libros[j].titulo@ != titulo,
    ensures
        i == libros.len() ==> primer_indice(libros, titulo) is None,
        i < libros.len() && libros[i].titulo@ == titulo ==> primer_indice(libros, titulo) == Some(i),
    decreases libros.len(),
{
    if libros.len() > 0 {
        let pre = libros.drop_last();
        if i < libros.len() {
            if i < pre.len() {
                lema_primer_indice(pre, titulo, i);
            } else {
                lema_primer_indice(pre, titulo, pre.len() as int);
            }
        } else {
            lema_primer_indice(pre, titulo, pre.len() as int);
        }
    }
}

/// Lo que da `primer_indice` es siempre una posición válida con ese título.
pub proof fn lema_primer_indice_valido(libros: Seq<Libro>, titulo: Seq<char>)
    ensures
        primer_indice(libros, titulo) matches Some(i) ==> 0 <= i < libros.len()
            && libros[i].titulo@ == titulo
            && forall|j: int| 0 <= j < i ==> libros[j].titulo@ != titulo,
        primer_indice(libros, titulo) is None ==> forall|j: int|
            0 <= j < libros.len() ==> libros[j].titulo@ != titulo,
    decreases libros.len(),
{
    if libros.len() > 0 {
        let pre = libros.drop_last();
        lema_primer_indice_valido(pre, titulo);
        assert forall|j: int| 0 <= j < pre.len() implies pre[j] == libros[j] by {}
    }
}

impl View for Biblioteca {
    type V = Seq<Libro>;

    closed spec fn view(&self) -> Seq<Libro> {
        self.libros@
    }
}

impl Biblioteca {
    /// Una biblioteca vacía.
    pub fn new() -> (b: Self)
        ensures
            b@ == Seq::<Libro>::empty(),
    {
        Self { libros: Vec::new() }
    }

    /// Agrega un libro al final.
    pub fn agregar_libro(&mut self, libro: Libro)
        ensures
            final(self)@ == old(self)@.push(libro),
    {
        self.libros.push(libro);
    }

    /// El primer libro con ese título.
    pub fn buscar_por_titulo(&self, titulo: &str) -> (r: Option<&Libro>)
        ensures
            match primer_indice(self@, titulo@) {
                Some(i) => r == Some(&self@[i]),
                None => r is None,
            },
    {
        let t = String::from_str(titulo);
        let n = self.libros.len();
        let mut i: usize = 0;
        while i < n
            invariant
                n == self.libros@.len(),
                t@ == titulo@,
                0 <= i <= n,
                forall|j: int| 0 <= j < i ==> self.libros@[j].titulo@ != titulo@,
            decreases n - i,
        {
            if self.libros[i].titulo == t {
                proof { lema_primer_indice(self@, titulo@, i as int); }
                return Some(&self.libros[i]);
            }
            i += 1;
        }
        proof { lema_primer_indice(self@, titulo@, n as int); }
        None
    }

    /// Los libros disponibles, en orden: exactamente los libros de la
    /// biblioteca que no están prestados.
    pub fn libros_disponibles(&self) -> (r: Vec<&Libro>)
        ensures
            r@.len() == disponibles(self@).len(),
            forall|k: int| 0 <= k < r@.len() ==> *r@[k] == disponibles(self@)[k],
            r@.len() == self@.filter(|l: Libro| l.disponible).len(),
            forall|k: int|
                0 <= k < r@.len() ==> *r@[k] == self@.filter(|l: Libro| l.disponible)[k],
            forall|k: int| 0 <= k < r@.len() ==> (#[trigger] r@[k]).disponible,
    {
        proof { ley_disponibles_son_el_filtro(self@); }
        let mut r: Vec<&Libro> = Vec::new();
        let n = self.libros.len();
        let mut i: usize = 0;
        while i < n
            invariant
                n == self.libros@.len(),
                0 <= i <= n,
                r@.len() == disponibles(self@.take(i as int)).len(),
                forall|k: int| 0 <= k < r@.len() ==> *r@[k] == disponibles(self@.take(i as int))[k],
            decreases n - i,
        {
            assert(self@.take(i + 1).drop_last() =~= self@.take(i as int));
            if self.libros[i].disponible {
                r.push(&self.libros[i]);
            }
            i += 1;
        }
        assert(self@.take(n as int) =~= self@);
        r
    }

    /// Presta el primer libro con ese título.
    pub fn prestar_libro(&mut self, titulo: &str) -> (r: Result<(), String>)
        ensures
            match primer_indice(old(self)@, titulo@) {
                None => {
                    &&& r matches Err(m) && m@ == mensaje_no_encontrado(titulo@)
                    &&& final(self)@ == old(self)@
                },
                Some(i) => {
                    let l = old(self)@[i];
                    &&& (r is Ok <==> l.disponible)
                    &&& r matches Err(m) ==> m@ == mensaje_ya_prestado(l.titulo@)
                    &&& final(self)@ == old(self)@.update(i, prestado(l))
                },
            },
    {
        let t = String::from_str(titulo);
        let n = self.libros.len();
        let mut i: usize = 0;
        while i < n
            invariant
                n == self.libros@.len(),
                self.libros@ == old(self).libros@,
                t@ == titulo@,
                0 <= i <= n,
                forall|j: int| 0 <= j < i ==> self.libros@[j].titulo@ != titulo@,
            decreases n - i,
        {
            if self.libros[i].titulo == t {
                proof { lema_primer_indice(self@, titulo@, i as int); }
                let mut libro = Libro::new(String::new(), String::new(), 0);
                self.libros.set_and_swap(i, &mut libro);
                let r = libro.prestar();
                self.libros.set_and_swap(i, &mut libro);
                assert(self.libros@ =~= old(self)@.update(i as int, prestado(old(self)@[i as int])));
                return r;
            }
            i += 1;
        }
        proof { lema_primer_indice(self@, titulo@, n as int); }
        let mut m = String::from_str("Libro '");
        m.append(titulo);
        m.append("' no encontrado");
        Err(m)
    }

    /// Total de libros y cuántos están disponibles.
    pub fn estadisticas(&self) -> (r: (usize, usize))
        ensures
            r.0 == self@.len(),
            r.1 == disponibles(self@).len(),
    {
        let total = self.libros.len();
        let mut cuenta: usize = 0;
        let mut i: usize = 0;
        while i < total
            invariant
                total == self.libros@.len(),
                0 <= i <= total,
                cuenta == disponibles(self@.take(i as int)).len(),
                cuenta <= i,
            decreases total - i,
        {
            assert(self@.take(i + 1).drop_last() =~= self@.take(i as int));
            if self.libros[i].disponible {
                cuenta += 1;
            }
            i += 1;
        }
        assert(self@.take(total as int) =~= self@);
        (total, cuenta)
    }
}

} // verus!
