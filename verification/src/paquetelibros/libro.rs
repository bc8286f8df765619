use vstd::prelude::*;
use vstd::string::StringExecFns;

verus! {

/// Un libro de la biblioteca.
#[derive(Debug, Clone)]
pub struct Libro {
    pub titulo: String,
    pub autor: String,
    pub year_publicacion: u32,
    pub disponible: bool,
}

/// Mensaje con el que se rechaza prestar un libro que ya está prestado.
pub open spec fn mensaje_ya_prestado(titulo: Seq<char>) -> Seq<char> {
    "'"@ + titulo + "' ya está prestado"@
}

/// El mismo libro, prestado.
pub open spec fn prestado(l: Libro) -> Libro {
    Libro { disponible: false, ..l }
}

/// El mismo libro, disponible.
pub open spec fn devuelto(l: Libro) -> Libro {
    Libro { disponible: true, ..l }
}

impl Libro {
    /// Un libro nuevo, disponible para préstamo.
    pub fn new(titulo: String, autor: String, year_publicacion: u32) -> (libro: Self)
        ensures
            libro.titulo == titulo,
            libro.autor == autor,
            libro.year_publicacion == year_publicacion,
            libro.disponible,
    {
        Self { titulo, autor, year_publicacion, disponible: true }
    }

    pub fn titulo(&self) -> (t: &str)
        ensures
            t@ == self.titulo@,
    {
        self.titulo.as_str()
    }

    pub fn disponible(&self) -> (d: bool)
        ensures
            d == self.disponible,
    {
        self.disponible
    }

    /// Presta el libro: falla si ya estaba prestado, y entonces no cambia nada.
    pub fn prestar(&mut self) -> (r: Result<(), String>)
        ensures
            old(self).disponible <==> r is Ok,
            r matches Err(m) ==> m@ == mensaje_ya_prestado(old(self).titulo@),
            *final(self) == prestado(*old(self)),
    {
        if !self.disponible {
            let mut m = String::from_str("'");
            m.append(self.titulo.as_str());
            m.append("' ya está prestado");
            return Err(m);
        }
        self.disponible = false;
        Ok(())
    }

    /// Devuelve el libro: queda disponible.
    pub fn devolver(&mut self)
        ensures
            *final(self) == devuelto(*old(self)),
    {
        self.disponible = true;
    }
}

} // verus!

verus! {

/// Reemplaza cada aparición de `::`, de izquierda a derecha y sin solaparse, por `/`.
pub open spec fn reemplazar_separadores(s: Seq<char>) -> Seq<char>
    decreases s.len(),
{
    if s.len() == 0 {
        Seq::empty()
    } else if s.len() >= 2 && s[0] == ':' && s[1] == ':' {
        seq!['/'] + reemplazar_separadores(s.skip(2))
    } else {
        seq![s[0]] + reemplazar_separadores(s.skip(1))
    }
}

/// La ruta de un módulo sin el prefijo `crate::`, si lo tiene.
pub open spec fn sin_prefijo_crate(s: Seq<char>) -> Seq<char> {
    if s.len() >= 7 && s.take(7) == "crate::"@ {
        s.skip(7)
    } else {
        s
    }
}

/// La ruta de directorios, relativa a `src`, que corresponde a una ruta de módulo:
/// sin el prefijo `crate::` y con `/` en lugar de `::`.
pub fn ruta_relativa_de_modulo(ruta_modulo: &str) -> (r: String)
    ensures
        r@ == reemplazar_separadores(sin_prefijo_crate(ruta_modulo@)),
{
    let n = ruta_modulo.unicode_len();
    let prefijo = "crate::";
    proof { reveal_strlit("crate::"); }
    let mut tiene_prefijo = n >= 7;
    let mut k: usize = 0;
    while k < 7 && tiene_prefijo
        invariant
            n == ruta_modulo@.len(),
            prefijo@ == "crate::"@,
            prefijo@.len() == 7,
            k <= 7,
            tiene_prefijo ==> n >= 7 && forall|j: int| 0 <= j < k ==> ruta_modulo@[j] == prefijo@[j],
            !tiene_prefijo ==> !(n >= 7 && ruta_modulo@.take(7) == "crate::"@),
        decreases 7 - k,
    {
        if ruta_modulo.get_char(k) != prefijo.get_char(k) {
            tiene_prefijo = false;
        }
        k += 1;
    }
    if tiene_prefijo {
        assert(ruta_modulo@.take(7) =~= "crate::"@);
    }
    let resto: &str = if tiene_prefijo { ruta_modulo.substring_char(7, n) } else { ruta_modulo };
    assert(resto@ == sin_prefijo_crate(ruta_modulo@));
    let m = resto.unicode_len();
    let mut r = String::new();
    let mut i: usize = 0;
    assert(resto@.skip(0) =~= resto@);
    assert(r@ + reemplazar_separadores(resto@) =~= reemplazar_separadores(resto@));
    while i < m
        invariant
            m == resto@.len(),
            i <= m,
            r@ + reemplazar_separadores(resto@.skip(i as int)) == reemplazar_separadores(resto@),
        decreases m - i,
    {
        let ghost cola = resto@.skip(i as int);
        assert(cola.len() > 0);
        if i + 1 < m && resto.get_char(i) == ':' && resto.get_char(i + 1) == ':' {
            assert(cola.skip(2) =~= resto@.skip(i + 2));
            r.append("/");
            proof { reveal_strlit("/"); }
            assert(r@ + reemplazar_separadores(resto@.skip(i + 2)) =~= reemplazar_separadores(resto@));
            i += 2;
        } else {
            assert(cola.skip(1) =~= resto@.skip(i + 1));
            let c = resto.substring_char(i, i + 1);
            r.append(c);
            assert(c@ =~= seq![cola[0]]);
            assert(r@ + reemplazar_separadores(resto@.skip(i + 1)) =~= reemplazar_separadores(resto@));
            i += 1;
        }
    }
    assert(resto@.skip(m as int) =~= Seq::<char>::empty());
    r
}

} // verus!
