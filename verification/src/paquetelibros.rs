pub mod biblioteca;
pub mod libro;

pub use biblioteca::Biblioteca;
pub use libro::Libro;
pub mod leyes;
