//! Biblioteca de lecciones de programación y del servidor de carreras de
//! mecanografía: libros y préstamos, mascotas, tokens JWT, usuarios de la
//! API, salas de carrera y estadísticas, con sus contratos verificados.

// Lecciones
pub mod especie;
pub mod karen;
pub mod metodos_o;
pub mod michi;
pub mod paquetelibros;

// Servidor de carreras
pub mod auth;
pub mod carrera;
pub mod config;
pub mod errors;
pub mod middleware;
pub mod models;
pub mod routes;
pub mod services;
pub mod state;

// Piezas comunes
pub mod azar;
pub mod leyes_salas;
pub mod salas_compartidas;
pub mod texto;
pub mod tiempo;
