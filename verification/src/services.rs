pub mod carrera;
pub mod estadisticas;
