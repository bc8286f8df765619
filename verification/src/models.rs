pub mod carrera;
pub mod estadisticas;
pub mod users;
