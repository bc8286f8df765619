pub mod firma;
pub mod jwt;
pub mod leyes;
pub mod jwt_service;
pub mod middleware;
pub mod routes;
