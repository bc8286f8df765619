# tekla

Biblioteca verificada con Verus para dos programas: las lecciones de consola
(libros y préstamos, personas y mascotas, números al azar) y el servidor de
carreras de mecanografía (tokens JWT, login de la API, salas de carrera por
WebSocket, lecciones y estadísticas).

- `src/`: la lógica, con sus contratos y leyes probadas. Las llamadas a
  `jsonwebtoken`, `serde_json`, `chrono`, `uuid`, `rand`, `dashmap` y `tokio`
  pasan por funciones de confianza en `auth/firma.rs`, `azar.rs` y
  `salas_compartidas.rs`.
- `app/`: los programas: el servidor actix-web (por defecto), la API axum con
  SQLite y WebSocket, y el menú de consola (`lecciones`). Allí quedan la
  entrada y salida, la serialización y las métricas en coma flotante.
- `tests/`: pruebas de la biblioteca.
