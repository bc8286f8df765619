pub mod burbuja;
