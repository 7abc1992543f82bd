pub mod api;
pub mod cas;
pub mod controller;
pub mod crd;
pub mod text;
pub mod ui;
