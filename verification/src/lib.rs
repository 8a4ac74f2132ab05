pub mod decimal;
pub mod gna;
pub mod gna_api;
pub mod memory;
pub mod text;
pub mod ui;
