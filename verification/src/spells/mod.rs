pub mod data;
pub mod static_arc;
pub mod spell;
