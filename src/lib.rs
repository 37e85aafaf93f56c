pub mod parameters;
pub mod particle;
pub mod persistence;
pub mod simulation;
pub mod sweep;
