pub mod engine;
pub mod point;
pub mod rectangle;
pub mod routing;
pub mod simulation_engine;
