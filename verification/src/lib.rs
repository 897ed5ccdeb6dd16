pub mod action;
pub mod element;
pub mod frontier;
pub mod heuristic;
pub mod loaders;
pub mod measures;
pub mod model;
pub mod render;
pub mod scramble;
pub mod search_laws;
pub mod state_space;

pub use action::{Actionable, Actions};
pub use element::{CubeElement, TileColor};
pub use frontier::Frontier;
pub use heuristic::Heuristic;
pub use loaders::{CubeLoader, CubeTextLoader, LoadError};
pub use model::CubeModel;
pub use scramble::make_random_moves_model;
pub use state_space::{CubeState, StateSpace};
