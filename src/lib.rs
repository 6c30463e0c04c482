pub mod random;
pub mod lane;
pub mod rows;
pub mod grid;
pub mod history;
pub mod hedge;
pub mod obstacles;
pub mod footing;
pub mod game;
