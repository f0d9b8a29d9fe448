pub mod direction;
pub mod fruit;
pub mod game;
pub mod grid;
pub mod snake;
