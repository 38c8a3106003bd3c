//! Game logic of a small arcade game that pits a grid-bound snake against a
//! free-moving slayer: the snake's fixed-tick movement, the menu and pause
//! state stack, collision classification and scene bookkeeping. Rendering,
//! physics, audio and input polling stay with the engine around it.
pub mod collision;
pub mod grid;
pub mod menu;
pub mod scene;
pub mod slayer;
pub mod snake;
pub mod states;
