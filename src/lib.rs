//! Small programs on ownership, modules, traits and threads, gathered as one
//! verified library: arithmetic and greetings, a screen of drawable
//! components, a restaurant's breakfast order, the decisions of a number
//! guessing game, and the dispatcher of a fixed-size worker pool.
pub mod adder;
pub mod pool;
pub mod gui;
pub mod restaurant;
pub mod guessing_game;
