//! A classroom quiz server: teachers host quizzes and slide shows, players join by a code.
//!
//! The server's parts are state machines that take a command and give back an answer and what is to
//! be done. Whoever runs them owns the sockets, the clock, the file and the network.
pub mod activity;
pub mod catalog;
pub mod chance;
pub mod directory;
pub mod game;
pub mod join;
pub mod json;
pub mod names;
pub mod player;
pub mod ranking;
pub mod refusal;
pub mod round;
pub mod socket;
pub mod start;
pub mod state;
pub mod teacher;
pub mod text;
pub mod wire;
