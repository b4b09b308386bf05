pub mod app;
pub mod calendar;
pub mod command;
pub mod config;
pub mod date;
pub mod habits;
pub mod ideas;
pub mod pet;
pub mod pomodoro;
pub mod recur;
pub mod stats;
pub mod subs;
pub mod text;
pub mod theme;
pub mod todos;
