//! A pomodoro timer: a clock engine whose state advances once per second
//! through work and break stages, shared between a driver and its callers,
//! together with the small pieces of screen logic and the log buffer around it.

pub mod pomodoro;
pub mod clock_laws;
pub mod logger;
pub mod input;
pub mod text;
pub mod screens;
