pub mod actor;
pub mod controller;
pub mod error;
pub mod protocol;
pub mod settings;
pub mod skeleton;
pub mod time;
pub mod waiter;
