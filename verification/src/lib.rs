//! prq: the model and decisions behind a terminal browser of open pull requests.

pub mod text;
pub mod cli;
pub mod clock;
pub mod gh;
pub mod model;
pub mod app;
pub mod ui;
