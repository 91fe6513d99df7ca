pub mod action;
pub mod app;
pub mod callback;
pub mod config;
pub mod dispatch;
pub mod error;
pub mod input;
pub mod model;
pub mod nav;
pub mod props;
pub mod text;
pub mod uri;
