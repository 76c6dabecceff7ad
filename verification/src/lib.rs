pub mod agent;
pub mod config;
pub mod models;
pub mod paths;
pub mod presets;
pub mod protocol;
pub mod reasoning;
pub mod store;
pub mod text;
pub mod translate;
pub mod turn;
