pub mod app;
pub mod payload;
pub mod text;
pub mod translator;
