pub mod ready;
pub mod user;
pub mod welcomescreen_related;
