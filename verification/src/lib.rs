pub mod text;
pub mod clock;
pub mod reader;
pub mod version;
pub mod comments;
pub mod api;
pub mod session;
pub mod seen;
pub mod shimmer;
pub mod app;
pub mod flows;
pub mod keys;
pub mod screen;
