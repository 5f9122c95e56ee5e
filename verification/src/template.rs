pub mod params;
pub mod parse;
pub mod render;
pub mod syntax;
