pub mod constants;
pub mod enums;
pub mod float_text;
pub mod named;
pub mod params;
pub mod text;
pub mod types;
