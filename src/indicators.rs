pub mod traits;
pub mod window;
