pub mod error;
pub mod model;
pub mod scores;
pub mod text;
pub mod variations;
