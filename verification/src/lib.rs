pub mod cube;
pub mod error;
pub mod facelet;
pub mod moves;
