pub mod birds;
pub mod cats;
