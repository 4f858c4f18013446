pub mod cats;
