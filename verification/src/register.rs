pub mod arg;
