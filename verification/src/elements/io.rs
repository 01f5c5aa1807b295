pub mod filesrc;
