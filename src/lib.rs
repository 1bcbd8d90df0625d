#![allow(non_snake_case)]

pub mod vector;
pub mod triangle;
pub mod theorems;

pub use triangle::{NewTriangle, Triangle};
pub use vector::Vector;
