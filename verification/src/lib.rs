//! Verified core of the Levo portal: the decisions that the portal host,
//! its guests and its tools make, stated over plain values.
mod text;
pub mod weburl;
pub mod address;
pub mod colors;
pub mod canvas;
pub mod sandbox;
pub mod input;
pub mod particles;
pub mod codec;
pub mod navigation;
