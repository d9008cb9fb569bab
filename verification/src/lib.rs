//! A local secret cache: the refresh decisions and the metadata lifecycle of
//! cached secrets, with the rules stated as contracts and proved.

pub mod cli;
pub mod engine;
pub mod error;
pub mod index;
pub mod model;
pub mod number;
pub mod source;
pub mod store;
pub mod text;
pub mod time;
