#![allow(non_camel_case_types)]

pub mod bytes;
pub mod closure;
pub mod codec;
pub mod handle;
pub mod keyexpr;
pub mod laws;
pub mod liveliness;
pub mod log;
pub mod matching;
pub mod meta;
pub mod platform;
pub mod publisher;
pub mod put;
pub mod qos;
pub mod querier;
pub mod query;
pub mod result;
pub mod sample;
pub mod scout;
pub mod serde;
pub mod session;
pub mod shm;
pub mod slice;
pub mod string;
pub mod text;
