//! What the request handlers decide, apart from the transport that carries it.

pub mod icons;
pub mod pages;
pub mod themes;
