//! Session identity for a small web site.
//!
//! Every visitor, signed in or not, carries a signed, stateless token in a
//! cookie. This crate holds what is decided about that token: how it is
//! minted and decoded ([`token`]), how a request is classified by its cookie
//! ([`middleware`]), when a token is rotated and what a theme read or write
//! comes to ([`routes`]). The key under which a visitor's preferences are
//! stored is derived from the token's subject and outlives every rotation.
//!
//! The functions that end in `_at` take the time, and where one is needed a
//! fresh identifier, as arguments, and say exactly what they return. Their
//! namesakes without the ending read the clock and draw the identifier
//! themselves. What is taken on trust from other crates stands in
//! [`outside`], and nowhere else.

pub mod database;
pub mod middleware;
pub mod outside;
pub mod routes;
pub mod text;
pub mod token;
