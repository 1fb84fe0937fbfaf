//! Decision logic of an investment wallet web service: sign-up and sign-in
//! rules, session cookies, the replies each request ends in, and the
//! refreshing of token prices from the DexScreener quote service.
//!
//! Everything that talks to the database, the network or the HTML templates
//! lives in the application around this library; it hands plain values in
//! and carries out the decisions that come back.

pub mod models;
pub mod replies;
pub mod auth;
pub mod prices;
