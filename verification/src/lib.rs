//! Sans-I/O core of a chat bot that signs in to the PureGym API on behalf of
//! an authorised chat, fetches the member's entry code and renders it as a QR
//! image.
//!
//! The library never touches the network. It builds the requests, decides what
//! each reply means and says what is to be sent next; a driver performs the
//! calls and hands the outcomes back.

pub mod api;
pub mod bot_lib;
pub mod form;
pub mod http;
pub mod json;
pub mod qr;
pub mod trace;
