//! Settlement of one charging session: a payment split between a station's
//! operator, a royalty recipient and a reward paid in a second currency, with
//! the station's revenue counter advanced once every transfer has gone through.
pub mod session;
pub mod split;
