//! The verified core of a remote-desktop session: the messages the two
//! endpoints exchange, the negotiation of desktop parameters, the choice of
//! monitor and graphics driver, and the connection and password-verification
//! handshake with its key exchange.
pub mod capture;
pub mod crypto;
pub mod dx;
pub mod error;
pub mod handlers;
pub mod message;
pub mod socket;

