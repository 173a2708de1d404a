//! The decisions of a WebSocket server, apart from its input and output.
//!
//! - [`session`]: the life of one connection, with its pings and pongs, its handlers and its end.
//! - [`server`]: what is done for connections, disconnections and calls.
//! - [`acceptor`]: the loop that accepts connections.
//! - [`socket`]: messages and close frames.
//! - [`tungstenite`]: the same, as the crate `tungstenite` has them.
//! - [`request`]: the request that opens a connection.
//! - [`clock`]: the timestamps that pings carry.
//! - [`config`]: the settings of a server.
//!
//! Nothing here waits, sends or receives: a program performs the actions that it is told, and
//! tells in turn what has happened.
pub mod acceptor;
pub mod clock;
pub mod config;
pub mod request;
pub mod server;
pub mod session;
pub mod socket;
pub mod tungstenite;

pub use server::ServerActor;
pub use session::{SessionActor, SessionExt};
pub use socket::{CloseCode, CloseFrame, Message};
