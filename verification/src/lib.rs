//! Friend-to-friend encrypted messaging: the protocol, the cryptographic
//! sessions, and the decisions of the relay server and of the client.
//!
//! Everything here is pure logic over plain values. Sockets, files, the
//! database and the terminal live in the program around this library.

pub mod text;
pub mod bytes;
pub mod protocol;
pub mod clock;
pub mod server;
pub mod crypto;
pub mod textmap;
pub mod codec;
pub mod client;
pub mod tor;
