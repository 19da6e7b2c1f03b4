//! Backend logic of a desktop music companion.
//!
//! The heart of the crate is a local relay: a listener accepts streaming
//! connections, and every accepted connection gets a router of its own that
//! republishes each inbound text or binary message on the application's event
//! bus and answers it with a fixed acknowledgment. The relay is written as a
//! set of state machines from state and event to next state and action: the
//! caller performs the actions (waiting on sockets, publishing, sending) and
//! reports what happened.
//!
//! Beside the relay stand the computations behind the companion's request
//! handlers: audio metadata with cover art, the lyrics lookup, and the plain
//! file reader.

pub mod error;
pub mod isolation;
pub mod listener;
pub mod lyrics;
pub mod message;
pub mod metadata;
pub mod router;
pub mod text_file;
pub mod trace;
