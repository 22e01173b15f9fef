//! The daemon side of FUSE, the kernel's protocol for filesystems in user space.
//!
//! The kernel sends messages through `/dev/fuse`. A [`Fuse`] session turns them into [`Request`]s,
//! keeps those until they are taken, and says which messages have to be answered right away. Each
//! request has a method `reply`, which makes the message that answers it. Nothing in this library
//! touches a file descriptor: it works on the bytes that were read and makes the bytes that are to
//! be written, and every function states what it does with them.
//!
//! - [`wire`] and [`protocol`]: the structures of the protocol and their layout
//! - [`message`]: from the bytes of a message to the request in it
//! - [`requests`] and [`reply`]: the requests, and the messages that answer them
//! - [`session`]: the handshake, and the requests that wait
//! - [`mount`]: what mounting and unmounting hand to the system
//! - [`sys`]: types that requests and replies have in common
//!
//! What the kernel and the filesystem can rely on is stated in modules of its own:
//!
//! - [`offsets`]: where each field stands in the structures
//! - [`received`] and [`sent`]: what the bytes of a message mean, in both directions
//! - [`calls`], [`answers`] and [`course`]: what the functions do, from what they are given to what
//!   they give back

pub mod answers;
pub mod calls;
pub mod cast;
pub mod course;
pub mod cstring;
pub mod error;
mod layout;
pub mod message;
pub mod mount;
pub mod offsets;
pub mod protocol;
pub mod received;
pub mod reply;
pub mod requests;
pub mod sent;
pub mod session;
pub mod sys;
pub mod text;
pub mod util;
pub mod wire;

pub use crate::requests::{ReplyError, Request};
pub use crate::session::{Fuse, FuseSession, FuseSessionBuilder};
pub use crate::sys::{EntryParam, FattrFlags, ReplyBufState, ROOT_ID};
