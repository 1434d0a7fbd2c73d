//! Safe, verified bindings to a message transport: contexts, sockets,
//! messages, typed socket options, structured errors and polling.

pub mod codec;
pub mod consts;
pub mod error;
pub mod message;
pub mod poll;
pub mod reply;
pub mod socket;

pub use consts::{
    Constants, SocketType, DONTWAIT, POLLERR, POLLIN, POLLOUT, SNDMORE,
};
pub use error::{errno_to_error, is_known_errno, Error};
pub use message::Message;
pub use poll::PollItem;
pub use reply::{check_status, HandleReply, OptionReply, RecvReply, Status};
pub use socket::{init, Context, Socket};
