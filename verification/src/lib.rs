//! Pull-based adapters that turn a readiness-notified, non-blocking socket
//! into a lazy sequence of received messages, each held in a fixed-capacity
//! buffer drawn from a pool.
//!
//! An adapter never touches the socket itself. Its caller asks the socket
//! whether it is readable and tells the adapter; the adapter answers with
//! the poll's result or with a buffer; the caller receives once into that
//! buffer and hands it back with what the receive reported; the adapter
//! gives the poll's result.

pub mod buffer;
pub mod error;
pub mod poll;
pub mod stream_tcp;
pub mod stream_udp;

pub use crate::buffer::{Buffer, BufferPool, VecBuffer, VecBufferPool};
pub use crate::error::{AllocationError, IoError, IoErrorKind, PollError};
pub use crate::poll::{PollResult, PollStep};
pub use crate::stream_tcp::TcpStream;
pub use crate::stream_udp::UdpStream;
