//! A fixed-capacity, inline string with a wire form that is interchangeable
//! with that of an ordinary growable string: a four-byte length followed by the
//! content bytes.
//!
//! - [`fast_string`]: the container, its mutation and its conversions to and
//!   from text.
//! - [`wire`]: the wire layout and the laws of encoding and decoding.
//! - [`codec`]: encoding into and decoding from byte buffers.
//! - [`buffer`]: what is taken on trust of the growable buffer and its reader.
//! - [`fast_buffer`]: a writer of fixed size.
//! - [`webhook`]: the embeds that report events to a messaging sink, with the
//!   text helpers of [`text`].

pub mod buffer;
pub mod codec;
pub mod error;
pub mod fast_buffer;
pub mod fast_string;
pub mod text;
pub mod webhook;
pub mod wire;

pub use error::FastStringError;
pub use fast_buffer::FastByteBuffer;
pub use fast_string::FastString;
