//! The decision logic of a handle over a platform media demultiplexer:
//! the read cursor, what one read writes into a caller's sample buffer,
//! how a data-source binding status becomes a result, the bounds check on
//! track indices and the numeric code of each seek policy.
//!
//! The native demultiplexer itself is driven from outside this library,
//! which hands each native outcome to the functions here.

pub mod extractor;
pub mod lemmas;
