//! Device acquisition, capability negotiation and error classification for a
//! native low-level audio API.
//!
//! The library never touches the native API itself. Every operation is a
//! decision function: it is handed what the native API has answered so far and
//! either asks for one more native call or gives the final result.

pub mod error;
pub mod ext;
pub mod native;
pub mod version;
pub mod list;
pub mod device;
pub mod enumerate;
