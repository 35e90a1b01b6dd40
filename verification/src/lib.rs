//! The core of a MessagePack-RPC endpoint: the request decoder, the response
//! encoder and the dispatch of one request to an application handler, all
//! stated over a model of MessagePack values and proved against it.

pub mod error;
pub mod laws;
pub mod request;
pub mod response;
pub mod server;
pub mod value;

pub use error::Error;
pub use request::{Request, RequestDecodeError, RequestView};
pub use response::{Response, ResponseView};
pub use server::{Handler, Server};
pub use value::{Float, Integer, Value, ValueView};
