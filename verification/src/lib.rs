//! A bridge between a synchronous script engine and an asynchronous HTTP
//! transport, written without I/O: every decision of one bridged call is a
//! verified function from plain values to plain values.

pub mod bridge;
pub mod codec;
pub mod failure;
pub mod headers;
pub mod json;
pub mod method;
pub mod order;
pub mod request;
pub mod response;
pub mod script;
pub mod status;
pub mod text;
