//! Verified core of two small demonstration services: a greeter that builds
//! a reply message from a name, and a line responder that matches an
//! HTTP-shaped request line and composes a response with a correct
//! `Content-Length` header.

pub mod decimal;
pub mod greeter;
pub mod responder;
