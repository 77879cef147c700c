//! Request construction and response normalization for an HTTP request tester.
//!
//! The request side validates a method name, reads a free-form block of
//! `Name: Value` lines into ordered header pairs and decides whether a body is
//! attached. The response side renders the received headers as one text block,
//! picks the status phrase and decodes the body as JSON where it parses, and as
//! plain text otherwise. Sending, dialogs and files are left to the caller.
pub mod text;
pub mod headers;
pub mod method;
pub mod request;
pub mod response;
pub mod storage;
