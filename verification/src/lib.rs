//! One endpoint, two backends: requests are classified by their content type
//! and routed either to an RPC backend or to a plain request/response
//! backend, once both have confirmed that they are ready.
//!
//! - [`protocol`] tells the two protocols apart from a content type;
//! - [`headers`] finds the content type in the headers of a request;
//! - [`readiness`] keeps track of which backends have confirmed readiness;
//! - [`multiplex_service`] joins two backends into one service.

pub mod headers;
pub mod multiplex_service;
pub mod protocol;
pub mod readiness;
