//! Authorization-gated addressing in front of an object store.
//!
//! A request names a bucket, an object and optionally a set. The library turns
//! it into the key under which the object is stored, the resource and action
//! that the caller must be allowed, and the audience whose authorization
//! provider decides. A signed or pre-signed artifact reaches a response only
//! after that provider has said yes.

pub mod action;
pub mod address;
pub mod audience;
pub mod error;
pub mod flow;
pub mod request;
pub mod response;
pub mod signing;
pub mod text;
