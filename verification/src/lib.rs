//! A declarative HTTP operation layer: operations are described once —
//! path, method, parameters, request bodies, responses, headers — and that
//! single description yields both a structured interface document and the
//! runtime logic that binds an incoming request into typed values and turns
//! a typed result back into a transport response.

pub mod bind;
pub mod content;
pub mod message;
pub mod operation;
pub mod params;
pub mod registry;
pub mod respond;
pub mod schema;
pub mod textnum;
pub mod trace;
pub mod validate;
pub mod value;
