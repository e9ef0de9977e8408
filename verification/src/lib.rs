//! Verified core of the Daily client SDK bindings: the JSON model of the
//! meeting events, event dispatch, request bookkeeping and the media frame
//! arithmetic that the bindings perform around the native SDK.
pub mod text;
pub mod json;
pub mod event;
pub mod completion;
pub mod error;
pub mod call_client;
pub mod requests;
pub mod properties;
pub mod audio;
pub mod devices;
pub mod context;
