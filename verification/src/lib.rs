//! Verified core of a JavaScript runtime embedding layer.

pub mod text;
pub mod thrown_store;
pub mod error;
pub mod source;
pub mod valuetype;
pub mod property;
pub mod typed_array;
pub mod engine;
pub mod value;
pub mod context;
pub mod runtime;
pub mod object;
pub mod function;
pub mod parameter;
pub mod scheduler;
pub mod rong;
pub mod shared;
pub mod pinned;
pub mod error_js;
pub mod array;
pub mod array_buffer;
pub mod exception;
pub mod promise;
pub mod net;
pub mod iterator;
