//! Buffers that gather row values into typed columns.
pub mod dtype;
pub mod value;
pub mod cast;
pub mod builder;
pub mod series;
pub mod buffer;
pub mod error;
pub mod trusted;
pub mod laws;

pub use buffer::AnyValueBuffer;
pub use cast::FloatCasts;
pub use dtype::{DataType, Field, TimeUnit};
pub use error::PolarsError;
pub use series::{Column, Series};
pub use trusted::AnyValueBufferTrusted;
pub use value::{AnyValue, StructArray, F32, F64};
