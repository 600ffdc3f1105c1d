//! Safe modelling of the dynamic values that cross the boundary between
//! typed plugin code and a host editor's native API: a tagged dynamic
//! value type with owned container payloads, a non-owning borrow
//! wrapper, bidirectional conversions between dynamic and typed values,
//! and the error-channel protocol that turns out-parameter error
//! reporting into typed results.

pub mod array;
pub mod call;
pub mod conversion;
pub mod dictionary;
pub mod error;
pub mod non_owning;
pub mod object;
pub mod string;
pub mod types;

pub use array::Array;
pub use call::CallError;
pub use conversion::ConversionError;
pub use conversion::FromObject;
pub use conversion::ToObject;
pub use dictionary::Dictionary;
pub use error::Error;
pub use error::ErrorKind;
pub use non_owning::NonOwning;
pub use object::Object;
pub use object::ObjectKind;
pub use object::Value;
pub use string::NvimString;
pub use types::ExtmarkHlMode;
pub use types::Mark;
pub use types::Position;
pub use types::SplitModifier;
