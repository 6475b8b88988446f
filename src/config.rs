//! Configuration sources: a parser fetches raw settings from somewhere (a
//! file, the environment), wraps them in a value type, and a [`source::Source`]
//! hands that value to a format function of the caller's choice.
pub mod builder;
pub mod format;
pub mod parser;
pub mod source;
pub mod string_value;
pub mod text;
pub mod tuple_value;
pub mod types;

pub use builder::Builder;
pub use source::Source;
pub use string_value::Value as StringValue;
pub use tuple_value::Value as TupleValue;
