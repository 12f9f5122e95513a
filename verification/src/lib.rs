//! Construction of SQL statement text from typed values.
//!
//! Every fragment of SQL is modelled as a sequence of characters. The
//! contracts of this crate state, over that model, exactly which text each
//! operation produces.

pub mod arg;
pub mod bind;
pub mod error;
pub mod insert;
pub mod name;
pub mod quote;
pub mod select;
pub mod text;
pub mod update;
pub mod where_builder;

pub use arg::{SqlArg, SqlArgs};
pub use bind::Bind;
pub use error::SqlBuilderError;
pub use name::SqlName;
pub use quote::{baquote, brquote, dquote, esc, quote};
