//! Structural binding engine for a call-level SQL client interface.
//!
//! The library walks a statically declared record shape (scalars, fixed
//! capacity text buffers, nullable wrappers, tuples and records) and emits
//! one bind descriptor per primitive field, assigns 1-based ordinals and
//! native type codes, caches bindings across repeated executions, and
//! sequences the prepare/bind/execute/fetch lifecycle of a statement.
//! The native calls themselves are performed by the embedding program,
//! which feeds their return codes back into the statement state machine.

pub mod bind_types;
pub mod binder;
pub mod col_binder;
pub mod col_binding;
pub mod driver;
pub mod error;
pub mod nullable;
pub mod param_binder;
pub mod param_binding;
pub mod statement;
pub mod text;
pub mod value;

pub use col_binding::{Cols, NoCols, RowSet};
pub use error::{Error, OdbcResult};
pub use nullable::Nullable;
pub use param_binding::{NoParams, ParamSet, Params};
pub use statement::{ColBinding, ParamBinding, Statement};
pub use text::Text;
pub use value::{Scalar, Value};
