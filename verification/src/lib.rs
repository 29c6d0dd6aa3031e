//! A verified model of the RayforceDB value layer and the library's own
//! rules around it: typed atoms and vectors, lists, dictionaries, tables,
//! conversions (chrono's dates and times included), lambdas, the global
//! environment, the runtime lifecycle, Q wire framing and selector ownership.

pub mod error;
pub mod types;
mod value;
mod scalars;
mod sealed;
mod vector;
mod list;
mod equality;
mod dict;
mod table;
mod convert;
mod temporal;
mod runtime;
mod lambda;
mod ops;
pub mod env;
pub mod q;

pub use error::{ErrorCode, RayError, Result};
pub use value::{Atom, Cells, Column, Datum, Scalar, Value};
pub use vector::{VecElem, VecIter};
pub use table::{canonical_type, csv_schema, normalize_type_token, Table};
pub use convert::{FromValue, Guid, Str, ToValue};
pub use temporal::{date_field, in_range, millis_of_day, split_millis, timestamp_from_span};
pub use runtime::{get_global, is_live, set_global, Held, Host, Lifecycle, Runtime};
pub use lambda::{bind_name_for, is_fn_expression, Fn};
pub use ops::Operation;
