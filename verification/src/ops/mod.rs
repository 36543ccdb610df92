//! The capabilities that the database variants, transactions and snapshots
//! are composed of. Each variant implements the ones it supports; what is
//! shared is written once, against the capability.

pub mod column_family;
pub mod delete;
pub mod delete_file_in_range;
pub mod flush;
pub mod get;
pub mod iter;
pub mod merge;
pub mod put;
pub mod setoptions;

pub use self::column_family::{GetColumnFamily, GetColumnFamilys};
pub use self::delete::DeleteCF;
pub use self::delete_file_in_range::{DeleteFileInRange, DeleteFileInRangeCF};
pub use self::flush::{Flush, FlushCF};
pub use self::get::{GetCF, Read};
pub use self::iter::{Iterate, IterateCF};
pub use self::merge::MergeCF;
pub use self::put::{PutCF, Write};
pub use self::setoptions::SetOptions;
