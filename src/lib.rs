//! Four routines, nested two levels deep, each of which stands for one
//! informational log record, and the session that decides when the
//! process-wide logger is installed, which records are written, in what
//! order, and how the process ends.
pub mod record;
pub mod a;
pub mod b;
pub mod logger;
pub mod session;
pub mod runs;
