//! An in-process batching log sink: producers hand structured records to a
//! bounded mailbox, and a single aggregator groups them into batches that are
//! rendered as one line per record.

pub mod aggregator;
pub mod clock;
pub mod color;
pub mod laws;
pub mod level;
pub mod logger;
pub mod mailbox;
pub mod options;
pub mod payload;
pub mod record;
pub mod sink;

pub use aggregator::{Action, Aggregator, Event};
pub use level::LogLevels;
pub use clock::{get_current_time, timestamp_of};
pub use color::colored_name;
pub use logger::{prepare, submission_outcome, Logger, SubmitError, Worker};
pub use mailbox::Rejection;
pub use options::LoggerOptions;
pub use record::LogObject;
pub use sink::{flush_batch, format_line, render_line};
