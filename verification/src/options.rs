//! Configuration of a logger: mailbox capacity and the two flush thresholds.

use vstd::prelude::*;

verus! {

/// Mailbox capacity used when none is configured.
pub const DEFAULT_BUFFER_SIZE: usize = 1024;

/// Number of records per batch used when none is configured.
pub const BATCH_SIZE: usize = 50;

/// Flush interval in milliseconds used when none is configured.
pub const BATCH_DURATION_MS: u64 = 50;

/// Settings read once when a logger is built. Every field is optional; a
/// field left unset takes its default.
pub struct LoggerOptions {
    /// How many records the mailbox holds before new ones are dropped.
    buffer_size: Option<usize>,
    /// How many records make a full batch.
    batch_size: Option<usize>,
    /// For how long records are gathered before a partial batch is flushed.
    batch_duration_ms: Option<u64>,
}

impl LoggerOptions {
    /// Mailbox capacity these options stand for.
    pub open spec fn spec_buffer_size(&self) -> usize {
        match self.configured_buffer_size() {
            Some(n) => n,
            None => DEFAULT_BUFFER_SIZE,
        }
    }

    /// Batch size threshold these options stand for.
    pub open spec fn spec_batch_size(&self) -> usize {
        match self.configured_batch_size() {
            Some(n) => n,
            None => BATCH_SIZE,
        }
    }

    /// Flush interval, in milliseconds, these options stand for.
    pub open spec fn spec_batch_duration_ms(&self) -> u64 {
        match self.configured_batch_duration_ms() {
            Some(n) => n,
            None => BATCH_DURATION_MS,
        }
    }

    /// The mailbox capacity as configured, before defaulting.
    pub closed spec fn configured_buffer_size(&self) -> Option<usize> {
        self.buffer_size
    }

    /// The batch size as configured, before defaulting.
    pub closed spec fn configured_batch_size(&self) -> Option<usize> {
        self.batch_size
    }

    /// The flush interval as configured, before defaulting.
    pub closed spec fn configured_batch_duration_ms(&self) -> Option<u64> {
        self.batch_duration_ms
    }

    /// Options with exactly the given settings; `None` leaves a setting at
    /// its default.
    pub fn new(
        buffer_size: Option<usize>,
        batch_size: Option<usize>,
        batch_duration_ms: Option<u64>,
    ) -> (options: Self)
        ensures
            options.configured_buffer_size() == buffer_size,
            options.configured_batch_size() == batch_size,
            options.configured_batch_duration_ms() == batch_duration_ms,
    {
        LoggerOptions { buffer_size, batch_size, batch_duration_ms }
    }

    /// The mailbox capacity: the configured one, or 1024.
    #[verifier::when_used_as_spec(spec_buffer_size)]
    pub fn buffer_size(&self) -> (n: usize)
        ensures
            n == self.spec_buffer_size(),
    {
        match self.buffer_size {
            Some(n) => n,
            None => DEFAULT_BUFFER_SIZE,
        }
    }

    /// The batch size threshold: the configured one, or 50.
    #[verifier::when_used_as_spec(spec_batch_size)]
    pub fn batch_size(&self) -> (n: usize)
        ensures
            n == self.spec_batch_size(),
    {
        match self.batch_size {
            Some(n) => n,
            None => BATCH_SIZE,
        }
    }

    /// The flush interval in milliseconds: the configured one, or 50.
    #[verifier::when_used_as_spec(spec_batch_duration_ms)]
    pub fn batch_duration_ms(&self) -> (n: u64)
        ensures
            n == self.spec_batch_duration_ms(),
    {
        match self.batch_duration_ms {
            Some(n) => n,
            None => BATCH_DURATION_MS,
        }
    }
}

impl Default for LoggerOptions {
    /// The default options: capacity 1024, batches of 50, flushed every 50 ms.
    fn default() -> (options: Self)
        ensures
            options.configured_buffer_size() == Some(DEFAULT_BUFFER_SIZE),
            options.configured_batch_size() == Some(BATCH_SIZE),
            options.configured_batch_duration_ms() == Some(BATCH_DURATION_MS),
    {
        LoggerOptions {
            buffer_size: Some(DEFAULT_BUFFER_SIZE),
            batch_size: Some(BATCH_SIZE),
            batch_duration_ms: Some(BATCH_DURATION_MS),
        }
    }
}

} // verus!
