//! The buffered text output.
//!
//! Bytes queue up here; the writer drains the pending buffer whenever a
//! whole line was queued, when the flush threshold is crossed, or on an
//! explicit flush.

use vstd::prelude::*;
use vstd::string::*;

verus! {

/// The buffer capacity reserved by `new`.
pub const DEFAULT_BUFFER_SIZE: usize = 4096;

/// Queued chunks are drained once this many bytes are pending.
pub const FLUSH_THRESHOLD: usize = 1024;

pub struct TextOutput {
    pub buffer: Vec<u8>,
    pub buffer_capacity: usize,
}

impl TextOutput {
    pub fn new() -> (o: TextOutput)
        ensures
            o.buffer@.len() == 0,
            o.buffer_capacity == DEFAULT_BUFFER_SIZE,
    {
        TextOutput {
            buffer: Vec::with_capacity(DEFAULT_BUFFER_SIZE),
            buffer_capacity: DEFAULT_BUFFER_SIZE,
        }
    }

    pub fn with_capacity(capacity: usize) -> (o: TextOutput)
        ensures
            o.buffer@.len() == 0,
            o.buffer_capacity == capacity,
    {
        TextOutput { buffer: Vec::with_capacity(capacity), buffer_capacity: capacity }
    }

    /// Queues the bytes of `text`.
    pub fn queue_text(&mut self, text: &str)
        ensures
            final(self).buffer@ == old(self).buffer@ + text.spec_bytes(),
            final(self).buffer_capacity == old(self).buffer_capacity,
    {
        let bytes = text.as_bytes();
        let mut i: usize = 0;
        while i < bytes.len()
            invariant
                i <= bytes@.len(),
                bytes@ == text.spec_bytes(),
                self.buffer@ == old(self).buffer@ + bytes@.take(i as int),
                self.buffer_capacity == old(self).buffer_capacity,
            decreases bytes@.len() - i,
        {
            self.buffer.push(bytes[i]);
            proof {
                assert(old(self).buffer@ + bytes@.take(i + 1 as int) =~= (old(self).buffer@
                    + bytes@.take(i as int)).push(bytes@[i as int]));
            }
            i = i + 1;
        }
        proof {
            assert(bytes@.take(bytes@.len() as int) =~= bytes@);
        }
    }

    /// Queues the line terminator.
    pub fn queue_newline(&mut self)
        ensures
            final(self).buffer@ == old(self).buffer@.push(10u8),
            final(self).buffer_capacity == old(self).buffer_capacity,
    {
        self.buffer.push(10u8);
    }

    /// Whether enough is pending to warrant a drain.
    pub fn needs_flush(&self) -> (f: bool)
        ensures
            f == (self.buffer@.len() >= FLUSH_THRESHOLD),
    {
        self.buffer.len() >= FLUSH_THRESHOLD
    }

    pub fn pending_len(&self) -> (n: usize)
        ensures
            n == self.buffer@.len(),
    {
        self.buffer.len()
    }

    /// Hands the pending bytes to the writer and leaves the buffer empty.
    pub fn take_pending(&mut self) -> (out: Vec<u8>)
        ensures
            out@ == old(self).buffer@,
            final(self).buffer@.len() == 0,
            final(self).buffer_capacity == old(self).buffer_capacity,
    {
        let out = self.buffer.split_off(0);
        proof {
            assert(out@ =~= old(self).buffer@);
        }
        out
    }
}

} // verus!
