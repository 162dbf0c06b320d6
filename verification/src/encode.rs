//! Sinks for records: what every encoder offers, what a call of one
//! returns, and a stream of records to feed one from.
use crate::record::RecordHeader;
use vstd::prelude::*;

pub mod csv;

verus! {

/// Why an encoder failed.
#[derive(Clone, Debug, PartialEq, Eq)]
pub enum EncodeError {
    /// The header row was refused.
    Header { message: String },
    /// A record was refused: its header, and what the sink said.
    Record { header: RecordHeader, message: String },
    /// The sink could not be flushed.
    Flush { message: String },
}

/// What an encoder returns for one record, from what became of the write.
///
/// A record that was written lets the caller go on. One that was not,
/// because the sink is closed, asks the caller to stop, and is no failure.
/// Any other refusal is a failure that names the record.
pub fn sink_outcome(written: bool, closed: bool, header: RecordHeader, message: String) -> (r:
    Result<bool, EncodeError>)
    ensures
        written ==> r == Ok::<bool, EncodeError>(false),
        !written && closed ==> r == Ok::<bool, EncodeError>(true),
        !written && !closed ==> r == Err::<bool, EncodeError>(
            EncodeError::Record { header, message },
        ),
{
    if written {
        Ok(false)
    } else if closed {
        Ok(true)
    } else {
        Err(EncodeError::Record { header, message })
    }
}

/// A stream of records that hands out one record at a time.
pub struct VecStream<R> {
    items: Vec<R>,
    next: usize,
}

impl<R> VecStream<R> {
    /// The records that the stream has yet to hand out.
    pub closed spec fn remaining(&self) -> Seq<R> {
        self.items@.skip(self.next as int)
    }

    #[verifier::type_invariant]
    closed spec fn valid(self) -> bool {
        self.next <= self.items@.len()
    }

    /// A stream of `items`, in their order.
    pub fn new(items: Vec<R>) -> (s: VecStream<R>)
        ensures
            s.remaining() == items@,
    {
        assert(items@.skip(0) =~= items@);
        VecStream { items, next: 0 }
    }

    /// Whether the stream has handed out all of its records.
    pub fn is_done(&self) -> (b: bool)
        ensures
            b == (self.remaining().len() == 0),
    {
        proof {
            use_type_invariant(self);
        }
        self.next >= self.items.len()
    }

    /// The record that is next in the stream.
    pub fn get(&self) -> (r: Option<&R>)
        ensures
            self.remaining().len() == 0 ==> r is None,
            self.remaining().len() > 0 ==> r == Some(&self.remaining()[0]),
    {
        proof {
            use_type_invariant(self);
        }
        if self.next < self.items.len() {
            Some(&self.items[self.next])
        } else {
            None
        }
    }

    /// Moves on to the record behind the next one.
    pub fn advance(&mut self)
        ensures
            old(self).remaining().len() > 0 ==> final(self).remaining() == old(
                self,
            ).remaining().drop_first(),
            old(self).remaining().len() == 0 ==> final(self).remaining() == old(self).remaining(),
    {
        proof {
            use_type_invariant(&*self);
        }
        if self.next < self.items.len() {
            self.next = self.next + 1;
            assert(self.items@.skip(self.next as int) =~= old(self).items@.skip(
                old(self).next as int,
            ).drop_first());
        }
    }
}

} // verus!
