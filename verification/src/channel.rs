use vstd::prelude::*;

verus! {

/// The capability contract required of a hardware driver's transmit side.
///
/// A transmit channel accepts bytes one at a time without blocking. An
/// attempt either succeeds, appending the byte to the stream the channel
/// has accepted so far, or is rejected transiently, leaving the stream
/// unchanged. A hard transport fault is not representable: every attempt
/// returns, and a rejection only means "try again".
///
/// The model functions carry default bodies so that a hardware driver
/// compiled outside the verifier need only supply the executable method;
/// every verified implementation overrides them, and must, since the
/// defaults support no acceptance.
pub trait TransmitChannel: Sized {
    /// The bytes this channel has accepted for transmission, oldest first.
    open spec fn sent(&self) -> Seq<u8> {
        Seq::empty()
    }

    /// How many more attempts the channel may reject before it next accepts
    /// a byte. Rejections are required to be transient, so this bound
    /// shrinks with every rejection; a channel whose delay is zero accepts
    /// the next byte offered.
    open spec fn delay(&self) -> nat {
        0
    }

    /// Attempt to send one byte; never blocks.
    ///
    /// On acceptance the byte is appended to the accepted stream exactly
    /// once; on rejection the stream is untouched, so no byte is ever
    /// duplicated or lost, and the channel is strictly closer to being
    /// ready.
    fn try_send(&mut self, b: u8) -> (accepted: bool)
        ensures
            accepted ==> final(self).sent() == old(self).sent().push(b),
            !accepted ==> final(self).sent() == old(self).sent()
                && final(self).delay() < old(self).delay(),
    ;
}

/// The capability contract required of a hardware driver's receive side.
///
/// A receive channel hands out the bytes it currently holds, oldest first,
/// without blocking. Absence of data is a normal, frequent outcome, not an
/// error; a hard transport fault is not representable.
///
/// As with the transmit side, the model function's default body lets a
/// hardware driver compiled outside the verifier supply only the
/// executable method; verified implementations override it.
pub trait ReceiveChannel: Sized {
    /// The bytes currently available to read, oldest first.
    open spec fn pending(&self) -> Seq<u8> {
        Seq::empty()
    }

    /// Attempt to read one byte; never blocks.
    ///
    /// Returns the oldest available byte and removes it, or `None` if
    /// nothing is available, in which case nothing changes.
    fn try_recv(&mut self) -> (r: Option<u8>)
        ensures
            old(self).pending().len() == 0 ==> r is None
                && final(self).pending() == old(self).pending(),
            old(self).pending().len() > 0 ==> r == Some(old(self).pending()[0])
                && final(self).pending() == old(self).pending().drop_first(),
    ;
}

/// The bytes that repeated reads hand out from a receive channel holding
/// `pending`: each successful read yields the head and leaves the rest, as
/// `try_recv`'s contract states, until nothing remains.
pub open spec fn drained(pending: Seq<u8>) -> Seq<u8>
    decreases pending.len(),
{
    if pending.len() == 0 {
        Seq::empty()
    } else {
        seq![pending[0]] + drained(pending.drop_first())
    }
}

/// Ordering is preserved end to end: a receive channel holding exactly the
/// bytes that a run of writes emitted hands them back in that same order,
/// one per successful read, with nothing reordered, added or dropped.
pub proof fn lemma_drained_in_order(pending: Seq<u8>)
    ensures
        drained(pending) == pending,
    decreases pending.len(),
{
    if pending.len() == 0 {
        assert(drained(pending) =~= pending);
    } else {
        lemma_drained_in_order(pending.drop_first());
        assert(drained(pending) =~= pending);
    }
}

} // verus!
