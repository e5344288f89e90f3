use vstd::prelude::*;

use crate::channel::ReceiveChannel;
use crate::channel::TransmitChannel;

verus! {

/// A transmit channel backed by a growable buffer, for exercising the
/// device and registry without hardware.
///
/// It honors the capability contract exactly: an attempt is rejected, with
/// the buffer untouched, while a preset number of rejections remains, and
/// accepted afterwards. A channel built with no rejections always has
/// room. Every accepted byte is appended to the buffer, so the buffer is
/// the emitted stream and can be read back, closing the loop to a receive
/// channel.
pub struct BufferedTransmit {
    buf: Vec<u8>,
    rejects_left: usize,
}

impl BufferedTransmit {
    /// A transmit channel that accepts every attempt at once.
    pub fn new() -> (t: Self)
        ensures
            t.sent() == Seq::<u8>::empty(),
            t.delay() == 0,
    {
        BufferedTransmit { buf: Vec::new(), rejects_left: 0 }
    }

    /// A transmit channel that rejects the next `rejections` attempts and
    /// accepts from the one after.
    pub fn with_rejections(rejections: usize) -> (t: Self)
        ensures
            t.sent() == Seq::<u8>::empty(),
            t.delay() == rejections,
    {
        BufferedTransmit { buf: Vec::new(), rejects_left: rejections }
    }

    /// How many more attempts this channel will reject.
    pub fn remaining_rejections(&self) -> (n: usize)
        ensures
            n == self.delay(),
    {
        self.rejects_left
    }

    /// The bytes accepted so far, oldest first.
    pub fn bytes(&self) -> (v: &Vec<u8>)
        ensures
            v@ == self.sent(),
    {
        &self.buf
    }
}

impl TransmitChannel for BufferedTransmit {
    closed spec fn sent(&self) -> Seq<u8> {
        self.buf@
    }

    closed spec fn delay(&self) -> nat {
        self.rejects_left as nat
    }

    fn try_send(&mut self, b: u8) -> (accepted: bool)
        ensures
            accepted ==> final(self).sent() == old(self).sent().push(b),
            !accepted ==> final(self).sent() == old(self).sent()
                && final(self).delay() < old(self).delay(),
    {
        if self.rejects_left > 0 {
            self.rejects_left = self.rejects_left - 1;
            false
        } else {
            self.buf.push(b);
            true
        }
    }
}

/// A receive channel backed by a fixed queue of bytes, for exercising the
/// device and registry without hardware.
///
/// It hands the queued bytes out oldest first, one per attempt, and
/// reports nothing once the queue is drained. Feeding it the bytes a
/// `BufferedTransmit` collected makes the pair a loopback device.
pub struct BufferedReceive {
    buf: Vec<u8>,
    at: usize,
}

impl BufferedReceive {
    /// A receive channel with nothing to hand out.
    pub fn new() -> (r: Self)
        ensures
            r.pending() == Seq::<u8>::empty(),
    {
        BufferedReceive { buf: Vec::new(), at: 0 }
    }

    /// A receive channel that will hand out exactly the bytes of `v`,
    /// oldest first.
    pub fn from_bytes(v: Vec<u8>) -> (r: Self)
        ensures
            r.pending() == v@,
    {
        BufferedReceive { buf: v, at: 0 }
    }
}

impl ReceiveChannel for BufferedReceive {
    closed spec fn pending(&self) -> Seq<u8> {
        if self.at <= self.buf.len() {
            self.buf@.skip(self.at as int)
        } else {
            Seq::empty()
        }
    }

    fn try_recv(&mut self) -> (r: Option<u8>)
        ensures
            old(self).pending().len() == 0 ==> r is None
                && final(self).pending() == old(self).pending(),
            old(self).pending().len() > 0 ==> r == Some(old(self).pending()[0])
                && final(self).pending() == old(self).pending().drop_first(),
    {
        if self.at < self.buf.len() {
            let b = self.buf[self.at];
            self.at = self.at + 1;
            proof {
                assert(self.buf@.skip(self.at as int) =~= old(
                    self,
                ).buf@.skip(self.at - 1).drop_first());
            }
            Some(b)
        } else {
            None
        }
    }
}

} // verus!
