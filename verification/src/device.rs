use vstd::prelude::*;

use crate::channel::ReceiveChannel;
use crate::channel::TransmitChannel;

verus! {

/// One logical bidirectional serial device, formed by pairing one transmit
/// channel and one receive channel.
///
/// The device owns both channels exclusively; the pairing is fixed at
/// construction and never rebound. Reads touch only the receive channel and
/// writes touch only the transmit channel.
pub struct SerialDevice<T: TransmitChannel, R: ReceiveChannel> {
    tx: T,
    rx: R,
}

impl<T: TransmitChannel, R: ReceiveChannel> SerialDevice<T, R> {
    /// The transmit channel this device was built around.
    pub closed spec fn transmit(&self) -> T {
        self.tx
    }

    /// The receive channel this device was built around.
    pub closed spec fn receive(&self) -> R {
        self.rx
    }

    /// The bytes this device has emitted, oldest first.
    pub open spec fn sent(&self) -> Seq<u8> {
        self.transmit().sent()
    }

    /// The bytes currently available to read from this device, oldest first.
    pub open spec fn pending(&self) -> Seq<u8> {
        self.receive().pending()
    }

    /// Pair a transmit channel and a receive channel into one device.
    pub fn new(tx: T, rx: R) -> (dev: Self)
        ensures
            dev.transmit() == tx,
            dev.receive() == rx,
    {
        SerialDevice { tx, rx }
    }

    /// Borrow the transmit channel.
    pub fn transmit_ref(&self) -> (t: &T)
        ensures
            *t == self.transmit(),
    {
        &self.tx
    }

    /// Borrow the receive channel.
    pub fn receive_ref(&self) -> (r: &R)
        ensures
            *r == self.receive(),
    {
        &self.rx
    }

    /// Poll the receive channel once for a byte.
    ///
    /// Single attempt, no retry: the oldest available byte is returned and
    /// consumed, and absence of input is a normal immediate `None`, never a
    /// fault. The transmit channel is untouched.
    pub fn get_char(&mut self) -> (r: Option<u8>)
        ensures
            final(self).transmit() == old(self).transmit(),
            old(self).pending().len() == 0 ==> r is None
                && final(self).pending() == old(self).pending(),
            old(self).pending().len() > 0 ==> r == Some(old(self).pending()[0])
                && final(self).pending() == old(self).pending().drop_first(),
    {
        self.rx.try_recv()
    }

    /// Send one byte, retrying in a busy-wait loop until the transmit
    /// channel accepts it.
    ///
    /// The caller is blocked until the channel has room: there is no
    /// timeout and no yielding between attempts. The retries terminate
    /// because rejections are transient by the channel contract. Exactly
    /// one copy of the byte joins the emitted stream: no duplication and no
    /// loss, however many attempts the retries take. The receive channel is
    /// untouched.
    pub fn put_char(&mut self, c: u8)
        ensures
            final(self).sent() == old(self).sent().push(c),
            final(self).receive() == old(self).receive(),
    {
        loop
            invariant
                self.tx.sent() == old(self).sent(),
                self.rx == old(self).rx,
            decreases self.tx.delay(),
        {
            if self.tx.try_send(c) {
                return;
            }
        }
    }

    /// Emit every byte of `s`, in order, through `put_char`.
    ///
    /// This one call appends exactly `s` to the emitted stream: the bytes
    /// come out in their original order, contiguously, with nothing
    /// interleaved by this call and nothing added or dropped. The receive
    /// channel is untouched.
    pub fn write_text(&mut self, s: &[u8])
        ensures
            final(self).sent() == old(self).sent() + s@,
            final(self).receive() == old(self).receive(),
    {
        let n: usize = s.len();
        let mut i: usize = 0;
        while i < n
            invariant
                n == s@.len(),
                i <= n,
                self.tx.sent() == old(self).sent() + s@.take(i as int),
                self.rx == old(self).rx,
            decreases n - i,
        {
            self.put_char(s[i]);
            proof {
                assert(s@.take(i + 1 as int) == s@.take(i as int).push(s@[i as int]));
            }
            i = i + 1;
        }
        proof {
            assert(s@.take(n as int) == s@);
        }
    }
}

/// Two text writes performed one after the other never interleave: each
/// call's bytes stand contiguously in the emitted stream, the first write's
/// whole text before the second's.
///
/// By `write_text`'s contract, a stream that held `prefix` holds
/// `prefix + first` after one call and `prefix + first + second` after the
/// next; this lemma says that in that final stream the segment right after
/// `prefix` is exactly `first` and the rest is exactly `second`.
pub proof fn lemma_sequential_writes_contiguous(prefix: Seq<u8>, first: Seq<u8>, second: Seq<u8>)
    ensures
        (prefix + first + second).subrange(
            prefix.len() as int,
            (prefix.len() + first.len()) as int,
        ) == first,
        (prefix + first + second).subrange(
            (prefix.len() + first.len()) as int,
            (prefix + first + second).len() as int,
        ) == second,
{
    assert((prefix + first + second).subrange(prefix.len() as int, (prefix.len() + first.len()) as int)
        =~= first);
    assert((prefix + first + second).subrange(
        (prefix.len() + first.len()) as int,
        (prefix + first + second).len() as int,
    ) =~= second);
}

} // verus!
