use vstd::prelude::*;

use crate::channel::ReceiveChannel;
use crate::channel::TransmitChannel;
use crate::device::SerialDevice;

verus! {

/// The diagnostic line that installing a device emits through it: the
/// bytes of "serial init" followed by a line feed.
pub open spec fn init_message() -> Seq<u8> {
    seq![115u8, 101u8, 114u8, 105u8, 97u8, 108u8, 32u8, 105u8, 110u8, 105u8, 116u8, 10u8]
}

/// Build the diagnostic line as a byte vector.
fn init_message_bytes() -> (v: Vec<u8>)
    ensures
        v@ == init_message(),
{
    let mut v: Vec<u8> = Vec::new();
    v.push(115u8); // 's'
    v.push(101u8); // 'e'
    v.push(114u8); // 'r'
    v.push(105u8); // 'i'
    v.push(97u8); // 'a'
    v.push(108u8); // 'l'
    v.push(32u8); // ' '
    v.push(105u8); // 'i'
    v.push(110u8); // 'n'
    v.push(105u8); // 'i'
    v.push(116u8); // 't'
    v.push(10u8); // line feed
    proof {
        assert(v@ =~= init_message());
    }
    v
}

/// The holder of the one active serial device.
///
/// It starts empty and is populated by `init`; there is no uninstall, only
/// replacement by a later `init`. While no device is installed, reads
/// return nothing and writes are silently dropped, so callers running
/// before serial bring-up never see a fault. Exclusive access for the
/// duration of one operation is what the `&mut` receiver grants; the
/// surrounding firmware keeps the registry behind its mutual-exclusion
/// lock.
pub struct DeviceRegistry<T: TransmitChannel, R: ReceiveChannel> {
    device: Option<SerialDevice<T, R>>,
}

impl<T: TransmitChannel, R: ReceiveChannel> DeviceRegistry<T, R> {
    /// The installed device, if any.
    pub closed spec fn installed(&self) -> Option<SerialDevice<T, R>> {
        self.device
    }

    /// Create an empty registry, with no device installed.
    pub fn new() -> (reg: Self)
        ensures
            reg.installed() is None,
    {
        DeviceRegistry { device: None }
    }

    /// Borrow the installed device, if any.
    pub fn installed_ref(&self) -> (d: Option<&SerialDevice<T, R>>)
        ensures
            self.installed() is None <==> d is None,
            self.installed() matches Some(dev) ==> d matches Some(dr) && *dr == dev,
    {
        self.device.as_ref()
    }

    /// Pair the two channels into a serial device and install it as the
    /// sole active device, replacing any previous one, then emit one
    /// diagnostic line through the newly installed device.
    ///
    /// Afterwards the installed device is built from exactly the two
    /// channels given here: its emitted stream is what `tx` had accepted
    /// plus the diagnostic line, and its receive side is `rx` itself.
    /// Whatever was installed before is discarded.
    pub fn init(&mut self, tx: T, rx: R)
        ensures
            final(self).installed() matches Some(dev)
                && dev.sent() == tx.sent() + init_message()
                && dev.receive() == rx,
    {
        let mut dev = SerialDevice::new(tx, rx);
        let msg = init_message_bytes();
        dev.write_text(msg.as_slice());
        self.device = Some(dev);
    }

    /// Poll the installed device once for a byte.
    ///
    /// With no device installed, the result is `None` and nothing changes:
    /// the call never blocks and never faults. With a device installed,
    /// the oldest available byte is returned and consumed, or `None` if
    /// none is available; the transmit side is untouched.
    pub fn get_char(&mut self) -> (r: Option<u8>)
        ensures
            old(self).installed() is None ==> r is None && *final(self) == *old(self),
            old(self).installed() matches Some(dev) ==> (
                final(self).installed() matches Some(ndev)
                    && ndev.transmit() == dev.transmit()
                    && (dev.pending().len() == 0 ==> r is None && ndev.pending() == dev.pending())
                    && (dev.pending().len() > 0 ==> r == Some(dev.pending()[0])
                        && ndev.pending() == dev.pending().drop_first())
            ),
    {
        match &mut self.device {
            Some(dev) => dev.get_char(),
            None => None,
        }
    }

    /// Send one byte through the installed device, blocking until its
    /// transmit channel accepts it.
    ///
    /// With no device installed, this is a no-op that does not fault.
    /// With a device installed, exactly the one byte joins the emitted
    /// stream and the receive side is untouched.
    pub fn put_char(&mut self, c: u8)
        ensures
            old(self).installed() is None ==> *final(self) == *old(self),
            old(self).installed() matches Some(dev) ==> (
                final(self).installed() matches Some(ndev)
                    && ndev.sent() == dev.sent().push(c)
                    && ndev.receive() == dev.receive()
            ),
    {
        match &mut self.device {
            Some(dev) => dev.put_char(c),
            None => {},
        }
    }

    /// Emit a rendered line of text through the installed device.
    ///
    /// With no device installed, the text is silently dropped. With a
    /// device installed, exactly the bytes of `s` join the emitted stream,
    /// in order and contiguously, and the receive side is untouched.
    pub fn print(&mut self, s: &[u8])
        ensures
            old(self).installed() is None ==> *final(self) == *old(self),
            old(self).installed() matches Some(dev) ==> (
                final(self).installed() matches Some(ndev)
                    && ndev.sent() == dev.sent() + s@
                    && ndev.receive() == dev.receive()
            ),
    {
        match &mut self.device {
            Some(dev) => dev.write_text(s),
            None => {},
        }
    }

    /// Emit a rendered line of text followed by a single line terminator.
    ///
    /// With no device installed, the text is silently dropped. With a
    /// device installed, exactly the bytes of `s` and then one line feed
    /// join the emitted stream, with no extra characters; both are emitted
    /// within the one exclusive hold of the registry, so nothing can come
    /// between the text and its terminator.
    pub fn println(&mut self, s: &[u8])
        ensures
            old(self).installed() is None ==> *final(self) == *old(self),
            old(self).installed() matches Some(dev) ==> (
                final(self).installed() matches Some(ndev)
                    && ndev.sent() == dev.sent() + s@ + seq![10u8]
                    && ndev.receive() == dev.receive()
            ),
    {
        match &mut self.device {
            Some(dev) => {
                dev.write_text(s);
                dev.put_char(10u8);
            },
            None => {},
        }
    }
}

} // verus!
