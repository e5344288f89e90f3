//! A character-oriented serial abstraction for early firmware: a
//! capability contract for byte channels, a device pairing one transmit
//! and one receive channel, a registry holding the one active device, and
//! a byte-stream output path for rendered text.

use vstd::prelude::*;

pub mod channel;
pub mod device;
pub mod loopback;
pub mod registry;

use crate::channel::ReceiveChannel;
use crate::channel::TransmitChannel;
use crate::registry::DeviceRegistry;
use crate::registry::init_message;

verus! {

/// Pair the two channels into a serial device and install it in the
/// registry as the sole active device, replacing any previous one; one
/// diagnostic line is emitted through the new device.
///
/// Afterwards every operation on the registry reaches exactly these two
/// channels and no earlier ones.
pub fn init<T: TransmitChannel, R: ReceiveChannel>(registry: &mut DeviceRegistry<T, R>, tx: T, rx: R)
    ensures
        final(registry).installed() matches Some(dev)
            && dev.sent() == tx.sent() + init_message()
            && dev.receive() == rx,
{
    registry.init(tx, rx);
}

/// Poll the registry's device once for a byte.
///
/// Never blocks and never faults: with no device installed, or nothing
/// available to read, the result is `None` and nothing changes; otherwise
/// the oldest available byte is returned and consumed.
pub fn getchar<T: TransmitChannel, R: ReceiveChannel>(registry: &mut DeviceRegistry<T, R>) -> (r:
    Option<u8>)
    ensures
        old(registry).installed() is None ==> r is None && *final(registry) == *old(registry),
        old(registry).installed() matches Some(dev) ==> (
            final(registry).installed() matches Some(ndev)
                && ndev.transmit() == dev.transmit()
                && (dev.pending().len() == 0 ==> r is None && ndev.pending() == dev.pending())
                && (dev.pending().len() > 0 ==> r == Some(dev.pending()[0])
                    && ndev.pending() == dev.pending().drop_first())
        ),
{
    registry.get_char()
}

/// Send one byte through the registry's device, blocking until its
/// transmit channel accepts it; a no-op if no device is installed.
pub fn putchar<T: TransmitChannel, R: ReceiveChannel>(registry: &mut DeviceRegistry<T, R>, c: u8)
    ensures
        old(registry).installed() is None ==> *final(registry) == *old(registry),
        old(registry).installed() matches Some(dev) ==> (
            final(registry).installed() matches Some(ndev)
                && ndev.sent() == dev.sent().push(c)
                && ndev.receive() == dev.receive()
        ),
{
    registry.put_char(c);
}

/// Emit rendered text through the registry's device: exactly the bytes of
/// `s`, in order and contiguously; silently dropped if no device is
/// installed.
pub fn print<T: TransmitChannel, R: ReceiveChannel>(registry: &mut DeviceRegistry<T, R>, s: &[u8])
    ensures
        old(registry).installed() is None ==> *final(registry) == *old(registry),
        old(registry).installed() matches Some(dev) ==> (
            final(registry).installed() matches Some(ndev)
                && ndev.sent() == dev.sent() + s@
                && ndev.receive() == dev.receive()
        ),
{
    registry.print(s);
}

/// Emit rendered text followed by a single line terminator, with no extra
/// characters; silently dropped if no device is installed.
pub fn println<T: TransmitChannel, R: ReceiveChannel>(registry: &mut DeviceRegistry<T, R>, s: &[u8])
    ensures
        old(registry).installed() is None ==> *final(registry) == *old(registry),
        old(registry).installed() matches Some(dev) ==> (
            final(registry).installed() matches Some(ndev)
                && ndev.sent() == dev.sent() + s@ + seq![10u8]
                && ndev.receive() == dev.receive()
        ),
{
    registry.println(s);
}

} // verus!
