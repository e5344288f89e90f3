use uart_serial::device::SerialDevice;
use uart_serial::getchar;
use uart_serial::init;
use uart_serial::loopback::BufferedReceive;
use uart_serial::loopback::BufferedTransmit;
use uart_serial::print;
use uart_serial::putchar;
use uart_serial::registry::DeviceRegistry;

const INIT_LINE: &[u8] = b"serial init\n";

fn collected(reg: &DeviceRegistry<BufferedTransmit, BufferedReceive>) -> Vec<u8> {
    reg.installed_ref()
        .expect("a device should be installed")
        .transmit_ref()
        .bytes()
        .clone()
}

#[test]
fn loopback_preserves_order() {
    let mut reg = DeviceRegistry::new();
    init(&mut reg, BufferedTransmit::new(), BufferedReceive::new());
    let text = b"the quick brown fox";
    print(&mut reg, text);

    // Feed everything the device emitted back in as received bytes.
    let emitted = collected(&reg);
    let mut expected = INIT_LINE.to_vec();
    expected.extend_from_slice(text);
    assert_eq!(emitted, expected);

    let mut reader = DeviceRegistry::new();
    init(
        &mut reader,
        BufferedTransmit::new(),
        BufferedReceive::from_bytes(emitted.clone()),
    );
    let mut read_back = Vec::new();
    while let Some(b) = getchar(&mut reader) {
        read_back.push(b);
    }
    assert_eq!(read_back, emitted);
}

#[test]
fn empty_receive_returns_none_without_side_effects() {
    let mut reg = DeviceRegistry::new();
    init(&mut reg, BufferedTransmit::new(), BufferedReceive::new());
    assert_eq!(getchar(&mut reg), None);
    assert_eq!(getchar(&mut reg), None);
    // The transmit side is untouched by polling for input.
    assert_eq!(collected(&reg), INIT_LINE.to_vec());
}

#[test]
fn putchar_retries_until_accepted() {
    // A channel that rejects the first 4 attempts: the byte lands on the
    // 5th attempt, exactly once.
    let mut dev = SerialDevice::new(
        BufferedTransmit::with_rejections(4),
        BufferedReceive::new(),
    );
    dev.put_char(0x41);
    assert_eq!(dev.transmit_ref().remaining_rejections(), 0);
    assert_eq!(dev.transmit_ref().bytes().clone(), vec![0x41]);

    // A channel that accepts at once: one attempt, one byte.
    let mut ready = SerialDevice::new(BufferedTransmit::new(), BufferedReceive::new());
    ready.put_char(0x42);
    assert_eq!(ready.transmit_ref().remaining_rejections(), 0);
    assert_eq!(ready.transmit_ref().bytes().clone(), vec![0x42]);
}

#[test]
fn putchar_accepted_first_try_delivers_once() {
    let mut reg = DeviceRegistry::new();
    init(&mut reg, BufferedTransmit::new(), BufferedReceive::new());
    putchar(&mut reg, 0xFF);
    let mut expected = INIT_LINE.to_vec();
    expected.push(0xFF);
    assert_eq!(collected(&reg), expected);
}

#[test]
fn before_init_everything_degrades_quietly() {
    let mut reg: DeviceRegistry<BufferedTransmit, BufferedReceive> = DeviceRegistry::new();
    assert_eq!(getchar(&mut reg), None);
    putchar(&mut reg, 0x41);
    print(&mut reg, b"dropped");
    uart_serial::println(&mut reg, b"dropped too");
    assert_eq!(getchar(&mut reg), None);
    assert!(reg.installed_ref().is_none());
}

#[test]
fn second_init_replaces_the_first_device() {
    let mut reg = DeviceRegistry::new();
    init(
        &mut reg,
        BufferedTransmit::new(),
        BufferedReceive::from_bytes(vec![1, 2, 3]),
    );
    assert_eq!(getchar(&mut reg), Some(1));
    print(&mut reg, b"first");

    init(
        &mut reg,
        BufferedTransmit::new(),
        BufferedReceive::from_bytes(vec![9]),
    );
    // Reads come from the second device's receive channel, never the first's.
    assert_eq!(getchar(&mut reg), Some(9));
    assert_eq!(getchar(&mut reg), None);
    // The second device's emitted stream starts fresh: only its own
    // diagnostic line, nothing of the first device's output.
    assert_eq!(collected(&reg), INIT_LINE.to_vec());
}

#[test]
fn println_appends_exactly_one_line_feed() {
    let mut reg = DeviceRegistry::new();
    init(&mut reg, BufferedTransmit::new(), BufferedReceive::new());
    let rendered = format!("value={}", 5);
    uart_serial::println(&mut reg, rendered.as_bytes());
    let mut expected = INIT_LINE.to_vec();
    expected.extend_from_slice(b"value=5\n");
    assert_eq!(collected(&reg), expected);
}

#[test]
fn sequential_prints_stay_contiguous() {
    let mut reg = DeviceRegistry::new();
    init(&mut reg, BufferedTransmit::new(), BufferedReceive::new());
    print(&mut reg, b"alpha");
    print(&mut reg, b"beta");
    let mut expected = INIT_LINE.to_vec();
    expected.extend_from_slice(b"alpha");
    expected.extend_from_slice(b"beta");
    assert_eq!(collected(&reg), expected);
}

#[test]
fn empty_text_emits_nothing() {
    let mut reg = DeviceRegistry::new();
    init(&mut reg, BufferedTransmit::new(), BufferedReceive::new());
    print(&mut reg, b"");
    assert_eq!(collected(&reg), INIT_LINE.to_vec());
    uart_serial::println(&mut reg, b"");
    let mut expected = INIT_LINE.to_vec();
    expected.push(b'\n');
    assert_eq!(collected(&reg), expected);
}
