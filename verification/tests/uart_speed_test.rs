use rv_csr_test::config::Board;
use rv_csr_test::plic::{init_hart, ContextError, PlicOp};
use rv_csr_test::uart_speed_test::{
    delay_ticks, speed_test_irq, speed_test_setup, SpeedTest, ROUND, TEST_BYTE,
};
use rv_csr_test::user_uart::{PollingSerial, WouldBlock, FIFO_DEPTH};

#[test]
fn test_constants() {
    assert_eq!(ROUND, 14);
    assert_eq!(TEST_BYTE, 0x55);
}

#[test]
fn irq_of_the_tested_port() {
    assert_eq!(speed_test_irq(Board::Qemu, 0), 14);
    assert_eq!(speed_test_irq(Board::Qemu, 1), 15);
    assert_eq!(speed_test_irq(Board::Lrv, 0), 6);
    assert_eq!(speed_test_irq(Board::Lrv, 1), 7);
}

#[test]
fn setup_brings_the_hart_up_then_enables_the_source_for_the_mode() {
    let mut expected = init_hart(Board::Qemu, 1);
    expected.push(PlicOp::Enable { context: 5, irq: 15 });
    assert_eq!(speed_test_setup(Board::Qemu, 1, 'U'), Ok(expected));
    let mut expected = init_hart(Board::Lrv, 0);
    expected.push(PlicOp::Enable { context: 1, irq: 6 });
    assert_eq!(speed_test_setup(Board::Lrv, 0, 'S'), Ok(expected));
    assert_eq!(speed_test_setup(Board::Lrv, 0, 'x'), Err(ContextError::InvalidMode));
}

#[test]
fn delay_in_ticks() {
    assert_eq!(delay_ticks(Board::Qemu, 100), Some(1_250_000));
    assert_eq!(delay_ticks(Board::Lrv, 5000), Some(50_000_000));
    assert_eq!(delay_ticks(Board::Lrv, 0), Some(0));
    assert_eq!(delay_ticks(Board::Qemu, 1), Some(12_500));
    assert_eq!(delay_ticks(Board::Qemu, usize::MAX), None);
    assert_eq!(delay_ticks(Board::Lrv, usize::MAX / 10_000_000), Some(usize::MAX / 10_000_000 * 10_000));
    assert_eq!(delay_ticks(Board::Lrv, usize::MAX / 10_000_000 + 1), None);
}

#[test]
fn digest_of_no_traffic_is_the_hash_of_nothing() {
    let test = SpeedTest::new(0x1000_4000, TEST_BYTE);
    assert_eq!(&test.digest(), blake3::hash(b"").as_bytes());
    assert_eq!(test.port(), PollingSerial::new(0x1000_4000));
}

#[test]
fn digest_covers_sent_and_received_bytes_in_order() {
    let mut test = SpeedTest::new(0, TEST_BYTE);
    assert_eq!(test.write(0x60), Ok(0x55));
    assert_eq!(test.write(0x00), Ok(0x55));
    assert_eq!(test.read(Some(0x01)), Ok(0x01));
    assert_eq!(test.read(None), Err(WouldBlock));
    assert_eq!(test.read(Some(0xfe)), Ok(0xfe));
    assert_eq!(test.write(0x20), Ok(0x55));
    assert_eq!(&test.digest(), blake3::hash(&[0x55, 0x55, 0x01, 0xfe, 0x55]).as_bytes());
    assert_ne!(&test.digest(), blake3::hash(&[0x55, 0x55, 0x55, 0x01, 0xfe]).as_bytes());
    assert_eq!(test.port().tx_count, 3);
    assert_eq!(test.port().rx_count, 2);
    assert_eq!(test.digest(), test.digest());
}

#[test]
fn blocked_write_adds_nothing_to_the_digest() {
    let mut test = SpeedTest::new(0, 0);
    for _ in 0..FIFO_DEPTH {
        assert_eq!(test.write(0), Ok(0));
    }
    let before = test.digest();
    assert_eq!(test.write(0x00), Err(WouldBlock));
    assert_eq!(test.write(0xdf), Err(WouldBlock));
    assert_eq!(test.digest(), before);
    assert_eq!(&before, blake3::hash(&[0u8; 16]).as_bytes());
    assert_eq!(test.write(0x20), Ok(0));
    assert_eq!(&test.digest(), blake3::hash(&[0u8; 17]).as_bytes());
    assert_eq!(test.port().tx_fifo_count, 1);
}

#[test]
fn digest_of_long_traffic() {
    let mut test = SpeedTest::new(0, TEST_BYTE);
    let mut expected: Vec<u8> = Vec::new();
    for round in 0..200usize {
        for _ in 0..ROUND {
            if let Ok(b) = test.write(0x20) {
                expected.push(b);
            }
        }
        for k in 0..ROUND {
            let byte = (round * ROUND + k) as u8;
            if let Ok(b) = test.read(Some(byte)) {
                expected.push(b);
            }
        }
    }
    assert_eq!(expected.len(), 5600);
    assert_eq!(&test.digest(), blake3::hash(&expected).as_bytes());
}

#[test]
fn test_needs_the_line_status_only_when_its_port_does() {
    let mut test = SpeedTest::new(0, TEST_BYTE);
    for _ in 0..FIFO_DEPTH {
        assert!(!test.needs_line_status());
        assert_eq!(test.write(0x00), Ok(0x55));
    }
    assert!(test.needs_line_status());
    assert_eq!(test.write(0x20), Ok(0x55));
    assert!(!test.needs_line_status());
}
