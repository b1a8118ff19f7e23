use stm32_async_i2c_slave::{
    needs_data, needs_status2, slave_config, ConfigError, ReceiveBuffer, SendBuffer, SlaveConfig,
    State, StateHolder, TxLock, TxLockType,
};

#[test]
fn receive_buffer_reads_in_append_order() {
    let mut rb: ReceiveBuffer<4> = ReceiveBuffer::new();
    assert_eq!(rb.write_byte(7), Ok(()));
    assert_eq!(rb.write_byte(8), Ok(()));
    assert_eq!(rb.write_byte(9), Ok(()));
    assert_eq!(rb.get_size(), 3);
    let mut dst = [0xAAu8; 5];
    assert_eq!(rb.read(&mut dst), Ok(3));
    assert_eq!(dst, [7, 8, 9, 0xAA, 0xAA]);
}

#[test]
fn receive_buffer_short_destination_is_untouched() {
    let mut rb: ReceiveBuffer<4> = ReceiveBuffer::new();
    rb.write_byte(1).unwrap();
    rb.write_byte(2).unwrap();
    let mut dst = [0x55u8; 1];
    assert_eq!(rb.read(&mut dst), Err(2));
    assert_eq!(dst, [0x55]);
    assert_eq!(rb.read(&mut []), Err(2));
    assert_eq!(rb.get_size(), 2);
}

#[test]
fn receive_buffer_full_refuses_bytes() {
    let mut rb: ReceiveBuffer<2> = ReceiveBuffer::new();
    assert_eq!(rb.write_byte(1), Ok(()));
    assert_eq!(rb.write_byte(2), Ok(()));
    assert_eq!(rb.write_byte(3), Err(()));
    let mut dst = [0u8; 2];
    assert_eq!(rb.read(&mut dst), Ok(2));
    assert_eq!(dst, [1, 2]);
    rb.reset();
    assert_eq!(rb.get_size(), 0);
    assert_eq!(rb.read(&mut []), Ok(0));
}

#[test]
fn send_buffer_round_trip() {
    let mut sb: SendBuffer<8> = SendBuffer::new();
    assert!(sb.is_empty());
    let rest = sb.write(&[1, 2, 3]);
    assert!(rest.is_empty());
    assert!(!sb.is_empty());
    assert_eq!(sb.next(), Some(1));
    assert_eq!(sb.next(), Some(2));
    assert_eq!(sb.bytes_sent(), 2);
    assert_eq!(sb.next(), Some(3));
    assert_eq!(sb.next(), None);
    assert_eq!(sb.bytes_sent(), 3);
    assert!(sb.is_empty());
}

#[test]
fn send_buffer_oversize_returns_tail() {
    let mut sb: SendBuffer<2> = SendBuffer::new();
    let src = [10u8, 20, 30, 40];
    let rest = sb.write(&src);
    assert_eq!(rest, &[30, 40]);
    assert_eq!(sb.next(), Some(10));
    assert_eq!(sb.next(), Some(20));
    assert_eq!(sb.next(), None);
}

#[test]
fn send_buffer_reset_is_idempotent() {
    let mut sb: SendBuffer<4> = SendBuffer::new();
    sb.reset();
    assert!(sb.is_empty());
    assert_eq!(sb.bytes_sent(), 0);
    sb.write(&[1, 2]);
    sb.next();
    sb.reset();
    sb.reset();
    assert!(sb.is_empty());
    assert_eq!(sb.bytes_sent(), 0);
    assert_eq!(sb.next(), None);
}

#[test]
fn state_holder_keeps_last_five() {
    let mut h = StateHolder::new();
    assert_eq!(h.get_state(), State::Idle);
    assert!(h.get_history().is_empty());
    let seq = [
        State::Rx,
        State::Idle,
        State::TxInitial,
        State::TxRepeated,
        State::Nack,
        State::Idle,
        State::Rx,
    ];
    for s in seq {
        h.set_state(s);
    }
    assert_eq!(h.get_state(), State::Rx);
    assert_eq!(h.get_history(), seq[2..].to_vec());
}

#[test]
fn state_holder_short_history() {
    let mut h = StateHolder::new();
    h.set_state(State::TxInitial);
    h.set_state(State::TxRepeated);
    assert_eq!(h.get_state(), State::TxRepeated);
    assert_eq!(h.get_history(), vec![State::TxInitial, State::TxRepeated]);
}

#[test]
fn tx_lock_flavours() {
    let mut l = TxLock::new();
    assert!(l.buffer_interrupt_enabled() && l.event_interrupt_enabled());
    l.lock(TxLockType::TxOnly);
    assert!(!l.buffer_interrupt_enabled());
    assert!(l.event_interrupt_enabled());
    l.lock(TxLockType::TxAndBtf);
    assert!(!l.buffer_interrupt_enabled());
    assert!(!l.event_interrupt_enabled());
    l.unlock();
    l.unlock();
    assert!(l.buffer_interrupt_enabled() && l.event_interrupt_enabled());
}

#[test]
fn send_buffer_drain_yields_written_prefix() {
    let mut sb: SendBuffer<3> = SendBuffer::new();
    let rest = sb.write(&[4, 5, 6, 7]);
    assert_eq!(rest, &[7]);
    assert_eq!(sb.next(), Some(4));
    assert_eq!(sb.drain(), vec![5, 6]);
    assert!(sb.is_empty());
    assert_eq!(sb.bytes_sent(), 3);
    assert_eq!(sb.drain(), Vec::<u8>::new());
}

#[test]
fn slave_config_register_values() {
    assert_eq!(
        slave_config(16_000_000, 100_000, 0x76),
        Ok(SlaveConfig { freq: 16, trise: 17, ccr: 80, address: 0xEC })
    );
    assert_eq!(
        slave_config(42_000_000, 50_000, 0),
        Ok(SlaveConfig { freq: 42, trise: 43, ccr: 420, address: 0 })
    );
}

#[test]
fn slave_config_checks() {
    assert_eq!(slave_config(16_000_000, 400_000, 0x76), Err(ConfigError::FastMode));
    assert_eq!(slave_config(16_000_000, 400_000, 200), Err(ConfigError::FastMode));
    assert_eq!(slave_config(16_000_000, 100_000, 128), Err(ConfigError::AddressOutOfRange));
    assert_eq!(slave_config(1_999_999, 100_000, 127), Err(ConfigError::BusClockTooSlow));
    assert!(slave_config(2_000_000, 100_000, 127).is_ok());
}

#[test]
fn register_reads_follow_the_state() {
    assert!(needs_status2(State::Idle, false, false, true));
    assert!(needs_status2(State::Rx, false, true, true));
    assert!(!needs_status2(State::TxRepeated, false, false, true));
    assert!(!needs_status2(State::Idle, true, true, true));
    assert!(!needs_status2(State::Idle, false, false, false));
    assert!(needs_data(State::Rx, false, true, false, false));
    assert!(needs_data(State::Idle, false, true, true, false));
    assert!(!needs_data(State::Idle, false, true, true, true));
    assert!(!needs_data(State::Idle, false, true, false, false));
    assert!(!needs_data(State::Rx, true, true, false, false));
    assert!(!needs_data(State::TxInitial, false, true, true, false));
}
