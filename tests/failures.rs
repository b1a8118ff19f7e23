use stm32_async_i2c_slave::{
    handle_error_interrupt, handle_event_interrupt, Bridge, Control, ErrorFlags, Event, EventFlags,
    I2CError, Notification, ProtocolError, Reason, State,
};

fn quiet() -> EventFlags {
    EventFlags {
        txe: false,
        rxne: false,
        addr: false,
        stopf: false,
        btf: false,
        tra: false,
        gencall: false,
        data: 0,
    }
}

fn no_errors() -> ErrorFlags {
    ErrorFlags {
        af: false,
        berr: false,
        arlo: false,
        ovr: false,
        pecerr: false,
        timeout: false,
        alert: false,
    }
}

fn only_failure<const T: usize, const R: usize>(b: &mut Bridge<T, R>) -> Reason {
    let err = b.receive().expect("a message").expect_err("a failure");
    assert_eq!(b.receive(), None);
    assert!(!b.is_peripheral_enabled());
    err.reason
}

#[test]
fn rxne_and_txne_together() {
    let mut b: Bridge<4, 4> = Bridge::new();
    let r = handle_event_interrupt(&mut b, EventFlags { rxne: true, txe: true, addr: true, ..quiet() });
    assert_eq!(r, None);
    assert_eq!(only_failure(&mut b), Reason::Protocol(ProtocolError::RxneAndTxne));
    assert_eq!(b.get_state(), State::Idle);
}

#[test]
fn rxne_while_not_receiving() {
    let mut b: Bridge<4, 4> = Bridge::new();
    handle_event_interrupt(&mut b, EventFlags { rxne: true, data: 3, ..quiet() });
    assert_eq!(only_failure(&mut b), Reason::Protocol(ProtocolError::RxneWhileNotReceiving));
    assert_eq!(b.get_rxbuf_size(), 0);
}

#[test]
fn txe_while_not_transmitting() {
    let mut b: Bridge<4, 4> = Bridge::new();
    b.set_state(State::Rx);
    handle_event_interrupt(&mut b, EventFlags { txe: true, ..quiet() });
    assert_eq!(only_failure(&mut b), Reason::Protocol(ProtocolError::TxeWhileNotTranseiving));
}

#[test]
fn stop_during_transmission() {
    let mut b: Bridge<4, 4> = Bridge::new();
    b.set_state(State::TxInitial);
    handle_event_interrupt(&mut b, EventFlags { stopf: true, ..quiet() });
    assert_eq!(only_failure(&mut b), Reason::Protocol(ProtocolError::StopDuringTransmission));
}

#[test]
fn nack_while_not_transmitting() {
    let mut b: Bridge<4, 4> = Bridge::new();
    let clear = handle_error_interrupt(&mut b, ErrorFlags { af: true, ovr: true, ..no_errors() });
    assert_eq!(clear, ErrorFlags { af: true, ..no_errors() });
    assert_eq!(only_failure(&mut b), Reason::Protocol(ProtocolError::NackWhileNotTranseiving));
}

#[test]
fn each_hardware_error_is_fatal() {
    let cases = [
        (ErrorFlags { arlo: true, ..no_errors() }, I2CError::ArbitrationLoss),
        (ErrorFlags { ovr: true, ..no_errors() }, I2CError::Overrun),
        (ErrorFlags { pecerr: true, ..no_errors() }, I2CError::PecError),
        (ErrorFlags { timeout: true, ..no_errors() }, I2CError::Timeout),
        (ErrorFlags { alert: true, ..no_errors() }, I2CError::SmBusAlert),
    ];
    for (flags, err) in cases {
        let mut b: Bridge<4, 4> = Bridge::new();
        let clear = handle_error_interrupt(&mut b, flags);
        assert_eq!(clear, flags);
        assert_eq!(only_failure(&mut b), Reason::I2C(err));
    }
}

#[test]
fn first_hardware_error_ends_decoding() {
    let mut b: Bridge<4, 4> = Bridge::new();
    let clear = handle_error_interrupt(
        &mut b,
        ErrorFlags { berr: true, ovr: true, timeout: true, ..no_errors() },
    );
    assert_eq!(clear, ErrorFlags { berr: true, ovr: true, ..no_errors() });
    assert_eq!(only_failure(&mut b), Reason::I2C(I2CError::Overrun));
}

#[test]
fn bus_error_is_cleared_silently() {
    let mut b: Bridge<4, 4> = Bridge::new();
    let clear = handle_error_interrupt(&mut b, ErrorFlags { berr: true, ..no_errors() });
    assert_eq!(clear, ErrorFlags { berr: true, ..no_errors() });
    assert_eq!(b.receive(), None);
    assert!(b.is_peripheral_enabled());
}

#[test]
fn failure_dump_keeps_last_five_events() {
    let mut b: Bridge<4, 4> = Bridge::new();
    for i in 0..3u8 {
        handle_event_interrupt(&mut b, EventFlags { addr: true, gencall: i == 0, ..quiet() });
        handle_event_interrupt(&mut b, EventFlags { stopf: true, ..quiet() });
    }
    b.set_state(State::TxRepeated);
    handle_event_interrupt(&mut b, EventFlags { addr: true, ..quiet() });
    let mut last = None;
    while let Some(m) = b.receive() {
        last = Some(m);
    }
    let err = last.unwrap().unwrap_err();
    assert_eq!(err.reason, Reason::Protocol(ProtocolError::AddrDuringTransmission));
    let addr = Event::Notification(Notification::Addr { tx: false, gencall: false });
    let stop = Event::Notification(Notification::Stop);
    let received = Event::Control(Control::Received { size: 0, write: false });
    assert_eq!(err.dump.event_history, [received, stop, addr, received, stop]);
    assert_eq!(err.dump.current_state, State::TxRepeated);
    assert_eq!(
        err.dump.state_history,
        [State::Rx, State::Idle, State::Rx, State::Idle, State::TxRepeated]
    );
}

#[test]
fn unlock_and_reset_are_idempotent() {
    let mut b: Bridge<4, 4> = Bridge::new();
    b.unlock_tx();
    b.unlock_tx();
    assert!(b.is_buffer_interrupt_enabled() && b.is_event_interrupt_enabled());
    assert_eq!(b.reset_txbuf(), 0);
    assert_eq!(b.reset_txbuf(), 0);
    assert!(b.is_send_buffer_empty());
    b.write(&[1, 2, 3]);
    assert_eq!(b.pop_txbuf_byte(), Some(1));
    assert_eq!(b.reset_txbuf(), 1);
    assert_eq!(b.reset_txbuf(), 0);
    assert_eq!(b.pop_txbuf_byte(), None);
}

#[test]
fn write_masks_nothing_and_rearms() {
    let mut b: Bridge<2, 4> = Bridge::new();
    b.lock_tx(stm32_async_i2c_slave::TxLockType::TxAndBtf);
    assert!(!b.is_event_interrupt_enabled());
    let rest = b.write(&[5, 6, 7]);
    assert_eq!(rest, &[7]);
    assert!(b.is_buffer_interrupt_enabled() && b.is_event_interrupt_enabled());
    assert_eq!(b.pop_txbuf_byte(), Some(5));
    assert_eq!(b.pop_txbuf_byte(), Some(6));
    assert_eq!(b.pop_txbuf_byte(), None);
}

#[test]
fn dump_pads_short_histories() {
    let mut b: Bridge<4, 4> = Bridge::new();
    let stop = Event::Notification(Notification::Stop);
    let d = b.dump_state();
    assert_eq!(d.state_history, [State::Idle; 5]);
    assert_eq!(d.event_history, [stop; 5]);
    assert_eq!(d.current_state, State::Idle);
    b.set_state(State::Rx);
    let sent = Event::Notification(Notification::Sent { sent: 4 });
    b.notify(sent);
    let d = b.dump_state();
    assert_eq!(
        d.state_history,
        [State::Idle, State::Idle, State::Idle, State::Idle, State::Rx]
    );
    assert_eq!(d.event_history, [stop, stop, stop, stop, sent]);
    assert_eq!(d.current_state, State::Rx);
}
