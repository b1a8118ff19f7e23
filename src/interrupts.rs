//! The decoders of the peripheral's event and error interrupts. Each takes the
//! status flags that the interrupt routine read, drives the bridge's state
//! machine, and says what must be written back to the hardware.
use vstd::prelude::*;

use crate::bridge::{dump_of, fail_m, reset_txbuf_m, lock_m, notify_m, set_state_m, Bridge, BridgeModel, Message};
use crate::tx_lock::TxLockType;
use crate::{Control, Event, I2CError, Notification, ProtocolError, Reason, State};

verus! {

/// The flags an event interrupt acts on: those of the first status register,
/// and, where `addr` is set, `tra` and `gencall` as read from the second status
/// register (the read that clears ADDR); `data` is the data register as read
/// where `rxne` is set.
#[derive(Debug, Clone, Copy, PartialEq, Eq, Structural)]
pub struct EventFlags {
    pub txe: bool,
    pub rxne: bool,
    pub addr: bool,
    pub stopf: bool,
    pub btf: bool,
    pub tra: bool,
    pub gencall: bool,
    pub data: u8,
}

/// The error flags of the first status register.
#[derive(Debug, Clone, Copy, PartialEq, Eq, Structural)]
pub struct ErrorFlags {
    pub af: bool,
    pub berr: bool,
    pub arlo: bool,
    pub ovr: bool,
    pub pecerr: bool,
    pub timeout: bool,
    pub alert: bool,
}

pub open spec fn is_transmitting(s: State) -> bool {
    s == State::TxInitial || s == State::TxRepeated
}

/// The ADDR step; the flag says whether decoding goes on.
pub open spec fn addr_phase(m: BridgeModel, f: EventFlags) -> (BridgeModel, bool) {
    if !f.addr {
        (m, true)
    } else if is_transmitting(m.state) {
        (fail_m(m, Reason::Protocol(ProtocolError::AddrDuringTransmission)), false)
    } else {
        let m1 = set_state_m(m, if f.tra { State::TxInitial } else { State::Rx });
        let m2 = if m.state == State::Rx {
            notify_m(m1, Event::Control(Control::Received { size: m.rx.len() as usize, write: f.tra }))
        } else {
            m1
        };
        (notify_m(m2, Event::Notification(Notification::Addr { tx: f.tra, gencall: f.gencall })), true)
    }
}

/// The RXNE step, with a receive buffer of `cap` bytes.
pub open spec fn rxne_phase(m: BridgeModel, f: EventFlags, cap: nat) -> (BridgeModel, bool) {
    if !f.rxne {
        (m, true)
    } else if m.state != State::Rx {
        (fail_m(m, Reason::Protocol(ProtocolError::RxneWhileNotReceiving)), false)
    } else if m.rx.len() >= cap {
        (fail_m(m, Reason::ReceiveBufferFull), false)
    } else {
        (BridgeModel { rx: m.rx.push(f.data), ..m }, true)
    }
}

/// The TXE step; the last component is the byte to put into the data register.
pub open spec fn txe_phase(m: BridgeModel, f: EventFlags) -> (BridgeModel, bool, Option<u8>) {
    if !f.txe {
        (m, true, None)
    } else if !is_transmitting(m.state) {
        (fail_m(m, Reason::Protocol(ProtocolError::TxeWhileNotTranseiving)), false, None)
    } else {
        let initial = m.state == State::TxInitial;
        if initial || f.btf {
            if m.tx.len() > 0 {
                let m1 = BridgeModel { tx: m.tx.drop_first(), sent: m.sent + 1, ..m };
                (if initial { set_state_m(m1, State::TxRepeated) } else { m1 }, true, Some(m.tx[0]))
            } else {
                (
                    notify_m(
                        lock_m(m, TxLockType::TxAndBtf),
                        Event::Control(Control::TxEmpty { initial }),
                    ),
                    true,
                    None,
                )
            }
        } else {
            (lock_m(m, TxLockType::TxOnly), true, None)
        }
    }
}

/// The STOPF step: the peripheral is enabled again in any case.
pub open spec fn stop_phase(m: BridgeModel, f: EventFlags) -> BridgeModel {
    if !f.stopf {
        m
    } else {
        let m0 = BridgeModel { enabled: true, ..m };
        if is_transmitting(m.state) {
            fail_m(m0, Reason::Protocol(ProtocolError::StopDuringTransmission))
        } else {
            let m1 = if m.state == State::Rx {
                notify_m(m0, Event::Control(Control::Received { size: m.rx.len() as usize, write: false }))
            } else {
                m0
            };
            if m.state != State::Idle {
                notify_m(set_state_m(m1, State::Idle), Event::Notification(Notification::Stop))
            } else {
                m1
            }
        }
    }
}

/// One event interrupt, with a receive buffer of `cap` bytes: the bridge
/// afterwards and the byte to put into the data register, if any. The flags are
/// decoded in a fixed order and decoding ends at the first failure.
pub open spec fn event_step(m: BridgeModel, f: EventFlags, cap: nat) -> (BridgeModel, Option<u8>) {
    if f.txe && f.rxne {
        (fail_m(m, Reason::Protocol(ProtocolError::RxneAndTxne)), None)
    } else {
        let (m1, c1) = addr_phase(m, f);
        if !c1 {
            (m1, None)
        } else {
            let (m2, c2) = rxne_phase(m1, f, cap);
            if !c2 {
                (m2, None)
            } else {
                let (m3, c3, d) = txe_phase(m2, f);
                if !c3 {
                    (m3, None)
                } else {
                    (stop_phase(m3, f), d)
                }
            }
        }
    }
}

pub open spec fn no_flags() -> ErrorFlags {
    ErrorFlags {
        af: false,
        berr: false,
        arlo: false,
        ovr: false,
        pecerr: false,
        timeout: false,
        alert: false,
    }
}

/// The acknowledge-failure step; the flag says whether decoding goes on.
pub open spec fn nack_phase(m: BridgeModel, f: ErrorFlags) -> (BridgeModel, bool) {
    if !f.af {
        (m, true)
    } else if is_transmitting(m.state) {
        let m1 = reset_txbuf_m(set_state_m(m, State::Nack));
        (notify_m(m1, Event::Notification(Notification::Sent { sent: m.sent as usize })), true)
    } else {
        (fail_m(m, Reason::Protocol(ProtocolError::NackWhileNotTranseiving)), false)
    }
}

/// One error interrupt: the bridge afterwards and the flags to clear. A bus
/// error is cleared and otherwise ignored; each other error is fatal and ends
/// decoding.
pub open spec fn error_step(m: BridgeModel, f: ErrorFlags) -> (BridgeModel, ErrorFlags) {
    let (m1, c1) = nack_phase(m, f);
    let base = ErrorFlags { af: f.af, berr: f.berr, ..no_flags() };
    if !c1 {
        (m1, ErrorFlags { af: true, ..no_flags() })
    } else if f.arlo {
        (fail_m(m1, Reason::I2C(I2CError::ArbitrationLoss)), ErrorFlags { arlo: true, ..base })
    } else if f.ovr {
        (fail_m(m1, Reason::I2C(I2CError::Overrun)), ErrorFlags { ovr: true, ..base })
    } else if f.pecerr {
        (fail_m(m1, Reason::I2C(I2CError::PecError)), ErrorFlags { pecerr: true, ..base })
    } else if f.timeout {
        (fail_m(m1, Reason::I2C(I2CError::Timeout)), ErrorFlags { timeout: true, ..base })
    } else if f.alert {
        (fail_m(m1, Reason::I2C(I2CError::SmBusAlert)), ErrorFlags { alert: true, ..base })
    } else {
        (m1, base)
    }
}

/// Which of addr, rxne, txe and stopf are set; `btf` and the rest are left open.
pub open spec fn only_flag(f: EventFlags, addr: bool, rxne: bool, txe: bool, stopf: bool) -> bool {
    f.addr == addr && f.rxne == rxne && f.txe == txe && f.stopf == stopf
}

/// Every legal transition of the event state machine queues exactly the events
/// prescribed for it, in order, and no failure.
pub proof fn lemma_legal_event_transitions(m: BridgeModel, f: EventFlags, cap: nat)
    ensures
        // Idle or Nack, addressed: Rx or TxInitial, then Addr.
        (m.state == State::Idle || m.state == State::Nack) && only_flag(f, true, false, false, false)
            ==> event_step(m, f, cap).0.state == (if f.tra { State::TxInitial } else { State::Rx })
            && event_step(m, f, cap).0.outbox == m.outbox.push(
                Message::Event(Event::Notification(Notification::Addr { tx: f.tra, gencall: f.gencall })),
            ) && event_step(m, f, cap).1 is None,
        // Rx, a byte in: stored.
        m.state == State::Rx && only_flag(f, false, true, false, false) && m.rx.len() < cap
            ==> event_step(m, f, cap).0 == (BridgeModel { rx: m.rx.push(f.data), ..m })
            && event_step(m, f, cap).1 is None,
        // Rx, stop: Received, then Stop, and back to Idle.
        m.state == State::Rx && only_flag(f, false, false, false, true)
            ==> event_step(m, f, cap).0.state == State::Idle
            && event_step(m, f, cap).0.enabled
            && event_step(m, f, cap).0.outbox == m.outbox.push(
                Message::Event(Event::Control(Control::Received { size: m.rx.len() as usize, write: false })),
            ).push(Message::Event(Event::Notification(Notification::Stop))),
        // Rx, repeated start: Received, then Addr.
        m.state == State::Rx && only_flag(f, true, false, false, false)
            ==> event_step(m, f, cap).0.state == (if f.tra { State::TxInitial } else { State::Rx })
            && event_step(m, f, cap).0.outbox == m.outbox.push(
                Message::Event(Event::Control(Control::Received { size: m.rx.len() as usize, write: f.tra })),
            ).push(Message::Event(Event::Notification(Notification::Addr { tx: f.tra, gencall: f.gencall }))),
        // TxInitial, data register empty, a byte ready: sent, TxRepeated.
        m.state == State::TxInitial && only_flag(f, false, false, true, false) && m.tx.len() > 0
            ==> event_step(m, f, cap).1 == Some(m.tx[0])
            && event_step(m, f, cap).0.state == State::TxRepeated
            && event_step(m, f, cap).0.tx == m.tx.drop_first()
            && event_step(m, f, cap).0.outbox == m.outbox,
        // TxInitial, data register empty, nothing ready: TxEmpty { initial }, both
        // interrupts masked.
        m.state == State::TxInitial && only_flag(f, false, false, true, false) && m.tx.len() == 0
            ==> event_step(m, f, cap).1 is None
            && event_step(m, f, cap).0.state == State::TxInitial
            && !event_step(m, f, cap).0.buffer_irq && !event_step(m, f, cap).0.event_irq
            && event_step(m, f, cap).0.outbox == m.outbox.push(
                Message::Event(Event::Control(Control::TxEmpty { initial: true })),
            ),
        // TxRepeated, byte transfer finished, a byte ready: sent.
        m.state == State::TxRepeated && only_flag(f, false, false, true, false) && f.btf && m.tx.len() > 0
            ==> event_step(m, f, cap).1 == Some(m.tx[0])
            && event_step(m, f, cap).0.state == State::TxRepeated
            && event_step(m, f, cap).0.tx == m.tx.drop_first()
            && event_step(m, f, cap).0.outbox == m.outbox,
        // TxRepeated, byte transfer finished, nothing ready: TxEmpty, both masked.
        m.state == State::TxRepeated && only_flag(f, false, false, true, false) && f.btf && m.tx.len() == 0
            ==> event_step(m, f, cap).1 is None
            && event_step(m, f, cap).0.state == State::TxRepeated
            && !event_step(m, f, cap).0.buffer_irq && !event_step(m, f, cap).0.event_irq
            && event_step(m, f, cap).0.outbox == m.outbox.push(
                Message::Event(Event::Control(Control::TxEmpty { initial: false })),
            ),
        // TxRepeated, byte still on the wire: only the buffer interrupt is masked.
        m.state == State::TxRepeated && only_flag(f, false, false, true, false) && !f.btf
            ==> event_step(m, f, cap).0 == lock_m(m, TxLockType::TxOnly)
            && event_step(m, f, cap).1 is None,
        // Nack, stop: Stop, and back to Idle.
        m.state == State::Nack && only_flag(f, false, false, false, true)
            ==> event_step(m, f, cap).0.state == State::Idle
            && event_step(m, f, cap).0.enabled
            && event_step(m, f, cap).0.outbox == m.outbox.push(
                Message::Event(Event::Notification(Notification::Stop)),
            ),
{
}

/// A NACK from the master while transmitting ends the block: the state becomes
/// Nack, the send buffer is emptied and `Sent` reports how many bytes went out.
pub proof fn lemma_nack_while_transmitting(m: BridgeModel, f: ErrorFlags)
    requires
        is_transmitting(m.state),
        f == (ErrorFlags { af: true, ..no_flags() }),
    ensures
        error_step(m, f).0.state == State::Nack,
        error_step(m, f).0.tx == Seq::<u8>::empty(),
        error_step(m, f).0.enabled == m.enabled,
        error_step(m, f).0.outbox == m.outbox.push(
            Message::Event(Event::Notification(Notification::Sent { sent: m.sent as usize })),
        ),
        error_step(m, f).1 == f,
{
}

/// The failure queued when `reason` is raised in `m`.
pub open spec fn failure_in(m: BridgeModel, reason: Reason) -> Message {
    Message::Failure(reason, dump_of(m))
}

/// Each illegal flag combination queues exactly the matching failure, as the
/// last message, and leaves the peripheral disabled.
pub proof fn lemma_illegal_event_flags(m: BridgeModel, f: EventFlags, cap: nat)
    ensures
        f.txe && f.rxne ==> event_step(m, f, cap).0 == fail_m(m, Reason::Protocol(ProtocolError::RxneAndTxne)),
        is_transmitting(m.state) && f.addr && !(f.txe && f.rxne)
            ==> event_step(m, f, cap).0 == fail_m(m, Reason::Protocol(ProtocolError::AddrDuringTransmission)),
        m.state != State::Rx && only_flag(f, false, true, false, false)
            ==> event_step(m, f, cap).0 == fail_m(m, Reason::Protocol(ProtocolError::RxneWhileNotReceiving)),
        m.state == State::Rx && only_flag(f, false, true, false, false) && m.rx.len() >= cap
            ==> event_step(m, f, cap).0 == fail_m(m, Reason::ReceiveBufferFull),
        !is_transmitting(m.state) && only_flag(f, false, false, true, false)
            ==> event_step(m, f, cap).0 == fail_m(m, Reason::Protocol(ProtocolError::TxeWhileNotTranseiving)),
        is_transmitting(m.state) && only_flag(f, false, false, false, true)
            ==> event_step(m, f, cap).0 == fail_m(
                BridgeModel { enabled: true, ..m },
                Reason::Protocol(ProtocolError::StopDuringTransmission),
            ),
        event_step(m, f, cap).0.outbox.len() > m.outbox.len()
            && event_step(m, f, cap).0.outbox.last() is Failure ==> !event_step(m, f, cap).0.enabled,
{
}

/// Each error flag but a bus error is fatal: the matching failure is queued and
/// the peripheral disabled; a NACK outside a transmission is a protocol error.
pub proof fn lemma_illegal_error_flags(m: BridgeModel, f: ErrorFlags)
    ensures
        !is_transmitting(m.state) && f.af
            ==> error_step(m, f).0 == fail_m(m, Reason::Protocol(ProtocolError::NackWhileNotTranseiving)),
        !f.af && f.arlo ==> error_step(m, f).0 == fail_m(m, Reason::I2C(I2CError::ArbitrationLoss)),
        !f.af && !f.arlo && f.ovr ==> error_step(m, f).0 == fail_m(m, Reason::I2C(I2CError::Overrun)),
        !f.af && !f.arlo && !f.ovr && f.pecerr
            ==> error_step(m, f).0 == fail_m(m, Reason::I2C(I2CError::PecError)),
        !f.af && !f.arlo && !f.ovr && !f.pecerr && f.timeout
            ==> error_step(m, f).0 == fail_m(m, Reason::I2C(I2CError::Timeout)),
        !f.af && !f.arlo && !f.ovr && !f.pecerr && !f.timeout && f.alert
            ==> error_step(m, f).0 == fail_m(m, Reason::I2C(I2CError::SmBusAlert)),
        f == (ErrorFlags { berr: true, ..no_flags() }) ==> error_step(m, f).0 == m,
        error_step(m, f).0.outbox.len() > m.outbox.len() && error_step(m, f).0.outbox.last() is Failure
            ==> !error_step(m, f).0.enabled,
{
}

/// The state once the ADDR step has run, where decoding goes on past it.
pub open spec fn state_after_addr(state: State, addr: bool, tra: bool) -> State {
    if addr && !is_transmitting(state) {
        if tra { State::TxInitial } else { State::Rx }
    } else {
        state
    }
}

/// Whether decoding in `state` uses `tra` and `gencall`, so that the second
/// status register must be read (which also clears ADDR).
pub open spec fn uses_status2(state: State, txe: bool, rxne: bool, addr: bool) -> bool {
    addr && !(txe && rxne) && !is_transmitting(state)
}

/// Whether decoding in `state` stores the received byte, so that the data
/// register must be read.
pub open spec fn uses_data(state: State, txe: bool, rxne: bool, addr: bool, tra: bool) -> bool {
    rxne && !txe && !(addr && is_transmitting(state)) && state_after_addr(state, addr, tra) == State::Rx
}

/// Whether an event interrupt in `state` with these first-status-register flags
/// needs the second status register.
pub fn needs_status2(state: State, txe: bool, rxne: bool, addr: bool) -> (r: bool)
    ensures
        r == uses_status2(state, txe, rxne, addr),
{
    addr && !(txe && rxne) && !matches!(state, State::TxInitial | State::TxRepeated)
}

/// Whether an event interrupt in `state` with these flags needs the data
/// register; `tra` matters only where `needs_status2` holds.
pub fn needs_data(state: State, txe: bool, rxne: bool, addr: bool, tra: bool) -> (r: bool)
    ensures
        r == uses_data(state, txe, rxne, addr, tra),
{
    let transmitting = matches!(state, State::TxInitial | State::TxRepeated);
    let after = if addr && !transmitting {
        if tra { State::TxInitial } else { State::Rx }
    } else {
        state
    };
    rxne && !txe && !(addr && transmitting) && matches!(after, State::Rx)
}

/// A register that decoding does not use cannot change its outcome: where the
/// data register is not needed its value is irrelevant, and where the second
/// status register is not needed so are `tra` and `gencall`.
pub proof fn lemma_unread_registers_irrelevant(m: BridgeModel, f: EventFlags, g: EventFlags, cap: nat)
    requires
        f.txe == g.txe && f.rxne == g.rxne && f.addr == g.addr && f.stopf == g.stopf && f.btf == g.btf,
        f.tra == g.tra && f.gencall == g.gencall || !uses_status2(m.state, f.txe, f.rxne, f.addr),
        f.data == g.data || !uses_data(m.state, f.txe, f.rxne, f.addr, f.tra),
        f.data == g.data || !uses_data(m.state, g.txe, g.rxne, g.addr, g.tra),
    ensures
        event_step(m, f, cap) == event_step(m, g, cap),
{
}

/// Handles an event interrupt; returns the byte to write to the data register,
/// if any. The peripheral and interrupt enable bits to write back are those the
/// bridge holds afterwards.
#[verifier::rlimit(40)]
pub fn handle_event_interrupt<const TXBUFSIZE: usize, const RXBUFSIZE: usize>(
    bridge: &mut Bridge<TXBUFSIZE, RXBUFSIZE>,
    flags: EventFlags,
) -> (r: Option<u8>)
    requires
        old(bridge).wf(),
    ensures
        final(bridge).wf(),
        (final(bridge).model(), r) == event_step(old(bridge).model(), flags, RXBUFSIZE as nat),
{
    let ghost m0 = bridge.model();
    if flags.txe && flags.rxne {
        bridge.fail(Reason::Protocol(ProtocolError::RxneAndTxne));
        return None;
    }
    if flags.addr {
        let state = bridge.get_state();
        match state {
            State::TxInitial | State::TxRepeated => {
                bridge.fail(Reason::Protocol(ProtocolError::AddrDuringTransmission));
                return None;
            },
            State::Idle | State::Rx | State::Nack => {
                bridge.set_state(if flags.tra { State::TxInitial } else { State::Rx });
                if state == State::Rx {
                    let size = bridge.get_rxbuf_size();
                    bridge.notify(Event::Control(Control::Received { size, write: flags.tra }));
                }
                bridge.notify(Event::Notification(Notification::Addr { tx: flags.tra, gencall: flags.gencall }));
            },
        }
    }
    let ghost m1 = bridge.model();
    assert(m1 == addr_phase(m0, flags).0);
    if flags.rxne {
        match bridge.get_state() {
            State::Rx => {
                if bridge.write_rxbuf_byte(flags.data).is_err() {
                    bridge.fail(Reason::ReceiveBufferFull);
                    return None;
                }
            },
            _ => {
                bridge.fail(Reason::Protocol(ProtocolError::RxneWhileNotReceiving));
                return None;
            },
        }
    }
    let ghost m2 = bridge.model();
    assert(m2 == rxne_phase(m1, flags, RXBUFSIZE as nat).0);
    let mut out: Option<u8> = None;
    if flags.txe {
        let state = bridge.get_state();
        match state {
            State::Idle | State::Rx | State::Nack => {
                bridge.fail(Reason::Protocol(ProtocolError::TxeWhileNotTranseiving));
                return None;
            },
            State::TxInitial | State::TxRepeated => {
                let initial = state == State::TxInitial;
                if initial || flags.btf {
                    match bridge.pop_txbuf_byte() {
                        Some(byte) => {
                            out = Some(byte);
                            if initial {
                                bridge.set_state(State::TxRepeated);
                            }
                        },
                        None => {
                            bridge.lock_tx(TxLockType::TxAndBtf);
                            bridge.notify(Event::Control(Control::TxEmpty { initial }));
                        },
                    }
                } else {
                    // The byte on the wire has to finish first.
                    bridge.lock_tx(TxLockType::TxOnly);
                }
            },
        }
    }
    let ghost m3 = bridge.model();
    assert(m3 == txe_phase(m2, flags).0);
    assert(out == txe_phase(m2, flags).2);
    if flags.stopf {
        bridge.enable_peripheral();
        let state = bridge.get_state();
        match state {
            State::TxInitial | State::TxRepeated => {
                bridge.fail(Reason::Protocol(ProtocolError::StopDuringTransmission));
                return out;
            },
            State::Idle | State::Rx | State::Nack => {
                if state == State::Rx {
                    let size = bridge.get_rxbuf_size();
                    bridge.notify(Event::Control(Control::Received { size, write: false }));
                }
                if state != State::Idle {
                    bridge.set_state(State::Idle);
                    bridge.notify(Event::Notification(Notification::Stop));
                }
            },
        }
    }
    out
}

/// Handles an error interrupt; returns the flags to clear in the status register.
pub fn handle_error_interrupt<const TXBUFSIZE: usize, const RXBUFSIZE: usize>(
    bridge: &mut Bridge<TXBUFSIZE, RXBUFSIZE>,
    flags: ErrorFlags,
) -> (r: ErrorFlags)
    requires
        old(bridge).wf(),
    ensures
        final(bridge).wf(),
        (final(bridge).model(), r) == error_step(old(bridge).model(), flags),
{
    let ghost m0 = bridge.model();
    let mut clear = ErrorFlags {
        af: false,
        berr: false,
        arlo: false,
        ovr: false,
        pecerr: false,
        timeout: false,
        alert: false,
    };
    if flags.af {
        clear.af = true;
        match bridge.get_state() {
            State::TxInitial | State::TxRepeated => {
                bridge.set_state(State::Nack);
                let sent = bridge.reset_txbuf();
                bridge.notify(Event::Notification(Notification::Sent { sent }));
            },
            State::Idle | State::Rx | State::Nack => {
                bridge.fail(Reason::Protocol(ProtocolError::NackWhileNotTranseiving));
                return clear;
            },
        }
    }
    assert(bridge.model() == nack_phase(m0, flags).0);
    if flags.berr {
        clear.berr = true;
    }
    if flags.arlo {
        clear.arlo = true;
        bridge.fail(Reason::I2C(I2CError::ArbitrationLoss));
    } else if flags.ovr {
        clear.ovr = true;
        bridge.fail(Reason::I2C(I2CError::Overrun));
    } else if flags.pecerr {
        clear.pecerr = true;
        bridge.fail(Reason::I2C(I2CError::PecError));
    } else if flags.timeout {
        clear.timeout = true;
        bridge.fail(Reason::I2C(I2CError::Timeout));
    } else if flags.alert {
        clear.alert = true;
        bridge.fail(Reason::I2C(I2CError::SmBusAlert));
    }
    clear
}

} // verus!
