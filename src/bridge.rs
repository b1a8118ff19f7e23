use heapless::Deque;
use vstd::prelude::*;

use crate::deque::{
    event_deque_new, event_deque_to_vec, events_in, push_bounded, push_event_bounded,
    EVENTS_HISTORY_SIZE, STATES_HISTORY_SIZE,
};
use crate::receive_buffer::ReceiveBuffer;
use crate::send_buffer::{taken, SendBuffer};
use crate::state_holder::StateHolder;
use crate::tx_lock::{TxLock, TxLockType};
use crate::{Error, Event, Notification, Reason, State};

verus! {

/// A snapshot of the bridge for post-mortem diagnostics.
#[derive(Debug, Clone, Copy, PartialEq, Eq)]
pub struct StateDump {
    /// The last states entered, oldest first and ending in the last slot; the
    /// slots before them hold `Idle`.
    pub state_history: [State; STATES_HISTORY_SIZE],
    pub current_state: State,
    /// The last events dispatched, oldest first and ending in the last slot; the
    /// slots before them hold `Stop`.
    pub event_history: [Event; EVENTS_HISTORY_SIZE],
}

/// `h` placed at the end of `cap` slots, the slots before it holding `fill`.
pub open spec fn right_aligned<A>(h: Seq<A>, cap: nat, fill: A) -> Seq<A> {
    Seq::new((cap - h.len()) as nat, |_i: int| fill) + h
}

/// Copies `v` into the last slots of an array whose other slots hold `fill`.
fn right_align<T: Copy, const N: usize>(v: &Vec<T>, fill: T) -> (r: [T; N])
    requires
        v@.len() <= N,
    ensures
        r@ == right_aligned(v@, N as nat, fill),
{
    let mut r: [T; N] = [fill; N];
    let start: usize = N - v.len();
    let mut i: usize = 0;
    while i < v.len()
        invariant
            start + v@.len() == N,
            r@.len() == N,
            i <= v@.len(),
            forall|k: int| 0 <= k < start ==> r@[k] == fill,
            forall|k: int| 0 <= k < i ==> r@[start + k] == v@[k],
        decreases v@.len() - i,
    {
        r[start + i] = v[i];
        i = i + 1;
    }
    assert(r@ =~= right_aligned(v@, N as nat, fill));
    r
}

/// What a `StateDump` holds.
pub struct DumpView {
    pub state_history: Seq<State>,
    pub current_state: State,
    pub event_history: Seq<Event>,
}

/// What a message from the interrupt handlers to the task holds.
pub enum Message {
    Event(Event),
    Failure(Reason, DumpView),
}

pub open spec fn message_of(r: Result<Event, Error>) -> Message {
    match r {
        Ok(e) => Message::Event(e),
        Err(err) => Message::Failure(
            err.reason,
            DumpView {
                state_history: err.dump.state_history@,
                current_state: err.dump.current_state,
                event_history: err.dump.event_history@,
            },
        ),
    }
}

/// The whole of a bridge, as the interrupt handlers and the task see it.
pub struct BridgeModel {
    pub state: State,
    /// The last states entered, oldest first.
    pub states: Seq<State>,
    /// The last events dispatched, oldest first.
    pub events: Seq<Event>,
    /// Bytes received and not yet read by the task.
    pub rx: Seq<u8>,
    /// Bytes written by the task and not yet handed to the hardware.
    pub tx: Seq<u8>,
    /// Bytes of the current block handed to the hardware so far.
    pub sent: nat,
    /// The buffer interrupt enable bit.
    pub buffer_irq: bool,
    /// The event interrupt enable bit.
    pub event_irq: bool,
    /// The peripheral enable bit.
    pub enabled: bool,
    /// Messages for the task, oldest first.
    pub outbox: Seq<Message>,
}

/// The dump that a failure raised in `m` carries.
pub open spec fn dump_of(m: BridgeModel) -> DumpView {
    DumpView {
        state_history: right_aligned(m.states, STATES_HISTORY_SIZE as nat, State::Idle),
        current_state: m.state,
        event_history: right_aligned(
            m.events,
            EVENTS_HISTORY_SIZE as nat,
            Event::Notification(Notification::Stop),
        ),
    }
}

pub open spec fn set_state_m(m: BridgeModel, s: State) -> BridgeModel {
    BridgeModel { state: s, states: push_bounded(m.states, s, STATES_HISTORY_SIZE as nat), ..m }
}

pub open spec fn notify_m(m: BridgeModel, e: Event) -> BridgeModel {
    BridgeModel {
        events: push_bounded(m.events, e, EVENTS_HISTORY_SIZE as nat),
        outbox: m.outbox.push(Message::Event(e)),
        ..m
    }
}

/// Disables the peripheral and queues the failure for the task.
pub open spec fn fail_m(m: BridgeModel, reason: Reason) -> BridgeModel {
    BridgeModel { enabled: false, outbox: m.outbox.push(Message::Failure(reason, dump_of(m))), ..m }
}

pub open spec fn lock_m(m: BridgeModel, t: TxLockType) -> BridgeModel {
    BridgeModel { buffer_irq: false, event_irq: t == TxLockType::TxOnly, ..m }
}

pub open spec fn unlock_m(m: BridgeModel) -> BridgeModel {
    BridgeModel { buffer_irq: true, event_irq: true, ..m }
}

/// Empties the send buffer.
pub open spec fn reset_txbuf_m(m: BridgeModel) -> BridgeModel {
    BridgeModel { tx: Seq::empty(), sent: 0, ..m }
}

/// Unlocking the transmit path twice is unlocking it once, and unlocking it
/// while it is unlocked changes nothing.
pub proof fn lemma_unlock_idempotent(m: BridgeModel)
    ensures
        unlock_m(unlock_m(m)) == unlock_m(m),
        m.buffer_irq && m.event_irq ==> unlock_m(m) == m,
{
}

/// Resetting the send buffer twice is resetting it once, and resetting an empty
/// buffer that has sent nothing changes nothing.
pub proof fn lemma_reset_idempotent(m: BridgeModel)
    ensures
        reset_txbuf_m(reset_txbuf_m(m)) == reset_txbuf_m(m),
        m.tx.len() == 0 && m.sent == 0 ==> reset_txbuf_m(m) == m,
{
    if m.tx.len() == 0 {
        assert(m.tx =~= Seq::<u8>::empty());
    }
}

/// Mediates between interrupt context and the application task: owns the state,
/// the staging buffers, the histories, the transmit throttle and the queue of
/// messages for the task.
pub struct Bridge<const TXBUFSIZE: usize, const RXBUFSIZE: usize> {
    outbox: Vec<Result<Event, Error>>,
    tx_lock: TxLock,
    send_buffer: SendBuffer<TXBUFSIZE>,
    receive_buffer: ReceiveBuffer<RXBUFSIZE>,
    state_holder: StateHolder,
    events_history: Deque<Event, EVENTS_HISTORY_SIZE>,
    enabled: bool,
}

impl<const TXBUFSIZE: usize, const RXBUFSIZE: usize> Bridge<TXBUFSIZE, RXBUFSIZE> {
    pub closed spec fn wf(&self) -> bool {
        &&& self.send_buffer.wf()
        &&& self.receive_buffer.wf()
        &&& self.state_holder.wf()
        &&& events_in(self.events_history).len() <= EVENTS_HISTORY_SIZE
    }

    pub closed spec fn model(&self) -> BridgeModel {
        BridgeModel {
            state: self.state_holder.current(),
            states: self.state_holder.history(),
            events: events_in(self.events_history),
            rx: self.receive_buffer@,
            tx: self.send_buffer.pending(),
            sent: self.send_buffer.sent(),
            buffer_irq: self.tx_lock.buffer_enabled(),
            event_irq: self.tx_lock.event_enabled(),
            enabled: self.enabled,
            outbox: Seq::new(self.outbox@.len(), |i: int| message_of(self.outbox@[i])),
        }
    }

    /// A bridge in `Idle` with empty buffers and histories, interrupts unmasked
    /// and the peripheral enabled.
    pub fn new() -> (r: Self)
        ensures
            r.wf(),
            r.model() == (BridgeModel {
                state: State::Idle,
                states: Seq::empty(),
                events: Seq::empty(),
                rx: Seq::empty(),
                tx: Seq::empty(),
                sent: 0,
                buffer_irq: true,
                event_irq: true,
                enabled: true,
                outbox: Seq::empty(),
            }),
    {
        let r = Bridge {
            outbox: Vec::new(),
            tx_lock: TxLock::new(),
            send_buffer: SendBuffer::new(),
            receive_buffer: ReceiveBuffer::new(),
            state_holder: StateHolder::new(),
            events_history: event_deque_new(),
            enabled: true,
        };
        assert(r.model().outbox =~= Seq::<Message>::empty());
        r
    }

    /// A snapshot of the histories and of the current state.
    pub fn dump_state(&self) -> (r: StateDump)
        requires
            self.wf(),
        ensures
            r.state_history@ == Seq::new(
                (STATES_HISTORY_SIZE - self.model().states.len()) as nat,
                |_i: int| State::Idle,
            ) + self.model().states,
            r.current_state == self.model().state,
            r.event_history@ == Seq::new(
                (EVENTS_HISTORY_SIZE - self.model().events.len()) as nat,
                |_i: int| Event::Notification(Notification::Stop),
            ) + self.model().events,
    {
        let states = self.state_holder.get_history();
        let events = event_deque_to_vec(&self.events_history);
        StateDump {
            state_history: right_align(&states, State::Idle),
            current_state: self.state_holder.get_state(),
            event_history: right_align(&events, Event::Notification(Notification::Stop)),
        }
    }

    fn send_channel(&mut self, msg: Result<Event, Error>)
        ensures
            final(self).model() == (BridgeModel {
                outbox: old(self).model().outbox.push(message_of(msg)),
                ..old(self).model()
            }),
            final(self).wf() == old(self).wf(),
    {
        self.outbox.push(msg);
        assert(self.model().outbox =~= old(self).model().outbox.push(message_of(msg)));
    }

    // Task side.

    /// Takes the oldest message for the task, if any.
    pub fn receive(&mut self) -> (r: Option<Result<Event, Error>>)
        ensures
            final(self).wf() == old(self).wf(),
            old(self).model().outbox.len() == 0 ==> r is None && final(self).model() == old(self).model(),
            old(self).model().outbox.len() > 0 ==> r is Some
                && message_of(r->Some_0) == old(self).model().outbox[0]
                && final(self).model() == (BridgeModel {
                    outbox: old(self).model().outbox.drop_first(),
                    ..old(self).model()
                }),
    {
        if self.outbox.len() == 0 {
            assert(self.model().outbox =~= old(self).model().outbox);
            None
        } else {
            let m = self.outbox.remove(0);
            assert(self.model().outbox =~= old(self).model().outbox.drop_first());
            Some(m)
        }
    }

    /// Whether every byte the task wrote has been handed to the hardware.
    pub fn is_send_buffer_empty(&self) -> (r: bool)
        requires
            self.wf(),
        ensures
            r == (self.model().tx.len() == 0),
    {
        self.send_buffer.is_empty()
    }

    /// Loads the bytes for the master to read and re-arms the transmit path;
    /// returns the tail that did not fit.
    pub fn write<'a>(&mut self, buf: &'a [u8]) -> (r: &'a [u8])
        requires
            old(self).wf(),
            old(self).model().tx.len() == 0,
        ensures
            final(self).wf(),
            final(self).model() == (BridgeModel {
                tx: buf@.subrange(0, taken(buf@, TXBUFSIZE as nat) as int),
                sent: 0,
                ..unlock_m(old(self).model())
            }),
            r@ == buf@.subrange(taken(buf@, TXBUFSIZE as nat) as int, buf@.len() as int),
    {
        let res = self.send_buffer.write(buf);
        self.unlock_tx();
        res
    }

    /// Copies the received bytes to the front of `dst` and empties the receive
    /// buffer; when `dst` is too short nothing changes and the number of pending
    /// bytes comes back as the error.
    pub fn read(&mut self, dst: &mut [u8]) -> (r: Result<usize, usize>)
        requires
            old(self).wf(),
        ensures
            final(self).wf(),
            old(dst)@.len() >= old(self).model().rx.len() ==> r == Ok::<usize, usize>(old(self).model().rx.len() as usize)
                && final(dst)@ == old(self).model().rx + old(dst)@.subrange(old(self).model().rx.len() as int, old(dst)@.len() as int)
                && final(self).model() == (BridgeModel { rx: Seq::empty(), ..old(self).model() }),
            old(dst)@.len() < old(self).model().rx.len() ==> r == Err::<usize, usize>(old(self).model().rx.len() as usize)
                && final(dst)@ == old(dst)@
                && final(self).model() == old(self).model(),
    {
        let r = self.receive_buffer.read(dst);
        if r.is_ok() {
            self.receive_buffer.reset();
        }
        r
    }

    // Interrupt side.

    pub fn get_state(&self) -> (r: State)
        ensures
            r == self.model().state,
    {
        self.state_holder.get_state()
    }

    pub fn set_state(&mut self, state: State)
        requires
            old(self).wf(),
        ensures
            final(self).wf(),
            final(self).model() == set_state_m(old(self).model(), state),
    {
        self.state_holder.set_state(state);
    }

    /// Disables the peripheral and queues `reason`, with a dump, for the task.
    pub fn fail(&mut self, reason: Reason)
        requires
            old(self).wf(),
        ensures
            final(self).wf(),
            final(self).model() == fail_m(old(self).model(), reason),
    {
        self.enabled = false;
        let dump = self.dump_state();
        self.send_channel(Err(Error { dump, reason }));
    }

    /// Records `event` in the history and queues it for the task.
    pub fn notify(&mut self, event: Event)
        requires
            old(self).wf(),
        ensures
            final(self).wf(),
            final(self).model() == notify_m(old(self).model(), event),
    {
        push_event_bounded(&mut self.events_history, event);
        self.send_channel(Ok(event));
    }

    pub fn lock_tx(&mut self, lock_type: TxLockType)
        requires
            old(self).wf(),
        ensures
            final(self).wf(),
            final(self).model() == lock_m(old(self).model(), lock_type),
    {
        self.tx_lock.lock(lock_type);
    }

    pub fn unlock_tx(&mut self)
        requires
            old(self).wf(),
        ensures
            final(self).wf(),
            final(self).model() == unlock_m(old(self).model()),
    {
        self.tx_lock.unlock();
    }

    /// Sets the peripheral enable bit.
    pub fn enable_peripheral(&mut self)
        requires
            old(self).wf(),
        ensures
            final(self).wf(),
            final(self).model() == (BridgeModel { enabled: true, ..old(self).model() }),
    {
        self.enabled = true;
    }

    /// The peripheral enable bit, as this library last set it.
    pub fn is_peripheral_enabled(&self) -> (r: bool)
        ensures
            r == self.model().enabled,
    {
        self.enabled
    }

    /// The buffer interrupt enable bit, as this library last set it.
    pub fn is_buffer_interrupt_enabled(&self) -> (r: bool)
        ensures
            r == self.model().buffer_irq,
    {
        self.tx_lock.buffer_interrupt_enabled()
    }

    /// The event interrupt enable bit, as this library last set it.
    pub fn is_event_interrupt_enabled(&self) -> (r: bool)
        ensures
            r == self.model().event_irq,
    {
        self.tx_lock.event_interrupt_enabled()
    }

    pub fn get_rxbuf_size(&self) -> (r: usize)
        requires
            self.wf(),
        ensures
            r == self.model().rx.len(),
    {
        self.receive_buffer.get_size()
    }

    /// Appends a received byte; fails, changing nothing, when the buffer is full.
    pub fn write_rxbuf_byte(&mut self, byte: u8) -> (r: Result<(), ()>)
        requires
            old(self).wf(),
        ensures
            final(self).wf(),
            old(self).model().rx.len() >= RXBUFSIZE ==> r is Err && final(self).model() == old(self).model(),
            old(self).model().rx.len() < RXBUFSIZE ==> r is Ok
                && final(self).model() == (BridgeModel { rx: old(self).model().rx.push(byte), ..old(self).model() }),
    {
        self.receive_buffer.write_byte(byte)
    }

    /// Takes the next byte to transmit, if any.
    pub fn pop_txbuf_byte(&mut self) -> (r: Option<u8>)
        requires
            old(self).wf(),
        ensures
            final(self).wf(),
            old(self).model().tx.len() == 0 ==> r is None && final(self).model() == old(self).model(),
            old(self).model().tx.len() > 0 ==> r == Some(old(self).model().tx[0])
                && final(self).model() == (BridgeModel {
                    tx: old(self).model().tx.drop_first(),
                    sent: old(self).model().sent + 1,
                    ..old(self).model()
                }),
    {
        self.send_buffer.next()
    }

    /// Empties the send buffer and returns how many bytes of the block had been
    /// handed to the hardware.
    pub fn reset_txbuf(&mut self) -> (r: usize)
        requires
            old(self).wf(),
        ensures
            final(self).wf(),
            r == old(self).model().sent,
            final(self).model() == reset_txbuf_m(old(self).model()),
    {
        let bytes_sent = self.send_buffer.bytes_sent();
        self.send_buffer.reset();
        bytes_sent
    }
}

} // verus!
