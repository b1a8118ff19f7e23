//! Interrupt-driven I2C slave controller: the state machine that decodes the
//! peripheral's status flags, the staging buffers between interrupt context and
//! the application task, and the diagnostic histories.
use vstd::prelude::*;

pub mod bridge;
pub mod config;
pub mod deque;
pub mod interrupts;
pub mod receive_buffer;
pub mod send_buffer;
pub mod state_holder;
pub mod tx_lock;

pub use bridge::{Bridge, StateDump};
pub use config::{slave_config, ConfigError, SlaveConfig};
pub use interrupts::{
    handle_error_interrupt, handle_event_interrupt, needs_data, needs_status2, ErrorFlags, EventFlags,
};
pub use receive_buffer::ReceiveBuffer;
pub use send_buffer::SendBuffer;
pub use state_holder::StateHolder;
pub use tx_lock::{TxLock, TxLockType};

verus! {

/// Where the slave stands in the current bus transaction.
#[derive(Debug, Clone, Copy, PartialEq, Eq, Structural)]
pub enum State {
    Idle,
    TxInitial,
    TxRepeated,
    Rx,
    Nack,
}

#[derive(Debug, Clone, Copy, PartialEq, Eq, Structural)]
pub enum Notification {
    Addr { tx: bool, gencall: bool },
    Sent { sent: usize },
    Stop,
}

#[derive(Debug, Clone, Copy, PartialEq, Eq, Structural)]
pub enum Control {
    Received { size: usize, write: bool },
    TxEmpty { initial: bool },
}

/// What the interrupt handlers hand to the application task.
#[derive(Debug, Clone, Copy, PartialEq, Eq, Structural)]
pub enum Event {
    Notification(Notification),
    Control(Control),
}

#[derive(Debug, Clone, Copy, PartialEq, Eq, Structural)]
pub enum I2CError {
    BusError,
    ArbitrationLoss,
    AcknowledgeFailure,
    Overrun,
    PecError,
    Timeout,
    SmBusAlert,
}

/// Flag combinations that cannot occur in a well-formed transaction.
#[derive(Debug, Clone, Copy, PartialEq, Eq, Structural)]
pub enum ProtocolError {
    RxneAndTxne,
    AddrDuringTransmission,
    RxneWhileNotReceiving,
    TxeWhileNotTranseiving,
    StopDuringTransmission,
    NackWhileNotTranseiving,
}

#[derive(Debug, Clone, Copy, PartialEq, Eq, Structural)]
pub enum Reason {
    I2C(I2CError),
    Protocol(ProtocolError),
    ReceiveBufferFull,
}

/// A fatal condition, with a snapshot of the bridge taken when it was raised.
#[derive(Debug, Clone, Copy, PartialEq, Eq)]
pub struct Error {
    pub dump: StateDump,
    pub reason: Reason,
}

} // verus!
