use vstd::prelude::*;

verus! {

/// Which interrupts to mask while the transmit path is stalled.
#[derive(Debug, Clone, Copy, PartialEq, Eq, Structural)]
pub enum TxLockType {
    /// Mask the buffer interrupt only, so that byte-transfer-finished still wakes
    /// the handler.
    TxOnly,
    /// Mask both the buffer and the event interrupt while the task prepares data.
    TxAndBtf,
}

/// The two interrupt-enable bits of the peripheral's second control register
/// that throttle the transmit path, as last set by this library.
pub struct TxLock {
    buffer_irq: bool,
    event_irq: bool,
}

impl TxLock {
    /// Whether the buffer interrupt (ITBUFEN) is enabled.
    pub closed spec fn buffer_enabled(&self) -> bool {
        self.buffer_irq
    }

    /// Whether the event interrupt (ITEVTEN) is enabled.
    pub closed spec fn event_enabled(&self) -> bool {
        self.event_irq
    }

    /// Both interrupts enabled, as the slave configures them at start-up.
    pub fn new() -> (r: Self)
        ensures
            r.buffer_enabled(),
            r.event_enabled(),
    {
        TxLock { buffer_irq: true, event_irq: true }
    }

    pub fn lock(&mut self, lock_type: TxLockType)
        ensures
            !final(self).buffer_enabled(),
            final(self).event_enabled() == (lock_type == TxLockType::TxOnly),
    {
        self.buffer_irq = false;
        self.event_irq = match lock_type {
            TxLockType::TxOnly => true,
            TxLockType::TxAndBtf => false,
        };
    }

    pub fn unlock(&mut self)
        ensures
            final(self).buffer_enabled(),
            final(self).event_enabled(),
    {
        self.buffer_irq = true;
        self.event_irq = true;
    }

    pub fn buffer_interrupt_enabled(&self) -> (r: bool)
        ensures
            r == self.buffer_enabled(),
    {
        self.buffer_irq
    }

    pub fn event_interrupt_enabled(&self) -> (r: bool)
        ensures
            r == self.event_enabled(),
    {
        self.event_irq
    }
}

} // verus!
