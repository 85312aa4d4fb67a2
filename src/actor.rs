use vstd::prelude::*;
use crate::protocol::{GpioMessage, GpioOutMessage};

verus! {

/// What the hardware actor learns: a message from its queue, or the outcome
/// of an action it asked for.
#[derive(Debug, Clone, Copy, PartialEq, Eq, Structural)]
pub enum HardwareEvent {
    Received(GpioMessage),
    InputOpened { channel: u16, ok: bool },
    OutputOpened { channel: u16, ok: bool },
    LevelSet { command: GpioOutMessage, ok: bool },
}

/// What the hardware actor asks its runner to do next.
#[derive(Debug, Clone, Copy, PartialEq, Eq, Structural)]
pub enum HardwareAction {
    Idle,
    OpenInput(u16),
    OpenOutput(u16),
    SetLevel(GpioOutMessage),
}

/// The decisions of the single task that owns every hardware output: which
/// channels are open, the write waiting for its channel to open, and counters
/// of what happened.
pub struct GpioManager {
    outputs: Vec<u16>,
    pending: Option<GpioOutMessage>,
    received: u64,
    writes: u64,
    faults: u64,
}

/// One more, saturating at the largest `u64`.
pub open spec fn bump(n: u64) -> u64 {
    if n < u64::MAX {
        (n + 1) as u64
    } else {
        n
    }
}

fn bumped(n: u64) -> (r: u64)
    ensures
        r == bump(n),
{
    if n < u64::MAX {
        n + 1
    } else {
        n
    }
}

impl GpioManager {
    /// The channels whose outputs are open, in the order they were opened.
    pub closed spec fn opened(&self) -> Seq<u16> {
        self.outputs@
    }

    /// The write that waits for its channel to open.
    pub closed spec fn pending_spec(&self) -> Option<GpioOutMessage> {
        self.pending
    }

    /// Messages received.
    pub closed spec fn received_spec(&self) -> u64 {
        self.received
    }

    /// Writes that succeeded.
    pub closed spec fn writes_spec(&self) -> u64 {
        self.writes
    }

    /// Opens and writes that failed.
    pub closed spec fn faults_spec(&self) -> u64 {
        self.faults
    }

    pub open spec fn wf(&self) -> bool {
        self.opened().no_duplicates()
    }

    /// What the actor asks for on `ev`.
    pub open spec fn action_spec(&self, ev: HardwareEvent) -> HardwareAction {
        match ev {
            HardwareEvent::Received(GpioMessage::In(ch)) => HardwareAction::OpenInput(ch),
            HardwareEvent::Received(GpioMessage::Out(cmd)) => if self.opened().contains(
                cmd.output,
            ) {
                HardwareAction::SetLevel(cmd)
            } else {
                HardwareAction::OpenOutput(cmd.output)
            },
            HardwareEvent::OutputOpened { channel, ok } => match self.pending_spec() {
                Some(cmd) => if ok && cmd.output == channel {
                    HardwareAction::SetLevel(cmd)
                } else {
                    HardwareAction::Idle
                },
                None => HardwareAction::Idle,
            },
            _ => HardwareAction::Idle,
        }
    }

    /// The open channels after `ev`: a channel joins once it opened.
    pub open spec fn opened_after(&self, ev: HardwareEvent) -> Seq<u16> {
        match ev {
            HardwareEvent::OutputOpened { channel, ok } => if ok && !self.opened().contains(
                channel,
            ) {
                self.opened().push(channel)
            } else {
                self.opened()
            },
            _ => self.opened(),
        }
    }

    /// The waiting write after `ev`: set while its channel opens, cleared
    /// once that open is answered.
    pub open spec fn pending_after(&self, ev: HardwareEvent) -> Option<GpioOutMessage> {
        match ev {
            HardwareEvent::Received(GpioMessage::Out(cmd)) => if self.opened().contains(
                cmd.output,
            ) {
                None
            } else {
                Some(cmd)
            },
            HardwareEvent::OutputOpened { channel, ok } => None,
            _ => self.pending_spec(),
        }
    }

    /// Whether `ev` reports a failure.
    pub open spec fn is_fault(ev: HardwareEvent) -> bool {
        match ev {
            HardwareEvent::InputOpened { channel, ok } => !ok,
            HardwareEvent::OutputOpened { channel, ok } => !ok,
            HardwareEvent::LevelSet { command, ok } => !ok,
            _ => false,
        }
    }

    /// Whether `ev` reports a successful write.
    pub open spec fn is_write(ev: HardwareEvent) -> bool {
        match ev {
            HardwareEvent::LevelSet { command, ok } => ok,
            _ => false,
        }
    }

    /// An actor with no channel open.
    pub fn new() -> (r: GpioManager)
        ensures
            r.wf(),
            r.opened() == Seq::<u16>::empty(),
            r.pending_spec() is None,
            r.received_spec() == 0,
            r.writes_spec() == 0,
            r.faults_spec() == 0,
    {
        GpioManager { outputs: Vec::new(), pending: None, received: 0, writes: 0, faults: 0 }
    }

    pub fn is_open(&self, channel: u16) -> (r: bool)
        ensures
            r == self.opened().contains(channel),
    {
        let mut i: usize = 0;
        while i < self.outputs.len()
            invariant
                0 <= i <= self.outputs@.len(),
                forall|j: int| 0 <= j < i ==> self.outputs@[j] != channel,
            decreases self.outputs@.len() - i,
        {
            if self.outputs[i] == channel {
                return true;
            }
            i = i + 1;
        }
        false
    }

    pub fn received(&self) -> (r: u64)
        ensures
            r == self.received_spec(),
    {
        self.received
    }

    pub fn writes(&self) -> (r: u64)
        ensures
            r == self.writes_spec(),
    {
        self.writes
    }

    pub fn faults(&self) -> (r: u64)
        ensures
            r == self.faults_spec(),
    {
        self.faults
    }

    /// Takes one event and answers with the next action. A write goes
    /// straight to an open channel; otherwise the channel is opened first and
    /// the write follows once it opened. A failed open or write is counted and
    /// dropped: nothing is retried.
    pub fn handle(&mut self, ev: HardwareEvent) -> (r: HardwareAction)
        requires
            old(self).wf(),
        ensures
            final(self).wf(),
            r == old(self).action_spec(ev),
            final(self).opened() == old(self).opened_after(ev),
            final(self).pending_spec() == old(self).pending_after(ev),
            final(self).received_spec() == if ev is Received {
                bump(old(self).received_spec())
            } else {
                old(self).received_spec()
            },
            final(self).writes_spec() == if GpioManager::is_write(ev) {
                bump(old(self).writes_spec())
            } else {
                old(self).writes_spec()
            },
            final(self).faults_spec() == if GpioManager::is_fault(ev) {
                bump(old(self).faults_spec())
            } else {
                old(self).faults_spec()
            },
    {
        match ev {
            HardwareEvent::Received(msg) => {
                self.received = bumped(self.received);
                match msg {
                    GpioMessage::In(ch) => HardwareAction::OpenInput(ch),
                    GpioMessage::Out(cmd) => {
                        if self.is_open(cmd.output) {
                            self.pending = None;
                            HardwareAction::SetLevel(cmd)
                        } else {
                            self.pending = Some(cmd);
                            HardwareAction::OpenOutput(cmd.output)
                        }
                    },
                }
            },
            HardwareEvent::InputOpened { channel, ok } => {
                if !ok {
                    self.faults = bumped(self.faults);
                }
                HardwareAction::Idle
            },
            HardwareEvent::OutputOpened { channel, ok } => {
                let waiting = self.pending;
                self.pending = None;
                if ok {
                    if !self.is_open(channel) {
                        self.outputs.push(channel);
                    }
                } else {
                    self.faults = bumped(self.faults);
                }
                match waiting {
                    Some(cmd) => {
                        if ok && cmd.output == channel {
                            HardwareAction::SetLevel(cmd)
                        } else {
                            HardwareAction::Idle
                        }
                    },
                    None => HardwareAction::Idle,
                }
            },
            HardwareEvent::LevelSet { command, ok } => {
                if ok {
                    self.writes = bumped(self.writes);
                } else {
                    self.faults = bumped(self.faults);
                }
                HardwareAction::Idle
            },
        }
    }
}

/// Every write reaches the hardware in the order it arrived, with no other
/// message in between: on receipt it is either written at once, or its channel
/// is opened and, when the open succeeds, the next action writes exactly it.
pub proof fn lemma_write_goes_out(m: GpioManager, after: GpioManager, cmd: GpioOutMessage)
    requires
        m.wf(),
        after.pending_spec() == m.pending_after(HardwareEvent::Received(GpioMessage::Out(cmd))),
    ensures
        m.action_spec(HardwareEvent::Received(GpioMessage::Out(cmd))) == HardwareAction::SetLevel(
            cmd,
        ) || (m.action_spec(HardwareEvent::Received(GpioMessage::Out(cmd)))
            == HardwareAction::OpenOutput(cmd.output) && after.action_spec(
            HardwareEvent::OutputOpened { channel: cmd.output, ok: true },
        ) == HardwareAction::SetLevel(cmd)),
{
}

} // verus!
