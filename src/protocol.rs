use vstd::prelude::*;

verus! {

/// A command for the hardware actor: drive output `output` to `value`.
#[derive(Debug, Clone, Copy, PartialEq, Eq, Structural)]
pub struct GpioOutMessage {
    pub output: u16,
    pub value: bool,
}

impl GpioOutMessage {
    /// The same output driven to the opposite level.
    pub fn inverted(&self) -> (r: GpioOutMessage)
        ensures
            r.output == self.output,
            r.value == !self.value,
    {
        GpioOutMessage { output: self.output, value: !self.value }
    }
}

/// What the hardware actor receives: a read request (reserved) or a write.
#[derive(Debug, Clone, Copy, PartialEq, Eq, Structural)]
pub enum GpioMessage {
    In(u16),
    Out(GpioOutMessage),
}

impl From<GpioOutMessage> for GpioMessage {
    fn from(other: GpioOutMessage) -> (r: GpioMessage)
        ensures
            r == GpioMessage::Out(other),
    {
        GpioMessage::Out(other)
    }
}

impl vstd::std_specs::convert::FromSpecImpl<GpioOutMessage> for GpioMessage {
    open spec fn obeys_from_spec() -> bool {
        true
    }

    open spec fn from_spec(v: GpioOutMessage) -> GpioMessage {
        GpioMessage::Out(v)
    }
}

} // verus!
