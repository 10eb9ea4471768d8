//! The kinds of message that a server receives.
use vstd::prelude::*;

verus! {

/// The four numbers of a scalar message.
#[derive(Clone, Copy, Debug, PartialEq, Eq)]
pub struct Args {
    pub arg1: usize,
    pub arg2: usize,
    pub arg3: usize,
    pub arg4: usize,
}

/// The body of a message, its opcode aside.
#[derive(Clone, Copy, Debug, PartialEq, Eq)]
pub enum Body {
    /// Four numbers, sent without waiting.
    Scalar(Args),
    /// Four numbers, from a sender that waits for an answer.
    BlockingScalar(Args),
    /// A piece of memory.
    Memory,
}

} // verus!
