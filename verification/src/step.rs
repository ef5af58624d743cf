//! The vocabulary between a session state machine and the code that owns
//! the socket: the action to perform next, and the outcome to resume with.

use vstd::prelude::*;

verus! {

/// What the owner of the socket is asked to do next.
#[derive(Debug)]
pub enum Action {
    /// Open a stream connection to `address`, waiting at most `timeout_ms`.
    Dial { address: String, timeout_ms: u64 },
    /// Bind a datagram socket to any local port and connect it to `address`.
    Bind { address: String },
    /// Write all of `bytes`.
    Send { bytes: Vec<u8> },
    /// Read once into a buffer of 64 KiB, waiting at most `timeout_ms`.
    Receive { timeout_ms: u64 },
    /// Read once into a buffer of 64 KiB, waiting until the receive
    /// deadline. With `restart`, the deadline is first set to `budget_secs`
    /// from now.
    ReceiveUntil { budget_secs: u64, restart: bool },
    /// Close the connection.
    Close,
    /// Wait for `ms` milliseconds.
    Sleep { ms: u64 },
    /// Read the clock.
    Clock,
}

/// The outcome of an action.
#[derive(Debug)]
pub enum Event {
    /// The action was performed. It yields no data.
    Done,
    /// A read returned these bytes; none when the peer closed the stream.
    Data(Vec<u8>),
    /// The time allowed for the action ran out.
    TimedOut,
    /// The receive deadline had passed before the read began.
    Expired,
    /// The action failed; the text is the system's message.
    Failed(String),
    /// No local datagram socket could be bound.
    BindFailed(String),
    /// The address of the device could not be parsed.
    AddressInvalid(String),
    /// The clock: the current time in RFC 3339 form, and the milliseconds
    /// that have passed since the operation was started.
    Clock { now: String, elapsed_ms: u64 },
}

/// One step of an operation: the next action, or the operation's result.
#[derive(Debug)]
pub enum Step<T> {
    Next(Action),
    Finished(Result<T, String>),
}

impl<T> Step<T> {
    /// The step asks to open a stream connection.
    pub open spec fn asks_dial(self, address: Seq<char>, timeout_ms: u64) -> bool {
        self matches Step::Next(Action::Dial { address: a, timeout_ms: t }) && a@ == address && t
            == timeout_ms
    }

    /// The step asks to bind and connect a datagram socket.
    pub open spec fn asks_bind(self, address: Seq<char>) -> bool {
        self matches Step::Next(Action::Bind { address: a }) && a@ == address
    }

    /// The step asks to send `bytes`.
    pub open spec fn asks_send(self, bytes: Seq<u8>) -> bool {
        self matches Step::Next(Action::Send { bytes: b }) && b@ == bytes
    }

    /// The step asks for one read within `timeout_ms`.
    pub open spec fn asks_receive(self, timeout_ms: u64) -> bool {
        self matches Step::Next(Action::Receive { timeout_ms: t }) && t == timeout_ms
    }

    /// The step asks for one read before the receive deadline.
    pub open spec fn asks_receive_until(self, budget_secs: u64, restart: bool) -> bool {
        self matches Step::Next(Action::ReceiveUntil { budget_secs: b, restart: r }) && b
            == budget_secs && r == restart
    }

    /// The step asks to close the connection.
    pub open spec fn asks_close(self) -> bool {
        self matches Step::Next(Action::Close)
    }

    /// The step asks to wait.
    pub open spec fn asks_sleep(self, ms: u64) -> bool {
        self matches Step::Next(Action::Sleep { ms: m }) && m == ms
    }

    /// The step asks for the clock.
    pub open spec fn asks_clock(self) -> bool {
        self matches Step::Next(Action::Clock)
    }

    /// The step ends the operation with the error `message`.
    pub open spec fn fails_with(self, message: Seq<char>) -> bool {
        self matches Step::Finished(Err(m)) && m@ == message
    }
}

/// The message for an outcome that the machine was not waiting for.
pub open spec fn unexpected_event_text() -> Seq<char> {
    "Unexpected event"@
}

/// Ends an operation because the outcome does not fit what was asked for.
pub fn unexpected_event<T>() -> (step: Step<T>)
    ensures
        step.fails_with(unexpected_event_text()),
{
    Step::Finished(Err("Unexpected event".to_string()))
}

} // verus!
