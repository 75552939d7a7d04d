use vstd::prelude::*;
use crate::encoder::frame;
use crate::encoder::generate_message;
use crate::model::Function;

verus! {

/// USB vendor id of the mouse.
pub const VENDOR_ID: u16 = 0x1532;

/// USB product id of the mouse.
pub const PRODUCT_ID: u16 = 0x00b4;

/// The one interface of the mouse that takes bindings.
pub const CONTROL_INTERFACE: i32 = 0;

/// What the device writes into byte 1 of its answer when it did not take the
/// report, as it does while asleep.
pub const STATUS_ASLEEP: u8 = 4;

/// Whether an interface of a device on the bus is the one to talk to.
pub open spec fn is_target(vendor_id: u16, product_id: u16, interface_number: i32) -> bool {
    vendor_id == VENDOR_ID && product_id == PRODUCT_ID && interface_number == CONTROL_INTERFACE
}

/// Whether an interface of a device on the bus is the one to talk to: the
/// control interface of the mouse. Its other interfaces are passed over.
pub fn is_target_device(vendor_id: u16, product_id: u16, interface_number: i32) -> (b: bool)
    ensures
        b == is_target(vendor_id, product_id, interface_number),
{
    vendor_id == VENDOR_ID && product_id == PRODUCT_ID && interface_number == CONTROL_INTERFACE
}

/// What the device's answer to one report tells.
#[derive(Clone, Copy, Debug, PartialEq, Eq, Structural)]
pub enum Outcome {
    /// The device holds the binding.
    Verified,
    /// The answer is not the report that was sent.
    FrameMismatch,
    /// The device did not take the report; it may be asleep.
    DeviceAsleep,
}

/// The report as the device is expected to give it back: byte 1 is the
/// device's, the rest is what was sent.
pub open spec fn reconciled(sent: Seq<u8>, echo: Seq<u8>) -> Seq<u8> {
    sent.update(1, echo[1])
}

/// What `echo` tells as the answer to `sent`.
pub open spec fn outcome_of(sent: Seq<u8>, echo: Seq<u8>) -> Outcome {
    if echo[1] == STATUS_ASLEEP {
        Outcome::DeviceAsleep
    } else if reconciled(sent, echo) == echo {
        Outcome::Verified
    } else {
        Outcome::FrameMismatch
    }
}

/// Reads the device's answer `echo` to the report `sent`.
pub fn classify_echo(sent: &[u8; 91], echo: &[u8; 91]) -> (outcome: Outcome)
    ensures
        outcome == outcome_of(sent@, echo@),
{
    if echo[1] == STATUS_ASLEEP {
        return Outcome::DeviceAsleep;
    }
    let mut i: usize = 0;
    while i < 91
        invariant
            i <= 91,
            echo@[1] != STATUS_ASLEEP,
            forall|j: int| 0 <= j < i && j != 1 ==> sent@[j] == echo@[j],
        decreases 91 - i,
    {
        if i != 1 && sent[i] != echo[i] {
            assert(reconciled(sent@, echo@)[i as int] != echo@[i as int]);
            return Outcome::FrameMismatch;
        }
        i = i + 1;
    }
    assert(reconciled(sent@, echo@) =~= echo@);
    Outcome::Verified
}

/// An answer that differs from the report in byte 1 at most, and does not
/// tell of sleep there, verifies it.
pub proof fn lemma_echo_verified(sent: [u8; 91], echo: [u8; 91])
    requires
        echo@[1] != STATUS_ASLEEP,
        forall|i: int| 0 <= i < 91 && i != 1 ==> echo@[i] == sent@[i],
    ensures
        outcome_of(sent@, echo@) == Outcome::Verified,
{
    assert(reconciled(sent@, echo@) =~= echo@);
}

/// An answer that differs from the report in any byte but byte 1, and does
/// not tell of sleep, is a mismatch.
pub proof fn lemma_echo_mismatch(sent: [u8; 91], echo: [u8; 91], at: int)
    requires
        echo@[1] != STATUS_ASLEEP,
        0 <= at < 91,
        at != 1,
        echo@[at] != sent@[at],
    ensures
        outcome_of(sent@, echo@) == Outcome::FrameMismatch,
{
    assert(reconciled(sent@, echo@)[at] != echo@[at]);
}

/// An answer that tells of sleep in byte 1 is read so, whatever its other
/// bytes hold.
pub proof fn lemma_echo_asleep(sent: [u8; 91], echo: [u8; 91])
    requires
        echo@[1] == STATUS_ASLEEP,
    ensures
        outcome_of(sent@, echo@) == Outcome::DeviceAsleep,
{
}

/// How the talk with one device ended. `index` counts the bindings from 0.
#[derive(Clone, Copy, Debug, PartialEq, Eq, Structural)]
pub enum SessionEnd {
    /// Every binding was sent and verified.
    Completed,
    /// The device could not be opened.
    OpenFailed,
    /// The report of binding `index` could not be sent.
    SendFailed { index: usize },
    /// The answer to binding `index` could not be read.
    ReadFailed { index: usize },
    /// The device did not take binding `index`; it may be asleep.
    DeviceAsleep { index: usize },
    /// The answer to binding `index` was not the report sent.
    FrameMismatch { index: usize },
}

/// Where the talk with one device stands.
#[derive(Clone, Copy, Debug, PartialEq, Eq, Structural)]
pub enum SessionState {
    /// Binding `index` is the next to send.
    Idle { index: usize },
    /// Binding `index` was sent, and its answer is to be read.
    Sent { index: usize },
    /// The talk is over and the device is to be released.
    Closed(SessionEnd),
}

/// What the transport reports back.
#[derive(Clone, Copy, Debug, PartialEq, Eq)]
pub enum Event {
    /// The report was sent.
    SendOk,
    /// The report could not be sent.
    SendFailed,
    /// The device's answer.
    Echo([u8; 91]),
    /// No answer could be read.
    ReadFailed,
}

/// What is to be done with the device next.
#[derive(Clone, Copy, Debug, PartialEq, Eq)]
pub enum Step {
    /// Send `frame`, the report of binding `index`, and report `SendOk` or
    /// `SendFailed`.
    Send { index: usize, frame: [u8; 91] },
    /// Read 91 bytes from the device, and report them as `Echo`, or
    /// `ReadFailed`.
    Read { index: usize },
    /// Release the device.
    Close(SessionEnd),
}

/// A step with its report as a sequence of bytes.
pub enum StepView {
    Send { index: usize, frame: Seq<u8> },
    Read { index: usize },
    Close(SessionEnd),
}

impl View for Step {
    type V = StepView;

    open spec fn view(&self) -> StepView {
        match *self {
            Step::Send { index, frame } => StepView::Send { index, frame: frame@ },
            Step::Read { index } => StepView::Read { index },
            Step::Close(end) => StepView::Close(end),
        }
    }
}

/// The state in which the talk with a device begins.
pub open spec fn start_state(bindings: Seq<Function>) -> SessionState {
    if bindings.len() == 0 {
        SessionState::Closed(SessionEnd::Completed)
    } else {
        SessionState::Idle { index: 0 }
    }
}

/// What is to be done in `state`. A state that names a binding that is not
/// there has nothing left to do.
pub open spec fn step_of(state: SessionState, bindings: Seq<Function>) -> StepView {
    match state {
        SessionState::Idle { index } => if index < bindings.len() {
            StepView::Send { index, frame: frame(bindings[index as int]@) }
        } else {
            StepView::Close(SessionEnd::Completed)
        },
        SessionState::Sent { index } => if index < bindings.len() {
            StepView::Read { index }
        } else {
            StepView::Close(SessionEnd::Completed)
        },
        SessionState::Closed(end) => StepView::Close(end),
    }
}

/// The state after `event` in `state`. An event that is no answer to the
/// state's step changes nothing; a closed talk stays closed.
pub open spec fn next_state(
    state: SessionState,
    event: Event,
    bindings: Seq<Function>,
) -> SessionState {
    match state {
        SessionState::Idle { index } => if index < bindings.len() {
            match event {
                Event::SendOk => SessionState::Sent { index },
                Event::SendFailed => SessionState::Closed(SessionEnd::SendFailed { index }),
                _ => state,
            }
        } else {
            SessionState::Closed(SessionEnd::Completed)
        },
        SessionState::Sent { index } => if index < bindings.len() {
            match event {
                Event::Echo(echo) => match outcome_of(frame(bindings[index as int]@), echo@) {
                    Outcome::Verified => if index + 1 < bindings.len() {
                        SessionState::Idle { index: (index + 1) as usize }
                    } else {
                        SessionState::Closed(SessionEnd::Completed)
                    },
                    Outcome::FrameMismatch => SessionState::Closed(
                        SessionEnd::FrameMismatch { index },
                    ),
                    Outcome::DeviceAsleep => SessionState::Closed(
                        SessionEnd::DeviceAsleep { index },
                    ),
                },
                Event::ReadFailed => SessionState::Closed(SessionEnd::ReadFailed { index }),
                _ => state,
            }
        } else {
            SessionState::Closed(SessionEnd::Completed)
        },
        SessionState::Closed(end) => state,
    }
}

/// The state after all of `events`, in their order.
pub open spec fn state_after(
    state: SessionState,
    events: Seq<Event>,
    bindings: Seq<Function>,
) -> SessionState
    decreases events.len(),
{
    if events.len() == 0 {
        state
    } else {
        next_state(state_after(state, events.drop_last(), bindings), events.last(), bindings)
    }
}

/// The state in which the talk with a device begins: the first binding is to
/// be sent, or, where there is none, the talk is over.
pub fn start(bindings: &Vec<Function>) -> (state: SessionState)
    ensures
        state == start_state(bindings@),
{
    if bindings.len() == 0 {
        SessionState::Closed(SessionEnd::Completed)
    } else {
        SessionState::Idle { index: 0 }
    }
}

/// What is to be done in `state`.
pub fn step(state: SessionState, bindings: &Vec<Function>) -> (next: Step)
    ensures
        next@ == step_of(state, bindings@),
{
    match state {
        SessionState::Idle { index } => {
            if index < bindings.len() {
                Step::Send { index, frame: generate_message(&bindings[index]) }
            } else {
                Step::Close(SessionEnd::Completed)
            }
        },
        SessionState::Sent { index } => {
            if index < bindings.len() {
                Step::Read { index }
            } else {
                Step::Close(SessionEnd::Completed)
            }
        },
        SessionState::Closed(end) => Step::Close(end),
    }
}

/// The state after `event` in `state`.
pub fn advance(state: SessionState, event: &Event, bindings: &Vec<Function>) -> (next:
    SessionState)
    ensures
        next == next_state(state, *event, bindings@),
{
    match state {
        SessionState::Idle { index } => {
            if index < bindings.len() {
                match event {
                    Event::SendOk => SessionState::Sent { index },
                    Event::SendFailed => SessionState::Closed(SessionEnd::SendFailed { index }),
                    _ => state,
                }
            } else {
                SessionState::Closed(SessionEnd::Completed)
            }
        },
        SessionState::Sent { index } => {
            if index < bindings.len() {
                match event {
                    Event::Echo(echo) => {
                        let sent: [u8; 91] = generate_message(&bindings[index]);
                        match classify_echo(&sent, echo) {
                            Outcome::Verified => {
                                if index + 1 < bindings.len() {
                                    SessionState::Idle { index: index + 1 }
                                } else {
                                    SessionState::Closed(SessionEnd::Completed)
                                }
                            },
                            Outcome::FrameMismatch => SessionState::Closed(
                                SessionEnd::FrameMismatch { index },
                            ),
                            Outcome::DeviceAsleep => SessionState::Closed(
                                SessionEnd::DeviceAsleep { index },
                            ),
                        }
                    },
                    Event::ReadFailed => SessionState::Closed(SessionEnd::ReadFailed { index }),
                    _ => state,
                }
            } else {
                SessionState::Closed(SessionEnd::Completed)
            }
        },
        SessionState::Closed(_) => state,
    }
}

/// What to do about the other devices once the talk with one is over.
#[derive(Clone, Copy, Debug, PartialEq, Eq, Structural)]
pub enum Verdict {
    /// Go on to the next device that matches.
    NextDevice,
    /// Try no other device.
    Stop,
}

/// What a talk's end means for the other devices. A failure of the
/// transport tells that this was the wrong device, so the next is tried, as
/// it is after a talk that went well. A device that is asleep, or out of
/// step with what it was sent, ends the whole run.
pub open spec fn verdict_of(end: SessionEnd) -> Verdict {
    match end {
        SessionEnd::Completed => Verdict::NextDevice,
        SessionEnd::OpenFailed => Verdict::NextDevice,
        SessionEnd::SendFailed { .. } => Verdict::NextDevice,
        SessionEnd::ReadFailed { .. } => Verdict::NextDevice,
        SessionEnd::DeviceAsleep { .. } => Verdict::Stop,
        SessionEnd::FrameMismatch { .. } => Verdict::Stop,
    }
}

/// What the end of the talk with one device means for the other devices.
pub fn after_session(end: SessionEnd) -> (verdict: Verdict)
    ensures
        verdict == verdict_of(end),
{
    match end {
        SessionEnd::Completed => Verdict::NextDevice,
        SessionEnd::OpenFailed => Verdict::NextDevice,
        SessionEnd::SendFailed { .. } => Verdict::NextDevice,
        SessionEnd::ReadFailed { .. } => Verdict::NextDevice,
        SessionEnd::DeviceAsleep { .. } => Verdict::Stop,
        SessionEnd::FrameMismatch { .. } => Verdict::Stop,
    }
}

/// Once closed, a talk stays closed with the same end, whatever is reported
/// to it, and the only step left is to release the device.
pub proof fn lemma_closed_stays_closed(end: SessionEnd, events: Seq<Event>, bindings: Seq<Function>)
    ensures
        state_after(SessionState::Closed(end), events, bindings) == SessionState::Closed(end),
        step_of(state_after(SessionState::Closed(end), events, bindings), bindings)
            == StepView::Close(end),
    decreases events.len(),
{
    if events.len() > 0 {
        lemma_closed_stays_closed(end, events.drop_last(), bindings);
    }
}

/// An answer that tells of sleep closes the talk at that binding, whatever
/// else the answer holds: no later binding is sent, whatever is reported
/// afterwards, and no other device is tried.
pub proof fn lemma_asleep_halts(
    index: usize,
    echo: [u8; 91],
    later: Seq<Event>,
    bindings: Seq<Function>,
)
    requires
        index < bindings.len(),
        echo@[1] == STATUS_ASLEEP,
    ensures
        state_after(
            next_state(SessionState::Sent { index }, Event::Echo(echo), bindings),
            later,
            bindings,
        ) == SessionState::Closed(SessionEnd::DeviceAsleep { index }),
        verdict_of(SessionEnd::DeviceAsleep { index }) == Verdict::Stop,
{
    lemma_closed_stays_closed(SessionEnd::DeviceAsleep { index }, later, bindings);
}

} // verus!
