//! One pane's input queue, synchronized output and saved state.
use crate::text::{chars_of, same_text};
use crate::time::{Instant, SECOND};
use std::collections::VecDeque;
use vstd::prelude::*;
use vstd::string::*;

verus! {

/// What may wait for a command to read it.
pub const INPUT_BUDGET: usize = 16 * 1024 * 1024;

/// What a write to the session came to.
#[derive(Clone, Copy, Debug, PartialEq, Eq, Structural)]
pub enum WriteOutcome {
    Written,
    WouldBlock,
    Failed,
}

/// Why input was not accepted.
#[derive(Clone, Copy, Debug, PartialEq, Eq, Structural)]
pub enum InputError {
    /// The session refused it.
    Session,
    /// Too much is waiting already.
    Full,
}

impl InputError {
    /// What the user is told; the session's own errors speak for themselves.
    pub fn message(self) -> (message: Option<String>)
        ensures
            chars_of(message) == match self {
                InputError::Session => None,
                InputError::Full => Some(
                    "Input queue is full. Wait for the command to read its input."@,
                ),
            },
    {
        match self {
            InputError::Session => None,
            InputError::Full => Some(
                "Input queue is full. Wait for the command to read its input.".to_owned(),
            ),
        }
    }
}

/// The bytes of all packets.
pub open spec fn packet_bytes(packets: Seq<Vec<u8>>) -> int
    decreases packets.len(),
{
    if packets.len() == 0 {
        0
    } else {
        packets[0]@.len() + packet_bytes(packets.drop_first())
    }
}

/// The packets one after the other.
pub open spec fn joined(packets: Seq<Vec<u8>>) -> Seq<u8>
    decreases packets.len(),
{
    if packets.len() == 0 {
        Seq::empty()
    } else {
        packets[0]@ + joined(packets.drop_first())
    }
}

proof fn lemma_push(packets: Seq<Vec<u8>>, packet: Vec<u8>)
    ensures
        packet_bytes(packets.push(packet)) == packet_bytes(packets) + packet@.len(),
        joined(packets.push(packet)) == joined(packets) + packet@,
    decreases packets.len(),
{
    if packets.len() == 0 {
        assert(packets.push(packet).drop_first() =~= packets);
        assert(joined(packets) =~= Seq::<u8>::empty());
        assert(joined(packets.push(packet)) == packet@ + joined(packets));
        assert(joined(packets.push(packet)) =~= joined(packets) + packet@);
    } else {
        assert(packets.push(packet).drop_first() =~= packets.drop_first().push(packet));
        lemma_push(packets.drop_first(), packet);
        assert(joined(packets.push(packet)) =~= joined(packets) + packet@);
    }
}

proof fn lemma_bytes_nonnegative(packets: Seq<Vec<u8>>)
    ensures
        packet_bytes(packets) >= 0,
    decreases packets.len(),
{
    if packets.len() > 0 {
        lemma_bytes_nonnegative(packets.drop_first());
    }
}

/// Packets that the session could not take at once, in the order in which they came.
pub struct InputQueue {
    pub packets: VecDeque<Vec<u8>>,
    pub bytes: usize,
}

impl InputQueue {
    /// The bytes are counted, and within the budget.
    pub open spec fn wf(self) -> bool {
        self.bytes == packet_bytes(self.packets@) && self.bytes <= INPUT_BUDGET
    }

    /// All that waits.
    pub open spec fn waiting(self) -> Seq<u8> {
        joined(self.packets@)
    }

    pub fn new() -> (queue: InputQueue)
        ensures
            queue.wf(),
            queue.packets@.len() == 0,
    {
        InputQueue { packets: VecDeque::new(), bytes: 0 }
    }

    /// Whether the session is asked to take the packet at once: nothing may overtake what waits.
    pub fn writes_directly(&self, bytes: &Vec<u8>) -> (direct: bool)
        ensures
            direct == (bytes@.len() > 0 && self.packets@.len() == 0),
    {
        bytes.len() > 0 && self.packets.len() == 0
    }

    /// What accepting a packet comes to, given what the session said where it was asked.
    pub open spec fn acceptance(self, length: nat, direct: WriteOutcome) -> Result<
        bool,
        InputError,
    > {
        acceptance_of(self.packets@, length, direct)
    }

    /// A successful write means the complete packet is accepted by the pane's ordered queue.
    /// `direct` is what the session said to it, where it was asked.
    pub fn enqueue(&mut self, bytes: Vec<u8>, direct: WriteOutcome) -> (result: Result<
        (),
        InputError,
    >)
        requires
            old(self).wf(),
        ensures
            final(self).wf(),
            match old(self).acceptance(bytes@.len(), direct) {
                Ok(queued) => {
                    &&& result is Ok
                    &&& final(self).packets@ == if queued {
                        old(self).packets@.push(bytes)
                    } else {
                        old(self).packets@
                    }
                },
                Err(error) => result == Err::<(), InputError>(error) && final(self).packets@
                    == old(self).packets@,
            },
    {
        if bytes.len() == 0 {
            return Ok(());
        }
        if self.packets.len() == 0 {
            match direct {
                WriteOutcome::Written => {
                    return Ok(());
                },
                WriteOutcome::WouldBlock => {},
                WriteOutcome::Failed => {
                    return Err(InputError::Session);
                },
            }
        }
        if bytes.len() > INPUT_BUDGET - self.bytes {
            return Err(InputError::Full);
        }
        proof {
            lemma_push(self.packets@, bytes);
        }
        self.bytes += bytes.len();
        self.packets.push_back(bytes);
        Ok(())
    }

    /// The packet that is next to be written.
    pub fn front(&self) -> (packet: Option<&Vec<u8>>)
        ensures
            packet == if self.packets@.len() > 0 {
                Some(&self.packets@[0])
            } else {
                None
            },
    {
        if self.packets.len() > 0 {
            Some(&self.packets[0])
        } else {
            None
        }
    }

    /// Notes what writing the first packet came to. Tells whether the next one follows; an error
    /// drops all that waits.
    pub fn flushed(&mut self, outcome: WriteOutcome) -> (result: Result<bool, InputError>)
        requires
            old(self).wf(),
            old(self).packets@.len() > 0,
        ensures
            final(self).wf(),
            match outcome {
                WriteOutcome::Written => {
                    &&& result == Ok::<bool, InputError>(true)
                    &&& final(self).packets@ == old(self).packets@.drop_first()
                },
                WriteOutcome::WouldBlock => {
                    &&& result == Ok::<bool, InputError>(false)
                    &&& final(self).packets@ == old(self).packets@
                },
                WriteOutcome::Failed => {
                    &&& result == Err::<bool, InputError>(InputError::Session)
                    &&& final(self).packets@.len() == 0
                },
            },
    {
        match outcome {
            WriteOutcome::Written => {
                proof {
                    lemma_bytes_nonnegative(self.packets@.drop_first());
                }
                let ghost before = self.packets@;
                if let Some(packet) = self.packets.pop_front() {
                    assert(self.packets@ =~= before.drop_first());
                    self.bytes -= packet.len();
                }
                Ok(true)
            },
            WriteOutcome::WouldBlock => Ok(false),
            WriteOutcome::Failed => {
                self.packets.clear();
                self.bytes = 0;
                Err(InputError::Session)
            },
        }
    }
}

/// What happens to a queue: a packet comes, with what the session said to it where it was asked,
/// or the first packet is written.
pub enum InputStep {
    Accept(Vec<u8>, WriteOutcome),
    Write(WriteOutcome),
}

/// A queue with its past: what it accepted, and what the session took.
pub struct InputTrace {
    pub packets: Seq<Vec<u8>>,
    pub accepted: Seq<u8>,
    pub sent: Seq<u8>,
}

/// What accepting a packet comes to behind the packets that wait.
pub open spec fn acceptance_of(
    packets: Seq<Vec<u8>>,
    length: nat,
    direct: WriteOutcome,
) -> Result<bool, InputError> {
    if length == 0 {
        Ok(false)
    } else if packets.len() == 0 && direct == WriteOutcome::Written {
        Ok(false)
    } else if packets.len() == 0 && direct == WriteOutcome::Failed {
        Err(InputError::Session)
    } else if packet_bytes(packets) + length > INPUT_BUDGET {
        Err(InputError::Full)
    } else {
        Ok(true)
    }
}

impl InputTrace {
    pub open spec fn after(self, step: InputStep) -> InputTrace {
        match step {
            InputStep::Accept(packet, direct) => match acceptance_of(
                self.packets,
                packet@.len(),
                direct,
            ) {
                Ok(true) => InputTrace {
                    packets: self.packets.push(packet),
                    accepted: self.accepted + packet@,
                    ..self
                },
                Ok(false) => InputTrace {
                    accepted: self.accepted + packet@,
                    sent: self.sent + packet@,
                    ..self
                },
                Err(_) => self,
            },
            InputStep::Write(outcome) => if self.packets.len() == 0 || outcome
                == WriteOutcome::WouldBlock {
                self
            } else if outcome == WriteOutcome::Written {
                InputTrace {
                    packets: self.packets.drop_first(),
                    sent: self.sent + self.packets[0]@,
                    ..self
                }
            } else {
                InputTrace { packets: Seq::empty(), ..self }
            },
        }
    }

    /// From a new queue on.
    pub open spec fn of(steps: Seq<InputStep>) -> InputTrace
        decreases steps.len(),
    {
        if steps.len() == 0 {
            InputTrace { packets: Seq::empty(), accepted: Seq::empty(), sent: Seq::empty() }
        } else {
            InputTrace::of(steps.drop_last()).after(steps.last())
        }
    }
}

/// Input reaches the session whole and in the order in which it was accepted, whatever happens to
/// the queue: what was sent and what waits is what was accepted, unless the session fails to take
/// a packet that waited.
pub proof fn law_input_keeps_its_order(steps: Seq<InputStep>)
    requires
        forall|i: int|
            0 <= i < steps.len() ==> #[trigger] steps[i] != InputStep::Write(WriteOutcome::Failed),
    ensures
        InputTrace::of(steps).sent + joined(InputTrace::of(steps).packets) == InputTrace::of(
            steps,
        ).accepted,
        InputTrace::of(steps).packets.len() == 0 || packet_bytes(InputTrace::of(steps).packets)
            <= INPUT_BUDGET,
    decreases steps.len(),
{
    if steps.len() > 0 {
        assert forall|i: int| 0 <= i < steps.drop_last().len() implies #[trigger] steps.drop_last()[i]
            != InputStep::Write(WriteOutcome::Failed) by {
            assert(steps[i] != InputStep::Write(WriteOutcome::Failed));
        }
        law_input_keeps_its_order(steps.drop_last());
        assert(steps[steps.len() - 1] == steps.last());
        let before = InputTrace::of(steps.drop_last());
        let after = InputTrace::of(steps);
        match steps.last() {
            InputStep::Accept(packet, direct) => {
                lemma_push(before.packets, packet);
                if acceptance_of(before.packets, packet@.len(), direct) == Ok::<bool, InputError>(
                    false,
                ) && before.packets.len() > 0 {
                    assert(packet@ =~= Seq::<u8>::empty());
                }
                if before.packets.len() == 0 {
                    assert(joined(before.packets) =~= Seq::<u8>::empty());
                }
            },
            InputStep::Write(outcome) => {
                if before.packets.len() > 0 {
                    lemma_bytes_nonnegative(before.packets.drop_first());
                }
            },
        }
        assert(after.sent + joined(after.packets) =~= after.accepted);
    } else {
        assert(joined(InputTrace::of(steps).packets) =~= Seq::<u8>::empty());
        assert(InputTrace::of(steps).sent + joined(InputTrace::of(steps).packets) =~= Seq::<
            u8,
        >::empty());
    }
}

/// Output that a program holds back while it redraws.
#[derive(Clone, Copy, Debug)]
pub struct SynchronizedOutput {
    pub generation: u64,
    pub deadline: Option<Instant>,
}

impl Default for SynchronizedOutput {
    fn default() -> (output: SynchronizedOutput)
        ensures
            output.generation == 0,
            output.deadline is None,
    {
        SynchronizedOutput { generation: 0, deadline: None }
    }
}

impl SynchronizedOutput {
    /// The hold begins anew with each batch.
    pub open spec fn restarts(self, generation: u64) -> bool {
        self.deadline is None || self.generation != generation
    }

    /// A batch that never ends is ended for the program.
    pub open spec fn overdue(self, now: Instant) -> bool {
        self.deadline is Some && self.deadline->0.nanos <= now.nanos
    }

    /// The state after looking at the terminal.
    pub open spec fn updated(
        self,
        held: bool,
        generation: u64,
        now: Instant,
    ) -> SynchronizedOutput {
        if !held {
            SynchronizedOutput { deadline: None, ..self }
        } else if self.restarts(generation) {
            SynchronizedOutput { generation, deadline: Some(now.spec_after(SECOND)) }
        } else if self.overdue(now) {
            SynchronizedOutput { deadline: None, ..self }
        } else {
            self
        }
    }

    /// Follows the terminal's synchronized output: whether it is on, and the generation of its
    /// current batch. Returns until when output is held, and whether the mode is to be reset.
    pub fn update(&mut self, held: bool, generation: u64, now: Instant) -> (result: (
        Option<Instant>,
        bool,
    ))
        requires
            held && old(self).restarts(generation) ==> now.reaches(SECOND),
        ensures
            *final(self) == old(self).updated(held, generation, now),
            result.0 == final(self).deadline,
            result.1 == (held && !old(self).restarts(generation) && old(self).overdue(now)),
    {
        let mut reset = false;
        if !held {
            self.deadline = None;
        } else if self.deadline.is_none() || self.generation != generation {
            self.generation = generation;
            self.deadline = Some(now.after(SECOND));
        } else {
            let overdue = match self.deadline {
                Some(deadline) => deadline.nanos <= now.nanos,
                None => false,
            };
            if overdue {
                reset = true;
                self.deadline = None;
            }
        }
        (self.deadline, reset)
    }
}

/// A batch is held for one second at most, however often the terminal is looked at: the deadline
/// set for it never moves, and at the deadline the hold ends.
pub proof fn law_synchronized_output_is_bounded(
    output: SynchronizedOutput,
    generation: u64,
    begun: Instant,
    now: Instant,
)
    requires
        output.restarts(generation),
        begun.reaches(SECOND),
        begun.nanos <= now.nanos,
    ensures
        ({
            let holding = output.updated(true, generation, begun);
            &&& holding.deadline == Some(begun.spec_after(SECOND))
            &&& now.nanos < begun.nanos + SECOND ==> holding.updated(true, generation, now)
                == holding
            &&& now.nanos >= begun.nanos + SECOND ==> holding.updated(
                true,
                generation,
                now,
            ).deadline is None
            &&& holding.updated(false, generation, now).deadline is None
        }),
{
}

/// What is saved of a pane.
#[derive(Clone, Debug)]
pub struct SavedPane {
    pub working_directory: String,
    pub title: Option<String>,
    pub title_override: Option<String>,
}

/// Whether two optional texts are the same.
pub fn same_optional(left: &Option<String>, right: &Option<String>) -> (same: bool)
    ensures
        same == (chars_of(*left) == chars_of(*right)),
{
    match (left, right) {
        (Some(left), Some(right)) => same_text(left.as_str(), right.as_str()),
        (None, None) => true,
        _ => false,
    }
}

pub fn copy_optional(text: &Option<String>) -> (copy: Option<String>)
    ensures
        chars_of(copy) == chars_of(*text),
{
    match text {
        Some(text) => Some(text.as_str().to_owned()),
        None => None,
    }
}

/// The title that is saved: an empty one is none.
pub open spec fn saved_title(title: Seq<char>) -> Option<Seq<char>> {
    if title.len() > 0 {
        Some(title)
    } else {
        None
    }
}

/// Brings the saved state of a pane up to date; tells whether it was not.
pub fn update_saved(
    saved: &mut SavedPane,
    directory: &str,
    title: &str,
    title_override: &Option<String>,
) -> (changed: bool)
    ensures
        changed == !(old(saved).working_directory@ == directory@ && chars_of(old(saved).title)
            == saved_title(title@) && chars_of(old(saved).title_override) == chars_of(
            *title_override,
        )),
        final(saved).working_directory@ == directory@,
        chars_of(final(saved).title) == saved_title(title@),
        chars_of(final(saved).title_override) == chars_of(*title_override),
        !changed ==> *final(saved) == *old(saved),
{
    let title = if title.is_empty() {
        None
    } else {
        Some(title.to_owned())
    };
    if same_text(saved.working_directory.as_str(), directory) && same_optional(
        &saved.title,
        &title,
    ) && same_optional(&saved.title_override, title_override) {
        return false;
    }
    saved.working_directory = directory.to_owned();
    saved.title = title;
    saved.title_override = copy_optional(title_override);
    true
}

} // verus!
