//! Key bindings of one or more keys, and the way of a key event from the window to its pane.
use crate::actions::{search_shortcut, stays_in_find, Action};
use crate::host::Host;
use crate::input::{consumption, key_is_consumed};
use crate::keys::{triggers, ElementState, KeyEvent, KeyTrigger, Modifiers};
use vstd::prelude::*;

verus! {

/// How a binding is performed.
#[derive(Clone, Copy, Debug, PartialEq, Eq, Structural)]
pub struct BindingFlags {
    /// Text goes to all panes.
    pub all: bool,
    /// The keys stay out of the terminal.
    pub consumed: bool,
    /// They do only if the actions did something.
    pub performable: bool,
}

/// Keys that perform actions when pressed one after the other.
#[derive(Debug)]
pub struct KeyBinding {
    pub trigger: Vec<KeyTrigger>,
    pub actions: Vec<Action>,
    /// The binding belongs to a table of its own.
    pub in_table: bool,
    pub flags: BindingFlags,
}

/// Every action of the binding is available in Find.
pub open spec fn works_in_find(binding: KeyBinding) -> bool {
    forall|i: int|
        0 <= i < binding.actions@.len() ==> !stays_in_find(#[trigger] binding.actions@[i])
}

fn available_in_find(binding: &KeyBinding) -> (available: bool)
    ensures
        available == works_in_find(*binding),
{
    let mut i: usize = 0;
    while i < binding.actions.len()
        invariant
            i <= binding.actions@.len(),
            forall|j: int| 0 <= j < i ==> !stays_in_find(#[trigger] binding.actions@[j]),
        decreases binding.actions@.len() - i,
    {
        if !search_shortcut(&binding.actions[i]) {
            assert(stays_in_find(binding.actions@[i as int]));
            return false;
        }
        i += 1;
    }
    true
}

/// The event is the key number `step` of the binding.
pub open spec fn goes_on(
    binding: KeyBinding,
    step: int,
    event: KeyEvent,
    mods: Modifiers,
    in_find: bool,
) -> bool {
    &&& !binding.in_table
    &&& !in_find || works_in_find(binding)
    &&& 0 <= step < binding.trigger@.len()
    &&& triggers(binding.trigger@[step], event, mods)
}

/// Those of the candidates whose key number `step` the event is, in their order.
pub open spec fn matched(
    bindings: Seq<KeyBinding>,
    candidates: Seq<usize>,
    step: int,
    event: KeyEvent,
    mods: Modifiers,
    in_find: bool,
) -> Seq<usize>
    decreases candidates.len(),
{
    if candidates.len() == 0 {
        Seq::empty()
    } else {
        let before = matched(bindings, candidates.drop_last(), step, event, mods, in_find);
        if goes_on(bindings[candidates.last() as int], step, event, mods, in_find) {
            before.push(candidates.last())
        } else {
            before
        }
    }
}

/// All bindings, by their numbers.
pub open spec fn every_binding(count: nat) -> Seq<usize> {
    Seq::new(count, |i: int| i as usize)
}

/// The last of the matched bindings that has `length` keys.
pub open spec fn completed(bindings: Seq<KeyBinding>, found: Seq<usize>, length: int) -> Option<
    usize,
>
    decreases found.len(),
{
    if found.len() == 0 {
        None
    } else if bindings[found.last() as int].trigger@.len() == length {
        Some(found.last())
    } else {
        completed(bindings, found.drop_last(), length)
    }
}

/// Finds the last of the matched bindings that has `length` keys.
fn find_complete(bindings: &Vec<KeyBinding>, found: &Vec<usize>, length: usize) -> (complete:
    Option<usize>)
    requires
        forall|i: int| 0 <= i < found@.len() ==> #[trigger] found@[i] < bindings@.len(),
    ensures
        complete == completed(bindings@, found@, length as int),
        complete is Some ==> complete->0 < bindings@.len(),
{
    let mut n: usize = found.len();
    assert(found@.take(n as int) =~= found@);
    while n > 0
        invariant
            n <= found@.len(),
            forall|i: int| 0 <= i < found@.len() ==> #[trigger] found@[i] < bindings@.len(),
            completed(bindings@, found@, length as int) == completed(
                bindings@,
                found@.take(n as int),
                length as int,
            ),
        decreases n,
    {
        let index: usize = found[n - 1];
        assert(found@.take(n as int).drop_last() =~= found@.take(n - 1));
        if bindings[index].trigger.len() == length {
            return Some(index);
        }
        n -= 1;
    }
    None
}

/// What a key press means to the bindings.
#[derive(Clone, Copy, Debug, PartialEq, Eq, Structural)]
pub enum KeyMatch {
    /// The binding with this number is performed.
    Complete(usize),
    /// Bindings wait for another key.
    Pending,
    /// No binding wants the key.
    Unbound,
}

impl Host {
    /// The bindings that wait for another key exist.
    pub open spec fn sequence_fits(self, bindings: Seq<KeyBinding>) -> bool {
        &&& self.sequence_len < usize::MAX
        &&& self.sequence_len > 0 ==> forall|i: int|
            0 <= i < self.sequence@.len() ==> #[trigger] self.sequence@[i] < bindings.len()
    }

    /// The bindings that a key press can belong to.
    pub open spec fn candidates(self, bindings: Seq<KeyBinding>) -> Seq<usize> {
        if self.sequence_len == 0 {
            every_binding(bindings.len())
        } else {
            self.sequence@
        }
    }

    /// The bindings that a key press goes on with.
    pub open spec fn continued(self, bindings: Seq<KeyBinding>, event: KeyEvent, in_find: bool) -> Seq<
        usize,
    > {
        matched(
            bindings,
            self.candidates(bindings),
            self.sequence_len as int,
            event,
            self.modifiers.state,
            in_find,
        )
    }

    /// Find has the keyboard to itself.
    pub open spec fn finding(self) -> bool {
        self.search_focus is Some && !self.is_modal()
    }

    /// Whether a key event can set off a binding: a press does, unless an input method is
    /// composing text.
    pub fn seeks_binding(&self, state: ElementState) -> (seeks: bool)
        ensures
            seeks == (state == ElementState::Pressed && !self.composing),
    {
        state == ElementState::Pressed && !self.composing
    }

    /// Follows the bindings by one key press. A binding that is complete wins over those that go
    /// on, and a later one over earlier ones.
    pub fn match_binding(&mut self, bindings: &Vec<KeyBinding>, event: &KeyEvent) -> (found: KeyMatch)
        requires
            old(self).sequence_fits(bindings@),
        ensures
            ({
                let going_on = old(self).continued(bindings@, *event, old(self).finding());
                let complete = completed(bindings@, going_on, old(self).sequence_len + 1);
                &&& found == if complete is Some {
                    KeyMatch::Complete(complete->0)
                } else if going_on.len() > 0 {
                    KeyMatch::Pending
                } else {
                    KeyMatch::Unbound
                }
                &&& final(self).sequence@ == if found == KeyMatch::Pending {
                    going_on
                } else {
                    Seq::<usize>::empty()
                }
                &&& final(self).sequence_len == if found == KeyMatch::Pending {
                    (old(self).sequence_len + 1) as usize
                } else {
                    0
                }
                &&& *final(self) == (Host {
                    sequence: final(self).sequence,
                    sequence_len: final(self).sequence_len,
                    ..*old(self)
                })
            }),
            found matches KeyMatch::Complete(index) ==> index < bindings@.len(),
            found == KeyMatch::Pending ==> forall|i: int|
                0 <= i < final(self).sequence@.len() ==> #[trigger] final(self).sequence@[i]
                    < bindings@.len(),
    {
        let in_find = self.search_focus.is_some() && !self.modal_input();
        let going_on = self.going_on(bindings, event, in_find);
        let length: usize = self.sequence_len + 1;
        let (found, sequence, sequence_len) = match find_complete(bindings, &going_on, length) {
            Some(index) => (KeyMatch::Complete(index), Vec::new(), 0usize),
            None => if going_on.len() > 0 {
                (KeyMatch::Pending, going_on, length)
            } else {
                (KeyMatch::Unbound, going_on, 0usize)
            },
        };
        self.sequence = sequence;
        self.sequence_len = sequence_len;
        found
    }

    /// Collects the bindings that a key press goes on with.
    fn going_on(&self, bindings: &Vec<KeyBinding>, event: &KeyEvent, in_find: bool) -> (found: Vec<
        usize,
    >)
        requires
            self.sequence_fits(bindings@),
        ensures
            found@ == self.continued(bindings@, *event, in_find),
            forall|i: int| 0 <= i < found@.len() ==> #[trigger] found@[i] < bindings@.len(),
    {
        let step: usize = self.sequence_len;
        let ghost candidates = self.candidates(bindings@);
        let count: usize = if step == 0 {
            bindings.len()
        } else {
            self.sequence.len()
        };
        let mut found: Vec<usize> = Vec::new();
        let mut i: usize = 0;
        while i < count
            invariant
                i <= count == candidates.len(),
                candidates == self.candidates(bindings@),
                self.sequence_fits(bindings@),
                step == self.sequence_len,
                count == if step == 0 {
                    bindings@.len()
                } else {
                    self.sequence@.len()
                },
                found@ == matched(
                    bindings@,
                    candidates.take(i as int),
                    step as int,
                    *event,
                    self.modifiers.state,
                    in_find,
                ),
                forall|j: int| 0 <= j < found@.len() ==> #[trigger] found@[j] < bindings@.len(),
            decreases count - i,
        {
            let index: usize = if step == 0 {
                i
            } else {
                self.sequence[i]
            };
            assert(candidates[i as int] == index);
            assert(candidates.take(i + 1).drop_last() =~= candidates.take(i as int));
            let binding = &bindings[index];
            if !binding.in_table && (!in_find || available_in_find(binding)) && step
                < binding.trigger.len() && crate::keys::matches(
                &binding.trigger[step],
                event,
                self.modifiers.state,
            ) {
                found.push(index);
            }
            i += 1;
        }
        assert(candidates.take(i as int) =~= candidates);
        found
    }

    /// The first look at a key event: the user interface may have it. `Some` ends its way, and
    /// tells whether the user interface is kept from it.
    pub fn intercept_key(&mut self, key: u64, state: ElementState, repeat: bool) -> (end: Option<
        bool,
    >)
        ensures
            ({
                let ui = old(self).takes_keyboard();
                let finding = old(self).finding();
                let (keys, consumed) = consumption(
                    old(self).consumed_keys@,
                    key,
                    state,
                    ui && !finding,
                );
                &&& end == if consumed && !(finding && repeat) {
                    Some(!ui)
                } else {
                    None
                }
                &&& final(self).consumed_keys@ == keys
                &&& *final(self) == (Host {
                    consumed_keys: final(self).consumed_keys,
                    ..*old(self)
                })
            }),
    {
        let ui = self.ui_input();
        let finding = self.search_focus.is_some() && !self.modal_input();
        if key_is_consumed(&mut self.consumed_keys, key, state, ui && !finding) && !(finding
            && repeat) {
            Some(!ui)
        } else {
            None
        }
    }

    /// The second look, behind the bindings.
    pub fn consume_key(&mut self, key: u64, state: ElementState) -> (end: Option<bool>)
        ensures
            ({
                let ui = old(self).takes_keyboard();
                let (keys, consumed) = consumption(old(self).consumed_keys@, key, state, ui);
                &&& end == if consumed {
                    Some(!ui)
                } else {
                    None
                }
                &&& final(self).consumed_keys@ == keys
                &&& *final(self) == (Host {
                    consumed_keys: final(self).consumed_keys,
                    ..*old(self)
                })
            }),
    {
        let ui = self.ui_input();
        if key_is_consumed(&mut self.consumed_keys, key, state, ui) {
            Some(!ui)
        } else {
            None
        }
    }

    /// Notes that a binding was performed, with the user interface open before it or not. Tells
    /// whether the key stays out of the terminal; if so, and the user interface is or was open,
    /// so do its repeats and its release.
    pub fn binding_performed(
        &mut self,
        key: u64,
        flags: BindingFlags,
        performed: bool,
        ui_before: bool,
    ) -> (consumed: bool)
        ensures
            consumed == (flags.consumed && (!flags.performable || performed)),
            final(self).consumed_keys@ == if consumed && (ui_before || old(self).takes_keyboard()) {
                old(self).consumed_keys@.insert(key)
            } else {
                old(self).consumed_keys@
            },
            *final(self) == (Host { consumed_keys: final(self).consumed_keys, ..*old(self) }),
    {
        if flags.consumed && (!flags.performable || performed) {
            if ui_before || self.ui_input() {
                self.consumed_keys.insert(key);
            }
            true
        } else {
            false
        }
    }

    /// A key pressed in a pane whose command exited closes the pane, and is not typed anywhere.
    pub fn closes_exited(&mut self, key: u64, state: ElementState, exited: bool) -> (closes: bool)
        ensures
            closes == (exited && state == ElementState::Pressed),
            final(self).consumed_keys@ == if closes {
                old(self).consumed_keys@.insert(key)
            } else {
                old(self).consumed_keys@
            },
            *final(self) == (Host { consumed_keys: final(self).consumed_keys, ..*old(self) }),
    {
        if exited && state == ElementState::Pressed {
            self.consumed_keys.insert(key);
            true
        } else {
            false
        }
    }
}

/// The binding peeks at the other quadrants while its modifiers are held.
pub open spec fn peeks(binding: KeyBinding, current: Modifiers) -> bool {
    &&& !binding.in_table
    &&& binding.trigger@.len() == 1
    &&& binding.trigger@[0].modifiers == current
    &&& current != Modifiers::none()
    &&& exists|i: int|
        0 <= i < binding.actions@.len() && (#[trigger] binding.actions@[i]) is GotoSplit
            && binding.actions@[i]->GotoSplit_0.spec_is_quadrant()
}

fn binding_peeks(binding: &KeyBinding, current: Modifiers) -> (found: bool)
    ensures
        found == peeks(*binding, current),
{
    if binding.in_table || binding.trigger.len() != 1 || binding.trigger[0].modifiers != current {
        return false;
    }
    if !current.shift && !current.control && !current.alt && !current.super_key {
        return false;
    }
    let mut i: usize = 0;
    while i < binding.actions.len()
        invariant
            i <= binding.actions@.len(),
            !binding.in_table && binding.trigger@.len() == 1 && binding.trigger@[0].modifiers
                == current && current != Modifiers::none(),
            forall|j: int|
                0 <= j < i ==> !((#[trigger] binding.actions@[j]) is GotoSplit
                    && binding.actions@[j]->GotoSplit_0.spec_is_quadrant()),
        decreases binding.actions@.len() - i,
    {
        let quadrant = match &binding.actions[i] {
            Action::GotoSplit(direction) => direction.is_quadrant(),
            _ => false,
        };
        if quadrant {
            assert(binding.actions@[i as int] is GotoSplit);
            return true;
        }
        i += 1;
    }
    false
}

/// Some binding moves between quadrants with exactly these modifiers.
pub open spec fn is_peek_chord(bindings: Seq<KeyBinding>, current: Modifiers) -> bool {
    exists|i: int| 0 <= i < bindings.len() && peeks(#[trigger] bindings[i], current)
}

fn has_peek_chord(bindings: &Vec<KeyBinding>, current: Modifiers) -> (found: bool)
    ensures
        found == is_peek_chord(bindings@, current),
{
    let mut i: usize = 0;
    while i < bindings.len()
        invariant
            i <= bindings@.len(),
            forall|j: int| 0 <= j < i ==> !peeks(#[trigger] bindings@[j], current),
        decreases bindings@.len() - i,
    {
        if binding_peeks(&bindings[i], current) {
            assert(peeks(bindings@[i as int], current));
            return true;
        }
        i += 1;
    }
    false
}

/// What a change of modifiers does to a peek.
#[derive(Clone, Copy, Debug, PartialEq, Eq, Structural)]
pub enum PeekStep {
    Nothing,
    /// The chord was let go: the peek ends where it came to.
    Finish(crate::host::Peek),
    /// A chord of the bindings is held over a zoomed quadrant.
    Begin,
}

impl Host {
    /// Follows the modifiers held. `quadrant_zoomed` tells whether the tab in front shows one of
    /// its quadrants alone.
    pub fn modifiers_changed(
        &mut self,
        modifiers: crate::keys::HeldModifiers,
        bindings: &Vec<KeyBinding>,
        quadrant_zoomed: bool,
    ) -> (step: PeekStep)
        ensures
            ({
                let current = modifiers.state;
                let lets_go = old(self).peek is Some && !crate::keys::holds(
                    old(self).peek->0.chord,
                    current,
                );
                &&& step == if lets_go {
                    PeekStep::Finish(old(self).peek->0)
                } else if old(self).peek is None && !old(self).takes_keyboard() && quadrant_zoomed
                    && is_peek_chord(bindings@, current) {
                    PeekStep::Begin
                } else {
                    PeekStep::Nothing
                }
                &&& *final(self) == (Host {
                    modifiers,
                    peek: if lets_go {
                        None
                    } else {
                        old(self).peek
                    },
                    ..*old(self)
                })
            }),
    {
        self.modifiers = modifiers;
        let current = modifiers.state;
        if let Some(peek) = self.peek {
            if !crate::keys::chord_held(peek.chord, current) {
                self.peek = None;
                return PeekStep::Finish(peek);
            }
            return PeekStep::Nothing;
        }
        if !self.ui_input() && quadrant_zoomed && has_peek_chord(bindings, current) {
            PeekStep::Begin
        } else {
            PeekStep::Nothing
        }
    }
}

} // verus!
