//! Layouts that can be brought back, for a while.
use crate::time::Instant;
use vstd::prelude::*;

verus! {

/// How many layouts are remembered.
pub const HISTORY_LIMIT: usize = 50;

/// A layout that can be brought back until it expires.
pub struct Record<W> {
    pub expires: Instant,
    pub layout: W,
}

/// Earlier layouts, and those that an undo replaced; the latest stand last.
pub struct History<W> {
    pub undo: Vec<Record<W>>,
    pub redo: Vec<Record<W>>,
}

/// What a history holds, the latest last.
pub struct HistoryModel<W> {
    pub undo: Seq<Record<W>>,
    pub redo: Seq<Record<W>>,
}

impl<W> View for History<W> {
    type V = HistoryModel<W>;

    open spec fn view(&self) -> HistoryModel<W> {
        HistoryModel { undo: self.undo@, redo: self.redo@ }
    }
}

impl<W> HistoryModel<W> {
    /// No more records than are kept.
    pub open spec fn wf(self) -> bool {
        self.undo.len() + self.redo.len() <= HISTORY_LIMIT
    }

    /// After a change that replaced a layout: zero remembers none, and what was undone becomes
    /// unreachable.
    pub open spec fn remembering(self, layout: W, timeout: u64, now: Instant) -> HistoryModel<W> {
        HistoryModel {
            undo: if timeout == 0 {
                self.undo
            } else {
                remembered(self.undo, Record { expires: now.spec_after(timeout), layout })
            },
            redo: Seq::empty(),
        }
    }

    /// Without what has expired.
    pub open spec fn at(self, now: Instant) -> HistoryModel<W> {
        HistoryModel { undo: current(self.undo, now), redo: current(self.redo, now) }
    }

    /// The layout that an undo or a redo brings back.
    pub open spec fn next(self, redo: bool, now: Instant) -> Option<W> {
        let source = if redo {
            self.at(now).redo
        } else {
            self.at(now).undo
        };
        if source.len() > 0 {
            Some(source.last().layout)
        } else {
            None
        }
    }

    /// Without that layout, and without what has expired.
    pub open spec fn taking(self, redo: bool, now: Instant) -> HistoryModel<W> {
        let left = self.at(now);
        if self.next(redo, now) is None {
            left
        } else if redo {
            HistoryModel { redo: left.redo.drop_last(), ..left }
        } else {
            HistoryModel { undo: left.undo.drop_last(), ..left }
        }
    }

    /// With a replaced layout on the other side.
    pub open spec fn putting_back(
        self,
        redo: bool,
        replaced: W,
        timeout: u64,
        now: Instant,
    ) -> HistoryModel<W> {
        let record = Record { expires: now.spec_after(timeout), layout: replaced };
        if redo {
            HistoryModel { undo: self.undo.push(record), ..self }
        } else {
            HistoryModel { redo: self.redo.push(record), ..self }
        }
    }
}

/// The records of earlier layouts once another is added, of which the oldest may go.
pub open spec fn remembered<W>(undo: Seq<Record<W>>, record: Record<W>) -> Seq<Record<W>> {
    let all = undo.push(record);
    if all.len() > HISTORY_LIMIT {
        all.drop_first()
    } else {
        all
    }
}

pub open spec fn is_current<W>(record: Record<W>, now: Instant) -> bool {
    record.expires.nanos > now.nanos
}

/// The records that have not expired.
pub open spec fn current<W>(records: Seq<Record<W>>, now: Instant) -> Seq<Record<W>>
    decreases records.len(),
{
    if records.len() == 0 {
        Seq::empty()
    } else if is_current(records.last(), now) {
        current(records.drop_last(), now).push(records.last())
    } else {
        current(records.drop_last(), now)
    }
}

proof fn lemma_current_shrinks<W>(records: Seq<Record<W>>, now: Instant)
    ensures
        current(records, now).len() <= records.len(),
        forall|i: int| 0 <= i < current(records, now).len() ==> is_current(
            #[trigger] current(records, now)[i],
            now,
        ),
    decreases records.len(),
{
    if records.len() > 0 {
        lemma_current_shrinks(records.drop_last(), now);
    }
}

/// Drops the records that have expired.
fn keep_current<W>(records: &mut Vec<Record<W>>, now: Instant)
    ensures
        final(records)@ == current(old(records)@, now),
{
    let ghost all = records@;
    let mut kept: Vec<Record<W>> = Vec::new();
    std::mem::swap(&mut kept, records);
    for record in iter: kept
        invariant
            iter.seq() == all,
            records@ == current(all.take(iter.index()), now),
    {
        proof {
            let i = iter.index();
            assert(all.take(i + 1).drop_last() =~= all.take(i));
            assert(all.take(i + 1).last() == record);
        }
        if record.expires.nanos > now.nanos {
            records.push(record);
        }
    }
    assert(all.take(all.len() as int) =~= all);
}

impl<W> History<W> {
    pub open spec fn wf(self) -> bool {
        self@.wf()
    }

    pub fn new() -> (history: History<W>)
        ensures
            history.wf(),
            history.undo@.len() == 0,
            history.redo@.len() == 0,
    {
        History { undo: Vec::new(), redo: Vec::new() }
    }

    /// Remembers the layout before a change, for `timeout` nanoseconds; zero remembers none. A
    /// change makes what was undone unreachable.
    pub fn remember(&mut self, layout: W, timeout: u64, now: Instant)
        requires
            old(self).wf(),
            timeout > 0 ==> now.reaches(timeout),
        ensures
            final(self).wf(),
            final(self)@ == old(self)@.remembering(layout, timeout, now),
    {
        if timeout != 0 {
            self.undo.push(Record { expires: now.after(timeout), layout });
        }
        if self.undo.len() > HISTORY_LIMIT {
            self.undo.remove(0);
            assert(self.undo@ =~= old(self).undo@.push(
                Record { expires: now.spec_after(timeout), layout },
            ).drop_first());
        }
        self.redo.clear();
        assert(self.redo@ =~= Seq::empty());
    }

    /// Drops what has expired.
    pub fn expire(&mut self, now: Instant)
        requires
            old(self).wf(),
        ensures
            final(self).wf(),
            final(self)@ == old(self)@.at(now),
    {
        proof {
            lemma_current_shrinks(self.undo@, now);
            lemma_current_shrinks(self.redo@, now);
        }
        keep_current(&mut self.undo, now);
        keep_current(&mut self.redo, now);
    }

    /// Takes the layout to bring back, if there is one that has not expired.
    pub fn take(&mut self, redo: bool, now: Instant) -> (layout: Option<W>)
        requires
            old(self).wf(),
        ensures
            final(self).wf(),
            layout == old(self)@.next(redo, now),
            final(self)@ == old(self)@.taking(redo, now),
            layout is Some ==> final(self).undo@.len() + final(self).redo@.len() < HISTORY_LIMIT,
    {
        self.expire(now);
        let taken = if redo {
            self.redo.pop()
        } else {
            self.undo.pop()
        };
        match taken {
            Some(record) => {
                proof {
                    let left = old(self)@.at(now);
                    if redo {
                        assert(self.redo@ =~= left.redo.drop_last());
                    } else {
                        assert(self.undo@ =~= left.undo.drop_last());
                    }
                }
                Some(record.layout)
            },
            None => None,
        }
    }

    /// Keeps the layout that `take` replaced, on the other side.
    pub fn put_back(&mut self, redo: bool, replaced: W, timeout: u64, now: Instant)
        requires
            old(self).undo@.len() + old(self).redo@.len() < HISTORY_LIMIT,
            now.reaches(timeout),
        ensures
            final(self).wf(),
            final(self)@ == old(self)@.putting_back(redo, replaced, timeout, now),
    {
        let record = Record { expires: now.after(timeout), layout: replaced };
        if redo {
            self.undo.push(record);
        } else {
            self.redo.push(record);
        }
    }
}

proof fn lemma_latest_is_current<W>(records: Seq<Record<W>>, record: Record<W>, now: Instant)
    requires
        is_current(record, now),
    ensures
        current(records.push(record), now) == current(records, now).push(record),
{
    assert(records.push(record).drop_last() =~= records);
}

/// An undo brings back the layout before the last change, at any time before it expires.
pub proof fn law_undo_brings_back_what_a_change_replaced<W>(
    history: HistoryModel<W>,
    before: W,
    timeout: u64,
    now: Instant,
    later: Instant,
)
    requires
        history.wf(),
        now.reaches(timeout),
        later.nanos < now.spec_after(timeout).nanos,
        now.nanos <= later.nanos,
    ensures
        history.remembering(before, timeout, now).next(false, later) == Some(before),
{
    let record = Record { expires: now.spec_after(timeout), layout: before };
    let undo = remembered(history.undo, record);
    assert(undo.last() == record);
    assert(undo =~= undo.drop_last().push(record));
    lemma_latest_is_current(undo.drop_last(), record, later);
}

/// What an undo replaced is brought back by the redo behind it, and what a redo replaced by the
/// undo behind it, in any state and at any time before it expires.
pub proof fn law_redo_brings_back_what_undo_replaced<W>(
    history: HistoryModel<W>,
    redo: bool,
    replaced: W,
    timeout: u64,
    now: Instant,
    later: Instant,
)
    requires
        history.wf(),
        history.next(redo, now) is Some,
        now.reaches(timeout),
        later.nanos < now.spec_after(timeout).nanos,
        now.nanos <= later.nanos,
    ensures
        history.taking(redo, now).putting_back(redo, replaced, timeout, now).next(!redo, later)
            == Some(replaced),
{
    let record = Record { expires: now.spec_after(timeout), layout: replaced };
    let left = history.taking(redo, now);
    lemma_latest_is_current(left.undo, record, later);
    lemma_latest_is_current(left.redo, record, later);
}

/// A change, its undo, the redo of that and another undo, at later and later times before what
/// each needs expires: the layouts before and after the change come back in turn.
pub proof fn law_undo_and_redo_take_turns<W>(
    history: HistoryModel<W>,
    before: W,
    after: W,
    timeouts: (u64, u64, u64),
    times: (Instant, Instant, Instant, Instant),
)
    requires
        history.wf(),
        times.0.reaches(timeouts.0),
        times.1.reaches(timeouts.1),
        times.2.reaches(timeouts.2),
        times.0.nanos <= times.1.nanos < times.0.spec_after(timeouts.0).nanos,
        times.1.nanos <= times.2.nanos < times.1.spec_after(timeouts.1).nanos,
        times.2.nanos <= times.3.nanos < times.2.spec_after(timeouts.2).nanos,
    ensures
        ({
            let changed = history.remembering(before, timeouts.0, times.0);
            let undone = changed.taking(false, times.1).putting_back(
                false,
                after,
                timeouts.1,
                times.1,
            );
            let redone = undone.taking(true, times.2).putting_back(
                true,
                before,
                timeouts.2,
                times.2,
            );
            &&& changed.next(false, times.1) == Some(before)
            &&& undone.next(true, times.2) == Some(after)
            &&& redone.next(false, times.3) == Some(before)
            &&& undone.redo.len() == 1 && redone.redo.len() == 0
        }),
{
    let changed = history.remembering(before, timeouts.0, times.0);
    law_undo_brings_back_what_a_change_replaced(history, before, timeouts.0, times.0, times.1);
    let first = changed.taking(false, times.1);
    let one = Record { expires: times.1.spec_after(timeouts.1), layout: after };
    let undone = first.putting_back(false, after, timeouts.1, times.1);
    lemma_latest_is_current(first.redo, one, times.2);
    assert(undone.next(true, times.2) == Some(after));
    let second = undone.taking(true, times.2);
    let two = Record { expires: times.2.spec_after(timeouts.2), layout: before };
    lemma_latest_is_current(second.undo, two, times.3);
    assert(first.redo =~= Seq::empty());
    assert(second.redo =~= Seq::empty());
}

/// A layout cannot be brought back once its time is over, and can before; what is left keeps its
/// order.
pub proof fn law_expired_layouts_are_gone<W>(records: Seq<Record<W>>, now: Instant)
    ensures
        current(records, now) == records.filter(
            |record: Record<W>| record.expires.nanos > now.nanos,
        ),
    decreases records.len(),
{
    reveal(Seq::filter);
    if records.len() > 0 {
        law_expired_layouts_are_gone(records.drop_last(), now);
    }
}

} // verus!
