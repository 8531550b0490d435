//! The classifier: from a batch of raw notifications to one semantic event.
//!
//! The events are taken in the order in which the watcher saw them. The
//! first one that a rule applies to decides, and the rest are not read.

use vstd::prelude::*;
use crate::fs_event::{event_view, path_view, FSEvent, FSEventView};
use crate::paths::{parents_match, same_parent};
use crate::raw_event::{batch_view, EventExt, EventKind, ModifyKind, RawEvent, RawEventView};

verus! {

/// The rules for one event, in their order of priority. `source` is the
/// path of the batch's unqualified removal, if it tells one; `reserved` says
/// whether a path of the event ends in the reserved file name; `siblings`
/// whether its two paths have the same parent directory; `present` whether
/// its first path is on disk now. `None`: the event decides nothing.
///
/// - An event without a path, or about the reserved file, decides nothing.
/// - A creation in a batch that tells a source is the arriving half of a
///   move from that source.
/// - Any other creation is a creation.
/// - A change of content, or an unspecified change, is a modification.
/// - A change of name that carries two paths is a rename where the two
///   have the same parent directory, and a move where they have not.
/// - Any other change of a file that is no longer there is a deletion.
pub open spec fn rule_outcome(
    event: RawEventView,
    source: Option<Seq<char>>,
    reserved: bool,
    siblings: bool,
    present: bool,
) -> Option<FSEventView> {
    if event.paths.len() == 0 || reserved {
        None
    } else {
        let path = event.paths[0];
        match event.kind {
            EventKind::Create => match source {
                Some(from) => Some(FSEventView::Move(from, path)),
                None => Some(FSEventView::Create(path)),
            },
            EventKind::Modify(ModifyKind::Data) => Some(FSEventView::Modify(path)),
            EventKind::Modify(ModifyKind::Any) => Some(FSEventView::Modify(path)),
            EventKind::Modify(kind) => if kind == ModifyKind::Name && event.paths.len() == 2 {
                if siblings {
                    Some(FSEventView::Rename(path, event.paths[1]))
                } else {
                    Some(FSEventView::Move(path, event.paths[1]))
                }
            } else if !present {
                Some(FSEventView::Delete(path))
            } else {
                None
            },
            _ => None,
        }
    }
}

/// What one event decides, its paths examined: [`rule_outcome`] with the
/// answers that the paths themselves give.
pub open spec fn event_outcome(
    event: RawEventView,
    source: Option<Seq<char>>,
    present: bool,
) -> Option<FSEventView> {
    rule_outcome(
        event,
        source,
        event.names_reserved(),
        event.paths.len() == 2 && same_parent(event.paths[0], event.paths[1]),
        present,
    )
}

/// The event's outcome depends on whether its first path is on disk: the
/// event is not passed over, and the rule that applies to its kind asks.
pub open spec fn reads_presence(event: RawEventView) -> bool {
    !event.should_ignore() && match event.kind {
        EventKind::Modify(ModifyKind::Name) => event.paths.len() != 2,
        EventKind::Modify(ModifyKind::Other) => true,
        _ => false,
    }
}

/// Which events are searched for an unqualified removal.
#[derive(Clone, Copy, Debug, PartialEq, Eq)]
pub enum RemovalScope {
    /// Every event of the batch, also one that is otherwise passed over.
    WholeBatch,
    /// Only the events that are not passed over.
    Actionable,
}

/// The event is an unqualified removal that the scope admits.
pub open spec fn counts_as_removal(event: RawEventView, scope: RemovalScope) -> bool {
    event.is_remove_any() && (scope == RemovalScope::WholeBatch || !event.should_ignore())
}

/// Some event of the batch is an unqualified removal that the scope admits.
pub open spec fn has_unqualified_removal(batch: Seq<RawEventView>, scope: RemovalScope) -> bool {
    exists|i: int| 0 <= i < batch.len() && counts_as_removal(#[trigger] batch[i], scope)
}

/// The index of the first unqualified removal at or after `from` that the
/// scope admits, or the batch's length if there is none.
pub open spec fn first_removal_from(batch: Seq<RawEventView>, scope: RemovalScope, from: int) -> int
    decreases batch.len() - from,
{
    if from < 0 || from >= batch.len() {
        batch.len() as int
    } else if counts_as_removal(batch[from], scope) {
        from
    } else {
        first_removal_from(batch, scope, from + 1)
    }
}

/// The index of the batch's first unqualified removal that the scope
/// admits, or the batch's length if it has none.
pub open spec fn first_removal(batch: Seq<RawEventView>, scope: RemovalScope) -> int {
    first_removal_from(batch, scope, 0)
}

/// The first path of the batch's first unqualified removal that the scope
/// admits: where a file that this batch sees created has come from.
/// `None` if the batch has no such removal, or if that removal names no
/// path and so tells no source.
pub open spec fn removal_source(batch: Seq<RawEventView>, scope: RemovalScope) -> Option<Seq<char>> {
    let first = first_removal(batch, scope);
    if first < batch.len() && batch[first].paths.len() > 0 {
        Some(batch[first].paths[0])
    } else {
        None
    }
}

/// Whether the first path of the event at `i` is on disk, as `present`
/// tells it. An event that `present` does not reach counts as absent.
pub open spec fn is_present(present: Seq<bool>, i: int) -> bool {
    0 <= i < present.len() && present[i]
}

/// What the event at `i` decides within its batch.
pub open spec fn outcome_at(
    batch: Seq<RawEventView>,
    present: Seq<bool>,
    scope: RemovalScope,
    i: int,
) -> Option<FSEventView> {
    event_outcome(batch[i], removal_source(batch, scope), is_present(present, i))
}

/// The outcome of the first event at or after `from` that decides
/// anything; `Unknown` if none does.
pub open spec fn classify_from(
    batch: Seq<RawEventView>,
    present: Seq<bool>,
    scope: RemovalScope,
    from: int,
) -> FSEventView
    decreases batch.len() - from,
{
    if from < 0 || from >= batch.len() {
        FSEventView::Unknown
    } else {
        match outcome_at(batch, present, scope, from) {
            Some(event) => event,
            None => classify_from(batch, present, scope, from + 1),
        }
    }
}

/// The semantic event of a batch: the outcome of its first event that
/// decides anything; `Unknown` if none does, and so for the empty batch.
pub open spec fn classify(batch: Seq<RawEventView>, present: Seq<bool>, scope: RemovalScope) -> FSEventView {
    classify_from(batch, present, scope, 0)
}

/// The search for the first unqualified removal from `from` on ends at
/// one that the scope admits, with none between `from` and it, or at the
/// batch's end.
pub proof fn lemma_first_removal_from(batch: Seq<RawEventView>, scope: RemovalScope, from: int)
    requires
        0 <= from <= batch.len(),
    ensures
        from <= first_removal_from(batch, scope, from) <= batch.len(),
        first_removal_from(batch, scope, from) < batch.len() ==> counts_as_removal(
            batch[first_removal_from(batch, scope, from)],
            scope,
        ),
        forall|j: int|
            from <= j < first_removal_from(batch, scope, from) ==> !counts_as_removal(
                #[trigger] batch[j],
                scope,
            ),
    decreases batch.len() - from,
{
    if from < batch.len() && !counts_as_removal(batch[from], scope) {
        lemma_first_removal_from(batch, scope, from + 1);
    }
}

/// A batch has an unqualified removal that the scope admits exactly if
/// the search for the first one ends inside the batch.
pub proof fn lemma_removal_found_iff_present(batch: Seq<RawEventView>, scope: RemovalScope)
    ensures
        has_unqualified_removal(batch, scope) <==> first_removal(batch, scope) < batch.len(),
{
    lemma_first_removal_from(batch, scope, 0);
}

impl RawEvent {
    /// Applies the rules to this event, given the answers about its paths.
    /// See [`rule_outcome`] for the rules and the arguments.
    pub fn apply_rules(
        &self,
        source: &Option<String>,
        reserved: bool,
        siblings: bool,
        present: bool,
    ) -> (r: Option<FSEvent>)
        ensures
            event_view(r) == rule_outcome(self@, path_view(*source), reserved, siblings, present),
    {
        if self.paths.len() == 0 || reserved {
            return None;
        }
        let path = self.paths[0].clone();
        assert(self@.paths[0] == path@);
        match self.kind {
            EventKind::Create => match source {
                Some(from) => Some(FSEvent::Move(from.clone(), path)),
                None => Some(FSEvent::Create(path)),
            },
            EventKind::Modify(ModifyKind::Data) => Some(FSEvent::Modify(path)),
            EventKind::Modify(ModifyKind::Any) => Some(FSEvent::Modify(path)),
            EventKind::Modify(ModifyKind::Name) => {
                if self.paths.len() == 2 {
                    let path2 = self.paths[1].clone();
                    assert(self@.paths[1] == path2@);
                    if siblings {
                        Some(FSEvent::Rename(path, path2))
                    } else {
                        Some(FSEvent::Move(path, path2))
                    }
                } else if !present {
                    Some(FSEvent::Delete(path))
                } else {
                    None
                }
            },
            EventKind::Modify(ModifyKind::Other) => {
                if !present {
                    Some(FSEvent::Delete(path))
                } else {
                    None
                }
            },
            _ => None,
        }
    }

    /// Whether the outcome of this event depends on whether its first path
    /// is on disk. Where it does not, the disk need not be asked.
    pub fn reads_presence(&self) -> (r: bool)
        ensures
            r == reads_presence(self@),
    {
        match self.kind {
            EventKind::Modify(ModifyKind::Name) => self.paths.len() != 2 && !self.should_ignore(),
            EventKind::Modify(ModifyKind::Other) => !self.should_ignore(),
            _ => false,
        }
    }

    /// What this event decides: examines its paths and applies the rules.
    /// `source` is the path of the batch's unqualified removal, if it
    /// tells one; `present` says whether the event's first path is on disk
    /// now.
    pub fn outcome(&self, source: &Option<String>, present: bool) -> (r: Option<FSEvent>)
        ensures
            event_view(r) == event_outcome(self@, path_view(*source), present),
    {
        let reserved = self.names_reserved();
        let renamed = match self.kind {
            EventKind::Modify(ModifyKind::Name) => true,
            _ => false,
        };
        let mut siblings = false;
        if renamed && self.paths.len() == 2 {
            siblings = parents_match(self.paths[0].as_str(), self.paths[1].as_str());
            assert(self@.paths[0] == self.paths[0]@);
            assert(self@.paths[1] == self.paths[1]@);
        }
        self.apply_rules(source, reserved, siblings, present)
    }
}

/// The index of the batch's first unqualified removal that the scope
/// admits, if it has one.
pub fn first_unqualified_removal(batch: &Vec<RawEvent>, scope: RemovalScope) -> (r: Option<usize>)
    ensures
        r is Some <==> has_unqualified_removal(batch_view(batch@), scope),
        r is Some ==> r->0 < batch.len() && r->0 == first_removal(batch_view(batch@), scope),
        r is None ==> first_removal(batch_view(batch@), scope) == batch.len(),
{
    let ghost events = batch_view(batch@);
    let whole = match scope {
        RemovalScope::WholeBatch => true,
        RemovalScope::Actionable => false,
    };
    let mut i: usize = 0;
    while i < batch.len()
        invariant
            i <= batch.len(),
            events == batch_view(batch@),
            whole == (scope == RemovalScope::WholeBatch),
            first_removal(events, scope) == first_removal_from(events, scope, i as int),
            forall|j: int| 0 <= j < i ==> !counts_as_removal(#[trigger] events[j], scope),
        decreases batch.len() - i,
    {
        assert(events[i as int] == batch[i as int]@);
        if batch[i].is_remove_any() && (whole || !batch[i].should_ignore()) {
            return Some(i);
        }
        i += 1;
    }
    None
}

/// Whether some event of the batch is an unqualified removal that the
/// scope admits.
pub fn has_unqualified_removal_in(batch: &Vec<RawEvent>, scope: RemovalScope) -> (r: bool)
    ensures
        r == has_unqualified_removal(batch_view(batch@), scope),
{
    first_unqualified_removal(batch, scope).is_some()
}

/// A copy of the first path of the batch's first unqualified removal that
/// the scope admits; none if the batch has no such removal, or if that
/// removal names no path.
pub fn removal_source_in(batch: &Vec<RawEvent>, scope: RemovalScope) -> (r: Option<String>)
    ensures
        path_view(r) == removal_source(batch_view(batch@), scope),
{
    match first_unqualified_removal(batch, scope) {
        Some(k) => {
            assert(batch_view(batch@)[k as int] == batch[k as int]@);
            if batch[k].paths.len() > 0 {
                let from = batch[k].paths[0].clone();
                assert(batch_view(batch@)[k as int].paths[0] == from@);
                Some(from)
            } else {
                None
            }
        },
        None => None,
    }
}

/// Reduces the batch to one semantic event, with the unqualified removal
/// searched in the given scope. `present` answers, for the event at the
/// same index, whether its first path is on disk now; it is read only
/// where a rule asks, and an event that it does not reach counts as absent.
///
/// Every batch has a classification. An unqualified removal that names no
/// path tells no source: a creation beside it is a creation.
pub fn classify_batch(batch: &Vec<RawEvent>, present: &Vec<bool>, scope: RemovalScope) -> (r: FSEvent)
    ensures
        r@ == classify(batch_view(batch@), present@, scope),
{
    let ghost events = batch_view(batch@);
    let source = removal_source_in(batch, scope);
    let mut i: usize = 0;
    while i < batch.len()
        invariant
            i <= batch.len(),
            events == batch_view(batch@),
            path_view(source) == removal_source(events, scope),
            classify(events, present@, scope) == classify_from(events, present@, scope, i as int),
        decreases batch.len() - i,
    {
        let here = i < present.len() && present[i];
        assert(events[i as int] == batch[i as int]@);
        match batch[i].outcome(&source, here) {
            Some(event) => {
                return event;
            },
            None => {},
        }
        i += 1;
    }
    FSEvent::Unknown
}

/// The classification of a batch.
pub trait EventsExt {
    /// The batch's value.
    spec fn batch(&self) -> Seq<RawEventView>;

    /// Reduces the batch to one semantic event, with the unqualified
    /// removal searched in the whole batch: [`classify_batch`] in that
    /// scope.
    fn to_fs_event(&self, present: &Vec<bool>) -> (r: FSEvent)
        ensures
            r@ == classify(self.batch(), present@, RemovalScope::WholeBatch),
    ;
}

impl EventsExt for Vec<RawEvent> {
    open spec fn batch(&self) -> Seq<RawEventView> {
        batch_view(self@)
    }

    fn to_fs_event(&self, present: &Vec<bool>) -> (r: FSEvent) {
        classify_batch(self, present, RemovalScope::WholeBatch)
    }
}

} // verus!
