//! What holds of every classification, proved from the definitions.

use vstd::prelude::*;
use crate::classify::{
    classify, classify_from, event_outcome, first_removal, has_unqualified_removal,
    lemma_first_removal_from, outcome_at, reads_presence, removal_source, RemovalScope,
};
use crate::fs_event::{FSEvent, FSEventView};
use crate::paths::same_parent;
use crate::raw_event::{batch_view, EventKind, RawEvent, RawEventView};

verus! {

/// The event at `k` is the first of the batch that decides anything.
pub open spec fn decides_at(
    batch: Seq<RawEventView>,
    present: Seq<bool>,
    scope: RemovalScope,
    k: int,
) -> bool {
    &&& 0 <= k < batch.len()
    &&& outcome_at(batch, present, scope, k) is Some
    &&& forall|j: int| 0 <= j < k ==> (#[trigger] outcome_at(batch, present, scope, j)) is None
}

/// The path occurs in the batch: some event carries it.
pub open spec fn occurs_in(batch: Seq<RawEventView>, path: Seq<char>) -> bool {
    exists|i: int, j: int|
        0 <= i < batch.len() && 0 <= j < batch[i].paths.len() && (#[trigger] batch[i].paths[j]) == path
}

/// From `from` on, the scan returns the outcome of the first event that
/// decides anything, if no event between `from` and it does.
proof fn lemma_scan_stops_at(
    batch: Seq<RawEventView>,
    present: Seq<bool>,
    scope: RemovalScope,
    from: int,
    k: int,
)
    requires
        0 <= from <= k < batch.len(),
        outcome_at(batch, present, scope, k) is Some,
        forall|j: int| from <= j < k ==> (#[trigger] outcome_at(batch, present, scope, j)) is None,
    ensures
        classify_from(batch, present, scope, from) == outcome_at(batch, present, scope, k)->0,
    decreases k - from,
{
    if from < k {
        lemma_scan_stops_at(batch, present, scope, from + 1, k);
    }
}

/// From `from` on, the scan returns `Unknown` exactly if no event decides
/// anything, and else the outcome of one that does, with none before it.
proof fn lemma_scan_result(batch: Seq<RawEventView>, present: Seq<bool>, scope: RemovalScope, from: int)
    requires
        0 <= from <= batch.len(),
    ensures
        classify_from(batch, present, scope, from) == FSEventView::Unknown <==> forall|j: int|
            from <= j < batch.len() ==> (#[trigger] outcome_at(batch, present, scope, j)) is None,
        classify_from(batch, present, scope, from) != FSEventView::Unknown ==> exists|k: int|
            from <= k < batch.len() && (#[trigger] outcome_at(batch, present, scope, k)) == Some(
                classify_from(batch, present, scope, from),
            ) && forall|j: int|
                from <= j < k ==> (#[trigger] outcome_at(batch, present, scope, j)) is None,
    decreases batch.len() - from,
{
    if from < batch.len() {
        lemma_scan_result(batch, present, scope, from + 1);
        if outcome_at(batch, present, scope, from) is None {
            let rest = classify_from(batch, present, scope, from + 1);
            if rest != FSEventView::Unknown {
                let k = choose|k: int|
                    from + 1 <= k < batch.len() && (#[trigger] outcome_at(batch, present, scope, k))
                        == Some(rest) && forall|j: int|
                        from + 1 <= j < k ==> (#[trigger] outcome_at(batch, present, scope, j)) is None;
                assert forall|j: int| from <= j < k implies (#[trigger] outcome_at(
                    batch,
                    present,
                    scope,
                    j,
                )) is None by {}
            }
        }
    }
}

/// A batch in which every event is to be passed over, because it names no
/// path or names the reserved file, is classified as `Unknown`. The empty
/// batch is such a batch.
pub proof fn law_ignorable_batch_is_unknown(
    batch: Seq<RawEventView>,
    present: Seq<bool>,
    scope: RemovalScope,
)
    requires
        forall|i: int| 0 <= i < batch.len() ==> (#[trigger] batch[i]).should_ignore(),
    ensures
        classify(batch, present, scope) == FSEventView::Unknown,
{
    lemma_scan_result(batch, present, scope, 0);
    assert forall|j: int| 0 <= j < batch.len() implies (#[trigger] outcome_at(
        batch,
        present,
        scope,
        j,
    )) is None by {
        assert(batch[j].should_ignore());
    }
}

/// Classification is a function of the batch's value, of what is on disk
/// and of the scope: two classifications of equal batches, with the same
/// answers about the disk, give equal events.
pub proof fn law_same_batch_same_event(
    first: Vec<RawEvent>,
    second: Vec<RawEvent>,
    present: Seq<bool>,
    scope: RemovalScope,
    first_event: FSEvent,
    second_event: FSEvent,
)
    requires
        batch_view(first@) == batch_view(second@),
        first_event@ == classify(batch_view(first@), present, scope),
        second_event@ == classify(batch_view(second@), present, scope),
    ensures
        first_event@ == second_event@,
{
}

/// The first event that decides anything decides for the batch: the
/// classification is its outcome, whatever the later events would give.
pub proof fn law_first_match_wins(
    batch: Seq<RawEventView>,
    present: Seq<bool>,
    scope: RemovalScope,
    k: int,
)
    requires
        decides_at(batch, present, scope, k),
    ensures
        classify(batch, present, scope) == outcome_at(batch, present, scope, k)->0,
{
    lemma_scan_stops_at(batch, present, scope, 0, k);
}

/// A batch is classified as `Unknown` exactly if none of its events
/// decides anything; and every other classification is the outcome of the
/// first event that decides.
pub proof fn law_unknown_iff_nothing_decides(
    batch: Seq<RawEventView>,
    present: Seq<bool>,
    scope: RemovalScope,
)
    ensures
        classify(batch, present, scope) == FSEventView::Unknown <==> forall|j: int|
            0 <= j < batch.len() ==> (#[trigger] outcome_at(batch, present, scope, j)) is None,
        classify(batch, present, scope) != FSEventView::Unknown ==> exists|k: int|
            decides_at(batch, present, scope, k) && (#[trigger] outcome_at(batch, present, scope, k))
                == Some(classify(batch, present, scope)),
{
    lemma_scan_result(batch, present, scope, 0);
    let result = classify(batch, present, scope);
    if result != FSEventView::Unknown {
        let k = choose|k: int|
            0 <= k < batch.len() && (#[trigger] outcome_at(batch, present, scope, k)) == Some(result)
                && forall|j: int| 0 <= j < k ==> (#[trigger] outcome_at(batch, present, scope, j)) is None;
        assert(decides_at(batch, present, scope, k));
    }
}

/// The two paths of a rename have the same parent directory. The two
/// paths of a move have not, unless the move was put together from an
/// unqualified removal and a creation: then its first path is the
/// removal's.
pub proof fn law_rename_and_move_by_parent(
    batch: Seq<RawEventView>,
    present: Seq<bool>,
    scope: RemovalScope,
)
    ensures
        match classify(batch, present, scope) {
            FSEventView::Rename(old_path, new_path) => same_parent(old_path, new_path),
            FSEventView::Move(old_path, new_path) => !same_parent(old_path, new_path)
                || removal_source(batch, scope) == Some(old_path),
            _ => true,
        },
{
    law_unknown_iff_nothing_decides(batch, present, scope);
}

/// No path is made up: every path of a classification is carried by an
/// event of the batch.
pub proof fn law_paths_occur_in_batch(batch: Seq<RawEventView>, present: Seq<bool>, scope: RemovalScope)
    ensures
        classify(batch, present, scope).path() matches Some(p) ==> occurs_in(batch, p),
        classify(batch, present, scope).path2() matches Some(p) ==> occurs_in(batch, p),
{
    law_unknown_iff_nothing_decides(batch, present, scope);
    lemma_first_removal_from(batch, scope, 0);
    let result = classify(batch, present, scope);
    if result != FSEventView::Unknown {
        let k = choose|k: int|
            decides_at(batch, present, scope, k) && (#[trigger] outcome_at(batch, present, scope, k))
                == Some(result);
        let event = batch[k];
        assert(event.paths.len() > 0);
        assert(occurs_in(batch, batch[k].paths[0]));
        if event.paths.len() == 2 {
            assert(occurs_in(batch, batch[k].paths[1]));
        }
        let r = first_removal(batch, scope);
        if r < batch.len() && batch[r].paths.len() > 0 {
            assert(occurs_in(batch, batch[r].paths[0]));
        }
    }
}

/// Where only the events that are not passed over are searched, an
/// unqualified removal that is found names a path: the batch tells a
/// source exactly if it has such a removal.
pub proof fn law_actionable_removal_tells_source(batch: Seq<RawEventView>)
    ensures
        removal_source(batch, RemovalScope::Actionable) is Some <==> has_unqualified_removal(
            batch,
            RemovalScope::Actionable,
        ),
{
    lemma_first_removal_from(batch, RemovalScope::Actionable, 0);
}

/// The disk is read only where an event asks: the outcome of an event
/// that does not read it is the same whatever is on disk, and an event
/// that reads it decides on a deletion of its first path if that path is
/// gone, and nothing if it is there.
pub proof fn law_presence_read_where_asked(event: RawEventView, source: Option<Seq<char>>)
    ensures
        !reads_presence(event) ==> event_outcome(event, source, true) == event_outcome(
            event,
            source,
            false,
        ),
        reads_presence(event) ==> event_outcome(event, source, true) is None && event_outcome(
            event,
            source,
            false,
        ) == Some(FSEventView::Delete(event.paths[0])),
{
}

/// A creation that decides is classified as a move from the batch's
/// source where the batch tells one, and as a creation where it tells
/// none.
pub proof fn law_creation_beside_removal(
    batch: Seq<RawEventView>,
    present: Seq<bool>,
    scope: RemovalScope,
    k: int,
)
    requires
        decides_at(batch, present, scope, k),
        batch[k].kind == EventKind::Create,
    ensures
        classify(batch, present, scope) == match removal_source(batch, scope) {
            Some(from) => FSEventView::Move(from, batch[k].paths[0]),
            None => FSEventView::Create(batch[k].paths[0]),
        },
{
    law_first_match_wins(batch, present, scope, k);
}

} // verus!
