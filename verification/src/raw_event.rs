//! One raw notification, and the two questions that are asked of it alone.

use vstd::prelude::*;
use crate::paths::{ends_with_path, path_ends_with};

verus! {

/// What a modification changed.
#[derive(Clone, Copy, Debug, PartialEq, Eq)]
pub enum ModifyKind {
    /// The file's content.
    Data,
    /// The file's name: a rename or a move.
    Name,
    /// Not told.
    Any,
    /// Something else, such as the file's metadata.
    Other,
}

/// What a removal took away.
#[derive(Clone, Copy, Debug, PartialEq, Eq)]
pub enum RemoveKind {
    /// Not told: an unqualified removal.
    Any,
    /// Told: a file, a directory, or something else.
    Other,
}

/// The kind of a raw notification.
#[derive(Clone, Copy, Debug, PartialEq, Eq)]
pub enum EventKind {
    Create,
    Modify(ModifyKind),
    Remove(RemoveKind),
    Other,
}

/// One raw notification: something of this kind happened at these paths.
/// A rename or move may carry two paths, the old one first.
#[derive(Clone, Debug, PartialEq, Eq)]
pub struct RawEvent {
    pub kind: EventKind,
    pub paths: Vec<String>,
}

/// The mathematical value of a [`RawEvent`]: each path as its characters.
pub struct RawEventView {
    pub kind: EventKind,
    pub paths: Seq<Seq<char>>,
}

impl View for RawEvent {
    type V = RawEventView;

    open spec fn view(&self) -> RawEventView {
        RawEventView { kind: self.kind, paths: self.paths@.map_values(|p: String| p@) }
    }
}

/// The value of a batch: the value of each of its events, in order.
pub open spec fn batch_view(batch: Seq<RawEvent>) -> Seq<RawEventView> {
    batch.map_values(|e: RawEvent| e@)
}

/// The file name under which a directory's display attributes are kept.
/// Notifications about it are noise.
pub open spec fn reserved_name() -> Seq<char> {
    ".DS_Store"@
}

impl RawEventView {
    /// The event is a removal that does not tell what was removed.
    pub open spec fn is_remove_any(self) -> bool {
        self.kind == EventKind::Remove(RemoveKind::Any)
    }

    /// One of the first `n` paths ends in the reserved file name.
    pub open spec fn names_reserved_within(self, n: int) -> bool {
        exists|i: int| 0 <= i < n && i < self.paths.len() && path_ends_with(#[trigger] self.paths[i], reserved_name())
    }

    /// One of the paths ends in the reserved file name.
    pub open spec fn names_reserved(self) -> bool {
        self.names_reserved_within(self.paths.len() as int)
    }

    /// The event names no path, or one of its paths ends in the reserved
    /// file name: nothing can be made of it.
    pub open spec fn should_ignore(self) -> bool {
        self.paths.len() == 0 || self.names_reserved()
    }
}

/// The questions that are asked of one raw notification.
pub trait EventExt {
    /// The value that the two answers are stated of.
    spec fn raw(&self) -> RawEventView;

    /// Whether the event is an unqualified removal.
    fn is_remove_any(&self) -> (r: bool)
        ensures
            r == self.raw().is_remove_any(),
    ;

    /// Whether the event is to be passed over: it names no path, or one
    /// of its paths ends in the reserved file name.
    fn should_ignore(&self) -> (r: bool)
        ensures
            r == self.raw().should_ignore(),
    ;
}

impl RawEvent {
    /// Whether one of the paths ends in the reserved file name.
    pub fn names_reserved(&self) -> (r: bool)
        ensures
            r == self@.names_reserved(),
    {
        let mut i: usize = 0;
        while i < self.paths.len()
            invariant
                i <= self.paths.len(),
                !self@.names_reserved_within(i as int),
            decreases self.paths.len() - i,
        {
            if ends_with_path(self.paths[i].as_str(), ".DS_Store") {
                assert(self@.paths[i as int] == self.paths[i as int]@);
                assert(path_ends_with(self@.paths[i as int], reserved_name()));
                return true;
            }
            assert(self@.paths[i as int] == self.paths[i as int]@);
            i += 1;
        }
        false
    }
}

impl EventExt for RawEvent {
    open spec fn raw(&self) -> RawEventView {
        self@
    }

    fn is_remove_any(&self) -> (r: bool) {
        match self.kind {
            EventKind::Remove(RemoveKind::Any) => true,
            _ => false,
        }
    }

    fn should_ignore(&self) -> (r: bool) {
        self.paths.len() == 0 || self.names_reserved()
    }
}

} // verus!
