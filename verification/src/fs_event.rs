//! The semantic event that a batch of raw notifications is reduced to.

use vstd::prelude::*;

verus! {

/// What happened to a file, as far as one batch of notifications shows it.
#[derive(Debug, PartialEq)]
pub enum FSEvent {
    /// A file appeared at the path.
    Create(String),
    /// The file at the path changed.
    Modify(String),
    /// The file at the path is gone.
    Delete(String),
    /// The file went from the first path to the second, in one directory.
    Rename(String, String),
    /// The file went from the first path to the second.
    Move(String, String),
    /// The batch holds nothing that can be classified.
    Unknown,
}

/// The mathematical value of an [`FSEvent`]: each path as its characters.
pub enum FSEventView {
    Create(Seq<char>),
    Modify(Seq<char>),
    Delete(Seq<char>),
    Rename(Seq<char>, Seq<char>),
    Move(Seq<char>, Seq<char>),
    Unknown,
}

impl FSEventView {
    /// The path that the event is about: the old one of a rename or move.
    pub open spec fn path(self) -> Option<Seq<char>> {
        match self {
            FSEventView::Create(p) => Some(p),
            FSEventView::Modify(p) => Some(p),
            FSEventView::Delete(p) => Some(p),
            FSEventView::Rename(p, _) => Some(p),
            FSEventView::Move(p, _) => Some(p),
            FSEventView::Unknown => None,
        }
    }

    /// The new path of a rename or move.
    pub open spec fn path2(self) -> Option<Seq<char>> {
        match self {
            FSEventView::Rename(_, q) => Some(q),
            FSEventView::Move(_, q) => Some(q),
            _ => None,
        }
    }
}

impl View for FSEvent {
    type V = FSEventView;

    open spec fn view(&self) -> FSEventView {
        match *self {
            FSEvent::Create(p) => FSEventView::Create(p@),
            FSEvent::Modify(p) => FSEventView::Modify(p@),
            FSEvent::Delete(p) => FSEventView::Delete(p@),
            FSEvent::Rename(p, q) => FSEventView::Rename(p@, q@),
            FSEvent::Move(p, q) => FSEventView::Move(p@, q@),
            FSEvent::Unknown => FSEventView::Unknown,
        }
    }
}

/// The value of an optional path.
pub open spec fn path_view(path: Option<String>) -> Option<Seq<char>> {
    match path {
        Some(p) => Some(p@),
        None => None,
    }
}

/// The value of an optional event.
pub open spec fn event_view(event: Option<FSEvent>) -> Option<FSEventView> {
    match event {
        Some(e) => Some(e@),
        None => None,
    }
}

impl FSEvent {
    /// Whether the batch held nothing that could be classified.
    pub fn is_unknown(&self) -> (r: bool)
        ensures
            r == (self@ == FSEventView::Unknown),
    {
        match self {
            FSEvent::Unknown => true,
            _ => false,
        }
    }

    /// A copy of the path that the event is about: the old one of a rename
    /// or move, none for `Unknown`.
    pub fn path(&self) -> (r: Option<String>)
        ensures
            path_view(r) == self@.path(),
    {
        match self {
            FSEvent::Create(path) => Some(path.clone()),
            FSEvent::Modify(path) => Some(path.clone()),
            FSEvent::Delete(path) => Some(path.clone()),
            FSEvent::Rename(path, _) => Some(path.clone()),
            FSEvent::Move(path, _) => Some(path.clone()),
            FSEvent::Unknown => None,
        }
    }

    /// A copy of the new path of a rename or move, none for the others.
    pub fn path2(&self) -> (r: Option<String>)
        ensures
            path_view(r) == self@.path2(),
    {
        match self {
            FSEvent::Rename(_, path) => Some(path.clone()),
            FSEvent::Move(_, path) => Some(path.clone()),
            _ => None,
        }
    }
}

} // verus!
