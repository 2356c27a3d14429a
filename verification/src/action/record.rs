//! An append-only log of tracks, one log per kind of act, for undo and redo.

use bevy::prelude::Resource;
use vstd::prelude::*;

pub mod push;

pub use push::push;


verus! {

/// Why the log was not edited: an undo or a redo is replaying it.
#[derive(Clone, Copy, Debug, PartialEq, Eq, Structural)]
pub struct UndoRedoInProgress;

/// How an edit of the log ends.
pub type EditRecordResult = Result<(), UndoRedoInProgress>;

/// Why a track was not appended to the log of the world.
#[derive(Clone, Copy, Debug, PartialEq, Eq, Structural)]
pub enum PushError {
    /// An undo or a redo is replaying the log.
    UndoRedoInProgress,
    /// The world keeps logs of this kind among the values that must stay on
    /// its thread, and takes none as a resource.
    KeptOnThread,
}

/// One entry of the log.
pub struct Track<Act> {
    /// What was done.
    pub act: Act,
}

/// The log of the acts of one kind.
pub struct Record<Act> {
    tracks: Vec<Track<Act>>,
    replaying: bool,
}

impl<Act: Send + Sync + 'static> Resource for Record<Act> {

}

impl<Act> View for Record<Act> {
    type V = Seq<Track<Act>>;

    closed spec fn view(&self) -> Seq<Track<Act>> {
        self.tracks@
    }
}

impl<Act> Record<Act> {
    /// Whether an undo or a redo is replaying the log.
    pub closed spec fn replaying(&self) -> bool {
        self.replaying
    }

    /// Creates an empty log that nothing replays.
    pub fn new() -> (record: Self)
        ensures
            record@ == Seq::<Track<Act>>::empty(),
            !record.replaying(),
    {
        Record { tracks: Vec::new(), replaying: false }
    }

    /// The number of tracks in the log.
    pub fn len(&self) -> (n: usize)
        ensures
            n == self@.len(),
    {
        self.tracks.len()
    }

    /// Tells whether an undo or a redo is replaying the log.
    pub fn is_replaying(&self) -> (yes: bool)
        ensures
            yes == self.replaying(),
    {
        self.replaying
    }

    /// Appends `track`, unless a replay is under way: then the log stays as it
    /// is and the edit is refused.
    pub fn push(&mut self, track: Track<Act>) -> (result: EditRecordResult)
        ensures
            final(self).replaying() == old(self).replaying(),
            old(self).replaying() ==> result == Err::<(), UndoRedoInProgress>(UndoRedoInProgress)
                && final(self)@ == old(self)@,
            !old(self).replaying() ==> result == Ok::<(), UndoRedoInProgress>(()) && final(self)@
                == old(self)@.push(track),
    {
        if self.replaying {
            Err(UndoRedoInProgress)
        } else {
            self.tracks.push(track);
            Ok(())
        }
    }

    /// Marks the start of a replay. Only one replay runs at a time.
    pub fn begin_replay(&mut self) -> (result: EditRecordResult)
        ensures
            final(self)@ == old(self)@,
            final(self).replaying(),
            result == if old(self).replaying() {
                Err::<(), UndoRedoInProgress>(UndoRedoInProgress)
            } else {
                Ok::<(), UndoRedoInProgress>(())
            },
    {
        if self.replaying {
            Err(UndoRedoInProgress)
        } else {
            self.replaying = true;
            Ok(())
        }
    }

    /// Marks the end of the replay.
    pub fn end_replay(&mut self)
        ensures
            final(self)@ == old(self)@,
            !final(self).replaying(),
    {
        self.replaying = false;
    }
}

impl<Act> Default for Record<Act> {
    fn default() -> (record: Self)
        ensures
            record@ == Seq::<Track<Act>>::empty(),
            !record.replaying(),
    {
        Record::new()
    }
}

} // verus!
