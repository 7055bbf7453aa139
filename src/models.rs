//! Songs and set lists, the records that the store keeps.
use vstd::prelude::*;

use crate::store::StoredInDb;

verus! {

/// An instant in UTC: whole seconds since the Unix epoch and the nanoseconds past them.
#[derive(Debug, Clone, Copy, PartialEq, Eq)]
pub struct Timestamp {
    pub secs: i64,
    pub nanos: u32,
}

/// Relies on `uuid::Uuid::new_v4` and the hyphenated text form of a UUID,
/// which is 36 characters long.
#[verifier::external_body]
fn new_uuid() -> (r: String)
    ensures
        r@.len() == 36,
{
    uuid::Uuid::new_v4().to_string()
}

/// A fresh random identifier, 36 characters long.
pub fn fresh_id() -> (r: String)
    ensures
        r@.len() == 36,
{
    new_uuid()
}

/// A song of the repertoire.
#[derive(Debug, Clone)]
pub struct Song {
    pub id: String,
    pub name: String,
    /// Length in seconds.
    pub length: u64,
    /// Path of the project file, relative to the project root folder.
    pub relative_path: String,
}

/// A song as a client submits it, before it has an id.
#[derive(Debug, Clone)]
pub struct NewSong {
    pub name: String,
    pub length: u64,
    pub relative_path: String,
}

impl Song {
    /// The song that `new_song` describes, under `id`.
    pub fn with_id(id: String, new_song: NewSong) -> (s: Song)
        ensures
            s.id == id,
            s.name == new_song.name,
            s.length == new_song.length,
            s.relative_path == new_song.relative_path,
    {
        Song {
            id,
            name: new_song.name,
            length: new_song.length,
            relative_path: new_song.relative_path,
        }
    }

    /// The song that `new_song` describes, under a fresh id.
    pub fn from_new_song(new_song: NewSong) -> (s: Song)
        ensures
            s.id@.len() == 36,
            s.name == new_song.name,
            s.length == new_song.length,
            s.relative_path == new_song.relative_path,
    {
        Song::with_id(fresh_id(), new_song)
    }
}

impl StoredInDb for Song {
    open spec fn key(&self) -> Seq<char> {
        self.id@
    }

    fn id(&self) -> (r: String) {
        self.id.clone()
    }
}

/// The songs played at one venue on one date, in order.
#[derive(Debug, Clone)]
pub struct SetList {
    pub id: String,
    pub venue: String,
    pub date: Timestamp,
    /// The songs, by name or id.
    pub songs: Vec<String>,
}

/// A set list as a client submits it, before it has an id.
#[derive(Debug, Clone)]
pub struct NewSetList {
    pub venue: String,
    pub date: Timestamp,
    pub songs: Vec<String>,
}

impl SetList {
    /// The set list that `new_setlist` describes, under `id`.
    pub fn with_id(id: String, new_setlist: NewSetList) -> (s: SetList)
        ensures
            s.id == id,
            s.venue == new_setlist.venue,
            s.date == new_setlist.date,
            s.songs == new_setlist.songs,
    {
        SetList {
            id,
            venue: new_setlist.venue,
            date: new_setlist.date,
            songs: new_setlist.songs,
        }
    }

    /// The set list that `new_setlist` describes, under a fresh id.
    pub fn from_new_setlist(new_setlist: NewSetList) -> (s: SetList)
        ensures
            s.id@.len() == 36,
            s.venue == new_setlist.venue,
            s.date == new_setlist.date,
            s.songs == new_setlist.songs,
    {
        SetList::with_id(fresh_id(), new_setlist)
    }
}

impl StoredInDb for SetList {
    open spec fn key(&self) -> Seq<char> {
        self.id@
    }

    fn id(&self) -> (r: String) {
        self.id.clone()
    }
}

} // verus!
