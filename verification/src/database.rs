//! The catalog store, as the commands speak to it: one request per query,
//! and what each answer means.

use vstd::prelude::*;
use crate::models::{
    NewPlaylist, NewPlaylistSong, NewSong, Playlist, PlaylistSong, PlaylistSongView, PlaylistView,
    Song, SongView,
};
use crate::protocol::{
    ran, CatalogRequest, CatalogRequestView, Halt, Ran, Reply, ReplyView, Request, RequestView,
    Session, SessionView,
};
use vstd::string::*;

verus! {

/// How an insert ended.
#[derive(Clone, Copy, Debug, PartialEq, Eq)]
pub enum Insertion {
    Inserted,
    /// A row with the same key was there already.
    Duplicate,
    /// The store did not take the row, for another reason.
    Refused,
}

impl DeepView for Insertion {
    type V = Insertion;

    open spec fn deep_view(&self) -> Insertion {
        *self
    }
}

/// How a delete ended.
#[derive(Clone, Copy, Debug, PartialEq, Eq)]
pub enum Removal {
    Removed,
    /// There was no such row.
    Absent,
    /// The store did not carry the delete out.
    Refused,
}

impl DeepView for Removal {
    type V = Removal;

    open spec fn deep_view(&self) -> Removal {
        *self
    }
}

/// The catalog store to open: where it lies, and how many connections to it
/// may be open at once.
#[derive(Clone, Debug, PartialEq, Eq)]
pub struct Database {
    pub url: String,
    pub max_size: u32,
}

/// The catalog store as contracts see it.
pub struct DatabaseView {
    pub url: Seq<char>,
    pub max_size: u32,
}

impl View for Database {
    type V = DatabaseView;

    open spec fn view(&self) -> DatabaseView {
        DatabaseView { url: self.url@, max_size: self.max_size }
    }
}

/// The songs an answer lists; none where it is no list of songs.
pub open spec fn read_songs(answer: ReplyView) -> Option<Seq<SongView>> {
    match answer {
        ReplyView::Songs(rows) => Some(rows),
        _ => None,
    }
}

/// The song an answer holds; none where it holds none or is about
/// something else.
pub open spec fn read_song(answer: ReplyView) -> Option<SongView> {
    match answer {
        ReplyView::Song(row) => row,
        _ => None,
    }
}

/// The playlists an answer lists; none where it is no list of playlists.
pub open spec fn read_playlists(answer: ReplyView) -> Option<Seq<PlaylistView>> {
    match answer {
        ReplyView::Playlists(rows) => Some(rows),
        _ => None,
    }
}

/// The playlist an answer holds; none where it holds none or is about
/// something else.
pub open spec fn read_playlist(answer: ReplyView) -> Option<PlaylistView> {
    match answer {
        ReplyView::Playlist(row) => row,
        _ => None,
    }
}

/// The memberships an answer lists; none where it is no list of
/// memberships.
pub open spec fn read_playlist_songs(answer: ReplyView) -> Option<Seq<PlaylistSongView>> {
    match answer {
        ReplyView::PlaylistSongs(rows) => Some(rows),
        _ => None,
    }
}

/// What an answer says of an insert.
pub open spec fn read_insertion(answer: ReplyView) -> Insertion {
    match answer {
        ReplyView::Done => Insertion::Inserted,
        ReplyView::Duplicate => Insertion::Duplicate,
        _ => Insertion::Refused,
    }
}

/// What an answer says of a delete.
pub open spec fn read_removal(answer: ReplyView) -> Removal {
    match answer {
        ReplyView::Done => Removal::Removed,
        ReplyView::Missing => Removal::Absent,
        _ => Removal::Refused,
    }
}

impl DatabaseView {
    pub open spec fn get_songs(self, s: SessionView) -> Ran<Option<Seq<SongView>>> {
        let asked = s.ask(RequestView::Catalog(CatalogRequestView::Songs));
        match asked.result {
            Ok(answer) => Ran::ok(read_songs(answer), asked.session),
            Err(halt) => Ran::halt(halt, asked.session),
        }
    }

    pub open spec fn get_song_by_name(self, song_name: Seq<char>, s: SessionView) -> Ran<
        Option<SongView>,
    > {
        let asked = s.ask(RequestView::Catalog(CatalogRequestView::SongByName(song_name)));
        match asked.result {
            Ok(answer) => Ran::ok(read_song(answer), asked.session),
            Err(halt) => Ran::halt(halt, asked.session),
        }
    }

    pub open spec fn get_song_by_id(self, song_id: Seq<char>, s: SessionView) -> Ran<
        Option<SongView>,
    > {
        let asked = s.ask(RequestView::Catalog(CatalogRequestView::SongById(song_id)));
        match asked.result {
            Ok(answer) => Ran::ok(read_song(answer), asked.session),
            Err(halt) => Ran::halt(halt, asked.session),
        }
    }

    pub open spec fn insert_song(self, new_song: SongView, s: SessionView) -> Ran<Insertion> {
        let asked = s.ask(RequestView::Catalog(CatalogRequestView::InsertSong(new_song)));
        match asked.result {
            Ok(answer) => Ran::ok(read_insertion(answer), asked.session),
            Err(halt) => Ran::halt(halt, asked.session),
        }
    }

    pub open spec fn delete_song(self, song_id: Seq<char>, s: SessionView) -> Ran<Removal> {
        let asked = s.ask(RequestView::Catalog(CatalogRequestView::DeleteSong(song_id)));
        match asked.result {
            Ok(answer) => Ran::ok(read_removal(answer), asked.session),
            Err(halt) => Ran::halt(halt, asked.session),
        }
    }

    pub open spec fn get_playlists(self, s: SessionView) -> Ran<Option<Seq<PlaylistView>>> {
        let asked = s.ask(RequestView::Catalog(CatalogRequestView::Playlists));
        match asked.result {
            Ok(answer) => Ran::ok(read_playlists(answer), asked.session),
            Err(halt) => Ran::halt(halt, asked.session),
        }
    }

    pub open spec fn insert_playlist(self, new_playlist: PlaylistView, s: SessionView) -> Ran<
        Insertion,
    > {
        let asked = s.ask(RequestView::Catalog(CatalogRequestView::InsertPlaylist(new_playlist)));
        match asked.result {
            Ok(answer) => Ran::ok(read_insertion(answer), asked.session),
            Err(halt) => Ran::halt(halt, asked.session),
        }
    }

    pub open spec fn delete_playlist(self, playlist_name: Seq<char>, s: SessionView) -> Ran<
        Removal,
    > {
        let asked = s.ask(RequestView::Catalog(CatalogRequestView::DeletePlaylist(playlist_name)));
        match asked.result {
            Ok(answer) => Ran::ok(read_removal(answer), asked.session),
            Err(halt) => Ran::halt(halt, asked.session),
        }
    }

    pub open spec fn add_songs_to_playlist(self, song: PlaylistSongView, s: SessionView) -> Ran<
        Insertion,
    > {
        let asked = s.ask(RequestView::Catalog(CatalogRequestView::InsertPlaylistSong(song)));
        match asked.result {
            Ok(answer) => Ran::ok(read_insertion(answer), asked.session),
            Err(halt) => Ran::halt(halt, asked.session),
        }
    }

    pub open spec fn get_songs_of_playlist(self, playlist_name: Seq<char>, s: SessionView) -> Ran<
        Option<Seq<PlaylistSongView>>,
    > {
        let asked = s.ask(
            RequestView::Catalog(CatalogRequestView::SongsOfPlaylist(playlist_name)),
        );
        match asked.result {
            Ok(answer) => Ran::ok(read_playlist_songs(answer), asked.session),
            Err(halt) => Ran::halt(halt, asked.session),
        }
    }

    pub open spec fn get_playlist_by_name(self, playlist_name: Seq<char>, s: SessionView) -> Ran<
        Option<PlaylistView>,
    > {
        let asked = s.ask(RequestView::Catalog(CatalogRequestView::PlaylistByName(playlist_name)));
        match asked.result {
            Ok(answer) => Ran::ok(read_playlist(answer), asked.session),
            Err(halt) => Ran::halt(halt, asked.session),
        }
    }

    pub open spec fn delete_playlist_song(
        self,
        playlist_song: PlaylistSongView,
        s: SessionView,
    ) -> Ran<Removal> {
        let asked = s.ask(
            RequestView::Catalog(CatalogRequestView::DeletePlaylistSong(playlist_song)),
        );
        match asked.result {
            Ok(answer) => Ran::ok(read_removal(answer), asked.session),
            Err(halt) => Ran::halt(halt, asked.session),
        }
    }
}

fn insertion_of(answer: Reply) -> (r: Insertion)
    ensures
        r == read_insertion(answer@),
{
    match answer {
        Reply::Done => Insertion::Inserted,
        Reply::Duplicate => Insertion::Duplicate,
        _ => Insertion::Refused,
    }
}

fn removal_of(answer: Reply) -> (r: Removal)
    ensures
        r == read_removal(answer@),
{
    match answer {
        Reply::Done => Removal::Removed,
        Reply::Missing => Removal::Absent,
        _ => Removal::Refused,
    }
}

impl Database {
    /// Describes the store at `url`, to be opened with at most `max_size`
    /// connections.
    pub fn new(url: String, max_size: u32) -> (r: Database)
        ensures
            r@ == (DatabaseView { url: url@, max_size }),
    {
        Database { url, max_size }
    }

    /// All songs; none where the store could not list them.
    pub fn get_songs(&self, session: &mut Session) -> (r: Result<Option<Vec<Song>>, Halt>)
        ensures
            ran(r, final(session)@) == self@.get_songs(old(session)@),
    {
        let answer = session.ask(Request::Catalog(CatalogRequest::Songs))?;
        Ok(
            match answer {
                Reply::Songs(rows) => Some(rows),
                _ => None,
            },
        )
    }

    /// A song with this display name, if the store has one.
    pub fn get_song_by_name(&self, song_name: &str, session: &mut Session) -> (r: Result<
        Option<Song>,
        Halt,
    >)
        ensures
            ran(r, final(session)@) == self@.get_song_by_name(song_name@, old(session)@),
    {
        let request = CatalogRequest::SongByName(String::from_str(song_name));
        let answer = session.ask(Request::Catalog(request))?;
        Ok(
            match answer {
                Reply::Song(row) => row,
                _ => None,
            },
        )
    }

    /// The song with this identifier, if the store has it.
    pub fn get_song_by_id(&self, song_id: &str, session: &mut Session) -> (r: Result<
        Option<Song>,
        Halt,
    >)
        ensures
            ran(r, final(session)@) == self@.get_song_by_id(song_id@, old(session)@),
    {
        let request = CatalogRequest::SongById(String::from_str(song_id));
        let answer = session.ask(Request::Catalog(request))?;
        Ok(
            match answer {
                Reply::Song(row) => row,
                _ => None,
            },
        )
    }

    /// Inserts a song row.
    pub fn insert_song(&self, new_song: NewSong, session: &mut Session) -> (r: Result<
        Insertion,
        Halt,
    >)
        ensures
            ran(r, final(session)@) == self@.insert_song(new_song@, old(session)@),
    {
        let answer = session.ask(Request::Catalog(CatalogRequest::InsertSong(new_song)))?;
        Ok(insertion_of(answer))
    }

    /// Deletes the song row with this identifier.
    pub fn delete_song(&self, song_id: &str, session: &mut Session) -> (r: Result<Removal, Halt>)
        ensures
            ran(r, final(session)@) == self@.delete_song(song_id@, old(session)@),
    {
        let request = CatalogRequest::DeleteSong(String::from_str(song_id));
        let answer = session.ask(Request::Catalog(request))?;
        Ok(removal_of(answer))
    }

    /// All playlists; none where the store could not list them.
    pub fn get_playlists(&self, session: &mut Session) -> (r: Result<Option<Vec<Playlist>>, Halt>)
        ensures
            ran(r, final(session)@) == self@.get_playlists(old(session)@),
    {
        let answer = session.ask(Request::Catalog(CatalogRequest::Playlists))?;
        Ok(
            match answer {
                Reply::Playlists(rows) => Some(rows),
                _ => None,
            },
        )
    }

    /// Inserts a playlist row.
    pub fn insert_playlist(&self, new_playlist: NewPlaylist, session: &mut Session) -> (r: Result<
        Insertion,
        Halt,
    >)
        ensures
            ran(r, final(session)@) == self@.insert_playlist(new_playlist@, old(session)@),
    {
        let answer = session.ask(Request::Catalog(CatalogRequest::InsertPlaylist(new_playlist)))?;
        Ok(insertion_of(answer))
    }

    /// Deletes the playlist with this name, and with it its memberships.
    pub fn delete_playlist(&self, playlist_name: &str, session: &mut Session) -> (r: Result<
        Removal,
        Halt,
    >)
        ensures
            ran(r, final(session)@) == self@.delete_playlist(playlist_name@, old(session)@),
    {
        let request = CatalogRequest::DeletePlaylist(String::from_str(playlist_name));
        let answer = session.ask(Request::Catalog(request))?;
        Ok(removal_of(answer))
    }

    /// Inserts a membership row.
    pub fn add_songs_to_playlist(&self, song: NewPlaylistSong, session: &mut Session) -> (r:
        Result<Insertion, Halt>)
        ensures
            ran(r, final(session)@) == self@.add_songs_to_playlist(song@, old(session)@),
    {
        let answer = session.ask(Request::Catalog(CatalogRequest::InsertPlaylistSong(song)))?;
        Ok(insertion_of(answer))
    }

    /// The memberships of a playlist, in the store's order; none where the
    /// store could not list them.
    pub fn get_songs_of_playlist(&self, playlist_name: &str, session: &mut Session) -> (r: Result<
        Option<Vec<PlaylistSong>>,
        Halt,
    >)
        ensures
            ran(r, final(session)@) == self@.get_songs_of_playlist(playlist_name@, old(session)@),
    {
        let request = CatalogRequest::SongsOfPlaylist(String::from_str(playlist_name));
        let answer = session.ask(Request::Catalog(request))?;
        Ok(
            match answer {
                Reply::PlaylistSongs(rows) => Some(rows),
                _ => None,
            },
        )
    }

    /// The playlist with this name, if the store has it.
    pub fn get_playlist_by_name(&self, playlist_name: &str, session: &mut Session) -> (r: Result<
        Option<Playlist>,
        Halt,
    >)
        ensures
            ran(r, final(session)@) == self@.get_playlist_by_name(playlist_name@, old(session)@),
    {
        let request = CatalogRequest::PlaylistByName(String::from_str(playlist_name));
        let answer = session.ask(Request::Catalog(request))?;
        Ok(
            match answer {
                Reply::Playlist(row) => row,
                _ => None,
            },
        )
    }

    /// Deletes one membership row.
    pub fn delete_playlist_song(&self, playlist_song: PlaylistSong, session: &mut Session) -> (r:
        Result<Removal, Halt>)
        ensures
            ran(r, final(session)@) == self@.delete_playlist_song(playlist_song@, old(session)@),
    {
        let request = CatalogRequest::DeletePlaylistSong(playlist_song);
        let answer = session.ask(Request::Catalog(request))?;
        Ok(removal_of(answer))
    }
}

} // verus!
