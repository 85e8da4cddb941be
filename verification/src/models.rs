//! The rows of the catalog, and what they stand for in contracts.

use vstd::prelude::*;

verus! {

/// A registered song. The identifier names the audio file and the queue
/// entry as well as the row.
#[derive(Clone, Debug, PartialEq, Eq)]
pub struct Song {
    pub id: String,
    pub name: String,
    pub artist: Option<String>,
}

/// A song as contracts see it.
pub struct SongView {
    pub id: Seq<char>,
    pub name: Seq<char>,
    pub artist: Option<Seq<char>>,
}

impl View for Song {
    type V = SongView;

    open spec fn view(&self) -> SongView {
        SongView { id: self.id@, name: self.name@, artist: self.artist.deep_view() }
    }
}

impl DeepView for Song {
    type V = SongView;

    open spec fn deep_view(&self) -> SongView {
        self@
    }
}

/// A playlist; its name is its key.
#[derive(Clone, Debug, PartialEq, Eq)]
pub struct Playlist {
    pub name: String,
}

/// A playlist as contracts see it.
pub struct PlaylistView {
    pub name: Seq<char>,
}

impl View for Playlist {
    type V = PlaylistView;

    open spec fn view(&self) -> PlaylistView {
        PlaylistView { name: self.name@ }
    }
}

impl DeepView for Playlist {
    type V = PlaylistView;

    open spec fn deep_view(&self) -> PlaylistView {
        self@
    }
}

/// One song's membership of one playlist.
#[derive(Clone, Debug, PartialEq, Eq)]
pub struct PlaylistSong {
    pub playlist_id: String,
    pub song_id: String,
}

/// A membership as contracts see it.
pub struct PlaylistSongView {
    pub playlist_id: Seq<char>,
    pub song_id: Seq<char>,
}

impl View for PlaylistSong {
    type V = PlaylistSongView;

    open spec fn view(&self) -> PlaylistSongView {
        PlaylistSongView { playlist_id: self.playlist_id@, song_id: self.song_id@ }
    }
}

impl DeepView for PlaylistSong {
    type V = PlaylistSongView;

    open spec fn deep_view(&self) -> PlaylistSongView {
        self@
    }
}

/// A song row to insert.
#[derive(Clone, Debug, PartialEq, Eq)]
pub struct NewSong {
    pub id: String,
    pub name: String,
    pub artist: Option<String>,
}

impl View for NewSong {
    type V = SongView;

    open spec fn view(&self) -> SongView {
        SongView { id: self.id@, name: self.name@, artist: self.artist.deep_view() }
    }
}

/// A playlist row to insert.
#[derive(Clone, Debug, PartialEq, Eq)]
pub struct NewPlaylist {
    pub name: String,
}

impl View for NewPlaylist {
    type V = PlaylistView;

    open spec fn view(&self) -> PlaylistView {
        PlaylistView { name: self.name@ }
    }
}

/// A membership row to insert.
#[derive(Clone, Debug, PartialEq, Eq)]
pub struct NewPlaylistSong {
    pub playlist_name: String,
    pub song_id: String,
}

impl View for NewPlaylistSong {
    type V = PlaylistSongView;

    open spec fn view(&self) -> PlaylistSongView {
        PlaylistSongView { playlist_id: self.playlist_name@, song_id: self.song_id@ }
    }
}

} // verus!
