//! The commands a user can give, as plain values.

use vstd::prelude::*;

verus! {

/// One invocation: the command to carry out.
#[derive(Clone, Debug, PartialEq, Eq)]
pub struct App {
    pub command: Command,
}

/// The families of commands.
#[derive(Clone, Debug, PartialEq, Eq)]
pub enum Command {
    /// Register a song and fetch its audio.
    Download(DownloadOptions),
    /// Work on playlists.
    Playlist(PlaylistOptions),
    /// Play a playlist or a song.
    Play(PlayOptions),
    /// Work on songs.
    Song(SongOptions),
    /// Steer the playback daemon.
    Mpd(MpdOptions),
}

#[derive(Clone, Debug, PartialEq, Eq)]
pub struct DownloadOptions {
    /// The identifier of the song at the remote source.
    pub id: String,
    /// The display name to register the song under.
    pub name: String,
    /// The artist, where known.
    pub artist: Option<String>,
}

#[derive(Clone, Debug, PartialEq, Eq)]
pub enum PlaylistOptions {
    /// Create a playlist.
    Create(PlaylistCreateOptions),
    /// List the playlists.
    List {},
    /// Delete a playlist.
    Delete(PlaylistDeleteOptions),
    /// Put a song into a playlist.
    Insert(PlaylistInsertOptions),
    /// Take a song out of a playlist.
    Remove(PlaylistRemoveOptions),
}

#[derive(Clone, Debug, PartialEq, Eq)]
pub struct PlaylistRemoveOptions {
    pub playlist_name: String,
    pub song_name: String,
}

#[derive(Clone, Debug, PartialEq, Eq)]
pub struct PlaylistCreateOptions {
    pub name: String,
    /// The display names of the songs to put in, separated by commas.
    pub songs: String,
}

#[derive(Clone, Debug, PartialEq, Eq)]
pub struct PlaylistInsertOptions {
    pub playlist_name: String,
    pub song_name: String,
}

#[derive(Clone, Debug, PartialEq, Eq)]
pub struct PlaylistDeleteOptions {
    pub name: String,
}

#[derive(Clone, Debug, PartialEq, Eq)]
pub enum PlayOptions {
    Playlist(PlayPlaylistOptions),
    Song(PlaySongOptions),
}

#[derive(Clone, Debug, PartialEq, Eq)]
pub struct PlayPlaylistOptions {
    pub name: String,
}

#[derive(Clone, Debug, PartialEq, Eq)]
pub struct PlaySongOptions {
    pub name: String,
}

#[derive(Clone, Debug, PartialEq, Eq)]
pub enum SongOptions {
    /// List the songs.
    List {},
    /// Delete a song.
    Delete(SongDeleteOptions),
}

#[derive(Clone, Debug, PartialEq, Eq)]
pub struct SongDeleteOptions {
    pub name: String,
}

#[derive(Clone, Debug, PartialEq, Eq)]
pub enum MpdOptions {
    /// Play what is in the queue.
    Play {},
    /// Pause, or resume.
    Pause {},
    /// Switch random order over.
    Shuffle {},
    /// Empty the queue.
    Clear {},
    /// Skip to the next entry of the queue.
    Next {},
    /// Report the song that is playing.
    Current {},
    /// Switch repeat over.
    Repeat {},
    /// Go back to the entry before.
    Previous {},
    /// Move to a percentage of the current track.
    Seek(SeekOptions),
    /// Report the daemon's transport state.
    Status {},
    /// List the queue.
    Queue {},
    /// Put a song at the end of the queue.
    QueueAdd(QueueAddOptions),
    /// Take a song out of the queue.
    QueueRemove(QueueRemoveOptions),
    /// Put the queue in a random order.
    QueueShuffle {},
}

#[derive(Clone, Debug, PartialEq, Eq)]
pub struct SeekOptions {
    pub percentage: u8,
}

#[derive(Clone, Debug, PartialEq, Eq)]
pub struct QueueAddOptions {
    pub song_name: String,
}

#[derive(Clone, Debug, PartialEq, Eq)]
pub struct QueueRemoveOptions {
    pub song_name: String,
}

} // verus!
