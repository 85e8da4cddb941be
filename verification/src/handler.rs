//! The commands: what each asks of the catalog, the media cache and the
//! playback daemon, in which order, and what it makes of their answers.
//!
//! The three stores share no transaction. A command stops at its first
//! failure and undoes nothing of what it did before.

use vstd::prelude::*;
use vstd::string::*;
use crate::database::{Database, DatabaseView, Insertion, Removal};
use crate::error::{enclose, Error, ErrorView, Subject};
use crate::models::{
    NewPlaylist, NewPlaylistSong, NewSong, Playlist, PlaylistSong, PlaylistSongView, PlaylistView,
    Song, SongView,
};
use crate::mpd_client::{Intent, MpdClient, MpdClientView};
use crate::protocol::{ran, Halt, Ran, Session, SessionView};
use crate::text::{file_stem, stem, trim, trimmed, truth, truth_of};
use crate::youtube_api::{YoutubeAPI, YoutubeAPIView};

verus! {

/// The three collaborators' adapters, for the commands to speak through.
#[derive(Clone, Debug, PartialEq, Eq)]
pub struct Handler {
    database: Database,
    api: YoutubeAPI,
    mpd: MpdClient,
}

/// The handler as contracts see it.
pub struct HandlerView {
    pub database: DatabaseView,
    pub api: YoutubeAPIView,
    pub mpd: MpdClientView,
}

impl View for Handler {
    type V = HandlerView;

    closed spec fn view(&self) -> HandlerView {
        HandlerView { database: self.database@, api: self.api@, mpd: self.mpd@ }
    }
}

/// The artist as shown: the name, or `Unknown` where the catalog has none.
pub open spec fn shown_artist(artist: Option<Seq<char>>) -> Seq<char> {
    match artist {
        Some(name) => name,
        None => "Unknown"@,
    }
}

/// The line that lists a song.
pub open spec fn song_line(song: SongView) -> Seq<char> {
    song.name + " - "@ + shown_artist(song.artist)
}

/// The lines that list songs, in their order.
pub open spec fn song_lines(songs: Seq<SongView>) -> Seq<Seq<char>> {
    songs.map_values(|song: SongView| song_line(song))
}

/// The names of playlists, in their order.
pub open spec fn playlist_names(playlists: Seq<PlaylistView>) -> Seq<Seq<char>> {
    playlists.map_values(|playlist: PlaylistView| playlist.name)
}

/// What is reported of the song that is playing.
pub open spec fn current_lines(song: SongView, time: Seq<char>) -> Seq<char> {
    "Current song: "@ + song.name + "\nArtist: "@ + shown_artist(song.artist) + "\n"@ + time
}

/// What is reported of the daemon's transport state.
pub open spec fn status_line(paused: bool, random: bool, repeat: bool) -> Seq<char> {
    "Pause: "@ + truth(paused) + "\tRandom: "@ + truth(random) + "\tRepeat: "@ + truth(repeat)
}

impl HandlerView {
    /// Registers a song: the catalog row first, then the audio, then word
    /// to the daemon. A failed fetch leaves the row in the catalog.
    pub open spec fn add_song_to_registry(
        self,
        song_id: Seq<char>,
        song_name: Seq<char>,
        song_artist: Option<Seq<char>>,
        s: SessionView,
    ) -> Ran<()> {
        let inserted = self.database.insert_song(
            SongView { id: song_id, name: song_name, artist: song_artist },
            s,
        );
        match inserted.result {
            Err(halt) => Ran::halt(halt, inserted.session),
            Ok(Insertion::Duplicate) => Ran::fail(
                ErrorView::DuplicateIdentifier { subject: Subject::Song },
                inserted.session,
            ),
            Ok(Insertion::Refused) => Ran::fail(
                ErrorView::CatalogWriteFailed { subject: Subject::Song },
                inserted.session,
            ),
            Ok(Insertion::Inserted) => {
                let fetched = self.api.download_audio(song_id, song_name, inserted.session);
                if fetched.result is Err {
                    fetched.halted()
                } else {
                    self.mpd.update_db(
                        fetched.session.say("Song "@ + song_name + " downloaded successfully"@),
                    )
                }
            },
        }
    }

    /// Deletes a song: the audio file first, and the catalog row only once
    /// the file is gone; then word to the daemon.
    pub open spec fn delete_song(self, song_name: Seq<char>, s: SessionView) -> Ran<()> {
        let found = self.database.get_song_by_name(song_name, s);
        match found.result {
            Err(halt) => Ran::halt(halt, found.session),
            Ok(None) => Ran::fail(
                ErrorView::NotFound { subject: Subject::Song, name: song_name },
                found.session,
            ),
            Ok(Some(song)) => {
                let cleared = self.api.delete_audio(song.id, found.session);
                if cleared.result is Err {
                    cleared.halted()
                } else {
                    let deleted = self.database.delete_song(song.id, cleared.session);
                    match deleted.result {
                        Err(halt) => Ran::halt(halt, deleted.session),
                        Ok(Removal::Refused) => Ran::fail(
                            ErrorView::CatalogDeleteFailed {
                                subject: Subject::Song,
                                name: song_name,
                            },
                            deleted.session,
                        ),
                        Ok(_) => self.mpd.update_db(
                            deleted.session.say("Song "@ + song_name + " deleted successfully"@),
                        ),
                    }
                }
            },
        }
    }

    /// Creates a playlist, then puts the songs named into it one by one.
    pub open spec fn create_playlist(
        self,
        playlist_name: Seq<char>,
        songs_to_add: Seq<Seq<char>>,
        s: SessionView,
    ) -> Ran<()> {
        let inserted = self.database.insert_playlist(PlaylistView { name: playlist_name }, s);
        match inserted.result {
            Err(halt) => Ran::halt(halt, inserted.session),
            Ok(Insertion::Duplicate) => Ran::fail(
                ErrorView::DuplicateIdentifier { subject: Subject::Playlist },
                inserted.session,
            ),
            Ok(Insertion::Refused) => Ran::fail(
                ErrorView::CatalogWriteFailed { subject: Subject::Playlist },
                inserted.session,
            ),
            Ok(Insertion::Inserted) => self.add_songs(
                playlist_name,
                songs_to_add,
                inserted.session,
            ),
        }
    }

    /// Puts the songs named into the playlist, in order. A name is looked
    /// up without the white space around it. The first name that no song
    /// has ends the run with `NotFound`; the songs before it stay in the
    /// playlist. Whether the catalog took a membership is not looked at.
    pub open spec fn add_songs(
        self,
        playlist_name: Seq<char>,
        songs: Seq<Seq<char>>,
        s: SessionView,
    ) -> Ran<()>
        decreases songs.len(),
    {
        if songs.len() == 0 {
            Ran::ok((), s)
        } else {
            let found = self.database.get_song_by_name(trim(songs[0]), s);
            match found.result {
                Err(halt) => Ran::halt(halt, found.session),
                Ok(None) => Ran::fail(
                    ErrorView::NotFound { subject: Subject::Song, name: songs[0] },
                    found.session,
                ),
                Ok(Some(song)) => {
                    let added = self.database.add_songs_to_playlist(
                        PlaylistSongView { playlist_id: playlist_name, song_id: song.id },
                        found.session,
                    );
                    if added.result is Err {
                        added.halted()
                    } else {
                        self.add_songs(
                            playlist_name,
                            songs.drop_first(),
                            added.session.say("Song "@ + songs[0] + " added to playlist"@),
                        )
                    }
                },
            }
        }
    }

    /// Deletes a playlist that is among the playlists there are, and with
    /// it its memberships.
    pub open spec fn delete_playlist(self, playlist_name: Seq<char>, s: SessionView) -> Ran<()> {
        let listed = self.database.get_playlists(s);
        match listed.result {
            Err(halt) => Ran::halt(halt, listed.session),
            Ok(playlists) => if playlists is None || !playlist_names(playlists->0).contains(
                playlist_name,
            ) {
                Ran::fail(
                    ErrorView::NotFound { subject: Subject::Playlist, name: playlist_name },
                    listed.session,
                )
            } else {
                let deleted = self.database.delete_playlist(playlist_name, listed.session);
                match deleted.result {
                    Err(halt) => Ran::halt(halt, deleted.session),
                    Ok(Removal::Refused) => Ran::fail(
                        ErrorView::CatalogDeleteFailed {
                            subject: Subject::Playlist,
                            name: playlist_name,
                        },
                        deleted.session,
                    ),
                    Ok(_) => Ran::ok(
                        (),
                        deleted.session.say(
                            "Playlist "@ + playlist_name + " deleted successfully"@,
                        ),
                    ),
                }
            },
        }
    }

    /// Pauses, then empties the queue: what both ways of playing begin
    /// with.
    pub open spec fn hush(self, s: SessionView) -> Ran<()> {
        let paused = self.mpd.pause(Intent::ForceOn, s);
        if paused.result is Err {
            paused.halted()
        } else {
            self.mpd.clear_queue(paused.session)
        }
    }

    /// Plays a playlist: pauses, empties the queue, queues the playlist's
    /// songs in the catalog's order, and plays.
    pub open spec fn play_playlist(self, playlist_name: Seq<char>, s: SessionView) -> Ran<()> {
        let hushed = self.hush(s);
        if hushed.result is Err {
            hushed.halted()
        } else {
            let found = self.database.get_playlist_by_name(playlist_name, hushed.session);
            match found.result {
                Err(halt) => Ran::halt(halt, found.session),
                Ok(None) => Ran::fail(
                    ErrorView::NotFound { subject: Subject::Playlist, name: playlist_name },
                    found.session,
                ),
                Ok(Some(_)) => {
                    let listed = self.database.get_songs_of_playlist(playlist_name, found.session);
                    match listed.result {
                        Err(halt) => Ran::halt(halt, listed.session),
                        Ok(songs) => if songs is None || songs->0.len() == 0 {
                            Ran::fail(ErrorView::EmptyPlaylist, listed.session)
                        } else {
                            let queued = self.queue_all(songs->0, listed.session);
                            if queued.result is Err {
                                queued.halted()
                            } else {
                                self.mpd.play(queued.session)
                            }
                        },
                    }
                },
            }
        }
    }

    /// Queues the songs of the memberships, in order.
    pub open spec fn queue_all(self, songs: Seq<PlaylistSongView>, s: SessionView) -> Ran<()>
        decreases songs.len(),
    {
        if songs.len() == 0 {
            Ran::ok((), s)
        } else {
            let queued = self.mpd.add_to_queue(songs[0].song_id, s);
            if queued.result is Err {
                queued.halted()
            } else {
                self.queue_all(songs.drop_first(), queued.session)
            }
        }
    }

    /// Lists the playlists by name; nothing where the catalog lists none.
    pub open spec fn get_playlists(self, s: SessionView) -> Ran<()> {
        let listed = self.database.get_playlists(s);
        match listed.result {
            Err(halt) => Ran::halt(halt, listed.session),
            Ok(None) => Ran::ok((), listed.session),
            Ok(Some(playlists)) => Ran::ok(
                (),
                SessionView {
                    answers: listed.session.answers,
                    lines: listed.session.lines + playlist_names(playlists),
                },
            ),
        }
    }

    /// Lists the songs, each with its artist; nothing where the catalog
    /// lists none.
    pub open spec fn get_songs(self, s: SessionView) -> Ran<()> {
        let listed = self.database.get_songs(s);
        match listed.result {
            Err(halt) => Ran::halt(halt, listed.session),
            Ok(None) => Ran::ok((), listed.session),
            Ok(Some(songs)) => Ran::ok(
                (),
                SessionView {
                    answers: listed.session.answers,
                    lines: listed.session.lines + song_lines(songs),
                },
            ),
        }
    }

    /// Plays one song: pauses, empties the queue, queues the song, and
    /// plays.
    pub open spec fn play_song(self, song_name: Seq<char>, s: SessionView) -> Ran<()> {
        let hushed = self.hush(s);
        if hushed.result is Err {
            hushed.halted()
        } else {
            let found = self.database.get_song_by_name(song_name, hushed.session);
            match found.result {
                Err(halt) => Ran::halt(halt, found.session),
                Ok(None) => Ran::fail(
                    ErrorView::NotFound { subject: Subject::Song, name: song_name },
                    found.session,
                ),
                Ok(Some(song)) => {
                    let queued = self.mpd.add_to_queue(song.id, found.session);
                    if queued.result is Err {
                        queued.halted()
                    } else {
                        self.mpd.play(queued.session)
                    }
                },
            }
        }
    }

    pub open spec fn play(self, s: SessionView) -> Ran<()> {
        self.mpd.play(s)
    }

    pub open spec fn pause(self, s: SessionView) -> Ran<()> {
        self.mpd.pause(Intent::Toggle, s)
    }

    pub open spec fn shuffle(self, s: SessionView) -> Ran<()> {
        self.mpd.shuffle(Intent::Toggle, s)
    }

    pub open spec fn clear_queue(self, s: SessionView) -> Ran<()> {
        let cleared = self.mpd.clear_queue(s);
        if cleared.result is Err {
            cleared.halted()
        } else {
            Ran::ok((), cleared.session.say("Queue cleared"@))
        }
    }

    /// Pauses and resumes, so that the daemon takes up the track it has
    /// been moved to.
    pub open spec fn take_up(self, s: SessionView) -> Ran<()> {
        let paused = self.mpd.pause(Intent::ForceOn, s);
        if paused.result is Err {
            paused.halted()
        } else {
            self.mpd.pause(Intent::ForceOff, paused.session)
        }
    }

    pub open spec fn next(self, s: SessionView) -> Ran<()> {
        let moved = self.mpd.next(s);
        if moved.result is Err {
            moved.halted()
        } else {
            let taken = self.take_up(moved.session);
            if taken.result is Err {
                taken.halted()
            } else {
                Ran::ok((), taken.session.say("Skipping to next song in queue"@))
            }
        }
    }

    pub open spec fn previous(self, s: SessionView) -> Ran<()> {
        let moved = self.mpd.previous(s);
        if moved.result is Err {
            moved.halted()
        } else {
            let taken = self.take_up(moved.session);
            if taken.result is Err {
                taken.halted()
            } else {
                Ran::ok((), taken.session.say("Going back to previous song in queue"@))
            }
        }
    }

    /// Puts a song into a playlist. The playlist is looked up first, then
    /// the song; a pair that is there already is the catalog's to refuse.
    pub open spec fn insert_into_playlist(
        self,
        playlist_name: Seq<char>,
        song_name: Seq<char>,
        s: SessionView,
    ) -> Ran<()> {
        let playlist = self.database.get_playlist_by_name(playlist_name, s);
        match playlist.result {
            Err(halt) => Ran::halt(halt, playlist.session),
            Ok(None) => Ran::fail(
                ErrorView::NotFound { subject: Subject::Playlist, name: playlist_name },
                playlist.session,
            ),
            Ok(Some(_)) => {
                let found = self.database.get_song_by_name(song_name, playlist.session);
                match found.result {
                    Err(halt) => Ran::halt(halt, found.session),
                    Ok(None) => Ran::fail(
                        ErrorView::NotFound { subject: Subject::Song, name: song_name },
                        found.session,
                    ),
                    Ok(Some(song)) => {
                        let added = self.database.add_songs_to_playlist(
                            PlaylistSongView { playlist_id: playlist_name, song_id: song.id },
                            found.session,
                        );
                        match added.result {
                            Err(halt) => Ran::halt(halt, added.session),
                            Ok(Insertion::Duplicate) => Ran::fail(
                                ErrorView::DuplicateMembership,
                                added.session,
                            ),
                            Ok(Insertion::Refused) => Ran::fail(
                                ErrorView::CatalogWriteFailed { subject: Subject::Membership },
                                added.session,
                            ),
                            Ok(Insertion::Inserted) => Ran::ok(
                                (),
                                added.session.say(
                                    "Song "@ + song_name + " successfully added to "@
                                        + playlist_name,
                                ),
                            ),
                        }
                    },
                }
            },
        }
    }

    /// Takes a song out of a playlist. The song is looked up first, then
    /// the playlist; a membership that is not there is `NotFound` too.
    pub open spec fn remove_song_from_playlist(
        self,
        playlist_name: Seq<char>,
        song_name: Seq<char>,
        s: SessionView,
    ) -> Ran<()> {
        let found = self.database.get_song_by_name(song_name, s);
        match found.result {
            Err(halt) => Ran::halt(halt, found.session),
            Ok(None) => Ran::fail(
                ErrorView::NotFound { subject: Subject::Song, name: song_name },
                found.session,
            ),
            Ok(Some(song)) => {
                let playlist = self.database.get_playlist_by_name(playlist_name, found.session);
                match playlist.result {
                    Err(halt) => Ran::halt(halt, playlist.session),
                    Ok(None) => Ran::fail(
                        ErrorView::NotFound { subject: Subject::Playlist, name: playlist_name },
                        playlist.session,
                    ),
                    Ok(Some(_)) => {
                        let removed = self.database.delete_playlist_song(
                            PlaylistSongView { playlist_id: playlist_name, song_id: song.id },
                            playlist.session,
                        );
                        match removed.result {
                            Err(halt) => Ran::halt(halt, removed.session),
                            Ok(Removal::Removed) => Ran::ok((), removed.session),
                            Ok(Removal::Absent) => Ran::fail(
                                ErrorView::NotFound {
                                    subject: Subject::Membership,
                                    name: song_name,
                                },
                                removed.session,
                            ),
                            Ok(Removal::Refused) => Ran::fail(
                                ErrorView::CatalogDeleteFailed {
                                    subject: Subject::Membership,
                                    name: song_name,
                                },
                                removed.session,
                            ),
                        }
                    },
                }
            },
        }
    }

    /// Reports the song that is playing: the media file the daemon names,
    /// its clock, and the catalog's row for the file's stem. `NoSongInfo`
    /// where the catalog has no such row.
    pub open spec fn current(self, s: SessionView) -> Ran<()> {
        let file = self.mpd.current(s);
        if file.result is Err {
            file.halted()
        } else {
            let time = self.mpd.current_time(file.session);
            if time.result is Err {
                time.halted()
            } else {
                let found = self.database.get_song_by_id(stem(file.result->Ok_0), time.session);
                match found.result {
                    Err(halt) => Ran::halt(halt, found.session),
                    Ok(None) => Ran::fail(ErrorView::NoSongInfo, found.session),
                    Ok(Some(song)) => Ran::ok(
                        (),
                        found.session.say(current_lines(song, time.result->Ok_0)),
                    ),
                }
            }
        }
    }

    pub open spec fn repeat(self, s: SessionView) -> Ran<()> {
        self.mpd.repeat(s)
    }

    pub open spec fn seek(self, percentage: u8, s: SessionView) -> Ran<()> {
        let sought = self.mpd.seek(percentage, s);
        if sought.result is Err {
            sought.halted()
        } else {
            self.take_up(sought.session)
        }
    }

    pub open spec fn status(self, s: SessionView) -> Ran<()> {
        let read = self.mpd.status(s);
        match read.result {
            Err(halt) => Ran::halt(halt, read.session),
            Ok(status) => Ran::ok(
                (),
                read.session.say(status_line(status.is_paused, status.random, status.repeat)),
            ),
        }
    }

    /// Lists the queue: one line for each entry that the catalog knows, in
    /// the queue's order. An entry that it does not know is passed over.
    pub open spec fn queue(self, s: SessionView) -> Ran<()> {
        let read = self.mpd.queue(s);
        match read.result {
            Err(halt) => Ran::halt(halt, read.session),
            Ok(ids) => self.list_known(ids, read.session),
        }
    }

    /// One line for each of the identifiers that the catalog knows.
    pub open spec fn list_known(self, ids: Seq<Seq<char>>, s: SessionView) -> Ran<()>
        decreases ids.len(),
    {
        if ids.len() == 0 {
            Ran::ok((), s)
        } else {
            let found = self.database.get_song_by_id(ids[0], s);
            match found.result {
                Err(halt) => Ran::halt(halt, found.session),
                Ok(None) => self.list_known(ids.drop_first(), found.session),
                Ok(Some(song)) => self.list_known(
                    ids.drop_first(),
                    found.session.say(song_line(song)),
                ),
            }
        }
    }

    pub open spec fn add_to_queue(self, song_name: Seq<char>, s: SessionView) -> Ran<()> {
        let found = self.database.get_song_by_name(song_name, s);
        match found.result {
            Err(halt) => Ran::halt(halt, found.session),
            Ok(None) => Ran::fail(
                ErrorView::NotFound { subject: Subject::Song, name: song_name },
                found.session,
            ),
            Ok(Some(song)) => {
                let queued = self.mpd.add_to_queue(song.id, found.session);
                if queued.result is Err {
                    queued.halted()
                } else {
                    Ran::ok((), queued.session.say("Song "@ + song_name + " added to queue"@))
                }
            },
        }
    }

    pub open spec fn remove_from_queue(self, song_name: Seq<char>, s: SessionView) -> Ran<()> {
        let found = self.database.get_song_by_name(song_name, s);
        match found.result {
            Err(halt) => Ran::halt(halt, found.session),
            Ok(None) => Ran::fail(
                ErrorView::NotFound { subject: Subject::Song, name: song_name },
                found.session,
            ),
            Ok(Some(song)) => {
                let removed = self.mpd.remove_from_queue(song.id, found.session);
                if removed.result is Err {
                    removed.halted()
                } else {
                    Ran::ok((), removed.session.say("Song "@ + song_name + " removed from queue"@))
                }
            },
        }
    }

    pub open spec fn shuffle_queue(self, s: SessionView) -> Ran<()> {
        let shuffled = self.mpd.shuffle_queue(s);
        if shuffled.result is Err {
            shuffled.halted()
        } else {
            Ran::ok((), shuffled.session.say("Queue shuffled"@))
        }
    }
}

/// The artist as shown.
fn shown_artist_of(artist: &Option<String>) -> (r: String)
    ensures
        r@ == shown_artist(artist.deep_view()),
{
    match artist {
        Some(name) => name.clone(),
        None => String::from_str("Unknown"),
    }
}

/// The line that lists a song.
fn song_line_of(song: &Song) -> (r: String)
    ensures
        r@ == song_line(song@),
{
    enclose(song.name.as_str(), " - ", shown_artist_of(&song.artist).as_str())
}

/// What is reported of the song that is playing.
fn current_lines_of(song: &Song, time: &str) -> (r: String)
    ensures
        r@ == current_lines(song@, time@),
{
    let mut text = String::from_str("Current song: ");
    text.append(song.name.as_str());
    text.append("\nArtist: ");
    text.append(shown_artist_of(&song.artist).as_str());
    text.append("\n");
    text.append(time);
    text
}

/// What is reported of the daemon's transport state.
fn status_line_of(paused: bool, random: bool, repeat: bool) -> (r: String)
    ensures
        r@ == status_line(paused, random, repeat),
{
    let mut text = String::from_str("Pause: ");
    text.append(truth_of(paused).as_str());
    text.append("\tRandom: ");
    text.append(truth_of(random).as_str());
    text.append("\tRepeat: ");
    text.append(truth_of(repeat).as_str());
    text
}

/// Whether one of the playlists has this name.
fn has_name(playlists: &Vec<Playlist>, name: &str) -> (r: bool)
    ensures
        r == playlist_names(playlists.deep_view()).contains(name@),
{
    let wanted = String::from_str(name);
    let ghost names = playlist_names(playlists.deep_view());
    let mut i: usize = 0;
    while i < playlists.len()
        invariant
            i <= playlists.len(),
            wanted@ == name@,
            names == playlist_names(playlists.deep_view()),
            forall|j: int| 0 <= j < i ==> names[j] != name@,
        decreases playlists.len() - i,
    {
        if playlists[i].name == wanted {
            assert(names[i as int] == name@);
            return true;
        }
        i += 1;
    }
    false
}

fn not_found(subject: Subject, name: &str) -> (r: Halt)
    ensures
        r@ == crate::protocol::HaltView::Fail(ErrorView::NotFound { subject, name: name@ }),
{
    Halt::Fail(Error::NotFound { subject, name: String::from_str(name) })
}

impl Handler {
    pub fn new(database: Database, api: YoutubeAPI, mpd: MpdClient) -> (r: Handler)
        ensures
            r@ == (HandlerView { database: database@, api: api@, mpd: mpd@ }),
    {
        Handler { database, api, mpd }
    }

    /// The catalog store that this handler speaks to.
    pub fn database(&self) -> (r: &Database)
        ensures
            r@ == self@.database,
    {
        &self.database
    }

    /// Registers a song under the identifier given.
    pub fn add_song_to_registry(
        &self,
        song_id: &str,
        song_name: &str,
        song_artist: Option<String>,
        session: &mut Session,
    ) -> (r: Result<(), Halt>)
        ensures
            ran(r, final(session)@) == self@.add_song_to_registry(
                song_id@,
                song_name@,
                song_artist.deep_view(),
                old(session)@,
            ),
    {
        let new_song = NewSong {
            id: String::from_str(song_id),
            name: String::from_str(song_name),
            artist: song_artist,
        };
        match self.database.insert_song(new_song, session)? {
            Insertion::Inserted => {},
            Insertion::Duplicate => {
                return Err(Halt::Fail(Error::DuplicateIdentifier { subject: Subject::Song }));
            },
            Insertion::Refused => {
                return Err(Halt::Fail(Error::CatalogWriteFailed { subject: Subject::Song }));
            },
        }
        self.api.download_audio(song_id, song_name, session)?;
        session.say(enclose("Song ", song_name, " downloaded successfully"));
        self.mpd.update_db(session)
    }

    /// Deletes the song with this display name.
    pub fn delete_song(&self, song_name: &str, session: &mut Session) -> (r: Result<(), Halt>)
        ensures
            ran(r, final(session)@) == self@.delete_song(song_name@, old(session)@),
    {
        let song_id = match self.database.get_song_by_name(song_name, session)? {
            Some(song) => song.id,
            None => {
                return Err(not_found(Subject::Song, song_name));
            },
        };
        self.api.delete_audio(song_id.as_str(), session)?;
        match self.database.delete_song(song_id.as_str(), session)? {
            Removal::Refused => {
                return Err(
                    Halt::Fail(
                        Error::CatalogDeleteFailed {
                            subject: Subject::Song,
                            name: String::from_str(song_name),
                        },
                    ),
                );
            },
            _ => {},
        }
        session.say(enclose("Song ", song_name, " deleted successfully"));
        self.mpd.update_db(session)
    }

    /// Creates a playlist with the songs named.
    pub fn create_playlist(
        &self,
        playlist_name: &str,
        songs_to_add: Vec<String>,
        session: &mut Session,
    ) -> (r: Result<(), Halt>)
        ensures
            ran(r, final(session)@) == self@.create_playlist(
                playlist_name@,
                songs_to_add.deep_view(),
                old(session)@,
            ),
    {
        let new_playlist = NewPlaylist { name: String::from_str(playlist_name) };
        match self.database.insert_playlist(new_playlist, session)? {
            Insertion::Inserted => {},
            Insertion::Duplicate => {
                return Err(Halt::Fail(Error::DuplicateIdentifier { subject: Subject::Playlist }));
            },
            Insertion::Refused => {
                return Err(Halt::Fail(Error::CatalogWriteFailed { subject: Subject::Playlist }));
            },
        }
        let ghost songs = songs_to_add.deep_view();
        let ghost whole = self@.create_playlist(playlist_name@, songs, old(session)@);
        let mut i: usize = 0;
        assert(songs.skip(0) =~= songs);
        while i < songs_to_add.len()
            invariant
                i <= songs_to_add.len(),
                songs == songs_to_add.deep_view(),
                whole == self@.create_playlist(playlist_name@, songs, old(session)@),
                self@.add_songs(playlist_name@, songs.skip(i as int), session@) == whole,
            ensures
                i == songs_to_add.len(),
                self@.add_songs(playlist_name@, songs.skip(i as int), session@) == whole,
            decreases songs_to_add.len() - i,
        {
            let song = songs_to_add[i].as_str();
            proof {
                assert(songs.skip(i as int)[0] == song@);
                assert(songs.skip(i as int).drop_first() =~= songs.skip(i + 1));
            }
            let found = self.database.get_song_by_name(trimmed(song).as_str(), session)?;
            match found {
                Some(song_in_db) => {
                    self.database.add_songs_to_playlist(
                        NewPlaylistSong {
                            playlist_name: String::from_str(playlist_name),
                            song_id: song_in_db.id,
                        },
                        session,
                    )?;
                    session.say(enclose("Song ", song, " added to playlist"));
                },
                None => {
                    return Err(not_found(Subject::Song, song));
                },
            }
            i += 1;
        }
        Ok(())
    }

    /// Deletes the playlist with this name.
    pub fn delete_playlist(&self, playlist_name: &str, session: &mut Session) -> (r: Result<
        (),
        Halt,
    >)
        ensures
            ran(r, final(session)@) == self@.delete_playlist(playlist_name@, old(session)@),
    {
        let known = match self.database.get_playlists(session)? {
            Some(playlists) => has_name(&playlists, playlist_name),
            None => false,
        };
        if !known {
            return Err(not_found(Subject::Playlist, playlist_name));
        }
        match self.database.delete_playlist(playlist_name, session)? {
            Removal::Refused => {
                return Err(
                    Halt::Fail(
                        Error::CatalogDeleteFailed {
                            subject: Subject::Playlist,
                            name: String::from_str(playlist_name),
                        },
                    ),
                );
            },
            _ => {},
        }
        session.say(enclose("Playlist ", playlist_name, " deleted successfully"));
        Ok(())
    }

    fn hush(&self, session: &mut Session) -> (r: Result<(), Halt>)
        ensures
            ran(r, final(session)@) == self@.hush(old(session)@),
    {
        self.mpd.pause(Intent::ForceOn, session)?;
        self.mpd.clear_queue(session)
    }

    /// Plays the playlist with this name.
    pub fn play_playlist(&self, playlist_name: &str, session: &mut Session) -> (r: Result<(), Halt>)
        ensures
            ran(r, final(session)@) == self@.play_playlist(playlist_name@, old(session)@),
    {
        self.hush(session)?;
        if self.database.get_playlist_by_name(playlist_name, session)?.is_none() {
            return Err(not_found(Subject::Playlist, playlist_name));
        }
        let songs = match self.database.get_songs_of_playlist(playlist_name, session)? {
            Some(songs) => songs,
            None => {
                return Err(Halt::Fail(Error::EmptyPlaylist));
            },
        };
        if songs.len() == 0 {
            return Err(Halt::Fail(Error::EmptyPlaylist));
        }
        let ghost rows = songs.deep_view();
        let ghost whole = self@.play_playlist(playlist_name@, old(session)@);
        let mut i: usize = 0;
        assert(rows.skip(0) =~= rows);
        while i < songs.len()
            invariant
                i <= songs.len(),
                rows == songs.deep_view(),
                whole == self@.play_playlist(playlist_name@, old(session)@),
                ({
                    let queued = self@.queue_all(rows.skip(i as int), session@);
                    if queued.result is Err {
                        queued.halted::<()>()
                    } else {
                        self@.mpd.play(queued.session)
                    }
                }) == whole,
            ensures
                i == songs.len(),
                self@.mpd.play(session@) == whole,
            decreases songs.len() - i,
        {
            proof {
                assert(rows.skip(i as int)[0] == songs[i as int]@);
                assert(rows.skip(i as int).drop_first() =~= rows.skip(i + 1));
            }
            self.mpd.add_to_queue(songs[i].song_id.as_str(), session)?;
            i += 1;
        }
        self.mpd.play(session)
    }

    /// Lists the playlists.
    pub fn get_playlists(&self, session: &mut Session) -> (r: Result<(), Halt>)
        ensures
            ran(r, final(session)@) == self@.get_playlists(old(session)@),
    {
        match self.database.get_playlists(session)? {
            Some(playlists) => {
                let ghost start = session@;
                let ghost names = playlist_names(playlists.deep_view());
                let mut i: usize = 0;
                assert(start.lines + names.take(0) =~= start.lines);
                while i < playlists.len()
                    invariant
                        i <= playlists.len(),
                        names == playlist_names(playlists.deep_view()),
                        session@.answers == start.answers,
                        session@.lines == start.lines + names.take(i as int),
                    decreases playlists.len() - i,
                {
                    session.say(playlists[i].name.clone());
                    proof {
                        assert(names.take(i + 1) =~= names.take(i as int).push(names[i as int]));
                        assert(start.lines + names.take(i + 1) =~= (start.lines + names.take(
                            i as int,
                        )).push(names[i as int]));
                    }
                    i += 1;
                }
                assert(names.take(i as int) =~= names);
            },
            None => {},
        }
        Ok(())
    }

    /// Lists the songs.
    pub fn get_songs(&self, session: &mut Session) -> (r: Result<(), Halt>)
        ensures
            ran(r, final(session)@) == self@.get_songs(old(session)@),
    {
        match self.database.get_songs(session)? {
            Some(songs) => {
                let ghost start = session@;
                let ghost lines = song_lines(songs.deep_view());
                let mut i: usize = 0;
                assert(start.lines + lines.take(0) =~= start.lines);
                while i < songs.len()
                    invariant
                        i <= songs.len(),
                        lines == song_lines(songs.deep_view()),
                        session@.answers == start.answers,
                        session@.lines == start.lines + lines.take(i as int),
                    decreases songs.len() - i,
                {
                    session.say(song_line_of(&songs[i]));
                    proof {
                        assert(lines.take(i + 1) =~= lines.take(i as int).push(lines[i as int]));
                        assert(start.lines + lines.take(i + 1) =~= (start.lines + lines.take(
                            i as int,
                        )).push(lines[i as int]));
                    }
                    i += 1;
                }
                assert(lines.take(i as int) =~= lines);
            },
            None => {},
        }
        Ok(())
    }

    /// Plays the song with this display name.
    pub fn play_song(&self, song_name: &str, session: &mut Session) -> (r: Result<(), Halt>)
        ensures
            ran(r, final(session)@) == self@.play_song(song_name@, old(session)@),
    {
        self.hush(session)?;
        let song_id = match self.database.get_song_by_name(song_name, session)? {
            Some(song) => song.id,
            None => {
                return Err(not_found(Subject::Song, song_name));
            },
        };
        self.mpd.add_to_queue(song_id.as_str(), session)?;
        self.mpd.play(session)
    }

    /// Starts playback.
    pub fn play(&self, session: &mut Session) -> (r: Result<(), Halt>)
        ensures
            ran(r, final(session)@) == self@.play(old(session)@),
    {
        self.mpd.play(session)
    }

    /// Pauses where the daemon plays, resumes where it does not.
    pub fn pause(&self, session: &mut Session) -> (r: Result<(), Halt>)
        ensures
            ran(r, final(session)@) == self@.pause(old(session)@),
    {
        self.mpd.pause(Intent::Toggle, session)
    }

    /// Switches random order over.
    pub fn shuffle(&self, session: &mut Session) -> (r: Result<(), Halt>)
        ensures
            ran(r, final(session)@) == self@.shuffle(old(session)@),
    {
        self.mpd.shuffle(Intent::Toggle, session)
    }

    /// Empties the queue.
    pub fn clear_queue(&self, session: &mut Session) -> (r: Result<(), Halt>)
        ensures
            ran(r, final(session)@) == self@.clear_queue(old(session)@),
    {
        self.mpd.clear_queue(session)?;
        session.say(String::from_str("Queue cleared"));
        Ok(())
    }

    fn take_up(&self, session: &mut Session) -> (r: Result<(), Halt>)
        ensures
            ran(r, final(session)@) == self@.take_up(old(session)@),
    {
        self.mpd.pause(Intent::ForceOn, session)?;
        self.mpd.pause(Intent::ForceOff, session)
    }

    /// Skips to the next entry of the queue.
    pub fn next(&self, session: &mut Session) -> (r: Result<(), Halt>)
        ensures
            ran(r, final(session)@) == self@.next(old(session)@),
    {
        self.mpd.next(session)?;
        self.take_up(session)?;
        session.say(String::from_str("Skipping to next song in queue"));
        Ok(())
    }

    /// Goes back to the entry before.
    pub fn previous(&self, session: &mut Session) -> (r: Result<(), Halt>)
        ensures
            ran(r, final(session)@) == self@.previous(old(session)@),
    {
        self.mpd.previous(session)?;
        self.take_up(session)?;
        session.say(String::from_str("Going back to previous song in queue"));
        Ok(())
    }

    /// Puts a song into a playlist.
    pub fn insert_into_playlist(
        &self,
        playlist_name: &str,
        song_name: &str,
        session: &mut Session,
    ) -> (r: Result<(), Halt>)
        ensures
            ran(r, final(session)@) == self@.insert_into_playlist(
                playlist_name@,
                song_name@,
                old(session)@,
            ),
    {
        if self.database.get_playlist_by_name(playlist_name, session)?.is_none() {
            return Err(not_found(Subject::Playlist, playlist_name));
        }
        let song = match self.database.get_song_by_name(song_name, session)? {
            Some(song) => song,
            None => {
                return Err(not_found(Subject::Song, song_name));
            },
        };
        let membership = NewPlaylistSong {
            playlist_name: String::from_str(playlist_name),
            song_id: song.id,
        };
        match self.database.add_songs_to_playlist(membership, session)? {
            Insertion::Inserted => {},
            Insertion::Duplicate => {
                return Err(Halt::Fail(Error::DuplicateMembership));
            },
            Insertion::Refused => {
                return Err(Halt::Fail(Error::CatalogWriteFailed { subject: Subject::Membership }));
            },
        }
        session.say(enclose("Song ", song_name, " successfully added to ").concat(playlist_name));
        Ok(())
    }

    /// Takes a song out of a playlist.
    pub fn remove_song_from_playlist(
        &self,
        playlist_name: &str,
        song_name: &str,
        session: &mut Session,
    ) -> (r: Result<(), Halt>)
        ensures
            ran(r, final(session)@) == self@.remove_song_from_playlist(
                playlist_name@,
                song_name@,
                old(session)@,
            ),
    {
        let song = match self.database.get_song_by_name(song_name, session)? {
            Some(song) => song,
            None => {
                return Err(not_found(Subject::Song, song_name));
            },
        };
        if self.database.get_playlist_by_name(playlist_name, session)?.is_none() {
            return Err(not_found(Subject::Playlist, playlist_name));
        }
        let membership = PlaylistSong {
            playlist_id: String::from_str(playlist_name),
            song_id: song.id,
        };
        match self.database.delete_playlist_song(membership, session)? {
            Removal::Removed => Ok(()),
            Removal::Absent => Err(not_found(Subject::Membership, song_name)),
            Removal::Refused => Err(
                Halt::Fail(
                    Error::CatalogDeleteFailed {
                        subject: Subject::Membership,
                        name: String::from_str(song_name),
                    },
                ),
            ),
        }
    }

    /// Reports the song that is playing.
    pub fn current(&self, session: &mut Session) -> (r: Result<(), Halt>)
        ensures
            ran(r, final(session)@) == self@.current(old(session)@),
    {
        let current_song = self.mpd.current(session)?;
        let current_time = self.mpd.current_time(session)?;
        let current_song_name = file_stem(current_song.as_str());
        let song_info = match self.database.get_song_by_id(current_song_name.as_str(), session)? {
            Some(song) => song,
            None => {
                return Err(Halt::Fail(Error::NoSongInfo));
            },
        };
        session.say(current_lines_of(&song_info, current_time.as_str()));
        Ok(())
    }

    /// Switches repeat over.
    pub fn repeat(&self, session: &mut Session) -> (r: Result<(), Halt>)
        ensures
            ran(r, final(session)@) == self@.repeat(old(session)@),
    {
        self.mpd.repeat(session)
    }

    /// Moves playback to `percentage` percent of the current track.
    pub fn seek(&self, percentage: u8, session: &mut Session) -> (r: Result<(), Halt>)
        ensures
            ran(r, final(session)@) == self@.seek(percentage, old(session)@),
    {
        self.mpd.seek(percentage, session)?;
        self.take_up(session)
    }

    /// Reports the daemon's transport state.
    pub fn status(&self, session: &mut Session) -> (r: Result<(), Halt>)
        ensures
            ran(r, final(session)@) == self@.status(old(session)@),
    {
        let status = self.mpd.status(session)?;
        session.say(status_line_of(status.is_paused, status.random, status.repeat));
        Ok(())
    }

    /// Lists the queue.
    pub fn queue(&self, session: &mut Session) -> (r: Result<(), Halt>)
        ensures
            ran(r, final(session)@) == self@.queue(old(session)@),
    {
        let queue = self.mpd.queue(session)?;
        let ghost ids = queue.deep_view();
        let ghost whole = self@.queue(old(session)@);
        let mut i: usize = 0;
        assert(ids.skip(0) =~= ids);
        while i < queue.len()
            invariant
                i <= queue.len(),
                ids == queue.deep_view(),
                whole == self@.queue(old(session)@),
                self@.list_known(ids.skip(i as int), session@) == whole,
            ensures
                i == queue.len(),
                self@.list_known(ids.skip(i as int), session@) == whole,
            decreases queue.len() - i,
        {
            proof {
                assert(ids.skip(i as int)[0] == queue[i as int]@);
                assert(ids.skip(i as int).drop_first() =~= ids.skip(i + 1));
            }
            match self.database.get_song_by_id(queue[i].as_str(), session)? {
                Some(song_info) => {
                    session.say(song_line_of(&song_info));
                },
                None => {},
            }
            i += 1;
        }
        Ok(())
    }

    /// Puts a song at the end of the queue.
    pub fn add_to_queue(&self, song_name: &str, session: &mut Session) -> (r: Result<(), Halt>)
        ensures
            ran(r, final(session)@) == self@.add_to_queue(song_name@, old(session)@),
    {
        match self.database.get_song_by_name(song_name, session)? {
            Some(song) => {
                self.mpd.add_to_queue(song.id.as_str(), session)?;
                session.say(enclose("Song ", song_name, " added to queue"));
                Ok(())
            },
            None => Err(not_found(Subject::Song, song_name)),
        }
    }

    /// Takes a song out of the queue.
    pub fn remove_from_queue(&self, song_name: &str, session: &mut Session) -> (r: Result<
        (),
        Halt,
    >)
        ensures
            ran(r, final(session)@) == self@.remove_from_queue(song_name@, old(session)@),
    {
        match self.database.get_song_by_name(song_name, session)? {
            Some(song) => {
                self.mpd.remove_from_queue(song.id.as_str(), session)?;
                session.say(enclose("Song ", song_name, " removed from queue"));
                Ok(())
            },
            None => Err(not_found(Subject::Song, song_name)),
        }
    }

    /// Puts the queue in a random order.
    pub fn shuffle_queue(&self, session: &mut Session) -> (r: Result<(), Halt>)
        ensures
            ran(r, final(session)@) == self@.shuffle_queue(old(session)@),
    {
        self.mpd.shuffle_queue(session)?;
        session.say(String::from_str("Queue shuffled"));
        Ok(())
    }
}

} // verus!
