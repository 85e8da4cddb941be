//! The three stores as the commands take them to be: what the catalog, the
//! media cache and the playback daemon hold, and which answers each gives.
//!
//! Nothing here runs. It is the yardstick for the laws: a run of a command is
//! held against a world that answers as described here, or fails a request
//! and stays as it was.

use vstd::prelude::*;
use crate::args::Command;
use crate::dispatch::step_of;
use crate::handler::HandlerView;
use crate::models::{PlaylistSongView, PlaylistView, SongView};
use crate::protocol::{
    CatalogRequestView, DaemonRequestView, MediaRequestView, OutcomeView, PlayState, ReplyView,
    RequestView, StepView, TrackView,
};

verus! {

/// The catalog: songs by identifier, playlists by name, and the pairs of
/// playlist name and song identifier that are memberships.
pub struct Catalog {
    pub songs: Map<Seq<char>, SongView>,
    pub playlists: Set<Seq<char>>,
    pub members: Set<(Seq<char>, Seq<char>)>,
}

impl Catalog {
    /// Every song is kept under its own identifier, and every membership
    /// is of a playlist and a song that are there.
    pub open spec fn wf(self) -> bool {
        &&& forall|id: Seq<char>| #[trigger]
            self.songs.dom().contains(id) ==> self.songs[id].id == id
        &&& forall|playlist: Seq<char>, song: Seq<char>| #[trigger]
            self.members.contains((playlist, song)) ==> self.playlists.contains(playlist)
                && self.songs.dom().contains(song)
    }

    /// Whether this very row is in the catalog.
    pub open spec fn has_song(self, row: SongView) -> bool {
        self.songs.dom().contains(row.id) && self.songs[row.id] == row
    }

    /// Whether a song goes by this display name.
    pub open spec fn has_name(self, name: Seq<char>) -> bool {
        exists|row: SongView| #[trigger] self.has_song(row) && row.name == name
    }

    /// The catalog without the song `id` and its memberships.
    pub open spec fn without_song(self, id: Seq<char>) -> Catalog {
        Catalog {
            songs: self.songs.remove(id),
            playlists: self.playlists,
            members: self.members.filter(|m: (Seq<char>, Seq<char>)| m.1 != id),
        }
    }

    /// The catalog without the playlist `name` and its memberships.
    pub open spec fn without_playlist(self, name: Seq<char>) -> Catalog {
        Catalog {
            songs: self.songs,
            playlists: self.playlists.remove(name),
            members: self.members.filter(|m: (Seq<char>, Seq<char>)| m.0 != name),
        }
    }

    /// Whether `a` is the catalog's answer to `q`, and `next` the catalog
    /// after it. Lists come in an order of the catalog's choosing; a song
    /// looked up by name is any one that goes by the name. Inserts meet
    /// the keys: a song's identifier, a playlist's name, a membership's
    /// pair. A membership of a playlist or a song that is not there has
    /// no answer here: it can only fail.
    pub open spec fn answers(self, q: CatalogRequestView, a: ReplyView, next: Catalog) -> bool {
        match q {
            CatalogRequestView::Songs => {
                &&& next == self
                &&& a matches ReplyView::Songs(rows)
                &&& rows.no_duplicates()
                &&& forall|row: SongView| #[trigger] rows.contains(row) <==> self.has_song(row)
            },
            CatalogRequestView::SongByName(name) => {
                &&& next == self
                &&& a matches ReplyView::Song(found)
                &&& match found {
                    Some(row) => self.has_song(row) && row.name == name,
                    None => !self.has_name(name),
                }
            },
            CatalogRequestView::SongById(id) => {
                &&& next == self
                &&& a == ReplyView::Song(
                    if self.songs.dom().contains(id) {
                        Some(self.songs[id])
                    } else {
                        None
                    },
                )
            },
            CatalogRequestView::InsertSong(row) => if self.songs.dom().contains(row.id) {
                a == ReplyView::Duplicate && next == self
            } else {
                a == ReplyView::Done && next == (Catalog {
                    songs: self.songs.insert(row.id, row),
                    ..self
                })
            },
            CatalogRequestView::DeleteSong(id) => if self.songs.dom().contains(id) {
                a == ReplyView::Done && next == self.without_song(id)
            } else {
                a == ReplyView::Missing && next == self
            },
            CatalogRequestView::Playlists => {
                &&& next == self
                &&& a matches ReplyView::Playlists(rows)
                &&& rows.no_duplicates()
                &&& forall|row: PlaylistView| #[trigger]
                    rows.contains(row) <==> self.playlists.contains(row.name)
            },
            CatalogRequestView::PlaylistByName(name) => {
                &&& next == self
                &&& a == ReplyView::Playlist(
                    if self.playlists.contains(name) {
                        Some(PlaylistView { name })
                    } else {
                        None
                    },
                )
            },
            CatalogRequestView::InsertPlaylist(row) => if self.playlists.contains(row.name) {
                a == ReplyView::Duplicate && next == self
            } else {
                a == ReplyView::Done && next == (Catalog {
                    playlists: self.playlists.insert(row.name),
                    ..self
                })
            },
            CatalogRequestView::DeletePlaylist(name) => if self.playlists.contains(name) {
                a == ReplyView::Done && next == self.without_playlist(name)
            } else {
                a == ReplyView::Missing && next == self
            },
            CatalogRequestView::SongsOfPlaylist(name) => {
                &&& next == self
                &&& a matches ReplyView::PlaylistSongs(rows)
                &&& rows.no_duplicates()
                &&& forall|row: PlaylistSongView| #[trigger]
                    rows.contains(row) <==> row.playlist_id == name && self.members.contains(
                        (name, row.song_id),
                    )
            },
            CatalogRequestView::InsertPlaylistSong(row) => if self.members.contains(
                (row.playlist_id, row.song_id),
            ) {
                a == ReplyView::Duplicate && next == self
            } else {
                &&& self.playlists.contains(row.playlist_id)
                &&& self.songs.dom().contains(row.song_id)
                &&& a == ReplyView::Done
                &&& next == (Catalog {
                    members: self.members.insert((row.playlist_id, row.song_id)),
                    ..self
                })
            },
            CatalogRequestView::DeletePlaylistSong(row) => if self.members.contains(
                (row.playlist_id, row.song_id),
            ) {
                a == ReplyView::Done && next == (Catalog {
                    members: self.members.remove((row.playlist_id, row.song_id)),
                    ..self
                })
            } else {
                a == ReplyView::Missing && next == self
            },
        }
    }
}

/// The media cache: the paths of the files it holds.
pub struct Cache {
    pub files: Set<Seq<char>>,
}

impl Cache {
    /// Whether `a` is the cache's answer to `q`, and `next` the cache
    /// after it. Fetched audio lies in the directory asked for, named by
    /// the identifier with the extension of the audio format. Pictures
    /// are not kept track of. A file that is not there cannot be removed:
    /// that request can only fail.
    pub open spec fn answers(self, q: MediaRequestView, a: ReplyView, next: Cache) -> bool {
        match q {
            MediaRequestView::FetchAudio { id, directory } => {
                &&& a == ReplyView::Done
                &&& next == Cache { files: self.files.insert(directory + id + ".opus"@) }
            },
            MediaRequestView::FetchMiniature { .. } => a == ReplyView::Done && next == self,
            MediaRequestView::RemoveFile { path } => {
                &&& self.files.contains(path)
                &&& a == ReplyView::Done
                &&& next == Cache { files: self.files.remove(path) }
            },
        }
    }
}

/// The playback daemon: what it does, its two switches, its queue, and the
/// entry that is current, if one is.
pub struct Daemon {
    pub state: PlayState,
    pub random: bool,
    pub repeat: bool,
    pub queue: Seq<TrackView>,
    pub current: Option<TrackView>,
}

impl Daemon {
    /// Whether `a` is the daemon's answer to `q`, and `next` the daemon
    /// after it. Pausing stops a daemon that plays, resuming starts one
    /// that is paused, and neither does anything to one that is stopped.
    /// Playing starts a daemon whose queue holds something. Where the
    /// daemon moves within the queue, what becomes current is left open.
    pub open spec fn answers(self, q: DaemonRequestView, a: ReplyView, next: Daemon) -> bool {
        match q {
            DaemonRequestView::Connect { .. } => a == ReplyView::Done && next == self,
            DaemonRequestView::Update => a == ReplyView::Done && next == self,
            DaemonRequestView::Push { file } => {
                &&& a == ReplyView::Done
                &&& next.queue.len() == self.queue.len() + 1
                &&& next.queue.drop_last() == self.queue
                &&& next.queue.last().file == file
                &&& next.queue.last().place is Some
                &&& forall|i: int|
                    0 <= i < self.queue.len() ==> (#[trigger] self.queue[i]).place
                        != next.queue.last().place
                &&& next.state == self.state
                &&& next.random == self.random
                &&& next.repeat == self.repeat
                &&& next.current == self.current
            },
            DaemonRequestView::Play => {
                &&& a == ReplyView::Done
                &&& next.state == if self.queue.len() > 0 {
                    PlayState::Play
                } else {
                    self.state
                }
                &&& next.random == self.random
                &&& next.repeat == self.repeat
                &&& next.queue == self.queue
            },
            DaemonRequestView::Pause(flag) => {
                &&& a == ReplyView::Done
                &&& next == Daemon {
                    state: if flag && self.state == PlayState::Play {
                        PlayState::Pause
                    } else if !flag && self.state == PlayState::Pause {
                        PlayState::Play
                    } else {
                        self.state
                    },
                    ..self
                }
            },
            DaemonRequestView::Random(flag) => {
                &&& a == ReplyView::Done
                &&& next == Daemon { random: flag, ..self }
            },
            DaemonRequestView::Repeat(flag) => {
                &&& a == ReplyView::Done
                &&& next == Daemon { repeat: flag, ..self }
            },
            DaemonRequestView::Clear => {
                &&& a == ReplyView::Done
                &&& next == Daemon {
                    state: PlayState::Stop,
                    queue: Seq::empty(),
                    current: None,
                    ..self
                }
            },
            DaemonRequestView::Next | DaemonRequestView::Previous => {
                &&& a == ReplyView::Done
                &&& next.random == self.random
                &&& next.repeat == self.repeat
                &&& next.queue == self.queue
            },
            DaemonRequestView::CurrentSong => {
                &&& a == ReplyView::CurrentSong(self.current)
                &&& next == self
            },
            DaemonRequestView::Status => {
                &&& a matches ReplyView::Status(status)
                &&& status.state == self.state
                &&& status.random == self.random
                &&& status.repeat == self.repeat
                &&& next == self
            },
            DaemonRequestView::Queue => a == ReplyView::Queue(self.queue) && next == self,
            DaemonRequestView::Seek { .. } => a == ReplyView::Done && next == self,
            DaemonRequestView::Delete { place } => {
                &&& a == ReplyView::Done
                &&& next.queue == self.queue.filter(|t: TrackView| t.place != Some(place))
                &&& next.random == self.random
                &&& next.repeat == self.repeat
            },
            DaemonRequestView::Shuffle => {
                &&& a == ReplyView::Done
                &&& next.queue.to_multiset() == self.queue.to_multiset()
                &&& next.state == self.state
                &&& next.random == self.random
                &&& next.repeat == self.repeat
            },
        }
    }
}

/// The three stores together.
pub struct World {
    pub catalog: Catalog,
    pub cache: Cache,
    pub daemon: Daemon,
}

impl World {
    /// Whether `a` may be what comes back for `q`, and `next` the world
    /// after it: the request fails and nothing changes, or the store asked
    /// answers and the two others stay as they are.
    pub open spec fn answers(self, q: RequestView, a: ReplyView, next: World) -> bool {
        if a is Failed {
            next == self
        } else {
            match q {
                RequestView::Catalog(q) => {
                    &&& self.catalog.answers(q, a, next.catalog)
                    &&& next.cache == self.cache
                    &&& next.daemon == self.daemon
                },
                RequestView::Media(q) => {
                    &&& self.cache.answers(q, a, next.cache)
                    &&& next.catalog == self.catalog
                    &&& next.daemon == self.daemon
                },
                RequestView::Daemon(q) => {
                    &&& self.daemon.answers(q, a, next.daemon)
                    &&& next.catalog == self.catalog
                    &&& next.cache == self.cache
                },
            }
        }
    }
}

/// A run of a command: the answers it got, in order, and the world before
/// the first request and after each.
pub struct Run {
    pub answers: Seq<ReplyView>,
    pub worlds: Seq<World>,
}

impl Run {
    /// The world before the run.
    pub open spec fn first(self) -> World {
        self.worlds[0]
    }

    /// The world after the run.
    pub open spec fn last(self) -> World {
        self.worlds[self.answers.len() as int]
    }

    /// Whether answer `i` is the world's answer to what the command asks
    /// once it has the answers before it.
    pub open spec fn fits(self, h: HandlerView, command: Command, i: int) -> bool {
        match step_of(h, command, self.answers.take(i)) {
            StepView::Call(q) => self.worlds[i].answers(q, self.answers[i], self.worlds[i + 1]),
            StepView::Done(_) => false,
        }
    }

    /// Whether this is a run of `command`: each answer is the world's to
    /// the request that the command made at that point.
    pub open spec fn of(self, h: HandlerView, command: Command) -> bool {
        &&& self.worlds.len() == self.answers.len() + 1
        &&& forall|i: int| 0 <= i < self.answers.len() ==> #[trigger] self.fits(h, command, i)
    }

    /// Whether the command, given all the answers of this run, is over
    /// with `outcome`.
    pub open spec fn ends_with(self, h: HandlerView, command: Command, outcome: OutcomeView) -> bool {
        step_of(h, command, self.answers) == StepView::Done(outcome)
    }

    /// Whether no request of this run failed.
    pub open spec fn unfailing(self) -> bool {
        forall|i: int| 0 <= i < self.answers.len() ==> !(#[trigger] self.answers[i] is Failed)
    }
}

/// A catalog that is well formed stays so, whatever is asked of it.
pub proof fn lemma_catalog_stays_wf(c: Catalog, q: CatalogRequestView, a: ReplyView, next: Catalog)
    requires
        c.wf(),
        c.answers(q, a, next),
    ensures
        next.wf(),
{
    match q {
        CatalogRequestView::InsertSong(row) => {
            if !c.songs.dom().contains(row.id) {
                assert forall|id: Seq<char>| #[trigger]
                    next.songs.dom().contains(id) implies next.songs[id].id == id by {
                    if id != row.id {
                        assert(c.songs.dom().contains(id));
                    }
                }
            }
        },
        _ => {},
    }
}

} // verus!
