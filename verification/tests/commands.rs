use yap::args::{
    App, Command, DownloadOptions, MpdOptions, PlayOptions, PlayPlaylistOptions, PlaySongOptions,
    PlaylistCreateOptions, PlaylistDeleteOptions, PlaylistInsertOptions, PlaylistOptions,
    PlaylistRemoveOptions, QueueAddOptions, QueueRemoveOptions, SeekOptions, SongDeleteOptions,
    SongOptions,
};
use yap::config::Config;
use yap::dispatch::{advance, assemble};
use yap::error::{Error, Subject};
use yap::handler::Handler;
use yap::models::Song;
use yap::youtube_api::YoutubeAPI;
use yap::protocol::{
    CatalogRequest, DaemonRequest, DaemonStatus, MediaRequest, Outcome, PlayState, Progress, Reply,
    Request, Step, Track,
};

/// The three stores, in memory, for the commands to run against.
struct World {
    songs: Vec<Song>,
    playlists: Vec<String>,
    members: Vec<(String, String)>,
    files: Vec<String>,
    state: PlayState,
    random: bool,
    repeat: bool,
    queue: Vec<Track>,
    current: Option<Track>,
    time: Option<Progress>,
    places: u32,
    failing: Vec<Request>,
    asked: Vec<Request>,
}

fn world() -> World {
    World {
        songs: Vec::new(),
        playlists: Vec::new(),
        members: Vec::new(),
        files: Vec::new(),
        state: PlayState::Stop,
        random: false,
        repeat: false,
        queue: Vec::new(),
        current: None,
        time: None,
        places: 0,
        failing: Vec::new(),
        asked: Vec::new(),
    }
}

fn song(id: &str, name: &str, artist: Option<&str>) -> Song {
    Song { id: id.to_string(), name: name.to_string(), artist: artist.map(|a| a.to_string()) }
}

impl World {
    fn catalog(&mut self, request: CatalogRequest) -> Reply {
        match request {
            CatalogRequest::Songs => Reply::Songs(self.songs.clone()),
            CatalogRequest::SongByName(name) => {
                Reply::Song(self.songs.iter().find(|s| s.name == name).cloned())
            }
            CatalogRequest::SongById(id) => {
                Reply::Song(self.songs.iter().find(|s| s.id == id).cloned())
            }
            CatalogRequest::InsertSong(row) => {
                if self.songs.iter().any(|s| s.id == row.id) {
                    Reply::Duplicate
                } else {
                    self.songs.push(Song { id: row.id, name: row.name, artist: row.artist });
                    Reply::Done
                }
            }
            CatalogRequest::DeleteSong(id) => {
                if self.songs.iter().any(|s| s.id == id) {
                    self.songs.retain(|s| s.id != id);
                    self.members.retain(|m| m.1 != id);
                    Reply::Done
                } else {
                    Reply::Missing
                }
            }
            CatalogRequest::Playlists => Reply::Playlists(
                self.playlists.iter().map(|n| yap::models::Playlist { name: n.clone() }).collect(),
            ),
            CatalogRequest::PlaylistByName(name) => Reply::Playlist(
                self.playlists
                    .iter()
                    .find(|n| **n == name)
                    .map(|n| yap::models::Playlist { name: n.clone() }),
            ),
            CatalogRequest::InsertPlaylist(row) => {
                if self.playlists.contains(&row.name) {
                    Reply::Duplicate
                } else {
                    self.playlists.push(row.name);
                    Reply::Done
                }
            }
            CatalogRequest::DeletePlaylist(name) => {
                if self.playlists.contains(&name) {
                    self.playlists.retain(|n| *n != name);
                    self.members.retain(|m| m.0 != name);
                    Reply::Done
                } else {
                    Reply::Missing
                }
            }
            CatalogRequest::SongsOfPlaylist(name) => Reply::PlaylistSongs(
                self.members
                    .iter()
                    .filter(|m| m.0 == name)
                    .map(|m| yap::models::PlaylistSong {
                        playlist_id: m.0.clone(),
                        song_id: m.1.clone(),
                    })
                    .collect(),
            ),
            CatalogRequest::InsertPlaylistSong(row) => {
                let pair = (row.playlist_name, row.song_id);
                if self.members.contains(&pair) {
                    Reply::Duplicate
                } else if !self.playlists.contains(&pair.0)
                    || !self.songs.iter().any(|s| s.id == pair.1)
                {
                    Reply::Failed("FOREIGN KEY constraint failed".to_string())
                } else {
                    self.members.push(pair);
                    Reply::Done
                }
            }
            CatalogRequest::DeletePlaylistSong(row) => {
                let pair = (row.playlist_id, row.song_id);
                if self.members.contains(&pair) {
                    self.members.retain(|m| *m != pair);
                    Reply::Done
                } else {
                    Reply::Missing
                }
            }
        }
    }

    fn media(&mut self, request: MediaRequest) -> Reply {
        match request {
            MediaRequest::FetchAudio { id, directory } => {
                self.files.push(format!("{}{}.opus", directory, id));
                Reply::Done
            }
            MediaRequest::FetchMiniature { directory, file_name, .. } => {
                self.files.push(format!("{}/{}", directory, file_name));
                Reply::Done
            }
            MediaRequest::RemoveFile { path } => {
                if self.files.contains(&path) {
                    self.files.retain(|f| *f != path);
                    Reply::Done
                } else {
                    Reply::Failed("No such file or directory".to_string())
                }
            }
        }
    }

    fn daemon(&mut self, request: DaemonRequest) -> Reply {
        match request {
            DaemonRequest::Connect { .. } | DaemonRequest::Update | DaemonRequest::Seek { .. } => {
                Reply::Done
            }
            DaemonRequest::Push { file } => {
                self.places += 1;
                self.queue.push(Track { file, place: Some(self.places) });
                Reply::Done
            }
            DaemonRequest::Play => {
                if !self.queue.is_empty() {
                    self.state = PlayState::Play;
                    if self.current.is_none() {
                        self.current = Some(self.queue[0].clone());
                    }
                }
                Reply::Done
            }
            DaemonRequest::Pause(flag) => {
                if flag && self.state == PlayState::Play {
                    self.state = PlayState::Pause;
                } else if !flag && self.state == PlayState::Pause {
                    self.state = PlayState::Play;
                }
                Reply::Done
            }
            DaemonRequest::Random(flag) => {
                self.random = flag;
                Reply::Done
            }
            DaemonRequest::Repeat(flag) => {
                self.repeat = flag;
                Reply::Done
            }
            DaemonRequest::Clear => {
                self.queue.clear();
                self.current = None;
                self.state = PlayState::Stop;
                Reply::Done
            }
            DaemonRequest::Next | DaemonRequest::Previous => Reply::Done,
            DaemonRequest::CurrentSong => Reply::CurrentSong(self.current.clone()),
            DaemonRequest::Status => Reply::Status(DaemonStatus {
                state: self.state,
                random: self.random,
                repeat: self.repeat,
                time: self.time,
            }),
            DaemonRequest::Queue => Reply::Queue(self.queue.clone()),
            DaemonRequest::Delete { place } => {
                self.queue.retain(|t| t.place != Some(place));
                Reply::Done
            }
            DaemonRequest::Shuffle => {
                self.queue.reverse();
                Reply::Done
            }
        }
    }

    fn perform(&mut self, request: Request) -> Reply {
        self.asked.push(request.clone());
        if self.failing.contains(&request) {
            return Reply::Failed("refused".to_string());
        }
        match request {
            Request::Catalog(q) => self.catalog(q),
            Request::Media(q) => self.media(q),
            Request::Daemon(q) => self.daemon(q),
        }
    }

    fn run(&mut self, handler: &Handler, command: Command) -> Outcome {
        let app = App { command };
        let mut answers: Vec<Reply> = Vec::new();
        loop {
            match advance(handler, &app, answers.clone()) {
                Step::Call(request) => {
                    let answer = self.perform(request);
                    answers.push(answer);
                }
                Step::Done(outcome) => return outcome,
            }
        }
    }
}

fn handler() -> Handler {
    assemble(&Config::default())
}

fn download(id: &str, name: &str, artist: Option<&str>) -> Command {
    Command::Download(DownloadOptions {
        id: id.to_string(),
        name: name.to_string(),
        artist: artist.map(|a| a.to_string()),
    })
}

fn create(name: &str, songs: &str) -> Command {
    Command::Playlist(PlaylistOptions::Create(PlaylistCreateOptions {
        name: name.to_string(),
        songs: songs.to_string(),
    }))
}

fn insert(playlist: &str, song: &str) -> Command {
    Command::Playlist(PlaylistOptions::Insert(PlaylistInsertOptions {
        playlist_name: playlist.to_string(),
        song_name: song.to_string(),
    }))
}

fn remove(playlist: &str, song: &str) -> Command {
    Command::Playlist(PlaylistOptions::Remove(PlaylistRemoveOptions {
        playlist_name: playlist.to_string(),
        song_name: song.to_string(),
    }))
}

fn delete_playlist(name: &str) -> Command {
    Command::Playlist(PlaylistOptions::Delete(PlaylistDeleteOptions { name: name.to_string() }))
}

fn delete_song(name: &str) -> Command {
    Command::Song(SongOptions::Delete(SongDeleteOptions { name: name.to_string() }))
}

fn connect() -> Request {
    Request::Daemon(DaemonRequest::Connect { address: "127.0.0.1:6600".to_string() })
}

fn daemon(request: DaemonRequest) -> Request {
    Request::Daemon(request)
}

fn lines(outcome: &Outcome) -> Vec<&str> {
    outcome.lines.iter().map(|l| l.as_str()).collect()
}

fn not_found(subject: Subject, name: &str) -> Result<(), Error> {
    Err(Error::NotFound { subject, name: name.to_string() })
}

fn pair(playlist: &str, song: &str) -> (String, String) {
    (playlist.to_string(), song.to_string())
}

#[test]
fn a_command_asks_one_request_at_a_time() {
    let h = handler();
    let app = App { command: delete_song("Tune") };
    let first = advance(&h, &app, vec![]);
    assert_eq!(first, Step::Call(Request::Catalog(CatalogRequest::SongByName("Tune".to_string()))));
    let found = Reply::Song(Some(song("abc", "Tune", None)));
    let second = advance(&h, &app, vec![found.clone()]);
    assert_eq!(
        second,
        Step::Call(Request::Media(MediaRequest::RemoveFile {
            path: "~/Music/songs/abc.opus".to_string()
        }))
    );
    let third = advance(&h, &app, vec![found.clone(), Reply::Done]);
    assert_eq!(third, Step::Call(Request::Catalog(CatalogRequest::DeleteSong("abc".to_string()))));
    let fourth = advance(&h, &app, vec![found.clone(), Reply::Done, Reply::Done]);
    assert_eq!(fourth, Step::Call(connect()));
    let fifth = advance(&h, &app, vec![found.clone(), Reply::Done, Reply::Done, Reply::Done]);
    assert_eq!(fifth, Step::Call(daemon(DaemonRequest::Update)));
    let last = advance(
        &h,
        &app,
        vec![found, Reply::Done, Reply::Done, Reply::Done, Reply::Done],
    );
    assert_eq!(
        last,
        Step::Done(Outcome {
            lines: vec!["Song Tune deleted successfully".to_string()],
            result: Ok(())
        })
    );
}

#[test]
fn registering_a_song_inserts_fetches_and_tells_the_daemon() {
    let mut w = world();
    let outcome = w.run(&handler(), download("abc", "Tune", Some("Band")));
    assert_eq!(outcome.result, Ok(()));
    assert_eq!(lines(&outcome), vec!["Song Tune downloaded successfully"]);
    assert_eq!(w.songs, vec![song("abc", "Tune", Some("Band"))]);
    assert_eq!(w.files, vec!["~/Music/songs/abc.opus"]);
    assert_eq!(
        w.asked,
        vec![
            Request::Catalog(CatalogRequest::InsertSong(yap::models::NewSong {
                id: "abc".to_string(),
                name: "Tune".to_string(),
                artist: Some("Band".to_string()),
            })),
            Request::Media(MediaRequest::FetchAudio {
                id: "abc".to_string(),
                directory: "~/Music/songs/".to_string()
            }),
            connect(),
            daemon(DaemonRequest::Update),
        ]
    );
}

#[test]
fn a_registered_song_resolves_by_name_to_its_identifier() {
    let mut w = world();
    let h = handler();
    assert_eq!(w.run(&h, download("abc", "Tune", None)).result, Ok(()));
    let app = App { command: Command::Play(PlayOptions::Song(PlaySongOptions { name: "Tune".to_string() })) };
    let answers = vec![
        Reply::Done,
        Reply::Status(DaemonStatus { state: PlayState::Stop, random: false, repeat: false, time: None }),
        Reply::Done,
        Reply::Done,
        Reply::Done,
        w.perform(Request::Catalog(CatalogRequest::SongByName("Tune".to_string()))),
        Reply::Done,
    ];
    assert_eq!(
        advance(&h, &app, answers),
        Step::Call(daemon(DaemonRequest::Push { file: "abc.opus".to_string() }))
    );
    let api = YoutubeAPI::new("~/Music/songs/".to_string(), "~/Music/miniatures".to_string(), false);
    assert!(w.files.contains(&api.audio_path("abc")));
}

#[test]
fn registering_twice_is_a_duplicate_identifier() {
    let mut w = world();
    let h = handler();
    assert_eq!(w.run(&h, download("abc", "Tune", None)).result, Ok(()));
    let again = w.run(&h, download("abc", "Other", None));
    assert_eq!(again.result, Err(Error::DuplicateIdentifier { subject: Subject::Song }));
    assert_eq!(again.lines.len(), 0);
    assert_eq!(w.songs.len(), 1);
    assert_eq!(again.result.unwrap_err().message(), "Couldn't add song to database, skipping...");
}

#[test]
fn a_refused_song_insert_is_a_catalog_write_failure() {
    let mut w = world();
    w.failing.push(Request::Catalog(CatalogRequest::InsertSong(yap::models::NewSong {
        id: "abc".to_string(),
        name: "Tune".to_string(),
        artist: None,
    })));
    let outcome = w.run(&handler(), download("abc", "Tune", None));
    assert_eq!(outcome.result, Err(Error::CatalogWriteFailed { subject: Subject::Song }));
    assert!(w.files.is_empty());
}

#[test]
fn a_failed_fetch_leaves_the_catalog_row() {
    let mut w = world();
    w.failing.push(Request::Media(MediaRequest::FetchAudio {
        id: "abc".to_string(),
        directory: "~/Music/songs/".to_string(),
    }));
    let outcome = w.run(&handler(), download("abc", "Tune", None));
    assert_eq!(outcome.result, Err(Error::ArtifactFetchFailed("refused".to_string())));
    assert_eq!(outcome.lines.len(), 0);
    assert_eq!(w.songs, vec![song("abc", "Tune", None)]);
    assert!(w.files.is_empty());
    assert_eq!(w.asked.len(), 2);
}

#[test]
fn a_daemon_failure_after_the_fetch_is_reported_and_the_song_stays() {
    let mut w = world();
    w.failing.push(connect());
    let outcome = w.run(&handler(), download("abc", "Tune", None));
    assert_eq!(outcome.result, Err(Error::DaemonUnavailable("refused".to_string())));
    assert_eq!(lines(&outcome), vec!["Song Tune downloaded successfully"]);
    assert_eq!(w.songs.len(), 1);
    assert_eq!(w.files.len(), 1);
}

#[test]
fn a_picture_is_fetched_where_the_settings_ask_for_it() {
    let mut config = Config::default();
    config.general.download_miniature = true;
    let h = assemble(&config);
    let mut w = world();
    let outcome = w.run(&h, download("abc", "Tune", None));
    assert_eq!(outcome.result, Ok(()));
    assert_eq!(
        w.asked[2],
        Request::Media(MediaRequest::FetchMiniature {
            url: "https://img.youtube.com/vi/abc/sddefault.jpg".to_string(),
            directory: "~/Music/miniatures".to_string(),
            file_name: "Tune.jpg".to_string(),
        })
    );
    assert_eq!(w.asked.len(), 5);
}

#[test]
fn deleting_a_song_removes_file_then_row() {
    let mut w = world();
    let h = handler();
    assert_eq!(w.run(&h, download("abc", "Tune", None)).result, Ok(()));
    let outcome = w.run(&h, delete_song("Tune"));
    assert_eq!(outcome.result, Ok(()));
    assert_eq!(lines(&outcome), vec!["Song Tune deleted successfully"]);
    assert!(w.songs.is_empty());
    assert!(w.files.is_empty());
}

#[test]
fn deleting_an_unknown_song_is_not_found() {
    let mut w = world();
    let outcome = w.run(&handler(), delete_song("Ghost"));
    assert_eq!(outcome.result, not_found(Subject::Song, "Ghost"));
    assert_eq!(outcome.result.unwrap_err().message(), "Song Ghost doesn't exist");
    assert_eq!(w.asked.len(), 1);
}

#[test]
fn a_failed_file_removal_keeps_the_catalog_row() {
    let mut w = world();
    w.songs.push(song("abc", "Tune", None));
    let outcome = w.run(&handler(), delete_song("Tune"));
    assert_eq!(
        outcome.result,
        Err(Error::ArtifactDeleteFailed("No such file or directory".to_string()))
    );
    assert_eq!(w.songs, vec![song("abc", "Tune", None)]);
    assert_eq!(w.asked.len(), 2);
}

#[test]
fn a_refused_song_delete_is_a_catalog_delete_failure() {
    let mut w = world();
    let h = handler();
    assert_eq!(w.run(&h, download("abc", "Tune", None)).result, Ok(()));
    w.failing.push(Request::Catalog(CatalogRequest::DeleteSong("abc".to_string())));
    let outcome = w.run(&h, delete_song("Tune"));
    assert_eq!(
        outcome.result,
        Err(Error::CatalogDeleteFailed { subject: Subject::Song, name: "Tune".to_string() })
    );
    assert_eq!(outcome.result.unwrap_err().message(), "Couldn't delete song Tune from database");
    assert!(w.files.is_empty());
    assert_eq!(w.songs.len(), 1);
}

#[test]
fn creating_a_playlist_stops_at_the_first_unknown_song() {
    let mut w = world();
    w.songs.push(song("a1", "A", None));
    w.songs.push(song("b1", "B", None));
    let outcome = w.run(&handler(), create("mix", "A,Ghost,B"));
    assert_eq!(outcome.result, not_found(Subject::Song, "Ghost"));
    assert_eq!(lines(&outcome), vec!["Song A added to playlist"]);
    assert_eq!(w.playlists, vec!["mix"]);
    assert_eq!(w.members, vec![pair("mix", "a1")]);
}

#[test]
fn creating_a_playlist_looks_names_up_without_white_space_around_them() {
    let mut w = world();
    w.songs.push(song("a1", "A", None));
    w.songs.push(song("b1", "B", None));
    let outcome = w.run(&handler(), create("mix", " A , B"));
    assert_eq!(outcome.result, Ok(()));
    assert_eq!(lines(&outcome), vec!["Song  A  added to playlist", "Song  B added to playlist"]);
    assert_eq!(w.members, vec![pair("mix", "a1"), pair("mix", "b1")]);
    assert_eq!(w.asked[1], Request::Catalog(CatalogRequest::SongByName("A".to_string())));
}

#[test]
fn creating_a_playlist_twice_is_a_duplicate_identifier() {
    let mut w = world();
    w.songs.push(song("a1", "A", None));
    let h = handler();
    assert_eq!(w.run(&h, create("mix", "A")).result, Ok(()));
    let again = w.run(&h, create("mix", "A"));
    assert_eq!(again.result, Err(Error::DuplicateIdentifier { subject: Subject::Playlist }));
    assert_eq!(again.result.unwrap_err().message(), "Couldn't create playlist, skipping...");
    assert_eq!(w.members.len(), 1);
}

#[test]
fn a_song_named_twice_goes_into_a_new_playlist_once() {
    let mut w = world();
    w.songs.push(song("a1", "A", None));
    let outcome = w.run(&handler(), create("mix", "A,A"));
    assert_eq!(outcome.result, Ok(()));
    assert_eq!(lines(&outcome), vec!["Song A added to playlist", "Song A added to playlist"]);
    assert_eq!(w.members, vec![pair("mix", "a1")]);
}

#[test]
fn a_membership_is_there_at_most_once() {
    let mut w = world();
    w.songs.push(song("a1", "A", None));
    w.playlists.push("mix".to_string());
    let h = handler();
    let first = w.run(&h, insert("mix", "A"));
    assert_eq!(first.result, Ok(()));
    assert_eq!(lines(&first), vec!["Song A successfully added to mix"]);
    let second = w.run(&h, insert("mix", "A"));
    assert_eq!(second.result, Err(Error::DuplicateMembership));
    assert_eq!(
        second.result.unwrap_err().message(),
        "Couldn't insert song into playlist, song is already present"
    );
    assert_eq!(w.members, vec![pair("mix", "a1")]);
    assert_eq!(w.run(&h, remove("mix", "A")).result, Ok(()));
    assert!(w.members.is_empty());
    assert_eq!(w.run(&h, insert("mix", "A")).result, Ok(()));
    assert_eq!(w.members, vec![pair("mix", "a1")]);
}

#[test]
fn inserting_names_whichever_is_missing() {
    let mut w = world();
    w.songs.push(song("a1", "A", None));
    let h = handler();
    let outcome = w.run(&h, insert("mix", "A"));
    assert_eq!(outcome.result, not_found(Subject::Playlist, "mix"));
    assert_eq!(outcome.result.unwrap_err().message(), "Playlist mix doesn't exist");
    assert_eq!(w.asked.len(), 1);
    w.playlists.push("mix".to_string());
    assert_eq!(w.run(&h, insert("mix", "Ghost")).result, not_found(Subject::Song, "Ghost"));
    assert!(w.members.is_empty());
}

#[test]
fn removing_twice_is_not_found_the_second_time() {
    let mut w = world();
    w.songs.push(song("a1", "A", None));
    w.playlists.push("mix".to_string());
    w.members.push(pair("mix", "a1"));
    let h = handler();
    let first = w.run(&h, remove("mix", "A"));
    assert_eq!(first.result, Ok(()));
    assert_eq!(first.lines.len(), 0);
    let second = w.run(&h, remove("mix", "A"));
    assert_eq!(second.result, not_found(Subject::Membership, "A"));
    assert_eq!(second.result.unwrap_err().message(), "Couldn't remove song from playlist");
}

#[test]
fn removing_looks_the_song_up_before_the_playlist() {
    let mut w = world();
    let h = handler();
    assert_eq!(w.run(&h, remove("mix", "A")).result, not_found(Subject::Song, "A"));
    w.songs.push(song("a1", "A", None));
    assert_eq!(w.run(&h, remove("mix", "A")).result, not_found(Subject::Playlist, "mix"));
}

#[test]
fn a_refused_membership_delete_is_a_catalog_delete_failure() {
    let mut w = world();
    w.songs.push(song("a1", "A", None));
    w.playlists.push("mix".to_string());
    w.members.push(pair("mix", "a1"));
    w.failing.push(Request::Catalog(CatalogRequest::DeletePlaylistSong(
        yap::models::PlaylistSong { playlist_id: "mix".to_string(), song_id: "a1".to_string() },
    )));
    let outcome = w.run(&handler(), remove("mix", "A"));
    assert_eq!(
        outcome.result,
        Err(Error::CatalogDeleteFailed { subject: Subject::Membership, name: "A".to_string() })
    );
    assert_eq!(w.members.len(), 1);
}

#[test]
fn a_deleted_playlist_takes_its_memberships_along() {
    let mut w = world();
    w.songs.push(song("a1", "A", None));
    let h = handler();
    assert_eq!(w.run(&h, create("mix", "A")).result, Ok(()));
    assert_eq!(w.run(&h, create("other", "A")).result, Ok(()));
    let outcome = w.run(&h, delete_playlist("mix"));
    assert_eq!(outcome.result, Ok(()));
    assert_eq!(lines(&outcome), vec!["Playlist mix deleted successfully"]);
    assert_eq!(w.members, vec![pair("other", "a1")]);
    assert_eq!(w.run(&h, insert("mix", "A")).result, not_found(Subject::Playlist, "mix"));
    assert_eq!(w.members, vec![pair("other", "a1")]);
}

#[test]
fn deleting_an_unknown_playlist_is_not_found() {
    let mut w = world();
    let h = handler();
    assert_eq!(w.run(&h, delete_playlist("mix")).result, not_found(Subject::Playlist, "mix"));
    w.playlists.push("other".to_string());
    assert_eq!(w.run(&h, delete_playlist("mix")).result, not_found(Subject::Playlist, "mix"));
    w.failing.push(Request::Catalog(CatalogRequest::Playlists));
    assert_eq!(w.run(&h, delete_playlist("other")).result, not_found(Subject::Playlist, "other"));
    assert_eq!(w.playlists, vec!["other"]);
}

#[test]
fn a_refused_playlist_delete_is_a_catalog_delete_failure() {
    let mut w = world();
    w.playlists.push("mix".to_string());
    w.failing.push(Request::Catalog(CatalogRequest::DeletePlaylist("mix".to_string())));
    let outcome = w.run(&handler(), delete_playlist("mix"));
    assert_eq!(
        outcome.result,
        Err(Error::CatalogDeleteFailed { subject: Subject::Playlist, name: "mix".to_string() })
    );
    assert_eq!(outcome.result.unwrap_err().message(), "Couldn't delete playlist mix");
}

#[test]
fn songs_and_playlists_are_listed() {
    let mut w = world();
    w.songs.push(song("a1", "A", Some("Band")));
    w.songs.push(song("b1", "B", None));
    w.playlists.push("mix".to_string());
    w.playlists.push("other".to_string());
    let h = handler();
    let songs = w.run(&h, Command::Song(SongOptions::List {}));
    assert_eq!(songs.result, Ok(()));
    assert_eq!(lines(&songs), vec!["A - Band", "B - Unknown"]);
    let playlists = w.run(&h, Command::Playlist(PlaylistOptions::List {}));
    assert_eq!(lines(&playlists), vec!["mix", "other"]);
    w.failing.push(Request::Catalog(CatalogRequest::Songs));
    let none = w.run(&h, Command::Song(SongOptions::List {}));
    assert_eq!(none.result, Ok(()));
    assert_eq!(none.lines.len(), 0);
}

#[test]
fn playing_a_song_replaces_the_queue() {
    let mut w = world();
    w.songs.push(song("a1", "A", None));
    w.queue.push(Track { file: "old.opus".to_string(), place: Some(90) });
    w.state = PlayState::Play;
    let outcome =
        w.run(&handler(), Command::Play(PlayOptions::Song(PlaySongOptions { name: "A".to_string() })));
    assert_eq!(outcome.result, Ok(()));
    assert_eq!(w.queue, vec![Track { file: "a1.opus".to_string(), place: Some(1) }]);
    assert_eq!(w.state, PlayState::Play);
    assert_eq!(
        w.asked,
        vec![
            connect(),
            daemon(DaemonRequest::Status),
            daemon(DaemonRequest::Pause(true)),
            connect(),
            daemon(DaemonRequest::Clear),
            Request::Catalog(CatalogRequest::SongByName("A".to_string())),
            connect(),
            daemon(DaemonRequest::Push { file: "a1.opus".to_string() }),
            connect(),
            daemon(DaemonRequest::Play),
        ]
    );
}

#[test]
fn playing_an_unknown_song_has_emptied_the_queue_already() {
    let mut w = world();
    w.queue.push(Track { file: "old.opus".to_string(), place: Some(90) });
    let outcome = w.run(
        &handler(),
        Command::Play(PlayOptions::Song(PlaySongOptions { name: "Ghost".to_string() })),
    );
    assert_eq!(outcome.result, not_found(Subject::Song, "Ghost"));
    assert!(w.queue.is_empty());
}

#[test]
fn playing_a_playlist_queues_its_songs_in_the_catalogs_order() {
    let mut w = world();
    w.songs.push(song("a1", "A", None));
    w.songs.push(song("b1", "B", None));
    let h = handler();
    assert_eq!(w.run(&h, create("mix", "B,A")).result, Ok(()));
    let outcome = w.run(
        &h,
        Command::Play(PlayOptions::Playlist(PlayPlaylistOptions { name: "mix".to_string() })),
    );
    assert_eq!(outcome.result, Ok(()));
    let files: Vec<&str> = w.queue.iter().map(|t| t.file.as_str()).collect();
    assert_eq!(files, vec!["b1.opus", "a1.opus"]);
    assert_eq!(w.state, PlayState::Play);
}

#[test]
fn playing_a_playlist_fails_where_it_is_unknown_or_empty() {
    let mut w = world();
    let h = handler();
    let play = || Command::Play(PlayOptions::Playlist(PlayPlaylistOptions { name: "mix".to_string() }));
    assert_eq!(w.run(&h, play()).result, not_found(Subject::Playlist, "mix"));
    w.playlists.push("mix".to_string());
    let empty = w.run(&h, play());
    assert_eq!(empty.result, Err(Error::EmptyPlaylist));
    assert_eq!(empty.result.unwrap_err().message(), "Playlist doesn't contain any songs");
    w.failing.push(Request::Catalog(CatalogRequest::SongsOfPlaylist("mix".to_string())));
    assert_eq!(w.run(&h, play()).result, Err(Error::EmptyPlaylist));
}

#[test]
fn a_daemon_failure_in_mid_sequence_leaves_what_was_done() {
    let mut w = world();
    w.songs.push(song("a1", "A", None));
    w.songs.push(song("b1", "B", None));
    let h = handler();
    assert_eq!(w.run(&h, create("mix", "A,B")).result, Ok(()));
    w.failing.push(daemon(DaemonRequest::Push { file: "b1.opus".to_string() }));
    let outcome = w.run(
        &h,
        Command::Play(PlayOptions::Playlist(PlayPlaylistOptions { name: "mix".to_string() })),
    );
    assert_eq!(outcome.result, Err(Error::DaemonOperationFailed("refused".to_string())));
    assert_eq!(w.queue.len(), 1);
    assert_eq!(w.state, PlayState::Stop);
}

#[test]
fn pause_toggles_and_reports() {
    let mut w = world();
    w.queue.push(Track { file: "a1.opus".to_string(), place: Some(1) });
    w.state = PlayState::Play;
    let h = handler();
    let first = w.run(&h, Command::Mpd(MpdOptions::Pause {}));
    assert_eq!(first.result, Ok(()));
    assert_eq!(lines(&first), vec!["Pause: true"]);
    assert_eq!(w.state, PlayState::Pause);
    let second = w.run(&h, Command::Mpd(MpdOptions::Pause {}));
    assert_eq!(lines(&second), vec!["Pause: false"]);
    assert_eq!(w.state, PlayState::Play);
    assert_eq!(
        w.asked[..4],
        [
            connect(),
            daemon(DaemonRequest::Status),
            daemon(DaemonRequest::Pause(true)),
            daemon(DaemonRequest::Status)
        ]
    );
    assert_eq!(w.asked[6], daemon(DaemonRequest::Pause(false)));
}

#[test]
fn pause_leaves_a_stopped_daemon_stopped() {
    let mut w = world();
    let outcome = w.run(&handler(), Command::Mpd(MpdOptions::Pause {}));
    assert_eq!(lines(&outcome), vec!["Pause: false"]);
    assert_eq!(w.state, PlayState::Stop);
    assert_eq!(w.asked[2], daemon(DaemonRequest::Pause(false)));
}

#[test]
fn shuffle_and_repeat_switch_over() {
    let mut w = world();
    let h = handler();
    let on = w.run(&h, Command::Mpd(MpdOptions::Shuffle {}));
    assert_eq!(lines(&on), vec!["Shuffle: true"]);
    assert!(w.random);
    let off = w.run(&h, Command::Mpd(MpdOptions::Shuffle {}));
    assert_eq!(lines(&off), vec!["Shuffle: false"]);
    assert!(!w.random);
    let repeat = w.run(&h, Command::Mpd(MpdOptions::Repeat {}));
    assert_eq!(lines(&repeat), vec!["Repeat: true"]);
    assert!(w.repeat);
    let back = w.run(&h, Command::Mpd(MpdOptions::Repeat {}));
    assert_eq!(lines(&back), vec!["Repeat: false"]);
    assert!(!w.repeat);
}

#[test]
fn transport_commands_pass_through() {
    let mut w = world();
    let h = handler();
    assert_eq!(lines(&w.run(&h, Command::Mpd(MpdOptions::Clear {}))), vec!["Queue cleared"]);
    assert_eq!(w.asked, vec![connect(), daemon(DaemonRequest::Clear)]);
    w.asked.clear();
    assert_eq!(w.run(&h, Command::Mpd(MpdOptions::Play {})).lines.len(), 0);
    assert_eq!(w.asked, vec![connect(), daemon(DaemonRequest::Play)]);
    w.asked.clear();
    let next = w.run(&h, Command::Mpd(MpdOptions::Next {}));
    assert_eq!(lines(&next), vec!["Skipping to next song in queue"]);
    assert_eq!(
        w.asked,
        vec![
            connect(),
            daemon(DaemonRequest::Next),
            connect(),
            daemon(DaemonRequest::Status),
            daemon(DaemonRequest::Pause(true)),
            connect(),
            daemon(DaemonRequest::Status),
            daemon(DaemonRequest::Pause(false)),
        ]
    );
    w.asked.clear();
    let previous = w.run(&h, Command::Mpd(MpdOptions::Previous {}));
    assert_eq!(lines(&previous), vec!["Going back to previous song in queue"]);
    assert_eq!(w.asked[1], daemon(DaemonRequest::Previous));
    w.asked.clear();
    let shuffled = w.run(&h, Command::Mpd(MpdOptions::QueueShuffle {}));
    assert_eq!(lines(&shuffled), vec!["Queue shuffled"]);
    assert_eq!(w.asked, vec![connect(), daemon(DaemonRequest::Shuffle)]);
}

#[test]
fn the_daemon_out_of_reach_is_unavailable() {
    let mut w = world();
    w.failing.push(connect());
    let outcome = w.run(&handler(), Command::Mpd(MpdOptions::Play {}));
    assert_eq!(outcome.result, Err(Error::DaemonUnavailable("refused".to_string())));
    assert_eq!(outcome.result.unwrap_err().message(), "refused");
    assert_eq!(w.asked.len(), 1);
}

#[test]
fn a_failed_daemon_command_is_an_operation_failure() {
    let mut w = world();
    w.failing.push(daemon(DaemonRequest::Clear));
    let outcome = w.run(&handler(), Command::Mpd(MpdOptions::Clear {}));
    assert_eq!(outcome.result, Err(Error::DaemonOperationFailed("refused".to_string())));
    assert_eq!(outcome.lines.len(), 0);
}

#[test]
fn an_answer_of_the_wrong_kind_is_a_failure() {
    let h = handler();
    let app = App { command: Command::Mpd(MpdOptions::Play {}) };
    assert_eq!(
        advance(&h, &app, vec![Reply::Duplicate]),
        Step::Done(Outcome {
            lines: vec![],
            result: Err(Error::DaemonUnavailable("The answer does not fit the request".to_string()))
        })
    );
    assert_eq!(
        advance(&h, &app, vec![Reply::Done, Reply::Missing]),
        Step::Done(Outcome {
            lines: vec![],
            result: Err(Error::DaemonOperationFailed(
                "The answer does not fit the request".to_string()
            ))
        })
    );
}

#[test]
fn the_current_song_is_reported_with_its_clock() {
    let mut w = world();
    w.songs.push(song("a1", "A", Some("Band")));
    w.current = Some(Track { file: "a1.opus".to_string(), place: Some(1) });
    w.time = Some(Progress { elapsed: 83, total: 245, percent: 33 });
    let outcome = w.run(&handler(), Command::Mpd(MpdOptions::Current {}));
    assert_eq!(outcome.result, Ok(()));
    assert_eq!(lines(&outcome), vec!["Current song: A\nArtist: Band\n1:23/4:5 (33%)"]);
}

#[test]
fn a_current_song_unknown_to_the_catalog_is_no_song_info() {
    let mut w = world();
    w.current = Some(Track { file: "gone.opus".to_string(), place: Some(1) });
    w.time = Some(Progress { elapsed: 1, total: 2, percent: 50 });
    let outcome = w.run(&handler(), Command::Mpd(MpdOptions::Current {}));
    assert_eq!(outcome.result, Err(Error::NoSongInfo));
    assert_eq!(outcome.result.unwrap_err().message(), "No song currently playing");
    assert_eq!(
        w.asked.last(),
        Some(&Request::Catalog(CatalogRequest::SongById("gone".to_string())))
    );
}

#[test]
fn nothing_playing_is_no_song_info() {
    let mut w = world();
    let h = handler();
    assert_eq!(w.run(&h, Command::Mpd(MpdOptions::Current {})).result, Err(Error::NoSongInfo));
    w.songs.push(song("a1", "A", None));
    w.current = Some(Track { file: "a1.opus".to_string(), place: Some(1) });
    assert_eq!(w.run(&h, Command::Mpd(MpdOptions::Current {})).result, Err(Error::NoSongInfo));
}

#[test]
fn the_queue_listing_passes_over_unknown_entries() {
    let mut w = world();
    w.songs.push(song("a1", "A", Some("Band")));
    w.songs.push(song("b1", "B", None));
    w.queue.push(Track { file: "a1.opus".to_string(), place: Some(1) });
    w.queue.push(Track { file: "gone.opus".to_string(), place: Some(2) });
    w.queue.push(Track { file: "b1.opus".to_string(), place: Some(3) });
    let outcome = w.run(&handler(), Command::Mpd(MpdOptions::Queue {}));
    assert_eq!(outcome.result, Ok(()));
    assert_eq!(lines(&outcome), vec!["A - Band", "B - Unknown"]);
    assert_eq!(w.asked.len(), 5);
}

#[test]
fn the_status_is_reported_in_one_line() {
    let mut w = world();
    w.random = true;
    let h = handler();
    let stopped = w.run(&h, Command::Mpd(MpdOptions::Status {}));
    assert_eq!(lines(&stopped), vec!["Pause: true\tRandom: true\tRepeat: false"]);
    w.state = PlayState::Play;
    w.repeat = true;
    let playing = w.run(&h, Command::Mpd(MpdOptions::Status {}));
    assert_eq!(lines(&playing), vec!["Pause: false\tRandom: true\tRepeat: true"]);
}

#[test]
fn queue_add_and_remove_resolve_the_name_first() {
    let mut w = world();
    w.songs.push(song("a1", "A", None));
    let h = handler();
    let add = |name: &str| Command::Mpd(MpdOptions::QueueAdd(QueueAddOptions { song_name: name.to_string() }));
    let drop = |name: &str| {
        Command::Mpd(MpdOptions::QueueRemove(QueueRemoveOptions { song_name: name.to_string() }))
    };
    assert_eq!(w.run(&h, add("Ghost")).result, not_found(Subject::Song, "Ghost"));
    assert_eq!(w.run(&h, drop("Ghost")).result, not_found(Subject::Song, "Ghost"));
    let added = w.run(&h, add("A"));
    assert_eq!(lines(&added), vec!["Song A added to queue"]);
    assert_eq!(lines(&w.run(&h, add("A"))), vec!["Song A added to queue"]);
    assert_eq!(w.queue.len(), 2);
    let removed = w.run(&h, drop("A"));
    assert_eq!(removed.result, Ok(()));
    assert_eq!(lines(&removed), vec!["Song A removed from queue"]);
    assert_eq!(w.queue, vec![Track { file: "a1.opus".to_string(), place: Some(2) }]);
    assert_eq!(w.asked.last(), Some(&daemon(DaemonRequest::Delete { place: 1 })));
}

#[test]
fn removing_from_the_queue_what_is_not_in_it_does_nothing() {
    let mut w = world();
    w.songs.push(song("a1", "A", None));
    w.queue.push(Track { file: "b1.opus".to_string(), place: Some(4) });
    let outcome = w.run(
        &handler(),
        Command::Mpd(MpdOptions::QueueRemove(QueueRemoveOptions { song_name: "A".to_string() })),
    );
    assert_eq!(outcome.result, Ok(()));
    assert_eq!(lines(&outcome), vec!["Song A removed from queue"]);
    assert_eq!(w.queue.len(), 1);
    assert_eq!(w.asked.last(), Some(&daemon(DaemonRequest::Queue)));
}

#[test]
fn seeking_goes_to_the_share_of_the_track() {
    let mut w = world();
    w.queue.push(Track { file: "a1.opus".to_string(), place: Some(7) });
    w.current = Some(w.queue[0].clone());
    w.state = PlayState::Play;
    w.time = Some(Progress { elapsed: 10, total: 245, percent: 4 });
    let outcome = w.run(&handler(), Command::Mpd(MpdOptions::Seek(SeekOptions { percentage: 50 })));
    assert_eq!(outcome.result, Ok(()));
    assert_eq!(lines(&outcome), vec!["Seeked to 50%"]);
    assert_eq!(w.asked[4], daemon(DaemonRequest::Seek { place: 7, seconds: 122 }));
    assert_eq!(w.asked.len(), 11);
    assert_eq!(w.state, PlayState::Play);
}

#[test]
fn seeking_with_nothing_playing_only_pauses_and_resumes() {
    let mut w = world();
    let outcome = w.run(&handler(), Command::Mpd(MpdOptions::Seek(SeekOptions { percentage: 50 })));
    assert_eq!(outcome.result, Ok(()));
    assert_eq!(outcome.lines.len(), 0);
    assert_eq!(w.asked.len(), 8);
}

#[test]
fn seeking_needs_the_current_file_in_the_queue_exactly_once() {
    let mut w = world();
    w.current = Some(Track { file: "a1.opus".to_string(), place: Some(7) });
    w.time = Some(Progress { elapsed: 10, total: 245, percent: 4 });
    let h = handler();
    let seek = || Command::Mpd(MpdOptions::Seek(SeekOptions { percentage: 50 }));
    assert_eq!(w.run(&h, seek()).result, Err(Error::NoSongInfo));
    w.queue.push(Track { file: "a1.opus".to_string(), place: Some(7) });
    w.queue.push(Track { file: "a1.opus".to_string(), place: Some(8) });
    assert_eq!(w.run(&h, seek()).result, Err(Error::NoSongInfo));
    w.queue.pop();
    w.time = None;
    assert_eq!(w.run(&h, seek()).result, Err(Error::NoSongInfo));
    w.time = Some(Progress { elapsed: 10, total: 245, percent: 4 });
    w.queue[0].place = None;
    assert_eq!(w.run(&h, seek()).result, Err(Error::NoSongInfo));
}
