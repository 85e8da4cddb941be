use yap::database::{Database, Insertion, Removal};
use yap::error::Error;
use yap::models::{NewPlaylist, NewPlaylistSong, NewSong, Playlist, PlaylistSong, Song};
use yap::mpd_client::{clock_of, media_file_of, seek_target_of, Intent, MpdClient, Status};
use yap::protocol::{
    CatalogRequest, DaemonRequest, DaemonStatus, Halt, MediaRequest, Outcome, PlayState, Progress,
    Reply, Request, Session, Step, Track,
};
use yap::youtube_api::YoutubeAPI;

fn database() -> Database {
    Database::new("sqlite://catalog.db".to_string(), 10)
}

fn asks(request: CatalogRequest) -> Halt {
    Halt::Ask(Request::Catalog(request))
}

fn tune() -> Song {
    Song { id: "abc".to_string(), name: "Tune".to_string(), artist: None }
}

fn status(state: PlayState, random: bool, repeat: bool) -> Reply {
    Reply::Status(DaemonStatus { state, random, repeat, time: None })
}

#[test]
fn a_session_hands_out_answers_oldest_first() {
    let mut session = Session::new(vec![Reply::Done, Reply::Duplicate]);
    let request = Request::Daemon(DaemonRequest::Play);
    assert_eq!(session.ask(request.clone()), Ok(Reply::Done));
    assert_eq!(session.ask(request.clone()), Ok(Reply::Duplicate));
    assert_eq!(session.ask(request.clone()), Err(Halt::Ask(request)));
    assert!(session.answers.is_empty());
}

#[test]
fn a_session_concludes_with_its_lines() {
    let mut session = Session::new(vec![]);
    session.say("one".to_string());
    session.say("two".to_string());
    let failed = session.clone().conclude(Err(Halt::Fail(Error::EmptyPlaylist)));
    assert_eq!(
        failed,
        Step::Done(Outcome {
            lines: vec!["one".to_string(), "two".to_string()],
            result: Err(Error::EmptyPlaylist)
        })
    );
    let asked = session.clone().conclude(Err(Halt::Ask(Request::Daemon(DaemonRequest::Play))));
    assert_eq!(asked, Step::Call(Request::Daemon(DaemonRequest::Play)));
    let done = session.conclude(Ok(()));
    assert_eq!(
        done,
        Step::Done(Outcome { lines: vec!["one".to_string(), "two".to_string()], result: Ok(()) })
    );
}

#[test]
fn the_database_describes_the_store_to_open() {
    let db = database();
    assert_eq!(db.url, "sqlite://catalog.db");
    assert_eq!(db.max_size, 10);
}

#[test]
fn catalog_queries_name_their_request() {
    let db = database();
    let mut s = Session::new(vec![]);
    assert_eq!(db.get_songs(&mut s), Err(asks(CatalogRequest::Songs)));
    assert_eq!(
        db.get_song_by_name("Tune", &mut s),
        Err(asks(CatalogRequest::SongByName("Tune".to_string())))
    );
    assert_eq!(
        db.get_song_by_id("abc", &mut s),
        Err(asks(CatalogRequest::SongById("abc".to_string())))
    );
    assert_eq!(db.delete_song("abc", &mut s), Err(asks(CatalogRequest::DeleteSong("abc".to_string()))));
    assert_eq!(db.get_playlists(&mut s), Err(asks(CatalogRequest::Playlists)));
    assert_eq!(
        db.delete_playlist("mix", &mut s),
        Err(asks(CatalogRequest::DeletePlaylist("mix".to_string())))
    );
    assert_eq!(
        db.get_songs_of_playlist("mix", &mut s),
        Err(asks(CatalogRequest::SongsOfPlaylist("mix".to_string())))
    );
    assert_eq!(
        db.get_playlist_by_name("mix", &mut s),
        Err(asks(CatalogRequest::PlaylistByName("mix".to_string())))
    );
    let new_song = NewSong { id: "abc".to_string(), name: "Tune".to_string(), artist: None };
    assert_eq!(
        db.insert_song(new_song.clone(), &mut s),
        Err(asks(CatalogRequest::InsertSong(new_song)))
    );
    let new_playlist = NewPlaylist { name: "mix".to_string() };
    assert_eq!(
        db.insert_playlist(new_playlist.clone(), &mut s),
        Err(asks(CatalogRequest::InsertPlaylist(new_playlist)))
    );
    let new_member =
        NewPlaylistSong { playlist_name: "mix".to_string(), song_id: "abc".to_string() };
    assert_eq!(
        db.add_songs_to_playlist(new_member.clone(), &mut s),
        Err(asks(CatalogRequest::InsertPlaylistSong(new_member)))
    );
    let member = PlaylistSong { playlist_id: "mix".to_string(), song_id: "abc".to_string() };
    assert_eq!(
        db.delete_playlist_song(member.clone(), &mut s),
        Err(asks(CatalogRequest::DeletePlaylistSong(member)))
    );
}

#[test]
fn catalog_answers_are_read_by_their_kind() {
    let db = database();
    let mut s = Session::new(vec![
        Reply::Songs(vec![tune()]),
        Reply::Failed("locked".to_string()),
        Reply::Song(Some(tune())),
        Reply::Song(None),
        Reply::Done,
        Reply::Playlists(vec![Playlist { name: "mix".to_string() }]),
        Reply::Playlist(Some(Playlist { name: "mix".to_string() })),
        Reply::PlaylistSongs(vec![]),
        Reply::Songs(vec![]),
    ]);
    assert_eq!(db.get_songs(&mut s), Ok(Some(vec![tune()])));
    assert_eq!(db.get_songs(&mut s), Ok(None));
    assert_eq!(db.get_song_by_name("Tune", &mut s), Ok(Some(tune())));
    assert_eq!(db.get_song_by_id("abc", &mut s), Ok(None));
    assert_eq!(db.get_song_by_id("abc", &mut s), Ok(None));
    assert_eq!(db.get_playlists(&mut s), Ok(Some(vec![Playlist { name: "mix".to_string() }])));
    assert_eq!(db.get_playlist_by_name("mix", &mut s), Ok(Some(Playlist { name: "mix".to_string() })));
    assert_eq!(db.get_songs_of_playlist("mix", &mut s), Ok(Some(vec![])));
    assert_eq!(db.get_playlists(&mut s), Ok(None));
}

#[test]
fn inserts_and_deletes_tell_three_endings_apart() {
    let db = database();
    let mut s = Session::new(vec![
        Reply::Done,
        Reply::Duplicate,
        Reply::Failed("locked".to_string()),
        Reply::Missing,
        Reply::Done,
        Reply::Missing,
        Reply::Failed("locked".to_string()),
        Reply::Duplicate,
    ]);
    let row = || NewPlaylist { name: "mix".to_string() };
    assert_eq!(db.insert_playlist(row(), &mut s), Ok(Insertion::Inserted));
    assert_eq!(db.insert_playlist(row(), &mut s), Ok(Insertion::Duplicate));
    assert_eq!(db.insert_playlist(row(), &mut s), Ok(Insertion::Refused));
    assert_eq!(db.insert_playlist(row(), &mut s), Ok(Insertion::Refused));
    assert_eq!(db.delete_playlist("mix", &mut s), Ok(Removal::Removed));
    assert_eq!(db.delete_playlist("mix", &mut s), Ok(Removal::Absent));
    assert_eq!(db.delete_song("abc", &mut s), Ok(Removal::Refused));
    assert_eq!(db.delete_song("abc", &mut s), Ok(Removal::Refused));
}

#[test]
fn the_audio_path_is_directory_identifier_extension() {
    let api = YoutubeAPI::new("/music/".to_string(), "/pictures".to_string(), false);
    assert_eq!(api.audio_path("abc"), "/music/abc.opus");
    assert_eq!(api.audio_path(""), "/music/.opus");
    assert_eq!(media_file_of("abc"), "abc.opus");
}

#[test]
fn deleting_audio_asks_for_the_file_at_the_audio_path() {
    let api = YoutubeAPI::new("/music/".to_string(), "/pictures".to_string(), false);
    let mut s = Session::new(vec![]);
    assert_eq!(
        api.delete_audio("abc", &mut s),
        Err(Halt::Ask(Request::Media(MediaRequest::RemoveFile {
            path: "/music/abc.opus".to_string()
        })))
    );
    let mut done = Session::new(vec![Reply::Done]);
    assert_eq!(api.delete_audio("abc", &mut done), Ok(()));
    let mut failed = Session::new(vec![Reply::Failed("busy".to_string())]);
    assert_eq!(
        api.delete_audio("abc", &mut failed),
        Err(Halt::Fail(Error::ArtifactDeleteFailed("busy".to_string())))
    );
    let mut odd = Session::new(vec![Reply::Missing]);
    assert_eq!(
        api.delete_audio("abc", &mut odd),
        Err(Halt::Fail(Error::ArtifactDeleteFailed(
            "The answer does not fit the request".to_string()
        )))
    );
}

#[test]
fn downloading_fetches_audio_then_picture() {
    let api = YoutubeAPI::new("/music/".to_string(), "/pictures".to_string(), true);
    let mut s = Session::new(vec![Reply::Done]);
    assert_eq!(
        api.download_audio("abc", "Tune", &mut s),
        Err(Halt::Ask(Request::Media(MediaRequest::FetchMiniature {
            url: "https://img.youtube.com/vi/abc/sddefault.jpg".to_string(),
            directory: "/pictures".to_string(),
            file_name: "Tune.jpg".to_string(),
        })))
    );
    let mut both = Session::new(vec![Reply::Done, Reply::Done]);
    assert_eq!(api.download_audio("abc", "Tune", &mut both), Ok(()));
    let mut failed = Session::new(vec![Reply::Done, Reply::Failed("offline".to_string())]);
    assert_eq!(
        api.download_audio("abc", "Tune", &mut failed),
        Err(Halt::Fail(Error::ArtifactFetchFailed("offline".to_string())))
    );
    let plain = YoutubeAPI::new("/music/".to_string(), "/pictures".to_string(), false);
    let mut one = Session::new(vec![Reply::Done]);
    assert_eq!(plain.download_audio("abc", "Tune", &mut one), Ok(()));
}

#[test]
fn the_clock_shows_minutes_seconds_and_share() {
    assert_eq!(clock_of(Progress { elapsed: 83, total: 245, percent: 33 }), "1:23/4:5 (33%)");
    assert_eq!(clock_of(Progress { elapsed: 0, total: 0, percent: 0 }), "0:0/0:0 (0%)");
    assert_eq!(
        clock_of(Progress { elapsed: 3600, total: 7261, percent: 2147483647 }),
        "60:0/121:1 (2147483647%)"
    );
    assert_eq!(clock_of(Progress { elapsed: 59, total: 60, percent: -1 }), "0:59/1:0 (-1%)");
}

#[test]
fn the_seek_target_is_the_share_of_the_total() {
    assert_eq!(seek_target_of(245, 50), 122);
    assert_eq!(seek_target_of(245, 0), 0);
    assert_eq!(seek_target_of(245, 100), 245);
    assert_eq!(seek_target_of(200, 255), 510);
    assert_eq!(seek_target_of(0, 99), 0);
    assert_eq!(seek_target_of(u64::MAX, 100), u64::MAX);
    assert_eq!(seek_target_of(u64::MAX, 200), u64::MAX);
    assert_eq!(seek_target_of(u64::MAX, 50), u64::MAX / 2);
}

#[test]
fn a_pause_with_a_state_given_sets_it() {
    let mpd = MpdClient::new();
    let mut s = Session::new(vec![Reply::Done, status(PlayState::Stop, false, false)]);
    assert_eq!(
        mpd.pause(Intent::ForceOn, &mut s),
        Err(Halt::Ask(Request::Daemon(DaemonRequest::Pause(true))))
    );
    let mut done =
        Session::new(vec![Reply::Done, status(PlayState::Play, false, false), Reply::Done]);
    assert_eq!(mpd.pause(Intent::ForceOff, &mut done), Ok(()));
    assert!(done.lines.is_empty());
}

#[test]
fn a_pause_without_a_state_reads_sets_and_reads_again() {
    let mpd = MpdClient::new();
    let mut s = Session::new(vec![
        Reply::Done,
        status(PlayState::Play, false, false),
        Reply::Done,
        status(PlayState::Pause, false, false),
    ]);
    assert_eq!(mpd.pause(Intent::Toggle, &mut s), Ok(()));
    assert_eq!(s.lines, vec!["Pause: true"]);
    let mut paused = Session::new(vec![Reply::Done, status(PlayState::Pause, false, false)]);
    assert_eq!(
        mpd.pause(Intent::Toggle, &mut paused),
        Err(Halt::Ask(Request::Daemon(DaemonRequest::Pause(false))))
    );
}

#[test]
fn shuffle_takes_a_state_or_the_opposite() {
    let mpd = MpdClient::new();
    let mut given = Session::new(vec![Reply::Done, status(PlayState::Stop, true, false)]);
    assert_eq!(
        mpd.shuffle(Intent::ForceOn, &mut given),
        Err(Halt::Ask(Request::Daemon(DaemonRequest::Random(true))))
    );
    let mut toggled = Session::new(vec![Reply::Done, status(PlayState::Stop, true, false)]);
    assert_eq!(
        mpd.shuffle(Intent::Toggle, &mut toggled),
        Err(Halt::Ask(Request::Daemon(DaemonRequest::Random(false))))
    );
    let mut off = Session::new(vec![Reply::Done, status(PlayState::Stop, false, false)]);
    assert_eq!(
        mpd.shuffle(Intent::ForceOff, &mut off),
        Err(Halt::Ask(Request::Daemon(DaemonRequest::Random(false))))
    );
    assert!(Intent::Toggle.apply(false));
    assert!(!Intent::Toggle.apply(true));
    assert!(Intent::ForceOn.apply(true));
    assert!(!Intent::ForceOff.apply(true));
}

#[test]
fn the_short_status_counts_stopped_as_paused() {
    let mpd = MpdClient::new();
    let mut stopped = Session::new(vec![Reply::Done, status(PlayState::Stop, true, false)]);
    assert_eq!(
        mpd.status(&mut stopped),
        Ok(Status { repeat: false, random: true, is_paused: true })
    );
    let mut playing = Session::new(vec![Reply::Done, status(PlayState::Play, false, true)]);
    assert_eq!(
        mpd.status(&mut playing),
        Ok(Status { repeat: true, random: false, is_paused: false })
    );
    let mut paused = Session::new(vec![Reply::Done, status(PlayState::Pause, false, false)]);
    assert_eq!(
        mpd.status(&mut paused),
        Ok(Status { repeat: false, random: false, is_paused: true })
    );
}

#[test]
fn the_queue_is_read_as_identifiers() {
    let mpd = MpdClient::new();
    let mut s = Session::new(vec![
        Reply::Done,
        Reply::Queue(vec![
            Track { file: "abc.opus".to_string(), place: Some(1) },
            Track { file: "noextension".to_string(), place: Some(2) },
            Track { file: "a.b.c".to_string(), place: None },
        ]),
    ]);
    assert_eq!(
        mpd.queue(&mut s),
        Ok(vec!["abc".to_string(), "noextension".to_string(), "a".to_string()])
    );
}

#[test]
fn the_current_file_and_time_come_from_the_daemon() {
    let mpd = MpdClient::new();
    let mut s = Session::new(vec![
        Reply::Done,
        Reply::CurrentSong(Some(Track { file: "abc.opus".to_string(), place: Some(1) })),
        Reply::Done,
        Reply::Status(DaemonStatus {
            state: PlayState::Play,
            random: false,
            repeat: false,
            time: Some(Progress { elapsed: 61, total: 122, percent: 50 }),
        }),
    ]);
    assert_eq!(mpd.current(&mut s), Ok("abc.opus".to_string()));
    assert_eq!(mpd.current_time(&mut s), Ok("1:1/2:2 (50%)".to_string()));
    let mut none = Session::new(vec![Reply::Done, Reply::CurrentSong(None)]);
    assert_eq!(mpd.current(&mut none), Err(Halt::Fail(Error::NoSongInfo)));
    let mut timeless = Session::new(vec![Reply::Done, status(PlayState::Stop, false, false)]);
    assert_eq!(mpd.current_time(&mut timeless), Err(Halt::Fail(Error::NoSongInfo)));
}

#[test]
fn every_daemon_operation_connects_first() {
    let mpd = MpdClient::new();
    let connect = Halt::Ask(Request::Daemon(DaemonRequest::Connect {
        address: "127.0.0.1:6600".to_string(),
    }));
    assert_eq!(mpd.update_db(&mut Session::new(vec![])), Err(connect.clone()));
    assert_eq!(mpd.add_to_queue("abc", &mut Session::new(vec![])), Err(connect.clone()));
    assert_eq!(mpd.play(&mut Session::new(vec![])), Err(connect.clone()));
    assert_eq!(mpd.pause(Intent::Toggle, &mut Session::new(vec![])), Err(connect.clone()));
    assert_eq!(mpd.shuffle(Intent::Toggle, &mut Session::new(vec![])), Err(connect.clone()));
    assert_eq!(mpd.clear_queue(&mut Session::new(vec![])), Err(connect.clone()));
    assert_eq!(mpd.next(&mut Session::new(vec![])), Err(connect.clone()));
    assert_eq!(mpd.previous(&mut Session::new(vec![])), Err(connect.clone()));
    assert_eq!(mpd.current(&mut Session::new(vec![])), Err(connect.clone()));
    assert_eq!(mpd.current_time(&mut Session::new(vec![])), Err(connect.clone()));
    assert_eq!(mpd.repeat(&mut Session::new(vec![])), Err(connect.clone()));
    assert_eq!(mpd.seek(10, &mut Session::new(vec![])), Err(connect.clone()));
    assert_eq!(mpd.status(&mut Session::new(vec![])), Err(connect.clone()));
    assert_eq!(mpd.queue(&mut Session::new(vec![])), Err(connect.clone()));
    assert_eq!(mpd.remove_from_queue("abc", &mut Session::new(vec![])), Err(connect.clone()));
    assert_eq!(mpd.shuffle_queue(&mut Session::new(vec![])), Err(connect));
}

#[test]
fn single_commands_follow_the_connection() {
    let mpd = MpdClient::new();
    let ask = |request: DaemonRequest| Err(Halt::Ask(Request::Daemon(request)));
    let connected = || Session::new(vec![Reply::Done]);
    assert_eq!(mpd.update_db(&mut connected()), ask(DaemonRequest::Update));
    assert_eq!(
        mpd.add_to_queue("abc", &mut connected()),
        ask(DaemonRequest::Push { file: "abc.opus".to_string() })
    );
    assert_eq!(mpd.play(&mut connected()), ask(DaemonRequest::Play));
    assert_eq!(mpd.clear_queue(&mut connected()), ask(DaemonRequest::Clear));
    assert_eq!(mpd.next(&mut connected()), ask(DaemonRequest::Next));
    assert_eq!(mpd.previous(&mut connected()), ask(DaemonRequest::Previous));
    assert_eq!(mpd.shuffle_queue(&mut connected()), ask(DaemonRequest::Shuffle));
    assert_eq!(mpd.repeat(&mut connected()), ask(DaemonRequest::Status));
    assert_eq!(mpd.update_db(&mut Session::new(vec![Reply::Done, Reply::Done])), Ok(()));
}
