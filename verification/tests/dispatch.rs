use yap::args::{
    DownloadOptions, MpdOptions, PlayOptions, PlaySongOptions, PlaylistCreateOptions,
    PlaylistOptions, SeekOptions, SongOptions,
};
use yap::config::Config;
use yap::database::Database;
use yap::dispatch::{
    assemble, parse_download_options, parse_mpd_options, parse_play_options,
    parse_playlist_options, parse_song_options,
};
use yap::handler::Handler;
use yap::models::{NewPlaylist, NewSong, Song};
use yap::mpd_client::MpdClient;
use yap::protocol::{CatalogRequest, DaemonRequest, Halt, Reply, Request, Session};
use yap::youtube_api::YoutubeAPI;

fn catalog(request: CatalogRequest) -> Result<(), Halt> {
    Err(Halt::Ask(Request::Catalog(request)))
}

fn connect() -> Result<(), Halt> {
    Err(Halt::Ask(Request::Daemon(DaemonRequest::Connect { address: "127.0.0.1:6600".to_string() })))
}

#[test]
fn the_handler_is_assembled_from_the_settings() {
    let mut config = Config::default();
    config.database.database_path = "/tmp/catalog.db".to_string();
    config.general.music_directory = "/music/".to_string();
    let handler = assemble(&config);
    assert_eq!(handler.database().url, "sqlite:///tmp/catalog.db");
    assert_eq!(handler.database().max_size, 10);
    let by_hand = Handler::new(
        Database::new("sqlite:///tmp/catalog.db".to_string(), 10),
        YoutubeAPI::new("/music/".to_string(), "~/Music/miniatures".to_string(), false),
        MpdClient::new(),
    );
    assert_eq!(handler, by_hand);
}

#[test]
fn a_download_begins_with_the_catalog_row() {
    let handler = assemble(&Config::default());
    let options = DownloadOptions {
        id: "abc".to_string(),
        name: "Tune".to_string(),
        artist: Some("Band".to_string()),
    };
    assert_eq!(
        parse_download_options(&handler, &options, &mut Session::new(vec![])),
        catalog(CatalogRequest::InsertSong(NewSong {
            id: "abc".to_string(),
            name: "Tune".to_string(),
            artist: Some("Band".to_string()),
        }))
    );
}

#[test]
fn a_playlist_creation_splits_the_songs_at_commas() {
    let handler = assemble(&Config::default());
    let options = PlaylistOptions::Create(PlaylistCreateOptions {
        name: "mix".to_string(),
        songs: "A,,B".to_string(),
    });
    assert_eq!(
        parse_playlist_options(&handler, &options, &mut Session::new(vec![])),
        catalog(CatalogRequest::InsertPlaylist(NewPlaylist { name: "mix".to_string() }))
    );
    assert_eq!(
        parse_playlist_options(&handler, &options, &mut Session::new(vec![Reply::Done])),
        catalog(CatalogRequest::SongByName("A".to_string()))
    );
    let found = Reply::Song(Some(Song {
        id: "a1".to_string(),
        name: "A".to_string(),
        artist: None,
    }));
    assert_eq!(
        parse_playlist_options(
            &handler,
            &options,
            &mut Session::new(vec![Reply::Done, found, Reply::Done])
        ),
        catalog(CatalogRequest::SongByName("".to_string()))
    );
    assert_eq!(
        parse_playlist_options(&handler, &PlaylistOptions::List {}, &mut Session::new(vec![])),
        catalog(CatalogRequest::Playlists)
    );
}

#[test]
fn song_and_play_commands_reach_their_operations() {
    let handler = assemble(&Config::default());
    assert_eq!(
        parse_song_options(&handler, &SongOptions::List {}, &mut Session::new(vec![])),
        catalog(CatalogRequest::Songs)
    );
    let play = PlayOptions::Song(PlaySongOptions { name: "A".to_string() });
    assert_eq!(parse_play_options(&handler, &play, &mut Session::new(vec![])), connect());
}

#[test]
fn daemon_commands_reach_their_operations() {
    let handler = assemble(&Config::default());
    let ask = |options: MpdOptions| {
        parse_mpd_options(&handler, &options, &mut Session::new(vec![Reply::Done]))
    };
    let daemon = |request: DaemonRequest| Err(Halt::Ask(Request::Daemon(request)));
    assert_eq!(ask(MpdOptions::Play {}), daemon(DaemonRequest::Play));
    assert_eq!(ask(MpdOptions::Pause {}), daemon(DaemonRequest::Status));
    assert_eq!(ask(MpdOptions::Shuffle {}), daemon(DaemonRequest::Status));
    assert_eq!(ask(MpdOptions::Clear {}), daemon(DaemonRequest::Clear));
    assert_eq!(ask(MpdOptions::Next {}), daemon(DaemonRequest::Next));
    assert_eq!(ask(MpdOptions::Current {}), daemon(DaemonRequest::CurrentSong));
    assert_eq!(ask(MpdOptions::Repeat {}), daemon(DaemonRequest::Status));
    assert_eq!(ask(MpdOptions::Previous {}), daemon(DaemonRequest::Previous));
    assert_eq!(
        ask(MpdOptions::Seek(SeekOptions { percentage: 5 })),
        daemon(DaemonRequest::CurrentSong)
    );
    assert_eq!(ask(MpdOptions::Status {}), daemon(DaemonRequest::Status));
    assert_eq!(ask(MpdOptions::Queue {}), daemon(DaemonRequest::Queue));
    assert_eq!(ask(MpdOptions::QueueShuffle {}), daemon(DaemonRequest::Shuffle));
}
