//! From a command to the handler's operation for it, and from the answers
//! received so far to the next step.

use vstd::prelude::*;
use vstd::string::*;
use crate::args::{
    App, Command, DownloadOptions, MpdOptions, PlayOptions, PlaylistOptions, SongOptions,
};
use crate::config::{store_url, Config, POOL_SIZE};
use crate::database::{Database, DatabaseView};
use crate::handler::{Handler, HandlerView};
use crate::mpd_client::{MpdClient, MpdClientView};
use crate::protocol::{conclude, ran, Halt, Ran, Reply, ReplyView, Session, SessionView, Step, StepView};
use crate::text::{split, split_at_each};
use crate::youtube_api::{YoutubeAPI, YoutubeAPIView};

verus! {

/// The handler that a configuration describes.
pub open spec fn handler_of(config: Config) -> HandlerView {
    HandlerView {
        database: DatabaseView {
            url: store_url(config.database.database_path@),
            max_size: POOL_SIZE,
        },
        api: YoutubeAPIView {
            music_directory: config.general.music_directory@,
            miniature_directory: config.general.miniature_directory@,
            download_miniature: config.general.download_miniature,
        },
        mpd: MpdClientView {  },
    }
}

/// What a playlist command runs. The songs of a playlist to create are
/// the pieces between the commas of what was given.
pub open spec fn playlist_run(h: HandlerView, options: PlaylistOptions, s: SessionView) -> Ran<()> {
    match options {
        PlaylistOptions::Create(args) => h.create_playlist(args.name@, split(args.songs@, ','), s),
        PlaylistOptions::List {  } => h.get_playlists(s),
        PlaylistOptions::Delete(args) => h.delete_playlist(args.name@, s),
        PlaylistOptions::Insert(args) => h.insert_into_playlist(
            args.playlist_name@,
            args.song_name@,
            s,
        ),
        PlaylistOptions::Remove(args) => h.remove_song_from_playlist(
            args.playlist_name@,
            args.song_name@,
            s,
        ),
    }
}

/// What a download command runs.
pub open spec fn download_run(h: HandlerView, options: DownloadOptions, s: SessionView) -> Ran<()> {
    h.add_song_to_registry(options.id@, options.name@, options.artist.deep_view(), s)
}

/// What a play command runs.
pub open spec fn play_run(h: HandlerView, options: PlayOptions, s: SessionView) -> Ran<()> {
    match options {
        PlayOptions::Playlist(args) => h.play_playlist(args.name@, s),
        PlayOptions::Song(args) => h.play_song(args.name@, s),
    }
}

/// What a song command runs.
pub open spec fn song_run(h: HandlerView, options: SongOptions, s: SessionView) -> Ran<()> {
    match options {
        SongOptions::List {  } => h.get_songs(s),
        SongOptions::Delete(args) => h.delete_song(args.name@, s),
    }
}

/// What a daemon command runs.
pub open spec fn mpd_run(h: HandlerView, options: MpdOptions, s: SessionView) -> Ran<()> {
    match options {
        MpdOptions::Play {  } => h.play(s),
        MpdOptions::Pause {  } => h.pause(s),
        MpdOptions::Shuffle {  } => h.shuffle(s),
        MpdOptions::Clear {  } => h.clear_queue(s),
        MpdOptions::Next {  } => h.next(s),
        MpdOptions::Current {  } => h.current(s),
        MpdOptions::Repeat {  } => h.repeat(s),
        MpdOptions::Previous {  } => h.previous(s),
        MpdOptions::Seek(args) => h.seek(args.percentage, s),
        MpdOptions::Status {  } => h.status(s),
        MpdOptions::Queue {  } => h.queue(s),
        MpdOptions::QueueAdd(args) => h.add_to_queue(args.song_name@, s),
        MpdOptions::QueueRemove(args) => h.remove_from_queue(args.song_name@, s),
        MpdOptions::QueueShuffle {  } => h.shuffle_queue(s),
    }
}

/// What a command runs.
pub open spec fn command_run(h: HandlerView, command: Command, s: SessionView) -> Ran<()> {
    match command {
        Command::Download(args) => download_run(h, args, s),
        Command::Playlist(args) => playlist_run(h, args, s),
        Command::Play(args) => play_run(h, args, s),
        Command::Song(args) => song_run(h, args, s),
        Command::Mpd(args) => mpd_run(h, args, s),
    }
}

/// The next step of a command, given the answers received so far: the
/// command run from its start on a session that holds those answers.
pub open spec fn step_of(h: HandlerView, command: Command, answers: Seq<ReplyView>) -> StepView {
    conclude(command_run(h, command, SessionView::start(answers)))
}

/// The handler that a configuration describes.
pub fn assemble(config: &Config) -> (r: Handler)
    ensures
        r@ == handler_of(*config),
{
    Handler::new(
        Database::new(config.database_url(), POOL_SIZE),
        YoutubeAPI::new(
            config.general.music_directory.clone(),
            config.general.miniature_directory.clone(),
            config.general.download_miniature,
        ),
        MpdClient::new(),
    )
}

pub fn parse_playlist_options(handler: &Handler, options: &PlaylistOptions, session: &mut Session) -> (r:
    Result<(), Halt>)
    ensures
        ran(r, final(session)@) == playlist_run(handler@, *options, old(session)@),
{
    match options {
        PlaylistOptions::Create(args) => handler.create_playlist(
            args.name.as_str(),
            split_at_each(args.songs.as_str(), ','),
            session,
        ),
        PlaylistOptions::List {  } => handler.get_playlists(session),
        PlaylistOptions::Delete(args) => handler.delete_playlist(args.name.as_str(), session),
        PlaylistOptions::Insert(args) => handler.insert_into_playlist(
            args.playlist_name.as_str(),
            args.song_name.as_str(),
            session,
        ),
        PlaylistOptions::Remove(args) => handler.remove_song_from_playlist(
            args.playlist_name.as_str(),
            args.song_name.as_str(),
            session,
        ),
    }
}

pub fn parse_download_options(handler: &Handler, options: &DownloadOptions, session: &mut Session) -> (r:
    Result<(), Halt>)
    ensures
        ran(r, final(session)@) == download_run(handler@, *options, old(session)@),
{
    let artist = match &options.artist {
        Some(artist) => Some(artist.clone()),
        None => None,
    };
    handler.add_song_to_registry(options.id.as_str(), options.name.as_str(), artist, session)
}

pub fn parse_play_options(handler: &Handler, options: &PlayOptions, session: &mut Session) -> (r:
    Result<(), Halt>)
    ensures
        ran(r, final(session)@) == play_run(handler@, *options, old(session)@),
{
    match options {
        PlayOptions::Playlist(args) => handler.play_playlist(args.name.as_str(), session),
        PlayOptions::Song(args) => handler.play_song(args.name.as_str(), session),
    }
}

pub fn parse_song_options(handler: &Handler, options: &SongOptions, session: &mut Session) -> (r:
    Result<(), Halt>)
    ensures
        ran(r, final(session)@) == song_run(handler@, *options, old(session)@),
{
    match options {
        SongOptions::List {  } => handler.get_songs(session),
        SongOptions::Delete(args) => handler.delete_song(args.name.as_str(), session),
    }
}

pub fn parse_mpd_options(handler: &Handler, options: &MpdOptions, session: &mut Session) -> (r:
    Result<(), Halt>)
    ensures
        ran(r, final(session)@) == mpd_run(handler@, *options, old(session)@),
{
    match options {
        MpdOptions::Play {  } => handler.play(session),
        MpdOptions::Pause {  } => handler.pause(session),
        MpdOptions::Shuffle {  } => handler.shuffle(session),
        MpdOptions::Clear {  } => handler.clear_queue(session),
        MpdOptions::Next {  } => handler.next(session),
        MpdOptions::Current {  } => handler.current(session),
        MpdOptions::Repeat {  } => handler.repeat(session),
        MpdOptions::Previous {  } => handler.previous(session),
        MpdOptions::Seek(args) => handler.seek(args.percentage, session),
        MpdOptions::Status {  } => handler.status(session),
        MpdOptions::Queue {  } => handler.queue(session),
        MpdOptions::QueueAdd(args) => handler.add_to_queue(args.song_name.as_str(), session),
        MpdOptions::QueueRemove(args) => handler.remove_from_queue(
            args.song_name.as_str(),
            session,
        ),
        MpdOptions::QueueShuffle {  } => handler.shuffle_queue(session),
    }
}

/// The next step of the command, given the answers received so far, oldest
/// first: the request to carry out next, or how the command ended.
pub fn advance(handler: &Handler, app: &App, answers: Vec<Reply>) -> (r: Step)
    ensures
        r@ == step_of(handler@, app.command, answers.deep_view()),
{
    let mut session = Session::new(answers);
    let result = match &app.command {
        Command::Download(args) => parse_download_options(handler, args, &mut session),
        Command::Playlist(args) => parse_playlist_options(handler, args, &mut session),
        Command::Play(args) => parse_play_options(handler, args, &mut session),
        Command::Song(args) => parse_song_options(handler, args, &mut session),
        Command::Mpd(args) => parse_mpd_options(handler, args, &mut session),
    };
    session.conclude(result)
}

} // verus!
