//! Requests, answers, and the session that feeds answers to a command.
//!
//! A command never reaches a collaborator itself. It asks its session for the
//! answer to a request. While the session still holds answers, the oldest one
//! is the answer; once it has run dry, the command halts on the request it
//! could not get answered.

use vstd::prelude::*;
use crate::error::{Error, ErrorView};
use crate::models::{
    NewPlaylist, NewPlaylistSong, NewSong, Playlist, PlaylistSong, PlaylistSongView, PlaylistView,
    Song, SongView,
};

verus! {

/// What the playback daemon is doing.
#[derive(Clone, Copy, Debug, PartialEq, Eq)]
pub enum PlayState {
    Stop,
    Play,
    Pause,
}

/// How far the current track has played, in whole seconds, and the share
/// already played in percent as the daemon's side measured it.
#[derive(Clone, Copy, Debug, PartialEq, Eq)]
pub struct Progress {
    pub elapsed: u64,
    pub total: u64,
    pub percent: i32,
}

/// The daemon's transport state.
#[derive(Clone, Copy, Debug, PartialEq, Eq)]
pub struct DaemonStatus {
    pub state: PlayState,
    pub random: bool,
    pub repeat: bool,
    pub time: Option<Progress>,
}

impl DeepView for DaemonStatus {
    type V = DaemonStatus;

    open spec fn deep_view(&self) -> DaemonStatus {
        *self
    }
}

/// An entry of the daemon's queue: the media file it refers to and the
/// number under which the daemon keeps it.
#[derive(Clone, Debug, PartialEq, Eq)]
pub struct Track {
    pub file: String,
    pub place: Option<u32>,
}

/// A queue entry as contracts see it.
pub struct TrackView {
    pub file: Seq<char>,
    pub place: Option<u32>,
}

impl View for Track {
    type V = TrackView;

    open spec fn view(&self) -> TrackView {
        TrackView { file: self.file@, place: self.place }
    }
}

impl DeepView for Track {
    type V = TrackView;

    open spec fn deep_view(&self) -> TrackView {
        self@
    }
}

/// A request to the catalog.
#[derive(Clone, Debug, PartialEq, Eq)]
pub enum CatalogRequest {
    Songs,
    SongByName(String),
    SongById(String),
    InsertSong(NewSong),
    DeleteSong(String),
    Playlists,
    PlaylistByName(String),
    InsertPlaylist(NewPlaylist),
    DeletePlaylist(String),
    SongsOfPlaylist(String),
    InsertPlaylistSong(NewPlaylistSong),
    DeletePlaylistSong(PlaylistSong),
}

/// A catalog request as contracts see it.
pub enum CatalogRequestView {
    Songs,
    SongByName(Seq<char>),
    SongById(Seq<char>),
    InsertSong(SongView),
    DeleteSong(Seq<char>),
    Playlists,
    PlaylistByName(Seq<char>),
    InsertPlaylist(PlaylistView),
    DeletePlaylist(Seq<char>),
    SongsOfPlaylist(Seq<char>),
    InsertPlaylistSong(PlaylistSongView),
    DeletePlaylistSong(PlaylistSongView),
}

impl View for CatalogRequest {
    type V = CatalogRequestView;

    open spec fn view(&self) -> CatalogRequestView {
        match self {
            CatalogRequest::Songs => CatalogRequestView::Songs,
            CatalogRequest::SongByName(n) => CatalogRequestView::SongByName(n@),
            CatalogRequest::SongById(i) => CatalogRequestView::SongById(i@),
            CatalogRequest::InsertSong(s) => CatalogRequestView::InsertSong(s@),
            CatalogRequest::DeleteSong(i) => CatalogRequestView::DeleteSong(i@),
            CatalogRequest::Playlists => CatalogRequestView::Playlists,
            CatalogRequest::PlaylistByName(n) => CatalogRequestView::PlaylistByName(n@),
            CatalogRequest::InsertPlaylist(p) => CatalogRequestView::InsertPlaylist(p@),
            CatalogRequest::DeletePlaylist(n) => CatalogRequestView::DeletePlaylist(n@),
            CatalogRequest::SongsOfPlaylist(n) => CatalogRequestView::SongsOfPlaylist(n@),
            CatalogRequest::InsertPlaylistSong(m) => CatalogRequestView::InsertPlaylistSong(m@),
            CatalogRequest::DeletePlaylistSong(m) => CatalogRequestView::DeletePlaylistSong(m@),
        }
    }
}

/// A request to the media cache.
#[derive(Clone, Debug, PartialEq, Eq)]
pub enum MediaRequest {
    /// Fetch the audio of `id` into `directory`, named by `id`.
    FetchAudio { id: String, directory: String },
    /// Fetch the picture at `url` into the file `file_name` of `directory`.
    FetchMiniature { url: String, directory: String, file_name: String },
    /// Remove the file at `path`.
    RemoveFile { path: String },
}

/// A media request as contracts see it.
pub enum MediaRequestView {
    FetchAudio { id: Seq<char>, directory: Seq<char> },
    FetchMiniature { url: Seq<char>, directory: Seq<char>, file_name: Seq<char> },
    RemoveFile { path: Seq<char> },
}

impl View for MediaRequest {
    type V = MediaRequestView;

    open spec fn view(&self) -> MediaRequestView {
        match self {
            MediaRequest::FetchAudio { id, directory } => MediaRequestView::FetchAudio {
                id: id@,
                directory: directory@,
            },
            MediaRequest::FetchMiniature { url, directory, file_name } =>
                MediaRequestView::FetchMiniature {
                    url: url@,
                    directory: directory@,
                    file_name: file_name@,
                },
            MediaRequest::RemoveFile { path } => MediaRequestView::RemoveFile { path: path@ },
        }
    }
}

/// A request to the playback daemon. Every adapter operation opens with
/// `Connect`, which also gives up the connection of the operation before it.
#[derive(Clone, Debug, PartialEq, Eq)]
pub enum DaemonRequest {
    Connect { address: String },
    Update,
    Push { file: String },
    Play,
    Pause(bool),
    Random(bool),
    Repeat(bool),
    Clear,
    Next,
    Previous,
    CurrentSong,
    Status,
    Queue,
    Seek { place: u32, seconds: u64 },
    Delete { place: u32 },
    Shuffle,
}

/// A daemon request as contracts see it.
pub enum DaemonRequestView {
    Connect { address: Seq<char> },
    Update,
    Push { file: Seq<char> },
    Play,
    Pause(bool),
    Random(bool),
    Repeat(bool),
    Clear,
    Next,
    Previous,
    CurrentSong,
    Status,
    Queue,
    Seek { place: u32, seconds: u64 },
    Delete { place: u32 },
    Shuffle,
}

impl View for DaemonRequest {
    type V = DaemonRequestView;

    open spec fn view(&self) -> DaemonRequestView {
        match self {
            DaemonRequest::Connect { address } => DaemonRequestView::Connect { address: address@ },
            DaemonRequest::Update => DaemonRequestView::Update,
            DaemonRequest::Push { file } => DaemonRequestView::Push { file: file@ },
            DaemonRequest::Play => DaemonRequestView::Play,
            DaemonRequest::Pause(b) => DaemonRequestView::Pause(*b),
            DaemonRequest::Random(b) => DaemonRequestView::Random(*b),
            DaemonRequest::Repeat(b) => DaemonRequestView::Repeat(*b),
            DaemonRequest::Clear => DaemonRequestView::Clear,
            DaemonRequest::Next => DaemonRequestView::Next,
            DaemonRequest::Previous => DaemonRequestView::Previous,
            DaemonRequest::CurrentSong => DaemonRequestView::CurrentSong,
            DaemonRequest::Status => DaemonRequestView::Status,
            DaemonRequest::Queue => DaemonRequestView::Queue,
            DaemonRequest::Seek { place, seconds } => DaemonRequestView::Seek {
                place: *place,
                seconds: *seconds,
            },
            DaemonRequest::Delete { place } => DaemonRequestView::Delete { place: *place },
            DaemonRequest::Shuffle => DaemonRequestView::Shuffle,
        }
    }
}

/// A request to one of the three collaborators.
#[derive(Clone, Debug, PartialEq, Eq)]
pub enum Request {
    Catalog(CatalogRequest),
    Media(MediaRequest),
    Daemon(DaemonRequest),
}

/// A request as contracts see it.
pub enum RequestView {
    Catalog(CatalogRequestView),
    Media(MediaRequestView),
    Daemon(DaemonRequestView),
}

impl View for Request {
    type V = RequestView;

    open spec fn view(&self) -> RequestView {
        match self {
            Request::Catalog(q) => RequestView::Catalog(q@),
            Request::Media(q) => RequestView::Media(q@),
            Request::Daemon(q) => RequestView::Daemon(q@),
        }
    }
}

/// What a collaborator answered.
#[derive(Clone, Debug, PartialEq, Eq)]
pub enum Reply {
    /// Carried out; nothing to tell.
    Done,
    /// Not carried out, with the collaborator's own words.
    Failed(String),
    /// An insert met a row with the same key.
    Duplicate,
    /// A delete found no row to delete.
    Missing,
    Song(Option<Song>),
    Songs(Vec<Song>),
    Playlist(Option<Playlist>),
    Playlists(Vec<Playlist>),
    PlaylistSongs(Vec<PlaylistSong>),
    CurrentSong(Option<Track>),
    Status(DaemonStatus),
    Queue(Vec<Track>),
}

/// An answer as contracts see it.
pub enum ReplyView {
    Done,
    Failed(Seq<char>),
    Duplicate,
    Missing,
    Song(Option<SongView>),
    Songs(Seq<SongView>),
    Playlist(Option<PlaylistView>),
    Playlists(Seq<PlaylistView>),
    PlaylistSongs(Seq<PlaylistSongView>),
    CurrentSong(Option<TrackView>),
    Status(DaemonStatus),
    Queue(Seq<TrackView>),
}

impl View for Reply {
    type V = ReplyView;

    open spec fn view(&self) -> ReplyView {
        match self {
            Reply::Done => ReplyView::Done,
            Reply::Failed(m) => ReplyView::Failed(m@),
            Reply::Duplicate => ReplyView::Duplicate,
            Reply::Missing => ReplyView::Missing,
            Reply::Song(s) => ReplyView::Song(s.deep_view()),
            Reply::Songs(v) => ReplyView::Songs(v.deep_view()),
            Reply::Playlist(p) => ReplyView::Playlist(p.deep_view()),
            Reply::Playlists(v) => ReplyView::Playlists(v.deep_view()),
            Reply::PlaylistSongs(v) => ReplyView::PlaylistSongs(v.deep_view()),
            Reply::CurrentSong(t) => ReplyView::CurrentSong(t.deep_view()),
            Reply::Status(s) => ReplyView::Status(*s),
            Reply::Queue(v) => ReplyView::Queue(v.deep_view()),
        }
    }
}

impl DeepView for Reply {
    type V = ReplyView;

    open spec fn deep_view(&self) -> ReplyView {
        self@
    }
}

/// Why a command stopped short of its result.
#[derive(Clone, Debug, PartialEq, Eq)]
pub enum Halt {
    /// The session holds no answer to this request yet.
    Ask(Request),
    /// The command failed.
    Fail(Error),
}

/// A halt as contracts see it.
pub enum HaltView {
    Ask(RequestView),
    Fail(ErrorView),
}

impl View for Halt {
    type V = HaltView;

    open spec fn view(&self) -> HaltView {
        match self {
            Halt::Ask(q) => HaltView::Ask(q@),
            Halt::Fail(e) => HaltView::Fail(e@),
        }
    }
}

/// How a command ended: the lines it reported, in order, and whether it
/// failed. A failed command keeps the lines it reported before failing.
#[derive(Debug, PartialEq, Eq)]
pub struct Outcome {
    pub lines: Vec<String>,
    pub result: Result<(), Error>,
}

/// An outcome as contracts see it.
pub struct OutcomeView {
    pub lines: Seq<Seq<char>>,
    pub result: Result<(), ErrorView>,
}

impl View for Outcome {
    type V = OutcomeView;

    open spec fn view(&self) -> OutcomeView {
        OutcomeView {
            lines: self.lines.deep_view(),
            result: match self.result {
                Ok(_) => Ok(()),
                Err(e) => Err(e@),
            },
        }
    }
}

/// What to do next for a command: carry out a request and come back with its
/// answer, or stop, the command being over.
#[derive(Debug, PartialEq, Eq)]
pub enum Step {
    Call(Request),
    Done(Outcome),
}

/// A step as contracts see it.
pub enum StepView {
    Call(RequestView),
    Done(OutcomeView),
}

impl View for Step {
    type V = StepView;

    open spec fn view(&self) -> StepView {
        match self {
            Step::Call(q) => StepView::Call(q@),
            Step::Done(o) => StepView::Done(o@),
        }
    }
}

/// The answers a command has not used yet, oldest first, and the lines it
/// has reported so far.
#[derive(Clone, Debug, PartialEq, Eq)]
pub struct Session {
    pub answers: Vec<Reply>,
    pub lines: Vec<String>,
}

/// A session as contracts see it.
pub struct SessionView {
    pub answers: Seq<ReplyView>,
    pub lines: Seq<Seq<char>>,
}

impl View for Session {
    type V = SessionView;

    open spec fn view(&self) -> SessionView {
        SessionView { answers: self.answers.deep_view(), lines: self.lines.deep_view() }
    }
}

/// A part of a command, run on a session: its result, or why it halted, and
/// the session it leaves.
pub struct Ran<T> {
    pub result: Result<T, HaltView>,
    pub session: SessionView,
}

impl<T> Ran<T> {
    /// The part came to `value`.
    pub open spec fn ok(value: T, session: SessionView) -> Ran<T> {
        Ran { result: Ok(value), session }
    }

    /// The part halted.
    pub open spec fn halt(halt: HaltView, session: SessionView) -> Ran<T> {
        Ran { result: Err(halt), session }
    }

    /// The part failed.
    pub open spec fn fail(error: ErrorView, session: SessionView) -> Ran<T> {
        Ran { result: Err(HaltView::Fail(error)), session }
    }

    /// A part that halted, seen as the halt of the part it belongs to.
    pub open spec fn halted<U>(self) -> Ran<U> {
        Ran { result: Err(self.result->Err_0), session: self.session }
    }
}

/// What an executable part's result and the session it left stand for.
pub open spec fn ran<T: DeepView>(result: Result<T, Halt>, session: SessionView) -> Ran<T::V> {
    Ran {
        result: match result {
            Ok(v) => Ok(v.deep_view()),
            Err(h) => Err(h@),
        },
        session,
    }
}

impl SessionView {
    /// A session that starts out with `answers` and no lines.
    pub open spec fn start(answers: Seq<ReplyView>) -> SessionView {
        SessionView { answers, lines: Seq::empty() }
    }

    /// The answer to `request`: the oldest one left, or a halt on the
    /// request when none is left.
    pub open spec fn ask(self, request: RequestView) -> Ran<ReplyView> {
        if self.answers.len() == 0 {
            Ran::halt(HaltView::Ask(request), self)
        } else {
            Ran::ok(
                self.answers[0],
                SessionView { answers: self.answers.drop_first(), lines: self.lines },
            )
        }
    }

    /// The session after reporting `line`.
    pub open spec fn say(self, line: Seq<char>) -> SessionView {
        SessionView { answers: self.answers, lines: self.lines.push(line) }
    }
}

/// The step that a command's run amounts to: the request it halted on, or
/// its outcome with the lines reported.
pub open spec fn conclude(run: Ran<()>) -> StepView {
    match run.result {
        Ok(_) => StepView::Done(OutcomeView { lines: run.session.lines, result: Ok(()) }),
        Err(HaltView::Ask(q)) => StepView::Call(q),
        Err(HaltView::Fail(e)) => StepView::Done(
            OutcomeView { lines: run.session.lines, result: Err(e) },
        ),
    }
}

impl Session {
    /// A session over the answers received so far.
    pub fn new(answers: Vec<Reply>) -> (r: Session)
        ensures
            r@ == SessionView::start(answers.deep_view()),
    {
        let r = Session { answers, lines: Vec::new() };
        assert(r.lines.deep_view() =~= Seq::<Seq<char>>::empty());
        r
    }

    /// Hands out the answer to `request`, or halts on it.
    pub fn ask(&mut self, request: Request) -> (r: Result<Reply, Halt>)
        ensures
            ran(r, final(self)@) == old(self)@.ask(request@),
    {
        if self.answers.len() == 0 {
            Err(Halt::Ask(request))
        } else {
            let answer = self.answers.remove(0);
            assert(self.answers.deep_view() =~= old(self).answers.deep_view().drop_first());
            Ok(answer)
        }
    }

    /// Reports a line.
    pub fn say(&mut self, line: String)
        ensures
            final(self)@ == old(self)@.say(line@),
    {
        self.lines.push(line);
        assert(self.lines.deep_view() =~= old(self).lines.deep_view().push(line@));
    }

    /// Ends the run of a command on this session.
    pub fn conclude(self, result: Result<(), Halt>) -> (r: Step)
        ensures
            r@ == conclude(ran(result, self@)),
    {
        match result {
            Ok(_) => Step::Done(Outcome { lines: self.lines, result: Ok(()) }),
            Err(Halt::Ask(request)) => Step::Call(request),
            Err(Halt::Fail(error)) => Step::Done(Outcome { lines: self.lines, result: Err(error) }),
        }
    }
}

/// The words for an answer of a kind that the request cannot have.
pub open spec fn misfit() -> Seq<char> {
    "The answer does not fit the request"@
}

/// The words for an answer of a kind that the request cannot have.
pub fn misfit_text() -> (r: String)
    ensures
        r@ == misfit(),
{
    "The answer does not fit the request".to_owned()
}

} // verus!
