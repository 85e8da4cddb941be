//! The playback daemon, as the commands speak to it. Every operation opens a
//! connection of its own, sends its commands over it, and lets it go.

use vstd::prelude::*;
use vstd::string::*;
use crate::error::{enclose, Error, ErrorView};
use crate::protocol::{
    misfit, misfit_text, ran, DaemonRequest, DaemonRequestView, DaemonStatus, Halt, PlayState,
    Progress, Ran, Reply, ReplyView, Request, RequestView, Session, SessionView, Track, TrackView,
};
use crate::text::{decimal, decimal_of, file_stem, signed_decimal, signed_decimal_of, stem, truth, truth_of};

verus! {

/// The daemon's transport state, in short.
#[derive(Clone, Copy, Debug, PartialEq, Eq)]
pub struct Status {
    pub repeat: bool,
    pub random: bool,
    pub is_paused: bool,
}

impl DeepView for Status {
    type V = Status;

    open spec fn deep_view(&self) -> Status {
        *self
    }
}

/// What is wanted of a switch: a state, or the opposite of the state it is
/// in, which has to be read first.
#[derive(Clone, Copy, Debug, PartialEq, Eq)]
pub enum Intent {
    ForceOn,
    ForceOff,
    Toggle,
}

impl Intent {
    /// The state to set, where the switch is `on` now.
    pub open spec fn applied(self, on: bool) -> bool {
        match self {
            Intent::ForceOn => true,
            Intent::ForceOff => false,
            Intent::Toggle => !on,
        }
    }

    /// The state to set, where the switch is `on` now.
    pub fn apply(self, on: bool) -> (r: bool)
        ensures
            r == self.applied(on),
    {
        match self {
            Intent::ForceOn => true,
            Intent::ForceOff => false,
            Intent::Toggle => !on,
        }
    }
}

/// The playback daemon's adapter.
#[derive(Clone, Copy, Debug, PartialEq, Eq)]
pub struct MpdClient {}

/// The adapter as contracts see it.
pub struct MpdClientView {}

impl View for MpdClient {
    type V = MpdClientView;

    open spec fn view(&self) -> MpdClientView {
        MpdClientView {  }
    }
}

/// Where the daemon listens.
pub open spec fn daemon_address() -> Seq<char> {
    "127.0.0.1:6600"@
}

/// The media file that holds the audio of a song: its identifier with the
/// extension of the audio format.
pub open spec fn media_file(song_id: Seq<char>) -> Seq<char> {
    song_id + ".opus"@
}

/// The position, in whole seconds, that lies `perc` percent into a track of
/// `total` seconds; the largest number of seconds there is where that
/// position is beyond it.
pub open spec fn seek_target(total: u64, perc: u8) -> u64 {
    if total * perc / 100 > u64::MAX {
        u64::MAX
    } else {
        (total * perc / 100) as u64
    }
}

/// Elapsed and total time as minutes and seconds, and the share played.
pub open spec fn clock(p: Progress) -> Seq<char> {
    decimal((p.elapsed / 60) as nat) + ":"@ + decimal((p.elapsed % 60) as nat) + "/"@ + decimal(
        (p.total / 60) as nat,
    ) + ":"@ + decimal((p.total % 60) as nat) + " ("@ + signed_decimal(p.percent as int) + "%)"@
}

/// The entries of `queue` that refer to `file`.
pub open spec fn entries_of(queue: Seq<TrackView>, file: Seq<char>) -> Seq<TrackView> {
    queue.filter(|t: TrackView| t.file == file)
}

/// The stems of the files that the entries of `queue` refer to.
pub open spec fn stems(queue: Seq<TrackView>) -> Seq<Seq<char>> {
    queue.map_values(|t: TrackView| stem(t.file))
}

impl MpdClientView {
    /// Opens the connection for one operation.
    pub open spec fn connect(self, s: SessionView) -> Ran<()> {
        let asked = s.ask(
            RequestView::Daemon(DaemonRequestView::Connect { address: daemon_address() }),
        );
        match asked.result {
            Err(halt) => Ran::halt(halt, asked.session),
            Ok(ReplyView::Done) => Ran::ok((), asked.session),
            Ok(ReplyView::Failed(m)) => Ran::fail(ErrorView::DaemonUnavailable(m), asked.session),
            Ok(_) => Ran::fail(ErrorView::DaemonUnavailable(misfit()), asked.session),
        }
    }

    /// Sends a command that has nothing to tell but that it was carried out.
    pub open spec fn command(self, command: DaemonRequestView, s: SessionView) -> Ran<()> {
        let asked = s.ask(RequestView::Daemon(command));
        match asked.result {
            Err(halt) => Ran::halt(halt, asked.session),
            Ok(ReplyView::Done) => Ran::ok((), asked.session),
            Ok(ReplyView::Failed(m)) => Ran::fail(
                ErrorView::DaemonOperationFailed(m),
                asked.session,
            ),
            Ok(_) => Ran::fail(ErrorView::DaemonOperationFailed(misfit()), asked.session),
        }
    }

    /// Reads the transport state.
    pub open spec fn read_status(self, s: SessionView) -> Ran<DaemonStatus> {
        let asked = s.ask(RequestView::Daemon(DaemonRequestView::Status));
        match asked.result {
            Err(halt) => Ran::halt(halt, asked.session),
            Ok(ReplyView::Status(status)) => Ran::ok(status, asked.session),
            Ok(ReplyView::Failed(m)) => Ran::fail(
                ErrorView::DaemonOperationFailed(m),
                asked.session,
            ),
            Ok(_) => Ran::fail(ErrorView::DaemonOperationFailed(misfit()), asked.session),
        }
    }

    /// Reads the entry that is playing, if one is.
    pub open spec fn read_current(self, s: SessionView) -> Ran<Option<TrackView>> {
        let asked = s.ask(RequestView::Daemon(DaemonRequestView::CurrentSong));
        match asked.result {
            Err(halt) => Ran::halt(halt, asked.session),
            Ok(ReplyView::CurrentSong(track)) => Ran::ok(track, asked.session),
            Ok(ReplyView::Failed(m)) => Ran::fail(
                ErrorView::DaemonOperationFailed(m),
                asked.session,
            ),
            Ok(_) => Ran::fail(ErrorView::DaemonOperationFailed(misfit()), asked.session),
        }
    }

    /// Reads the queue, in its order.
    pub open spec fn read_queue(self, s: SessionView) -> Ran<Seq<TrackView>> {
        let asked = s.ask(RequestView::Daemon(DaemonRequestView::Queue));
        match asked.result {
            Err(halt) => Ran::halt(halt, asked.session),
            Ok(ReplyView::Queue(tracks)) => Ran::ok(tracks, asked.session),
            Ok(ReplyView::Failed(m)) => Ran::fail(
                ErrorView::DaemonOperationFailed(m),
                asked.session,
            ),
            Ok(_) => Ran::fail(ErrorView::DaemonOperationFailed(misfit()), asked.session),
        }
    }

    /// Connects, then sends one command.
    pub open spec fn single(self, command: DaemonRequestView, s: SessionView) -> Ran<()> {
        let connected = self.connect(s);
        match connected.result {
            Err(halt) => Ran::halt(halt, connected.session),
            Ok(_) => self.command(command, connected.session),
        }
    }

    pub open spec fn update_db(self, s: SessionView) -> Ran<()> {
        self.single(DaemonRequestView::Update, s)
    }

    pub open spec fn add_to_queue(self, song_id: Seq<char>, s: SessionView) -> Ran<()> {
        self.single(DaemonRequestView::Push { file: media_file(song_id) }, s)
    }

    pub open spec fn play(self, s: SessionView) -> Ran<()> {
        self.single(DaemonRequestView::Play, s)
    }

    /// Pauses or resumes as asked. Asked to toggle, it pauses where the
    /// daemon plays and resumes where it does not, then reads the state
    /// again and reports whether the daemon is paused now.
    pub open spec fn pause(self, state: Intent, s: SessionView) -> Ran<()> {
        let connected = self.connect(s);
        match connected.result {
            Err(halt) => Ran::halt(halt, connected.session),
            Ok(_) => {
                let before = self.read_status(connected.session);
                match before.result {
                    Err(halt) => Ran::halt(halt, before.session),
                    Ok(status) => match state {
                        Intent::ForceOn => self.command(
                            DaemonRequestView::Pause(true),
                            before.session,
                        ),
                        Intent::ForceOff => self.command(
                            DaemonRequestView::Pause(false),
                            before.session,
                        ),
                        Intent::Toggle => {
                            let set = self.command(
                                DaemonRequestView::Pause(status.state == PlayState::Play),
                                before.session,
                            );
                            match set.result {
                                Err(halt) => Ran::halt(halt, set.session),
                                Ok(_) => {
                                    let after = self.read_status(set.session);
                                    match after.result {
                                        Err(halt) => Ran::halt(halt, after.session),
                                        Ok(now) => Ran::ok(
                                            (),
                                            after.session.say(
                                                "Pause: "@ + truth(now.state == PlayState::Pause),
                                            ),
                                        ),
                                    }
                                },
                            }
                        },
                    },
                }
            },
        }
    }

    /// Sets random order as asked, then reads the state again and reports
    /// it.
    pub open spec fn shuffle(self, state: Intent, s: SessionView) -> Ran<()> {
        let connected = self.connect(s);
        match connected.result {
            Err(halt) => Ran::halt(halt, connected.session),
            Ok(_) => {
                let before = self.read_status(connected.session);
                match before.result {
                    Err(halt) => Ran::halt(halt, before.session),
                    Ok(status) => {
                        let set = self.command(
                            DaemonRequestView::Random(state.applied(status.random)),
                            before.session,
                        );
                        match set.result {
                            Err(halt) => Ran::halt(halt, set.session),
                            Ok(_) => {
                                let after = self.read_status(set.session);
                                match after.result {
                                    Err(halt) => Ran::halt(halt, after.session),
                                    Ok(now) => Ran::ok(
                                        (),
                                        after.session.say("Shuffle: "@ + truth(now.random)),
                                    ),
                                }
                            },
                        }
                    },
                }
            },
        }
    }

    pub open spec fn clear_queue(self, s: SessionView) -> Ran<()> {
        self.single(DaemonRequestView::Clear, s)
    }

    pub open spec fn next(self, s: SessionView) -> Ran<()> {
        self.single(DaemonRequestView::Next, s)
    }

    pub open spec fn previous(self, s: SessionView) -> Ran<()> {
        self.single(DaemonRequestView::Previous, s)
    }

    /// The media file that is playing; `NoSongInfo` where none is.
    pub open spec fn current(self, s: SessionView) -> Ran<Seq<char>> {
        let connected = self.connect(s);
        match connected.result {
            Err(halt) => Ran::halt(halt, connected.session),
            Ok(_) => {
                let read = self.read_current(connected.session);
                match read.result {
                    Err(halt) => Ran::halt(halt, read.session),
                    Ok(Some(track)) => Ran::ok(track.file, read.session),
                    Ok(None) => Ran::fail(ErrorView::NoSongInfo, read.session),
                }
            },
        }
    }

    /// The clock of the track that is playing; `NoSongInfo` where the
    /// daemon keeps no time.
    pub open spec fn current_time(self, s: SessionView) -> Ran<Seq<char>> {
        let connected = self.connect(s);
        match connected.result {
            Err(halt) => Ran::halt(halt, connected.session),
            Ok(_) => {
                let read = self.read_status(connected.session);
                match read.result {
                    Err(halt) => Ran::halt(halt, read.session),
                    Ok(status) => match status.time {
                        Some(progress) => Ran::ok(clock(progress), read.session),
                        None => Ran::fail(ErrorView::NoSongInfo, read.session),
                    },
                }
            },
        }
    }

    /// Sets repeat to the opposite of what it is, and reports the new
    /// state.
    pub open spec fn repeat(self, s: SessionView) -> Ran<()> {
        let connected = self.connect(s);
        match connected.result {
            Err(halt) => Ran::halt(halt, connected.session),
            Ok(_) => {
                let before = self.read_status(connected.session);
                match before.result {
                    Err(halt) => Ran::halt(halt, before.session),
                    Ok(status) => {
                        let set = self.command(
                            DaemonRequestView::Repeat(!status.repeat),
                            before.session,
                        );
                        match set.result {
                            Err(halt) => Ran::halt(halt, set.session),
                            Ok(_) => Ran::ok(
                                (),
                                set.session.say("Repeat: "@ + truth(!status.repeat)),
                            ),
                        }
                    },
                }
            },
        }
    }

    /// Moves playback to `perc` percent of the current track. Nothing
    /// happens where nothing is playing. `NoSongInfo` where the current
    /// file is not in the queue exactly once, where its entry has no
    /// place, or where the daemon keeps no time.
    pub open spec fn seek(self, perc: u8, s: SessionView) -> Ran<()> {
        let connected = self.connect(s);
        match connected.result {
            Err(halt) => Ran::halt(halt, connected.session),
            Ok(_) => {
                let current = self.read_current(connected.session);
                match current.result {
                    Err(halt) => Ran::halt(halt, current.session),
                    Ok(None) => Ran::ok((), current.session),
                    Ok(Some(track)) => {
                        let queue = self.read_queue(current.session);
                        match queue.result {
                            Err(halt) => Ran::halt(halt, queue.session),
                            Ok(tracks) => self.seek_in(perc, entries_of(tracks, track.file), queue.session),
                        }
                    },
                }
            },
        }
    }

    /// The rest of `seek`, once the queue entries of the current file are
    /// known.
    pub open spec fn seek_in(self, perc: u8, entries: Seq<TrackView>, s: SessionView) -> Ran<()> {
        if entries.len() != 1 || entries[0].place is None {
            Ran::fail(ErrorView::NoSongInfo, s)
        } else {
            let read = self.read_status(s);
            match read.result {
                Err(halt) => Ran::halt(halt, read.session),
                Ok(status) => match status.time {
                    None => Ran::fail(ErrorView::NoSongInfo, read.session),
                    Some(progress) => {
                        let sought = self.command(
                            DaemonRequestView::Seek {
                                place: entries[0].place->0,
                                seconds: seek_target(progress.total, perc),
                            },
                            read.session,
                        );
                        match sought.result {
                            Err(halt) => Ran::halt(halt, sought.session),
                            Ok(_) => Ran::ok(
                                (),
                                sought.session.say("Seeked to "@ + decimal(perc as nat) + "%"@),
                            ),
                        }
                    },
                },
            }
        }
    }

    pub open spec fn status(self, s: SessionView) -> Ran<Status> {
        let connected = self.connect(s);
        match connected.result {
            Err(halt) => Ran::halt(halt, connected.session),
            Ok(_) => {
                let read = self.read_status(connected.session);
                match read.result {
                    Err(halt) => Ran::halt(halt, read.session),
                    Ok(status) => Ran::ok(
                        Status {
                            repeat: status.repeat,
                            random: status.random,
                            is_paused: status.state != PlayState::Play,
                        },
                        read.session,
                    ),
                }
            },
        }
    }

    /// The song identifiers that the queue's entries stand for, in the
    /// queue's order.
    pub open spec fn queue(self, s: SessionView) -> Ran<Seq<Seq<char>>> {
        let connected = self.connect(s);
        match connected.result {
            Err(halt) => Ran::halt(halt, connected.session),
            Ok(_) => {
                let read = self.read_queue(connected.session);
                match read.result {
                    Err(halt) => Ran::halt(halt, read.session),
                    Ok(tracks) => Ran::ok(stems(tracks), read.session),
                }
            },
        }
    }

    /// Takes the first queue entry of the song out of the queue; nothing
    /// happens where the queue has none, or where that entry has no place.
    pub open spec fn remove_from_queue(self, song_id: Seq<char>, s: SessionView) -> Ran<()> {
        let connected = self.connect(s);
        match connected.result {
            Err(halt) => Ran::halt(halt, connected.session),
            Ok(_) => {
                let read = self.read_queue(connected.session);
                match read.result {
                    Err(halt) => Ran::halt(halt, read.session),
                    Ok(tracks) => {
                        let entries = entries_of(tracks, media_file(song_id));
                        if entries.len() > 0 && entries[0].place is Some {
                            self.command(
                                DaemonRequestView::Delete { place: entries[0].place->0 },
                                read.session,
                            )
                        } else {
                            Ran::ok((), read.session)
                        }
                    },
                }
            },
        }
    }

    pub open spec fn shuffle_queue(self, s: SessionView) -> Ran<()> {
        self.single(DaemonRequestView::Shuffle, s)
    }
}

/// The media file that holds the audio of a song.
pub fn media_file_of(song_id: &str) -> (r: String)
    ensures
        r@ == media_file(song_id@),
{
    String::from_str(song_id).concat(".opus")
}

/// The position, in whole seconds, that lies `perc` percent into a track of
/// `total` seconds.
pub fn seek_target_of(total: u64, perc: u8) -> (r: u64)
    ensures
        r == seek_target(total, perc),
{
    assert(total * perc <= u64::MAX * 255) by (nonlinear_arith)
        requires
            total <= u64::MAX,
            perc <= 255,
    ;
    let exact: u128 = total as u128 * perc as u128 / 100;
    if exact > u64::MAX as u128 {
        u64::MAX
    } else {
        exact as u64
    }
}

/// Elapsed and total time as minutes and seconds, and the share played.
pub fn clock_of(p: Progress) -> (r: String)
    ensures
        r@ == clock(p),
{
    let mut text = decimal_of(p.elapsed / 60);
    text.append(":");
    text.append(decimal_of(p.elapsed % 60).as_str());
    text.append("/");
    text.append(decimal_of(p.total / 60).as_str());
    text.append(":");
    text.append(decimal_of(p.total % 60).as_str());
    text.append(" (");
    text.append(signed_decimal_of(p.percent).as_str());
    text.append("%)");
    text
}

/// How many entries of `queue` refer to `file`, and the place of the first
/// of them.
fn first_entry(queue: &Vec<Track>, file: &str) -> (r: (usize, Option<u32>))
    ensures
        r.0 == entries_of(queue.deep_view(), file@).len(),
        r.0 > 0 ==> r.1 == entries_of(queue.deep_view(), file@)[0].place,
{
    let wanted = String::from_str(file);
    let ghost tracks = queue.deep_view();
    let ghost same = |t: TrackView| t.file == file@;
    let mut count: usize = 0;
    let mut place: Option<u32> = None;
    let mut i: usize = 0;
    proof {
        reveal(Seq::filter);
        assert(tracks.take(0).filter(same) =~= Seq::<TrackView>::empty());
    }
    while i < queue.len()
        invariant
            i <= queue.len(),
            tracks == queue.deep_view(),
            wanted@ == file@,
            same == (|t: TrackView| t.file == file@),
            count == tracks.take(i as int).filter(same).len(),
            count <= i,
            count > 0 ==> place == tracks.take(i as int).filter(same)[0].place,
        decreases queue.len() - i,
    {
        proof {
            reveal(Seq::filter);
            assert(tracks.take(i + 1).drop_last() =~= tracks.take(i as int));
            assert(tracks.take(i + 1).last() == tracks[i as int]);
            assert(tracks[i as int] == queue[i as int]@);
        }
        if queue[i].file == wanted {
            if count == 0 {
                place = queue[i].place;
            }
            count += 1;
        }
        i += 1;
    }
    proof {
        assert(tracks.take(i as int) =~= tracks);
    }
    (count, place)
}

/// The stems of the files that the entries of `queue` refer to.
fn stems_of(queue: &Vec<Track>) -> (r: Vec<String>)
    ensures
        r.deep_view() == stems(queue.deep_view()),
{
    let mut names: Vec<String> = Vec::new();
    let mut i: usize = 0;
    while i < queue.len()
        invariant
            i <= queue.len(),
            names.len() == i,
            forall|j: int| 0 <= j < i ==> names[j]@ == stem(#[trigger] queue[j].file@),
        decreases queue.len() - i,
    {
        names.push(file_stem(queue[i].file.as_str()));
        i += 1;
    }
    proof {
        assert(names.deep_view() =~= stems(queue.deep_view()));
    }
    names
}

impl MpdClient {
    pub fn new() -> (r: MpdClient)
        ensures
            r@ == (MpdClientView {  }),
    {
        MpdClient {  }
    }

    fn connect(&self, session: &mut Session) -> (r: Result<(), Halt>)
        ensures
            ran(r, final(session)@) == self@.connect(old(session)@),
    {
        let request = DaemonRequest::Connect { address: String::from_str("127.0.0.1:6600") };
        match session.ask(Request::Daemon(request))? {
            Reply::Done => Ok(()),
            Reply::Failed(m) => Err(Halt::Fail(Error::DaemonUnavailable(m))),
            _ => Err(Halt::Fail(Error::DaemonUnavailable(misfit_text()))),
        }
    }

    fn command(&self, command: DaemonRequest, session: &mut Session) -> (r: Result<(), Halt>)
        ensures
            ran(r, final(session)@) == self@.command(command@, old(session)@),
    {
        match session.ask(Request::Daemon(command))? {
            Reply::Done => Ok(()),
            Reply::Failed(m) => Err(Halt::Fail(Error::DaemonOperationFailed(m))),
            _ => Err(Halt::Fail(Error::DaemonOperationFailed(misfit_text()))),
        }
    }

    fn read_status(&self, session: &mut Session) -> (r: Result<DaemonStatus, Halt>)
        ensures
            ran(r, final(session)@) == self@.read_status(old(session)@),
    {
        match session.ask(Request::Daemon(DaemonRequest::Status))? {
            Reply::Status(status) => Ok(status),
            Reply::Failed(m) => Err(Halt::Fail(Error::DaemonOperationFailed(m))),
            _ => Err(Halt::Fail(Error::DaemonOperationFailed(misfit_text()))),
        }
    }

    fn read_current(&self, session: &mut Session) -> (r: Result<Option<Track>, Halt>)
        ensures
            ran(r, final(session)@) == self@.read_current(old(session)@),
    {
        match session.ask(Request::Daemon(DaemonRequest::CurrentSong))? {
            Reply::CurrentSong(track) => Ok(track),
            Reply::Failed(m) => Err(Halt::Fail(Error::DaemonOperationFailed(m))),
            _ => Err(Halt::Fail(Error::DaemonOperationFailed(misfit_text()))),
        }
    }

    fn read_queue(&self, session: &mut Session) -> (r: Result<Vec<Track>, Halt>)
        ensures
            ran(r, final(session)@) == self@.read_queue(old(session)@),
    {
        match session.ask(Request::Daemon(DaemonRequest::Queue))? {
            Reply::Queue(tracks) => Ok(tracks),
            Reply::Failed(m) => Err(Halt::Fail(Error::DaemonOperationFailed(m))),
            _ => Err(Halt::Fail(Error::DaemonOperationFailed(misfit_text()))),
        }
    }

    fn single(&self, command: DaemonRequest, session: &mut Session) -> (r: Result<(), Halt>)
        ensures
            ran(r, final(session)@) == self@.single(command@, old(session)@),
    {
        self.connect(session)?;
        self.command(command, session)
    }

    /// Has the daemon look again at the media files there are.
    pub fn update_db(&self, session: &mut Session) -> (r: Result<(), Halt>)
        ensures
            ran(r, final(session)@) == self@.update_db(old(session)@),
    {
        self.single(DaemonRequest::Update, session)
    }

    /// Puts the song's media file at the end of the queue.
    pub fn add_to_queue(&self, song_id: &str, session: &mut Session) -> (r: Result<(), Halt>)
        ensures
            ran(r, final(session)@) == self@.add_to_queue(song_id@, old(session)@),
    {
        self.single(DaemonRequest::Push { file: media_file_of(song_id) }, session)
    }

    /// Starts playback.
    pub fn play(&self, session: &mut Session) -> (r: Result<(), Halt>)
        ensures
            ran(r, final(session)@) == self@.play(old(session)@),
    {
        self.single(DaemonRequest::Play, session)
    }

    /// Pauses or resumes: as `state` says, or the opposite of what the
    /// daemon does now.
    pub fn pause(&self, state: Intent, session: &mut Session) -> (r: Result<(), Halt>)
        ensures
            ran(r, final(session)@) == self@.pause(state, old(session)@),
    {
        self.connect(session)?;
        let status = self.read_status(session)?;
        match state {
            Intent::ForceOn => self.command(DaemonRequest::Pause(true), session),
            Intent::ForceOff => self.command(DaemonRequest::Pause(false), session),
            Intent::Toggle => {
                let playing = match status.state {
                    PlayState::Play => true,
                    _ => false,
                };
                self.command(DaemonRequest::Pause(playing), session)?;
                let now = self.read_status(session)?;
                let paused = match now.state {
                    PlayState::Pause => true,
                    _ => false,
                };
                session.say(String::from_str("Pause: ").concat(truth_of(paused).as_str()));
                Ok(())
            },
        }
    }

    /// Sets random order: as `state` says, or to the opposite of what it
    /// is now.
    pub fn shuffle(&self, state: Intent, session: &mut Session) -> (r: Result<(), Halt>)
        ensures
            ran(r, final(session)@) == self@.shuffle(state, old(session)@),
    {
        self.connect(session)?;
        let status = self.read_status(session)?;
        self.command(DaemonRequest::Random(state.apply(status.random)), session)?;
        let now = self.read_status(session)?;
        session.say(String::from_str("Shuffle: ").concat(truth_of(now.random).as_str()));
        Ok(())
    }

    /// Empties the queue.
    pub fn clear_queue(&self, session: &mut Session) -> (r: Result<(), Halt>)
        ensures
            ran(r, final(session)@) == self@.clear_queue(old(session)@),
    {
        self.single(DaemonRequest::Clear, session)
    }

    /// Skips to the next entry of the queue.
    pub fn next(&self, session: &mut Session) -> (r: Result<(), Halt>)
        ensures
            ran(r, final(session)@) == self@.next(old(session)@),
    {
        self.single(DaemonRequest::Next, session)
    }

    /// Goes back to the entry before.
    pub fn previous(&self, session: &mut Session) -> (r: Result<(), Halt>)
        ensures
            ran(r, final(session)@) == self@.previous(old(session)@),
    {
        self.single(DaemonRequest::Previous, session)
    }

    /// The media file that is playing.
    pub fn current(&self, session: &mut Session) -> (r: Result<String, Halt>)
        ensures
            ran(r, final(session)@) == self@.current(old(session)@),
    {
        self.connect(session)?;
        match self.read_current(session)? {
            Some(track) => Ok(track.file),
            None => Err(Halt::Fail(Error::NoSongInfo)),
        }
    }

    /// The clock of the track that is playing.
    pub fn current_time(&self, session: &mut Session) -> (r: Result<String, Halt>)
        ensures
            ran(r, final(session)@) == self@.current_time(old(session)@),
    {
        self.connect(session)?;
        let status = self.read_status(session)?;
        match status.time {
            Some(progress) => Ok(clock_of(progress)),
            None => Err(Halt::Fail(Error::NoSongInfo)),
        }
    }

    /// Switches repeat over.
    pub fn repeat(&self, session: &mut Session) -> (r: Result<(), Halt>)
        ensures
            ran(r, final(session)@) == self@.repeat(old(session)@),
    {
        self.connect(session)?;
        let status = self.read_status(session)?;
        let repeat = !status.repeat;
        self.command(DaemonRequest::Repeat(repeat), session)?;
        session.say(String::from_str("Repeat: ").concat(truth_of(repeat).as_str()));
        Ok(())
    }

    /// Moves playback to `perc` percent of the current track.
    pub fn seek(&self, perc: u8, session: &mut Session) -> (r: Result<(), Halt>)
        ensures
            ran(r, final(session)@) == self@.seek(perc, old(session)@),
    {
        self.connect(session)?;
        let track = match self.read_current(session)? {
            Some(track) => track,
            None => {
                return Ok(());
            },
        };
        let queue = self.read_queue(session)?;
        let (count, place) = first_entry(&queue, track.file.as_str());
        if count != 1 {
            return Err(Halt::Fail(Error::NoSongInfo));
        }
        let place = match place {
            Some(place) => place,
            None => {
                return Err(Halt::Fail(Error::NoSongInfo));
            },
        };
        let status = self.read_status(session)?;
        let progress = match status.time {
            Some(progress) => progress,
            None => {
                return Err(Halt::Fail(Error::NoSongInfo));
            },
        };
        let seconds = seek_target_of(progress.total, perc);
        self.command(DaemonRequest::Seek { place, seconds }, session)?;
        session.say(enclose("Seeked to ", decimal_of(perc as u64).as_str(), "%"));
        Ok(())
    }

    /// The daemon's transport state, in short.
    pub fn status(&self, session: &mut Session) -> (r: Result<Status, Halt>)
        ensures
            ran(r, final(session)@) == self@.status(old(session)@),
    {
        self.connect(session)?;
        let status = self.read_status(session)?;
        Ok(
            Status {
                repeat: status.repeat,
                random: status.random,
                is_paused: match status.state {
                    PlayState::Play => false,
                    _ => true,
                },
            },
        )
    }

    /// The song identifiers that the queue's entries stand for.
    pub fn queue(&self, session: &mut Session) -> (r: Result<Vec<String>, Halt>)
        ensures
            ran(r, final(session)@) == self@.queue(old(session)@),
    {
        self.connect(session)?;
        let tracks = self.read_queue(session)?;
        Ok(stems_of(&tracks))
    }

    /// Takes the song's first entry out of the queue.
    pub fn remove_from_queue(&self, song_id: &str, session: &mut Session) -> (r: Result<(), Halt>)
        ensures
            ran(r, final(session)@) == self@.remove_from_queue(song_id@, old(session)@),
    {
        self.connect(session)?;
        let tracks = self.read_queue(session)?;
        let (count, place) = first_entry(&tracks, media_file_of(song_id).as_str());
        if count == 0 {
            return Ok(());
        }
        match place {
            Some(place) => self.command(DaemonRequest::Delete { place }, session),
            None => Ok(()),
        }
    }

    /// Puts the queue in a random order.
    pub fn shuffle_queue(&self, session: &mut Session) -> (r: Result<(), Halt>)
        ensures
            ran(r, final(session)@) == self@.shuffle_queue(old(session)@),
    {
        self.single(DaemonRequest::Shuffle, session)
    }
}

} // verus!
