//! What holds of the commands in every world that answers as `world`
//! describes.

use vstd::prelude::*;
use crate::args::{
    Command, DownloadOptions, MpdOptions, PlayOptions, PlayPlaylistOptions, PlaySongOptions,
    PlaylistCreateOptions,
    PlaylistDeleteOptions, PlaylistInsertOptions, PlaylistOptions, PlaylistRemoveOptions,
    SongDeleteOptions, SongOptions,
};
use crate::dispatch::step_of;
use crate::error::{ErrorView, Subject};
use crate::handler::{song_line, HandlerView};
use crate::models::{PlaylistSongView, SongView};
use crate::mpd_client::{daemon_address, media_file, stems};
use crate::protocol::{
    CatalogRequestView, DaemonRequestView, HaltView, OutcomeView, PlayState, Ran, ReplyView, RequestView, SessionView,
    StepView, TrackView,
};
use crate::text::{split, stem, trim, truth};
use crate::world::{Daemon, Run, World};

verus! {

/// What a pause without a state given makes of the daemon's state.
pub open spec fn toggled(state: PlayState) -> PlayState {
    match state {
        PlayState::Play => PlayState::Pause,
        PlayState::Pause => PlayState::Play,
        PlayState::Stop => PlayState::Stop,
    }
}

/// A pause command that meets no failure changes nothing but the daemon's
/// state, which it toggles, and reports whether the daemon is paused
/// afterwards.
#[verifier::spinoff_prover]
#[verifier::rlimit(50)]
pub proof fn lemma_pause_run(h: HandlerView, run: Run, outcome: OutcomeView)
    requires
        run.of(h, Command::Mpd(MpdOptions::Pause {  })),
        run.unfailing(),
        run.ends_with(h, Command::Mpd(MpdOptions::Pause {  }), outcome),
    ensures
        run.last() == (World {
            daemon: Daemon { state: toggled(run.first().daemon.state), ..run.first().daemon },
            ..run.first()
        }),
        outcome.result is Ok,
        outcome.lines == seq!["Pause: "@ + truth(run.last().daemon.state == PlayState::Pause)],
{
    let command = Command::Mpd(MpdOptions::Pause {  });
    let a = run.answers;
    let n = a.len();
    assert(n >= 1);
    assert(run.fits(h, command, 0));
    assert(n >= 2);
    assert(run.fits(h, command, 1));
    assert(n >= 3);
    assert(run.fits(h, command, 2));
    assert(n >= 4);
    assert(run.fits(h, command, 3));
    if n > 4 {
        assert(run.fits(h, command, 4));
    }
    assert(a.take(4) =~= a);
}

/// Pausing toggles. Where the daemon plays and nothing fails, a pause
/// command leaves it paused and reports `true`; the same command once more
/// leaves it playing and reports `false`.
pub proof fn law_pause_toggles(
    h: HandlerView,
    once: Run,
    first: OutcomeView,
    again: Run,
    second: OutcomeView,
)
    requires
        once.of(h, Command::Mpd(MpdOptions::Pause {  })),
        once.unfailing(),
        once.ends_with(h, Command::Mpd(MpdOptions::Pause {  }), first),
        once.first().daemon.state == PlayState::Play,
        again.of(h, Command::Mpd(MpdOptions::Pause {  })),
        again.unfailing(),
        again.ends_with(h, Command::Mpd(MpdOptions::Pause {  }), second),
        again.first() == once.last(),
    ensures
        once.last().daemon.state == PlayState::Pause,
        first == (OutcomeView { lines: seq!["Pause: "@ + "true"@], result: Ok(()) }),
        again.last().daemon.state == PlayState::Play,
        second == (OutcomeView { lines: seq!["Pause: "@ + "false"@], result: Ok(()) }),
        again.last() == once.first(),
{
    lemma_pause_run(h, once, first);
    lemma_pause_run(h, again, second);
}

/// The catalog row outlasts a failed removal of the audio file. A delete
/// command that ends because the media cache could not remove the file has
/// left the whole world as it was, and the song still goes by its name.
#[verifier::spinoff_prover]
#[verifier::rlimit(50)]
pub proof fn law_song_outlasts_failed_removal(
    h: HandlerView,
    options: SongDeleteOptions,
    run: Run,
    outcome: OutcomeView,
)
    requires
        run.of(h, Command::Song(SongOptions::Delete(options))),
        run.ends_with(h, Command::Song(SongOptions::Delete(options)), outcome),
        outcome.result matches Err(ErrorView::ArtifactDeleteFailed(_)),
    ensures
        run.last() == run.first(),
        run.last().catalog.has_name(options.name@),
{
    let command = Command::Song(SongOptions::Delete(options));
    let a = run.answers;
    let n = a.len();
    assert(n >= 1);
    assert(run.fits(h, command, 0));
    assert(n >= 2);
    assert(run.fits(h, command, 1));
    if n > 2 {
        assert(run.fits(h, command, 2));
    }
    assert(a.take(2) =~= a);
    assert(a[0] matches ReplyView::Song(Some(row)) && run.first().catalog.has_song(row)
        && row.name == options.name@);
}

/// A song that was deleted is gone from the catalog and from the media
/// cache. Once the delete command has got past the catalog, whether or not
/// the daemon could then be told, the song that went by the name has no
/// row, no membership and no audio file left.
#[verifier::spinoff_prover]
#[verifier::rlimit(50)]
pub proof fn law_deleted_song_is_gone(
    h: HandlerView,
    options: SongDeleteOptions,
    run: Run,
    outcome: OutcomeView,
)
    requires
        run.of(h, Command::Song(SongOptions::Delete(options))),
        run.ends_with(h, Command::Song(SongOptions::Delete(options)), outcome),
        past_the_stores(outcome),
    ensures
        run.answers[0] matches ReplyView::Song(Some(song)) && {
            &&& song.name == options.name@
            &&& run.first().catalog.has_song(song)
            &&& run.last().catalog == run.first().catalog.without_song(song.id)
            &&& !run.last().catalog.songs.dom().contains(song.id)
            &&& forall|playlist: Seq<char>|
                !run.last().catalog.members.contains((playlist, song.id))
            &&& !run.last().cache.files.contains(h.api.audio_path(song.id))
        },
{
    let command = Command::Song(SongOptions::Delete(options));
    let a = run.answers;
    let n = a.len();
    assert(n >= 1);
    assert(run.fits(h, command, 0));
    assert(n >= 2);
    assert(run.fits(h, command, 1));
    assert(n >= 3);
    assert(run.fits(h, command, 2));
    assert(n >= 4);
    assert(run.fits(h, command, 3));
    if n > 4 {
        assert(run.fits(h, command, 4));
    }
    if n > 5 {
        assert(run.fits(h, command, 5));
    }
    assert(a.take(n as int) =~= a);
}

/// After a playlist is deleted, no membership of it is left, and putting a
/// song into it fails with `NotFound` for the playlist.
#[verifier::spinoff_prover]
#[verifier::rlimit(50)]
pub proof fn law_deleted_playlist_is_gone(
    h: HandlerView,
    options: PlaylistDeleteOptions,
    deletion: Run,
    deleted: OutcomeView,
    insert: PlaylistInsertOptions,
    insertion: Run,
    inserted: OutcomeView,
)
    requires
        deletion.of(h, Command::Playlist(PlaylistOptions::Delete(options))),
        deletion.ends_with(h, Command::Playlist(PlaylistOptions::Delete(options)), deleted),
        deleted.result is Ok,
        insert.playlist_name@ == options.name@,
        insertion.of(h, Command::Playlist(PlaylistOptions::Insert(insert))),
        insertion.ends_with(h, Command::Playlist(PlaylistOptions::Insert(insert)), inserted),
        insertion.first() == deletion.last(),
    ensures
        !deletion.last().catalog.playlists.contains(options.name@),
        forall|song: Seq<char>| !deletion.last().catalog.members.contains((options.name@, song)),
        inserted.result == Err::<(), ErrorView>(
            ErrorView::NotFound { subject: Subject::Playlist, name: options.name@ },
        ),
        insertion.last() == insertion.first(),
{
    let delete = Command::Playlist(PlaylistOptions::Delete(options));
    let a = deletion.answers;
    assert(a.len() >= 1);
    assert(deletion.fits(h, delete, 0));
    assert(a.len() >= 2);
    assert(deletion.fits(h, delete, 1));
    if a.len() > 2 {
        assert(deletion.fits(h, delete, 2));
    }
    assert(a.take(2) =~= a);
    let put = Command::Playlist(PlaylistOptions::Insert(insert));
    let b = insertion.answers;
    assert(b.len() >= 1);
    assert(insertion.fits(h, put, 0));
    if b.len() > 1 {
        assert(insertion.fits(h, put, 1));
    }
    assert(b.take(1) =~= b);
    let rows = a[0]->Playlists_0;
    let names = crate::handler::playlist_names(rows);
    let i = choose|i: int| 0 <= i < names.len() && names[i] == options.name@;
    assert(rows.contains(rows[i]));
    assert(deletion.first().catalog.playlists.contains(options.name@));
    assert(deletion.last().catalog == deletion.first().catalog.without_playlist(options.name@));
}

/// Whether a command that ends by telling the daemon got as far as that: it
/// ended well, or failed only in telling the daemon.
pub open spec fn past_the_stores(outcome: OutcomeView) -> bool {
    match outcome.result {
        Ok(_) => true,
        Err(ErrorView::DaemonUnavailable(_)) => true,
        Err(ErrorView::DaemonOperationFailed(_)) => true,
        Err(_) => false,
    }
}

/// A failed fetch does not take the catalog row back. A registration that
/// ends because the media cache could not fetch has left the song's row in
/// the catalog; where it was the audio that could not be fetched, the
/// cache is as it was.
#[verifier::spinoff_prover]
#[verifier::rlimit(50)]
pub proof fn law_row_outlasts_failed_fetch(
    h: HandlerView,
    options: DownloadOptions,
    run: Run,
    outcome: OutcomeView,
)
    requires
        run.of(h, Command::Download(options)),
        run.ends_with(h, Command::Download(options), outcome),
        outcome.result matches Err(ErrorView::ArtifactFetchFailed(_)),
    ensures
        run.last().catalog == (crate::world::Catalog {
            songs: run.first().catalog.songs.insert(
                options.id@,
                SongView {
                    id: options.id@,
                    name: options.name@,
                    artist: options.artist.deep_view(),
                },
            ),
            ..run.first().catalog
        }),
        !run.first().catalog.songs.dom().contains(options.id@),
        run.answers.len() == 2 ==> run.last().cache == run.first().cache,
        run.last().daemon == run.first().daemon,
{
    let command = Command::Download(options);
    let a = run.answers;
    let n = a.len();
    assert(n >= 1);
    assert(run.fits(h, command, 0));
    assert(n >= 2);
    assert(run.fits(h, command, 1));
    if n > 2 {
        assert(run.fits(h, command, 2));
    }
    if n > 3 {
        assert(run.fits(h, command, 3));
    }
    assert(a.take(n as int) =~= a);
}

/// A registered song is found by its name, under the identifier it was
/// registered with, and its audio file lies at the path that the
/// identifier gives. This is stated for a display name that no song went
/// by before: the catalog may answer a name of several songs with any of
/// them.
#[verifier::spinoff_prover]
#[verifier::rlimit(50)]
pub proof fn law_registered_song_resolves(
    h: HandlerView,
    options: DownloadOptions,
    run: Run,
    outcome: OutcomeView,
    answer: ReplyView,
    after: World,
)
    requires
        run.of(h, Command::Download(options)),
        run.ends_with(h, Command::Download(options), outcome),
        past_the_stores(outcome),
        !run.first().catalog.has_name(options.name@),
        run.last().answers(
            RequestView::Catalog(CatalogRequestView::SongByName(options.name@)),
            answer,
            after,
        ),
        !(answer is Failed),
    ensures
        answer matches ReplyView::Song(Some(row)) && row.id == options.id@,
        run.last().cache.files.contains(h.api.audio_path(options.id@)),
{
    let command = Command::Download(options);
    let a = run.answers;
    let n = a.len();
    let row = SongView { id: options.id@, name: options.name@, artist: options.artist.deep_view() };
    assert(n >= 1);
    assert(run.fits(h, command, 0));
    assert(n >= 2);
    assert(run.fits(h, command, 1));
    assert(n >= 3);
    assert(run.fits(h, command, 2));
    if n > 3 {
        assert(run.fits(h, command, 3));
    }
    if n > 4 {
        assert(run.fits(h, command, 4));
    }
    if n > 5 {
        assert(run.fits(h, command, 5));
    }
    assert(a.take(n as int) =~= a);
    assert(run.worlds[1].catalog.has_song(row));
    assert(run.worlds[2].cache.files.contains(h.api.audio_path(options.id@)));
    let c = run.last().catalog;
    assert(c.has_song(row));
    assert forall|other: SongView| c.has_song(other) && other.name == options.name@ implies other
        == row by {
        if other.id != row.id {
            assert(run.first().catalog.has_song(other));
        }
    }
}

/// Whether `song` is among `songs`, and the only one of them that goes by
/// its name.
pub open spec fn sole_bearer(songs: Map<Seq<char>, SongView>, song: SongView) -> bool {
    &&& songs.dom().contains(song.id)
    &&& songs[song.id] == song
    &&& forall|id: Seq<char>| #[trigger]
        songs.dom().contains(id) && songs[id].name == song.name ==> songs[id] == song
}

/// Putting a song into a playlist, where both are there, the song is the
/// only one of its name and nothing fails: the pair becomes a membership,
/// or, where it is one already, the command fails with
/// `DuplicateMembership` and changes nothing.
#[verifier::spinoff_prover]
#[verifier::rlimit(50)]
pub proof fn lemma_insert_run(
    h: HandlerView,
    options: PlaylistInsertOptions,
    run: Run,
    outcome: OutcomeView,
    song: SongView,
)
    requires
        run.of(h, Command::Playlist(PlaylistOptions::Insert(options))),
        run.unfailing(),
        run.ends_with(h, Command::Playlist(PlaylistOptions::Insert(options)), outcome),
        run.first().catalog.playlists.contains(options.playlist_name@),
        sole_bearer(run.first().catalog.songs, song),
        song.name == options.song_name@,
    ensures
        run.first().catalog.members.contains((options.playlist_name@, song.id)) ==> outcome.result
            == Err::<(), ErrorView>(ErrorView::DuplicateMembership) && run.last() == run.first(),
        !run.first().catalog.members.contains((options.playlist_name@, song.id))
            ==> outcome.result is Ok && run.last() == (World {
            catalog: crate::world::Catalog {
                members: run.first().catalog.members.insert((options.playlist_name@, song.id)),
                ..run.first().catalog
            },
            ..run.first()
        }),
{
    let command = Command::Playlist(PlaylistOptions::Insert(options));
    let a = run.answers;
    let n = a.len();
    assert(n >= 1);
    assert(run.fits(h, command, 0));
    assert(n >= 2);
    assert(run.fits(h, command, 1));
    assert(a[1] == ReplyView::Song(Some(song))) by {
        let found = a[1]->Song_0;
        assert(found is Some) by {
            if found is None {
                assert(run.first().catalog.has_song(song));
            }
        }
        assert(run.first().catalog.songs.dom().contains(found->0.id));
    }
    assert(n >= 3);
    assert(run.fits(h, command, 2));
    if n > 3 {
        assert(run.fits(h, command, 3));
    }
    assert(a.take(3) =~= a);
}

/// Taking a song out of a playlist, where both are there, the song is the
/// only one of its name and nothing fails: the membership goes, or, where
/// there is none, the command fails with `NotFound` and changes nothing.
#[verifier::spinoff_prover]
#[verifier::rlimit(50)]
pub proof fn lemma_remove_run(
    h: HandlerView,
    options: PlaylistRemoveOptions,
    run: Run,
    outcome: OutcomeView,
    song: SongView,
)
    requires
        run.of(h, Command::Playlist(PlaylistOptions::Remove(options))),
        run.unfailing(),
        run.ends_with(h, Command::Playlist(PlaylistOptions::Remove(options)), outcome),
        run.first().catalog.playlists.contains(options.playlist_name@),
        sole_bearer(run.first().catalog.songs, song),
        song.name == options.song_name@,
    ensures
        run.first().catalog.members.contains((options.playlist_name@, song.id)) ==> outcome.result
            is Ok && run.last() == (World {
            catalog: crate::world::Catalog {
                members: run.first().catalog.members.remove((options.playlist_name@, song.id)),
                ..run.first().catalog
            },
            ..run.first()
        }),
        !run.first().catalog.members.contains((options.playlist_name@, song.id))
            ==> outcome.result == Err::<(), ErrorView>(
            ErrorView::NotFound { subject: Subject::Membership, name: options.song_name@ },
        ) && run.last() == run.first(),
{
    let command = Command::Playlist(PlaylistOptions::Remove(options));
    let a = run.answers;
    let n = a.len();
    assert(n >= 1);
    assert(run.fits(h, command, 0));
    assert(a[0] == ReplyView::Song(Some(song))) by {
        let found = a[0]->Song_0;
        assert(found is Some) by {
            if found is None {
                assert(run.first().catalog.has_song(song));
            }
        }
        assert(run.first().catalog.songs.dom().contains(found->0.id));
    }
    assert(n >= 2);
    assert(run.fits(h, command, 1));
    assert(n >= 3);
    assert(run.fits(h, command, 2));
    if n > 3 {
        assert(run.fits(h, command, 3));
    }
    assert(a.take(3) =~= a);
}

/// A membership is there at most once. Putting the same song into the same
/// playlist twice succeeds, then fails with `DuplicateMembership`; once the
/// song is taken out again, putting it in succeeds anew. This is stated
/// for a song that is the only one of its name, in runs where nothing
/// fails.
pub proof fn law_membership_is_unique(
    h: HandlerView,
    put: PlaylistInsertOptions,
    take: PlaylistRemoveOptions,
    song: SongView,
    first: Run,
    first_end: OutcomeView,
    second: Run,
    second_end: OutcomeView,
    third: Run,
    third_end: OutcomeView,
    fourth: Run,
    fourth_end: OutcomeView,
)
    requires
        take.playlist_name@ == put.playlist_name@,
        take.song_name@ == put.song_name@,
        song.name == put.song_name@,
        first.first().catalog.playlists.contains(put.playlist_name@),
        sole_bearer(first.first().catalog.songs, song),
        !first.first().catalog.members.contains((put.playlist_name@, song.id)),
        first.of(h, Command::Playlist(PlaylistOptions::Insert(put))),
        first.unfailing(),
        first.ends_with(h, Command::Playlist(PlaylistOptions::Insert(put)), first_end),
        second.first() == first.last(),
        second.of(h, Command::Playlist(PlaylistOptions::Insert(put))),
        second.unfailing(),
        second.ends_with(h, Command::Playlist(PlaylistOptions::Insert(put)), second_end),
        third.first() == second.last(),
        third.of(h, Command::Playlist(PlaylistOptions::Remove(take))),
        third.unfailing(),
        third.ends_with(h, Command::Playlist(PlaylistOptions::Remove(take)), third_end),
        fourth.first() == third.last(),
        fourth.of(h, Command::Playlist(PlaylistOptions::Insert(put))),
        fourth.unfailing(),
        fourth.ends_with(h, Command::Playlist(PlaylistOptions::Insert(put)), fourth_end),
    ensures
        first_end.result is Ok,
        second_end.result == Err::<(), ErrorView>(ErrorView::DuplicateMembership),
        third_end.result is Ok,
        fourth_end.result is Ok,
        first.last().catalog.members.contains((put.playlist_name@, song.id)),
        second.last() == first.last(),
        !third.last().catalog.members.contains((put.playlist_name@, song.id)),
        fourth.last().catalog.members.contains((put.playlist_name@, song.id)),
{
    lemma_insert_run(h, put, first, first_end, song);
    lemma_insert_run(h, put, second, second_end, song);
    lemma_remove_run(h, take, third, third_end, song);
    lemma_insert_run(h, put, fourth, fourth_end, song);
}

/// Where the daemon plays a file whose stem the catalog does not know, the
/// report of the current song fails with `NoSongInfo`.
#[verifier::spinoff_prover]
#[verifier::rlimit(50)]
pub proof fn law_unknown_current_song(
    h: HandlerView,
    run: Run,
    outcome: OutcomeView,
    track: TrackView,
)
    requires
        run.of(h, Command::Mpd(MpdOptions::Current {  })),
        run.unfailing(),
        run.ends_with(h, Command::Mpd(MpdOptions::Current {  }), outcome),
        run.first().daemon.current == Some(track),
        !run.first().catalog.songs.dom().contains(stem(track.file)),
    ensures
        outcome.result == Err::<(), ErrorView>(ErrorView::NoSongInfo),
        outcome.lines.len() == 0,
        run.last() == run.first(),
{
    let command = Command::Mpd(MpdOptions::Current {  });
    let a = run.answers;
    let n = a.len();
    assert(n >= 1);
    assert(run.fits(h, command, 0));
    assert(n >= 2);
    assert(run.fits(h, command, 1));
    assert(n >= 3);
    assert(run.fits(h, command, 2));
    assert(n >= 4);
    assert(run.fits(h, command, 3));
    if n > 4 {
        assert(run.fits(h, command, 4));
    }
    if n > 5 {
        assert(run.fits(h, command, 5));
    }
    assert(a.take(n as int) =~= a);
}

/// The lines that list those of `ids` under which `songs` holds a song, in
/// the order of `ids`.
pub open spec fn known_lines(songs: Map<Seq<char>, SongView>, ids: Seq<Seq<char>>) -> Seq<
    Seq<char>,
>
    decreases ids.len(),
{
    if ids.len() == 0 {
        Seq::empty()
    } else if songs.dom().contains(ids[0]) {
        seq![song_line(songs[ids[0]])] + known_lines(songs, ids.drop_first())
    } else {
        known_lines(songs, ids.drop_first())
    }
}

/// What a catalog that holds `songs` answers when asked for the song `id`.
pub open spec fn looked_up(songs: Map<Seq<char>, SongView>, id: Seq<char>) -> ReplyView {
    ReplyView::Song(
        if songs.dom().contains(id) {
            Some(songs[id])
        } else {
            None
        },
    )
}

/// Listing the known ones among `ids` on a session whose answers are the
/// catalog's, one for each identifier in turn: it asks for the first
/// identifier that has no answer yet, or, with all answered, has reported
/// the known ones' lines.
pub proof fn lemma_list_known(
    h: HandlerView,
    songs: Map<Seq<char>, SongView>,
    ids: Seq<Seq<char>>,
    s: SessionView,
)
    requires
        forall|i: int|
            0 <= i < s.answers.len() && i < ids.len() ==> s.answers[i] == looked_up(songs, ids[i]),
    ensures
        s.answers.len() < ids.len() ==> h.list_known(ids, s).result == Err::<(), HaltView>(
            HaltView::Ask(
                RequestView::Catalog(CatalogRequestView::SongById(ids[s.answers.len() as int])),
            ),
        ),
        s.answers.len() >= ids.len() ==> h.list_known(ids, s) == Ran::ok(
            (),
            SessionView {
                answers: s.answers.skip(ids.len() as int),
                lines: s.lines + known_lines(songs, ids),
            },
        ),
    decreases ids.len(),
{
    if ids.len() == 0 {
        assert(s.answers.skip(0) =~= s.answers);
        assert(s.lines + known_lines(songs, ids) =~= s.lines);
    } else if s.answers.len() > 0 {
        let rest = ids.drop_first();
        let found = h.database.get_song_by_id(ids[0], s);
        assert(s.answers[0] == looked_up(songs, ids[0]));
        let next = match found.result->Ok_0 {
            Some(song) => found.session.say(song_line(song)),
            None => found.session,
        };
        assert(h.list_known(ids, s) == h.list_known(rest, next));
        assert forall|i: int| 0 <= i < next.answers.len() && i < rest.len() implies next.answers[i]
            == looked_up(songs, rest[i]) by {
            assert(next.answers[i] == s.answers[i + 1]);
            assert(rest[i] == ids[i + 1]);
        }
        lemma_list_known(h, songs, rest, next);
        if s.answers.len() >= ids.len() {
            assert(next.answers.skip(rest.len() as int) =~= s.answers.skip(ids.len() as int));
            assert(next.lines + known_lines(songs, rest) =~= s.lines + known_lines(songs, ids));
        } else {
            assert(rest[next.answers.len() as int] == ids[s.answers.len() as int]);
        }
    }
}

/// In a run of the queue listing where nothing fails, every answer from
/// the third on is the catalog's to the lookup of the queue entry whose
/// turn it is, and the world stays as it was.
#[verifier::spinoff_prover]
#[verifier::rlimit(50)]
proof fn lemma_queue_lookups(h: HandlerView, run: Run, k: int)
    requires
        run.of(h, Command::Mpd(MpdOptions::Queue {  })),
        run.unfailing(),
        2 <= k <= run.answers.len(),
        run.answers[0] == ReplyView::Done,
        run.answers[1] == ReplyView::Queue(run.first().daemon.queue),
        run.worlds[1] == run.first(),
        run.worlds[2] == run.first(),
    ensures
        k - 2 <= stems(run.first().daemon.queue).len(),
        run.worlds[k] == run.first(),
        forall|i: int|
            2 <= i < k ==> run.answers[i] == looked_up(
                run.first().catalog.songs,
                stems(run.first().daemon.queue)[i - 2],
            ) && run.worlds[i + 1] == run.first(),
    decreases k,
{
    if k > 2 {
        lemma_queue_lookups(h, run, k - 1);
        let command = Command::Mpd(MpdOptions::Queue {  });
        let ids = stems(run.first().daemon.queue);
        let songs = run.first().catalog.songs;
        let given = run.answers.take(k - 1);
        let s = SessionView { answers: given.skip(2), lines: Seq::empty() };
        assert(given.drop_first().drop_first() =~= given.skip(2));
        assert forall|i: int| 0 <= i < s.answers.len() && i < ids.len() implies s.answers[i]
            == looked_up(songs, ids[i]) by {
            assert(s.answers[i] == run.answers[i + 2]);
        }
        lemma_list_known(h, songs, ids, s);
        assert(run.fits(h, command, k - 1));
    }
}

/// The queue listing passes over what the catalog does not know. Where
/// nothing fails, it ends well and has reported one line for each queue
/// entry whose stem the catalog knows, in the queue's order, and none for
/// the others.
#[verifier::spinoff_prover]
#[verifier::rlimit(50)]
pub proof fn law_queue_passes_over_unknown(h: HandlerView, run: Run, outcome: OutcomeView)
    requires
        run.of(h, Command::Mpd(MpdOptions::Queue {  })),
        run.unfailing(),
        run.ends_with(h, Command::Mpd(MpdOptions::Queue {  }), outcome),
    ensures
        outcome.result is Ok,
        outcome.lines == known_lines(
            run.first().catalog.songs,
            stems(run.first().daemon.queue),
        ),
        run.last() == run.first(),
{
    let command = Command::Mpd(MpdOptions::Queue {  });
    let a = run.answers;
    let n = a.len() as int;
    assert(n >= 1);
    assert(run.fits(h, command, 0));
    assert(n >= 2);
    assert(run.fits(h, command, 1));
    lemma_queue_lookups(h, run, n);
    let ids = stems(run.first().daemon.queue);
    let songs = run.first().catalog.songs;
    let s = SessionView { answers: a.skip(2), lines: Seq::empty() };
    assert(a.drop_first().drop_first() =~= a.skip(2));
    assert forall|i: int| 0 <= i < s.answers.len() && i < ids.len() implies s.answers[i]
        == looked_up(songs, ids[i]) by {
        assert(s.answers[i] == a[i + 2]);
    }
    lemma_list_known(h, songs, ids, s);
    assert(Seq::<Seq<char>>::empty() + known_lines(songs, ids) =~= known_lines(songs, ids));
}

/// The lines reported for the songs put into a playlist at its creation.
pub open spec fn added_lines(pieces: Seq<Seq<char>>) -> Seq<Seq<char>> {
    pieces.map_values(|piece: Seq<char>| "Song "@ + piece + " added to playlist"@)
}

/// Whether an answer holds a song.
pub open spec fn found_some(answer: ReplyView) -> bool {
    answer matches ReplyView::Song(Some(_))
}

/// In a session made of pairs of answers, one pair for each song put into a
/// playlist, the answer to the lookup of song `i`.
pub open spec fn nth_lookup(answers: Seq<ReplyView>, i: int) -> ReplyView {
    answers[2 * i]
}

/// Whether song `id` goes by the name that piece `i` gives.
pub open spec fn bears(
    songs: Map<Seq<char>, SongView>,
    id: Seq<char>,
    pieces: Seq<Seq<char>>,
    i: int,
) -> bool {
    songs.dom().contains(id) && songs[id].name == trim(pieces[i])
}

/// Whether the playlist holds a song that goes by the name that piece `i`
/// gives.
pub open spec fn placed(world: World, playlist: Seq<char>, pieces: Seq<Seq<char>>, i: int) -> bool {
    exists|id: Seq<char>|
        world.catalog.members.contains((playlist, id)) && #[trigger] bears(
            world.catalog.songs,
            id,
            pieces,
            i,
        )
}

/// Whether `world` is `before` with the playlist created and the songs
/// named by the first `count` pieces put into it, and nothing else changed.
pub open spec fn grown(
    before: World,
    world: World,
    playlist: Seq<char>,
    pieces: Seq<Seq<char>>,
    count: int,
) -> bool {
    &&& world.cache == before.cache
    &&& world.daemon == before.daemon
    &&& world.catalog.songs == before.catalog.songs
    &&& world.catalog.playlists == before.catalog.playlists.insert(playlist)
    &&& forall|id: Seq<char>| #[trigger]
        world.catalog.members.contains((playlist, id)) ==> exists|i: int|
            0 <= i < count && #[trigger] bears(world.catalog.songs, id, pieces, i)
    &&& forall|i: int| 0 <= i < count ==> #[trigger] placed(world, playlist, pieces, i)
    &&& forall|other: Seq<char>, id: Seq<char>|
        other != playlist ==> (#[trigger] world.catalog.members.contains((other, id))
            <==> before.catalog.members.contains((other, id)))
}

/// Putting songs into a playlist on a session that begins with `j` pairs
/// of answers whose lookups found a song: the first `j` songs are dealt
/// with, their lines reported, and the rest goes on with what is left.
proof fn lemma_add_songs_prefix(
    h: HandlerView,
    name: Seq<char>,
    pieces: Seq<Seq<char>>,
    s: SessionView,
    j: int,
)
    requires
        0 <= j <= pieces.len(),
        2 * j <= s.answers.len(),
        forall|i: int|
            0 <= i < j ==> found_some(#[trigger] nth_lookup(s.answers, i)),
    ensures
        h.add_songs(name, pieces, s) == h.add_songs(
            name,
            pieces.skip(j),
            SessionView {
                answers: s.answers.skip(2 * j),
                lines: s.lines + added_lines(pieces.take(j)),
            },
        ),
    decreases j,
{
    if j == 0 {
        assert(pieces.skip(0) =~= pieces);
        assert(s.answers.skip(0) =~= s.answers);
        assert(s.lines + added_lines(pieces.take(0)) =~= s.lines);
    } else {
        assert(found_some(nth_lookup(s.answers, 0)));
        let row = s.answers[0]->Song_0->0;
        let found = h.database.get_song_by_name(trim(pieces[0]), s);
        let added = h.database.add_songs_to_playlist(
            PlaylistSongView { playlist_id: name, song_id: row.id },
            found.session,
        );
        let next = added.session.say("Song "@ + pieces[0] + " added to playlist"@);
        let rest = pieces.drop_first();
        assert(h.add_songs(name, pieces, s) == h.add_songs(name, rest, next));
        assert(next.answers =~= s.answers.skip(2));
        assert forall|i: int| 0 <= i < j - 1 implies found_some(#[trigger] nth_lookup(next.answers, i)) by {
            assert(nth_lookup(next.answers, i) == nth_lookup(s.answers, i + 1));
        }
        lemma_add_songs_prefix(h, name, rest, next, j - 1);
        assert(rest.skip(j - 1) =~= pieces.skip(j));
        assert(next.answers.skip(2 * (j - 1)) =~= s.answers.skip(2 * j));
        assert(next.lines + added_lines(rest.take(j - 1)) =~= s.lines + added_lines(
            pieces.take(j),
        ));
    }
}

/// Whether the answers are those of a playlist creation up to the first
/// song that is not found, which is song `k`: the playlist was inserted,
/// every lookup before that of song `k` found a song, and that of song `k`
/// found none.
pub open spec fn created_until(answers: Seq<ReplyView>, k: int) -> bool {
    &&& answers.len() >= 1
    &&& answers[0] == ReplyView::Done
    &&& forall|i: int|
        0 <= i < k && 1 + 2 * i < answers.len() ==> found_some(#[trigger] nth_lookup(answers.skip(1), i))
    &&& 1 + 2 * k < answers.len() ==> answers[1 + 2 * k] == ReplyView::Song(None)
}

/// What a playlist creation does next, given such answers: it looks up the
/// next song, or puts the song just found into the playlist, or, with the
/// lookup of song `k` answered, ends with `NotFound` for it.
#[verifier::spinoff_prover]
#[verifier::rlimit(50)]
proof fn lemma_create_step(
    h: HandlerView,
    options: PlaylistCreateOptions,
    answers: Seq<ReplyView>,
    k: int,
)
    requires
        0 <= k < split(options.songs@, ',').len(),
        answers.len() <= 2 * k + 2,
        created_until(answers, k),
    ensures
        answers.len() % 2 == 1 ==> step_of(
            h,
            Command::Playlist(PlaylistOptions::Create(options)),
            answers,
        ) == StepView::Call(
            RequestView::Catalog(
                CatalogRequestView::SongByName(
                    trim(split(options.songs@, ',')[(answers.len() - 1) / 2]),
                ),
            ),
        ),
        answers.len() % 2 == 0 && answers.len() < 2 * k + 2 ==> step_of(
            h,
            Command::Playlist(PlaylistOptions::Create(options)),
            answers,
        ) == StepView::Call(
            RequestView::Catalog(
                CatalogRequestView::InsertPlaylistSong(
                    PlaylistSongView {
                        playlist_id: options.name@,
                        song_id: answers[answers.len() - 1]->Song_0->0.id,
                    },
                ),
            ),
        ),
        answers.len() == 2 * k + 2 ==> step_of(
            h,
            Command::Playlist(PlaylistOptions::Create(options)),
            answers,
        ) == StepView::Done(
            OutcomeView {
                lines: added_lines(split(options.songs@, ',').take(k)),
                result: Err(
                    ErrorView::NotFound {
                        subject: Subject::Song,
                        name: split(options.songs@, ',')[k],
                    },
                ),
            },
        ),
{
    let pieces = split(options.songs@, ',');
    let name = options.name@;
    let idx = answers.len() as int;
    let j = (idx - 1) / 2;
    let s1 = SessionView { answers: answers.skip(1), lines: Seq::empty() };
    assert(answers.drop_first() =~= answers.skip(1));
    assert forall|i: int| 0 <= i < j implies found_some(#[trigger] nth_lookup(s1.answers, i)) by {
        assert(1 + 2 * i < idx);
    }
    lemma_add_songs_prefix(h, name, pieces, s1, j);
    let s2 = SessionView {
        answers: s1.answers.skip(2 * j),
        lines: s1.lines + added_lines(pieces.take(j)),
    };
    assert(s2.lines =~= added_lines(pieces.take(j)));
    assert(pieces.skip(j)[0] == pieces[j]);
    if idx % 2 == 0 {
        assert(s2.answers.len() == 1);
        assert(s2.answers[0] == answers[idx - 1]);
        if idx < 2 * k + 2 {
            assert(j < k);
            assert(nth_lookup(answers.skip(1), j) == answers[idx - 1]);
        } else {
            assert(j == k);
        }
    } else {
        assert(s2.answers.len() == 0);
    }
}

/// A run of a playlist creation, as far as its first `m` answers: they are
/// the answers of a creation up to the first song not found, each song
/// found goes by the name looked up, and the world has grown by the
/// playlist and the songs put into it so far.
#[verifier::spinoff_prover]
#[verifier::rlimit(50)]
proof fn lemma_create_run(
    h: HandlerView,
    options: PlaylistCreateOptions,
    run: Run,
    k: int,
    m: int,
)
    requires
        run.of(h, Command::Playlist(PlaylistOptions::Create(options))),
        run.unfailing(),
        run.first().catalog.wf(),
        !run.first().catalog.playlists.contains(options.name@),
        0 <= k < split(options.songs@, ',').len(),
        forall|i: int|
            0 <= i < k ==> run.first().catalog.has_name(
                #[trigger] trim(split(options.songs@, ',')[i]),
            ),
        !run.first().catalog.has_name(trim(split(options.songs@, ',')[k])),
        1 <= m <= run.answers.len(),
    ensures
        m <= 2 * k + 2,
        created_until(run.answers.take(m), k),
        forall|i: int|
            0 <= i < k && 1 + 2 * i < m ==> #[trigger] bears(
                run.first().catalog.songs,
                run.answers[1 + 2 * i]->Song_0->0.id,
                split(options.songs@, ','),
                i,
            ),
        grown(run.first(), run.worlds[m], options.name@, split(options.songs@, ','), (m - 1) / 2),
    decreases m,
{
    let command = Command::Playlist(PlaylistOptions::Create(options));
    let pieces = split(options.songs@, ',');
    let name = options.name@;
    let before = run.first();
    if m == 1 {
        assert(run.fits(h, command, 0));
        assert(run.answers.take(1)[0] == run.answers[0]);
        assert forall|id: Seq<char>| #[trigger]
            run.worlds[1].catalog.members.contains((name, id)) implies exists|i: int|
            0 <= i < 0 && #[trigger] bears(run.worlds[1].catalog.songs, id, pieces, i) by {
            assert(before.catalog.members.contains((name, id)));
        }
    } else {
        lemma_create_run(h, options, run, k, m - 1);
        let idx = m - 1;
        let given = run.answers.take(idx);
        let j = (idx - 1) / 2;
        lemma_create_step(h, options, given, k);
        assert(run.fits(h, command, idx));
        assert(idx < 2 * k + 2);
        let world = run.worlds[idx];
        let next = run.worlds[m];
        let all = run.answers.take(m);
        assert(all[0] == run.answers[0]);
        assert(given[0] == run.answers[0]);
        assert(world.catalog.songs == before.catalog.songs);
        if idx % 2 == 1 {
            assert(idx == 1 + 2 * j);
            assert(next == world);
            let looked = trim(pieces[j]);
            let found = run.answers[idx]->Song_0;
            if j < k {
                assert(before.catalog.has_name(looked));
                let known = choose|row: SongView| #[trigger]
                    before.catalog.has_song(row) && row.name == looked;
                assert(world.catalog.has_song(known));
                assert(world.catalog.has_name(looked));
                assert(found is Some);
                assert(bears(before.catalog.songs, found->0.id, pieces, j));
            } else {
                assert(j == k);
                if found is Some {
                    assert(before.catalog.has_song(found->0));
                    assert(before.catalog.has_name(looked));
                }
                assert(all[1 + 2 * k] == run.answers[idx]);
            }
        } else {
            assert(j < k);
            let row = run.answers[idx - 1]->Song_0->0;
            assert(given[idx - 1] == run.answers[idx - 1]);
            assert(row == run.answers[1 + 2 * j]->Song_0->0);
            assert(bears(before.catalog.songs, row.id, pieces, j));
            assert(bears(next.catalog.songs, row.id, pieces, j));
            assert(next.catalog.members.contains((name, row.id)));
            assert(placed(next, name, pieces, j));
            assert forall|i: int| 0 <= i < j + 1 implies #[trigger] placed(
                next,
                name,
                pieces,
                i,
            ) by {
                if i < j {
                    assert(placed(world, name, pieces, i));
                    let id = choose|id: Seq<char>|
                        world.catalog.members.contains((name, id)) && #[trigger] bears(
                            world.catalog.songs,
                            id,
                            pieces,
                            i,
                        );
                    assert(next.catalog.members.contains((name, id)));
                    assert(bears(next.catalog.songs, id, pieces, i));
                }
            }
            assert forall|id: Seq<char>| #[trigger]
                next.catalog.members.contains((name, id)) implies exists|i: int|
                0 <= i < j + 1 && #[trigger] bears(next.catalog.songs, id, pieces, i) by {
                if id != row.id {
                    assert(world.catalog.members.contains((name, id)));
                    let i = choose|i: int|
                        0 <= i < j && #[trigger] bears(world.catalog.songs, id, pieces, i);
                    assert(bears(next.catalog.songs, id, pieces, i));
                }
            }
        }
        assert forall|i: int| 0 <= i < k && 1 + 2 * i < m implies found_some(
            #[trigger] nth_lookup(all.skip(1), i),
        ) by {
            assert(nth_lookup(all.skip(1), i) == run.answers[1 + 2 * i]);
            if 1 + 2 * i < idx {
                assert(nth_lookup(given.skip(1), i) == run.answers[1 + 2 * i]);
            }
        }
        assert forall|i: int| 0 <= i < k && 1 + 2 * i < m implies #[trigger] bears(
            before.catalog.songs,
            run.answers[1 + 2 * i]->Song_0->0.id,
            pieces,
            i,
        ) by {
            if 1 + 2 * i >= idx {
                assert(i == j);
            }
        }
        if 1 + 2 * k < m {
            if 1 + 2 * k < idx {
                assert(given[1 + 2 * k] == run.answers[1 + 2 * k]);
            }
            assert(all[1 + 2 * k] == run.answers[1 + 2 * k]);
        }
    }
}

/// Creating a playlist stops at the first song that is not found, and
/// keeps what it has done. Where the playlist is new, nothing fails, and
/// piece `k` of the songs given is the first that names no song: the
/// command fails with `NotFound` for that piece as it was given, has
/// reported each piece before it, and leaves the playlist holding songs
/// that go by the names before it, one for each name, and no others.
pub proof fn law_create_stops_at_first_unknown(
    h: HandlerView,
    options: PlaylistCreateOptions,
    run: Run,
    outcome: OutcomeView,
    k: int,
)
    requires
        run.of(h, Command::Playlist(PlaylistOptions::Create(options))),
        run.unfailing(),
        run.ends_with(h, Command::Playlist(PlaylistOptions::Create(options)), outcome),
        run.first().catalog.wf(),
        !run.first().catalog.playlists.contains(options.name@),
        0 <= k < split(options.songs@, ',').len(),
        forall|i: int|
            0 <= i < k ==> run.first().catalog.has_name(
                #[trigger] trim(split(options.songs@, ',')[i]),
            ),
        !run.first().catalog.has_name(trim(split(options.songs@, ',')[k])),
    ensures
        outcome.result == Err::<(), ErrorView>(
            ErrorView::NotFound { subject: Subject::Song, name: split(options.songs@, ',')[k] },
        ),
        outcome.lines == added_lines(split(options.songs@, ',').take(k)),
        grown(run.first(), run.last(), options.name@, split(options.songs@, ','), k),
{
    let command = Command::Playlist(PlaylistOptions::Create(options));
    let n = run.answers.len() as int;
    assert(n >= 1);
    lemma_create_run(h, options, run, k, n);
    assert(run.answers.take(n) =~= run.answers);
    lemma_create_step(h, options, run.answers, k);
}

/// Playing a song leaves the daemon playing a queue of that one song.
/// Where nothing fails and a song goes by the name, the queue afterwards
/// holds one entry, for the media file of a song of that name.
#[verifier::spinoff_prover]
#[verifier::rlimit(50)]
pub proof fn law_play_song_queues_one(
    h: HandlerView,
    options: PlaySongOptions,
    run: Run,
    outcome: OutcomeView,
)
    requires
        run.of(h, Command::Play(PlayOptions::Song(options))),
        run.unfailing(),
        run.ends_with(h, Command::Play(PlayOptions::Song(options)), outcome),
        run.first().catalog.has_name(options.name@),
    ensures
        outcome.result is Ok,
        run.last().daemon.state == PlayState::Play,
        run.last().daemon.queue.len() == 1,
        exists|song: SongView| #[trigger]
            run.first().catalog.has_song(song) && song.name == options.name@
                && run.last().daemon.queue[0].file == media_file(song.id),
        run.last().catalog == run.first().catalog,
        run.last().cache == run.first().cache,
{
    let command = Command::Play(PlayOptions::Song(options));
    let a = run.answers;
    let n = a.len();
    assert(n >= 1);
    assert(run.fits(h, command, 0));
    assert(n >= 2);
    assert(run.fits(h, command, 1));
    assert(n >= 3);
    assert(run.fits(h, command, 2));
    assert(n >= 4);
    assert(run.fits(h, command, 3));
    assert(n >= 5);
    assert(run.fits(h, command, 4));
    assert(run.worlds[5].daemon.queue.len() == 0);
    assert(n >= 6);
    assert(run.fits(h, command, 5));
    let found = a[5]->Song_0;
    assert(found is Some);
    let song = found->0;
    assert(run.first().catalog.has_song(song));
    assert(n >= 7);
    assert(run.fits(h, command, 6));
    assert(n >= 8);
    assert(run.fits(h, command, 7));
    assert(run.worlds[8].daemon.queue.len() == 1);
    assert(run.worlds[8].daemon.queue[0].file == media_file(song.id));
    assert(n >= 9);
    assert(run.fits(h, command, 8));
    assert(n >= 10);
    assert(run.fits(h, command, 9));
    if n > 10 {
        assert(run.fits(h, command, 10));
    }
    assert(a.take(10) =~= a);
}

/// Whether the first `count` entries of the queue are for the media files
/// of the first `count` memberships, in their order.
pub open spec fn queued(queue: Seq<TrackView>, rows: Seq<PlaylistSongView>, count: int) -> bool {
    &&& queue.len() == count
    &&& forall|i: int|
        0 <= i < count ==> (#[trigger] queue[i]).file == media_file(rows[i].song_id)
}

/// Whether the answers are those of a playlist being played without a
/// failure: the five of pausing and emptying the queue, the playlist, its
/// memberships, which are `rows`, and nothing but consent from there on.
pub open spec fn played_so_far(answers: Seq<ReplyView>, rows: Seq<PlaylistSongView>) -> bool {
    &&& answers.len() >= 7
    &&& answers[0] == ReplyView::Done
    &&& answers[1] is Status
    &&& answers[2] == ReplyView::Done
    &&& answers[3] == ReplyView::Done
    &&& answers[4] == ReplyView::Done
    &&& answers[5] matches ReplyView::Playlist(Some(_))
    &&& answers[6] == ReplyView::PlaylistSongs(rows)
    &&& rows.len() > 0
    &&& forall|i: int| 7 <= i < answers.len() ==> #[trigger] answers[i] == ReplyView::Done
}

/// Queueing songs on a session that begins with `j` pairs of consent: the
/// first `j` songs are queued, and the rest goes on with what is left.
proof fn lemma_queue_all_prefix(
    h: HandlerView,
    rows: Seq<PlaylistSongView>,
    s: SessionView,
    j: int,
)
    requires
        0 <= j <= rows.len(),
        2 * j <= s.answers.len(),
        forall|i: int| 0 <= i < 2 * j ==> #[trigger] s.answers[i] == ReplyView::Done,
    ensures
        h.queue_all(rows, s) == h.queue_all(
            rows.skip(j),
            SessionView { answers: s.answers.skip(2 * j), lines: s.lines },
        ),
    decreases j,
{
    if j == 0 {
        assert(rows.skip(0) =~= rows);
        assert(s.answers.skip(0) =~= s.answers);
    } else {
        assert(s.answers[0] == ReplyView::Done);
        assert(s.answers[1] == ReplyView::Done);
        let next = SessionView { answers: s.answers.skip(2), lines: s.lines };
        assert(s.answers.drop_first().drop_first() =~= s.answers.skip(2));
        let rest = rows.drop_first();
        assert(h.queue_all(rows, s) == h.queue_all(rest, next));
        assert forall|i: int| 0 <= i < 2 * (j - 1) implies #[trigger] next.answers[i]
            == ReplyView::Done by {
            assert(next.answers[i] == s.answers[i + 2]);
        }
        lemma_queue_all_prefix(h, rest, next, j - 1);
        assert(rest.skip(j - 1) =~= rows.skip(j));
        assert(next.answers.skip(2 * (j - 1)) =~= s.answers.skip(2 * j));
    }
}

/// What playing a playlist does next, given such answers: it connects and
/// queues the next song, or, with all queued, connects and plays, or is
/// over.
#[verifier::spinoff_prover]
#[verifier::rlimit(50)]
proof fn lemma_play_playlist_step(
    h: HandlerView,
    options: PlayPlaylistOptions,
    answers: Seq<ReplyView>,
    rows: Seq<PlaylistSongView>,
)
    requires
        played_so_far(answers, rows),
        answers.len() <= 7 + 2 * rows.len() + 2,
    ensures
        (answers.len() - 7) % 2 == 0 && answers.len() < 7 + 2 * rows.len() + 2 ==> step_of(
            h,
            Command::Play(PlayOptions::Playlist(options)),
            answers,
        ) == StepView::Call(
            RequestView::Daemon(DaemonRequestView::Connect { address: daemon_address() }),
        ),
        (answers.len() - 7) % 2 == 1 && answers.len() < 7 + 2 * rows.len() ==> step_of(
            h,
            Command::Play(PlayOptions::Playlist(options)),
            answers,
        ) == StepView::Call(
            RequestView::Daemon(
                DaemonRequestView::Push {
                    file: media_file(rows[(answers.len() - 7) / 2].song_id),
                },
            ),
        ),
        answers.len() == 7 + 2 * rows.len() + 1 ==> step_of(
            h,
            Command::Play(PlayOptions::Playlist(options)),
            answers,
        ) == StepView::Call(RequestView::Daemon(DaemonRequestView::Play)),
        answers.len() == 7 + 2 * rows.len() + 2 ==> step_of(
            h,
            Command::Play(PlayOptions::Playlist(options)),
            answers,
        ) == StepView::Done(OutcomeView { lines: Seq::empty(), result: Ok(()) }),
{
    let x = answers.len() - 7;
    let j = if x / 2 <= rows.len() {
        x / 2
    } else {
        rows.len() as int
    };
    let s = SessionView { answers: answers.skip(7), lines: Seq::empty() };
    assert(answers.drop_first().drop_first().drop_first().drop_first().drop_first().drop_first()
        .drop_first() =~= answers.skip(7));
    assert forall|i: int| 0 <= i < 2 * j implies #[trigger] s.answers[i] == ReplyView::Done by {
        assert(s.answers[i] == answers[i + 7]);
    }
    lemma_queue_all_prefix(h, rows, s, j);
    let left = SessionView { answers: s.answers.skip(2 * j), lines: s.lines };
    if j < rows.len() {
        assert(rows.skip(j)[0] == rows[j]);
        if x % 2 == 1 {
            assert(left.answers.len() == 1);
            assert(left.answers[0] == answers[7 + 2 * j]);
        } else {
            assert(left.answers.len() == 0);
        }
    } else {
        assert(rows.skip(j).len() == 0);
        assert(left.answers.len() == x - 2 * j);
        if x - 2 * j >= 1 {
            assert(left.answers[0] == answers[7 + 2 * j]);
        }
        if x - 2 * j >= 2 {
            assert(left.answers[1] == answers[8 + 2 * j]);
        }
    }
}

/// A run of a playlist being played, as far as its first `m` answers: from
/// the eighth on they are consent, the queue holds the songs queued so
/// far, and the daemon plays once the last answer is in.
#[verifier::spinoff_prover]
#[verifier::rlimit(50)]
proof fn lemma_play_playlist_run(
    h: HandlerView,
    options: PlayPlaylistOptions,
    run: Run,
    rows: Seq<PlaylistSongView>,
    m: int,
)
    requires
        run.of(h, Command::Play(PlayOptions::Playlist(options))),
        run.unfailing(),
        played_so_far(run.answers.take(7), rows),
        run.worlds[7].daemon.queue.len() == 0,
        7 <= m <= run.answers.len(),
    ensures
        m <= 7 + 2 * rows.len() + 2,
        played_so_far(run.answers.take(m), rows),
        run.worlds[m].catalog == run.worlds[7].catalog,
        run.worlds[m].cache == run.worlds[7].cache,
        queued(
            run.worlds[m].daemon.queue,
            rows,
            if (m - 7) / 2 <= rows.len() {
                (m - 7) / 2
            } else {
                rows.len() as int
            },
        ),
        m == 7 + 2 * rows.len() + 2 ==> run.worlds[m].daemon.state == PlayState::Play,
    decreases m,
{
    let command = Command::Play(PlayOptions::Playlist(options));
    if m > 7 {
        lemma_play_playlist_run(h, options, run, rows, m - 1);
        let idx = m - 1;
        let given = run.answers.take(idx);
        let all = run.answers.take(m);
        lemma_play_playlist_step(h, options, given, rows);
        assert(run.fits(h, command, idx));
        assert(idx < 7 + 2 * rows.len() + 2);
        assert(run.answers[idx] == ReplyView::Done);
        assert forall|i: int| 7 <= i < all.len() implies #[trigger] all[i] == ReplyView::Done by {
            if i < idx {
                assert(given[i] == ReplyView::Done);
            }
        }
        assert(all[0] == given[0]);
        assert(all[1] == given[1]);
        assert(all[2] == given[2]);
        assert(all[3] == given[3]);
        assert(all[4] == given[4]);
        assert(all[5] == given[5]);
        assert(all[6] == given[6]);
        let before = run.worlds[idx].daemon;
        let after = run.worlds[m].daemon;
        let x = idx - 7;
        if x % 2 == 1 && x < 2 * rows.len() {
            let j = x / 2;
            assert(after.queue.drop_last() == before.queue);
            assert forall|i: int| 0 <= i < j + 1 implies (#[trigger] after.queue[i]).file
                == media_file(rows[i].song_id) by {
                if i < j {
                    assert(after.queue[i] == after.queue.drop_last()[i]);
                }
            }
        }
    } else {
        assert(run.answers.take(7).take(7) =~= run.answers.take(7));
    }
}

/// Playing a playlist leaves the daemon playing its songs. Where nothing
/// fails and the command ends well, the playlist has memberships, and the
/// queue afterwards holds one entry for each of them, in the order in which
/// the catalog listed them.
#[verifier::spinoff_prover]
#[verifier::rlimit(50)]
pub proof fn law_play_playlist_queues_all(
    h: HandlerView,
    options: PlayPlaylistOptions,
    run: Run,
    outcome: OutcomeView,
)
    requires
        run.of(h, Command::Play(PlayOptions::Playlist(options))),
        run.unfailing(),
        run.ends_with(h, Command::Play(PlayOptions::Playlist(options)), outcome),
        outcome.result is Ok,
    ensures
        run.answers.len() >= 7,
        run.answers[6] matches ReplyView::PlaylistSongs(rows) && {
            &&& rows.len() > 0
            &&& forall|i: int|
                0 <= i < rows.len() ==> run.first().catalog.members.contains(
                    (options.name@, #[trigger] rows[i].song_id),
                )
            &&& queued(run.last().daemon.queue, rows, rows.len() as int)
        },
        run.last().daemon.state == PlayState::Play,
        run.last().catalog == run.first().catalog,
        run.last().cache == run.first().cache,
{
    let command = Command::Play(PlayOptions::Playlist(options));
    let a = run.answers;
    let n = a.len() as int;
    assert(n >= 1);
    assert(run.fits(h, command, 0));
    assert(n >= 2);
    assert(run.fits(h, command, 1));
    assert(n >= 3);
    assert(run.fits(h, command, 2));
    assert(n >= 4);
    assert(run.fits(h, command, 3));
    assert(n >= 5);
    assert(run.fits(h, command, 4));
    assert(run.worlds[5].daemon.queue.len() == 0);
    assert(n >= 6);
    assert(run.fits(h, command, 5));
    if n == 6 {
        assert(a.take(6) =~= a);
    } else {
        assert(run.fits(h, command, 6));
    }
    assert(a[5] matches ReplyView::Playlist(Some(_)));
    if n == 7 {
        assert(a.take(7) =~= a);
    } else {
        assert(run.fits(h, command, 7));
    }
    let rows = a[6]->PlaylistSongs_0;
    assert(rows.len() > 0);
    let first = a.take(7);
    assert(first[0] == a[0] && first[1] == a[1] && first[2] == a[2] && first[3] == a[3]
        && first[4] == a[4] && first[5] == a[5] && first[6] == a[6]);
    assert(played_so_far(first, rows));
    assert(run.worlds[7].daemon.queue.len() == 0);
    assert(run.worlds[7].catalog == run.first().catalog);
    assert(run.worlds[7].cache == run.first().cache);
    lemma_play_playlist_run(h, options, run, rows, n);
    assert(a.take(n) =~= a);
    lemma_play_playlist_step(h, options, a, rows);
    assert forall|i: int| 0 <= i < rows.len() implies run.first().catalog.members.contains(
        (options.name@, #[trigger] rows[i].song_id),
    ) by {
        assert(rows.contains(rows[i]));
    }
}

} // verus!
