//! The media cache, as the commands speak to it: one audio file per song,
//! fetched from the remote source and kept under the music directory.

use vstd::prelude::*;
use vstd::string::*;
use crate::error::{enclose, Error, ErrorView};
use crate::protocol::{
    misfit, misfit_text, ran, Halt, MediaRequest, MediaRequestView, Ran, Reply, ReplyView, Request,
    RequestView, Session, SessionView,
};

verus! {

/// Where the media cache keeps its files, and whether it keeps a picture
/// beside each song.
#[derive(Clone, Debug, PartialEq, Eq)]
pub struct YoutubeAPI {
    music_directory: String,
    miniature_directory: String,
    download_miniature: bool,
}

/// The media cache's settings as contracts see them.
pub struct YoutubeAPIView {
    pub music_directory: Seq<char>,
    pub miniature_directory: Seq<char>,
    pub download_miniature: bool,
}

impl View for YoutubeAPI {
    type V = YoutubeAPIView;

    closed spec fn view(&self) -> YoutubeAPIView {
        YoutubeAPIView {
            music_directory: self.music_directory@,
            miniature_directory: self.miniature_directory@,
            download_miniature: self.download_miniature,
        }
    }
}

/// Where the remote source keeps the picture of a song.
pub open spec fn miniature_url(song_id: Seq<char>) -> Seq<char> {
    "https://img.youtube.com/vi/"@ + song_id + "/sddefault.jpg"@
}

/// The name of the file that holds the picture of a song.
pub open spec fn miniature_file(song_name: Seq<char>) -> Seq<char> {
    song_name + ".jpg"@
}

impl YoutubeAPIView {
    /// The path of a song's audio file: the music directory as it is
    /// spelled, the identifier, and the extension of the audio format.
    pub open spec fn audio_path(self, song_id: Seq<char>) -> Seq<char> {
        self.music_directory + song_id + ".opus"@
    }

    /// Has the cache fetch something.
    pub open spec fn fetch(self, request: MediaRequestView, s: SessionView) -> Ran<()> {
        let asked = s.ask(RequestView::Media(request));
        match asked.result {
            Err(halt) => Ran::halt(halt, asked.session),
            Ok(ReplyView::Done) => Ran::ok((), asked.session),
            Ok(ReplyView::Failed(m)) => Ran::fail(ErrorView::ArtifactFetchFailed(m), asked.session),
            Ok(_) => Ran::fail(ErrorView::ArtifactFetchFailed(misfit()), asked.session),
        }
    }

    /// Fetches the audio of the song `path` into the music directory, then,
    /// where pictures are kept, its picture into the miniature directory,
    /// named by the song's display name.
    pub open spec fn download_audio(
        self,
        path: Seq<char>,
        song_name: Seq<char>,
        s: SessionView,
    ) -> Ran<()> {
        let audio = self.fetch(
            MediaRequestView::FetchAudio { id: path, directory: self.music_directory },
            s,
        );
        match audio.result {
            Err(halt) => Ran::halt(halt, audio.session),
            Ok(_) => if self.download_miniature {
                self.fetch(
                    MediaRequestView::FetchMiniature {
                        url: miniature_url(path),
                        directory: self.miniature_directory,
                        file_name: miniature_file(song_name),
                    },
                    audio.session,
                )
            } else {
                Ran::ok((), audio.session)
            },
        }
    }

    /// Removes the audio file of a song.
    pub open spec fn delete_audio(self, song_id: Seq<char>, s: SessionView) -> Ran<()> {
        let asked = s.ask(
            RequestView::Media(MediaRequestView::RemoveFile { path: self.audio_path(song_id) }),
        );
        match asked.result {
            Err(halt) => Ran::halt(halt, asked.session),
            Ok(ReplyView::Done) => Ran::ok((), asked.session),
            Ok(ReplyView::Failed(m)) => Ran::fail(
                ErrorView::ArtifactDeleteFailed(m),
                asked.session,
            ),
            Ok(_) => Ran::fail(ErrorView::ArtifactDeleteFailed(misfit()), asked.session),
        }
    }
}

impl YoutubeAPI {
    pub fn new(music_directory: String, miniature_directory: String, download_miniature: bool) -> (r:
        YoutubeAPI)
        ensures
            r@ == (YoutubeAPIView {
                music_directory: music_directory@,
                miniature_directory: miniature_directory@,
                download_miniature,
            }),
    {
        YoutubeAPI { music_directory, miniature_directory, download_miniature }
    }

    /// The path of a song's audio file.
    pub fn audio_path(&self, song_id: &str) -> (r: String)
        ensures
            r@ == self@.audio_path(song_id@),
    {
        enclose(self.music_directory.as_str(), song_id, ".opus")
    }

    fn fetch(&self, request: MediaRequest, session: &mut Session) -> (r: Result<(), Halt>)
        ensures
            ran(r, final(session)@) == self@.fetch(request@, old(session)@),
    {
        match session.ask(Request::Media(request))? {
            Reply::Done => Ok(()),
            Reply::Failed(m) => Err(Halt::Fail(Error::ArtifactFetchFailed(m))),
            _ => Err(Halt::Fail(Error::ArtifactFetchFailed(misfit_text()))),
        }
    }

    /// Fetches the audio of the song `path`, and its picture where pictures
    /// are kept.
    pub fn download_audio(&self, path: &str, song_name: &str, session: &mut Session) -> (r: Result<
        (),
        Halt,
    >)
        ensures
            ran(r, final(session)@) == self@.download_audio(path@, song_name@, old(session)@),
    {
        self.fetch(
            MediaRequest::FetchAudio {
                id: String::from_str(path),
                directory: self.music_directory.clone(),
            },
            session,
        )?;
        if self.download_miniature {
            self.fetch(
                MediaRequest::FetchMiniature {
                    url: enclose("https://img.youtube.com/vi/", path, "/sddefault.jpg"),
                    directory: self.miniature_directory.clone(),
                    file_name: String::from_str(song_name).concat(".jpg"),
                },
                session,
            )?;
        }
        Ok(())
    }

    /// Removes the audio file of a song.
    pub fn delete_audio(&self, song_id: &str, session: &mut Session) -> (r: Result<(), Halt>)
        ensures
            ran(r, final(session)@) == self@.delete_audio(song_id@, old(session)@),
    {
        let request = MediaRequest::RemoveFile { path: self.audio_path(song_id) };
        match session.ask(Request::Media(request))? {
            Reply::Done => Ok(()),
            Reply::Failed(m) => Err(Halt::Fail(Error::ArtifactDeleteFailed(m))),
            _ => Err(Halt::Fail(Error::ArtifactDeleteFailed(misfit_text()))),
        }
    }
}

} // verus!
