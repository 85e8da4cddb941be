//! The ways a command can fail, one variant per kind.

use vstd::prelude::*;
use vstd::string::*;

verus! {

/// What a catalog failure is about.
#[derive(Clone, Copy, Debug, PartialEq, Eq)]
pub enum Subject {
    Song,
    Playlist,
    Membership,
}

/// Why a command failed. The first failure of a command is the only one
/// reported; what the command did before it stays done.
#[derive(Clone, Debug, PartialEq, Eq)]
pub enum Error {
    /// A song or playlist name does not resolve, or the membership to remove
    /// is not there.
    NotFound { subject: Subject, name: String },
    /// The catalog already holds a song with this identifier, or a playlist
    /// with this name.
    DuplicateIdentifier { subject: Subject },
    /// The song is already in the playlist.
    DuplicateMembership,
    /// The media cache could not fetch the artifact.
    ArtifactFetchFailed(String),
    /// The media cache could not delete the artifact.
    ArtifactDeleteFailed(String),
    /// The catalog refused an insert for another reason than a duplicate.
    CatalogWriteFailed { subject: Subject },
    /// The catalog refused a delete.
    CatalogDeleteFailed { subject: Subject, name: String },
    /// No connection to the playback daemon.
    DaemonUnavailable(String),
    /// The playback daemon did not carry out a command.
    DaemonOperationFailed(String),
    /// The playlist has no songs to play.
    EmptyPlaylist,
    /// The daemon plays nothing, or something the catalog does not know.
    NoSongInfo,
}

/// A failure as contracts see it.
pub enum ErrorView {
    NotFound { subject: Subject, name: Seq<char> },
    DuplicateIdentifier { subject: Subject },
    DuplicateMembership,
    ArtifactFetchFailed(Seq<char>),
    ArtifactDeleteFailed(Seq<char>),
    CatalogWriteFailed { subject: Subject },
    CatalogDeleteFailed { subject: Subject, name: Seq<char> },
    DaemonUnavailable(Seq<char>),
    DaemonOperationFailed(Seq<char>),
    EmptyPlaylist,
    NoSongInfo,
}

impl View for Error {
    type V = ErrorView;

    open spec fn view(&self) -> ErrorView {
        match self {
            Error::NotFound { subject, name } => ErrorView::NotFound {
                subject: *subject,
                name: name@,
            },
            Error::DuplicateIdentifier { subject } => ErrorView::DuplicateIdentifier {
                subject: *subject,
            },
            Error::DuplicateMembership => ErrorView::DuplicateMembership,
            Error::ArtifactFetchFailed(m) => ErrorView::ArtifactFetchFailed(m@),
            Error::ArtifactDeleteFailed(m) => ErrorView::ArtifactDeleteFailed(m@),
            Error::CatalogWriteFailed { subject } => ErrorView::CatalogWriteFailed {
                subject: *subject,
            },
            Error::CatalogDeleteFailed { subject, name } => ErrorView::CatalogDeleteFailed {
                subject: *subject,
                name: name@,
            },
            Error::DaemonUnavailable(m) => ErrorView::DaemonUnavailable(m@),
            Error::DaemonOperationFailed(m) => ErrorView::DaemonOperationFailed(m@),
            Error::EmptyPlaylist => ErrorView::EmptyPlaylist,
            Error::NoSongInfo => ErrorView::NoSongInfo,
        }
    }
}

impl DeepView for Error {
    type V = ErrorView;

    open spec fn deep_view(&self) -> ErrorView {
        self@
    }
}

impl ErrorView {
    /// The line shown to the user for this failure.
    pub open spec fn message(self) -> Seq<char> {
        match self {
            ErrorView::NotFound { subject, name } => match subject {
                Subject::Song => "Song "@ + name + " doesn't exist"@,
                Subject::Playlist => "Playlist "@ + name + " doesn't exist"@,
                Subject::Membership => "Couldn't remove song from playlist"@,
            },
            ErrorView::DuplicateIdentifier { subject } => Self::insert_refused(subject),
            ErrorView::DuplicateMembership =>
                "Couldn't insert song into playlist, song is already present"@,
            ErrorView::ArtifactFetchFailed(m) => m,
            ErrorView::ArtifactDeleteFailed(m) => m,
            ErrorView::CatalogWriteFailed { subject } => Self::insert_refused(subject),
            ErrorView::CatalogDeleteFailed { subject, name } => match subject {
                Subject::Song => "Couldn't delete song "@ + name + " from database"@,
                Subject::Playlist => "Couldn't delete playlist "@ + name,
                Subject::Membership => "Couldn't remove song from playlist"@,
            },
            ErrorView::DaemonUnavailable(m) => m,
            ErrorView::DaemonOperationFailed(m) => m,
            ErrorView::EmptyPlaylist => "Playlist doesn't contain any songs"@,
            ErrorView::NoSongInfo => "No song currently playing"@,
        }
    }

    /// The line for an insert that the catalog did not take.
    pub open spec fn insert_refused(subject: Subject) -> Seq<char> {
        match subject {
            Subject::Song => "Couldn't add song to database, skipping..."@,
            Subject::Playlist => "Couldn't create playlist, skipping..."@,
            Subject::Membership => "Couldn't insert song into playlist"@,
        }
    }

    /// A number that stays the same for a kind of failure, whatever it
    /// carries.
    pub open spec fn code(self) -> u8 {
        match self {
            ErrorView::NotFound { .. } => 1,
            ErrorView::DuplicateIdentifier { .. } => 2,
            ErrorView::DuplicateMembership => 3,
            ErrorView::ArtifactFetchFailed(_) => 4,
            ErrorView::ArtifactDeleteFailed(_) => 5,
            ErrorView::CatalogWriteFailed { .. } => 6,
            ErrorView::CatalogDeleteFailed { .. } => 7,
            ErrorView::DaemonUnavailable(_) => 8,
            ErrorView::DaemonOperationFailed(_) => 9,
            ErrorView::EmptyPlaylist => 10,
            ErrorView::NoSongInfo => 11,
        }
    }
}

/// `head`, then `middle`, then `tail`, as one string.
pub fn enclose(head: &str, middle: &str, tail: &str) -> (r: String)
    ensures
        r@ == head@ + middle@ + tail@,
{
    String::from_str(head).concat(middle).concat(tail)
}

fn insert_refused(subject: Subject) -> (r: String)
    ensures
        r@ == ErrorView::insert_refused(subject),
{
    match subject {
        Subject::Song => String::from_str("Couldn't add song to database, skipping..."),
        Subject::Playlist => String::from_str("Couldn't create playlist, skipping..."),
        Subject::Membership => String::from_str("Couldn't insert song into playlist"),
    }
}

impl Error {
    /// The line shown to the user for this failure.
    pub fn message(&self) -> (r: String)
        ensures
            r@ == self@.message(),
    {
        match self {
            Error::NotFound { subject, name } => match subject {
                Subject::Song => enclose("Song ", name.as_str(), " doesn't exist"),
                Subject::Playlist => enclose("Playlist ", name.as_str(), " doesn't exist"),
                Subject::Membership => String::from_str("Couldn't remove song from playlist"),
            },
            Error::DuplicateIdentifier { subject } => insert_refused(*subject),
            Error::DuplicateMembership => String::from_str(
                "Couldn't insert song into playlist, song is already present",
            ),
            Error::ArtifactFetchFailed(m) => m.clone(),
            Error::ArtifactDeleteFailed(m) => m.clone(),
            Error::CatalogWriteFailed { subject } => insert_refused(*subject),
            Error::CatalogDeleteFailed { subject, name } => match subject {
                Subject::Song => enclose("Couldn't delete song ", name.as_str(), " from database"),
                Subject::Playlist => String::from_str("Couldn't delete playlist ").concat(
                    name.as_str(),
                ),
                Subject::Membership => String::from_str("Couldn't remove song from playlist"),
            },
            Error::DaemonUnavailable(m) => m.clone(),
            Error::DaemonOperationFailed(m) => m.clone(),
            Error::EmptyPlaylist => String::from_str("Playlist doesn't contain any songs"),
            Error::NoSongInfo => String::from_str("No song currently playing"),
        }
    }

    /// A number that stays the same for a kind of failure, whatever it
    /// carries.
    pub fn code(&self) -> (r: u8)
        ensures
            r == self@.code(),
    {
        match self {
            Error::NotFound { .. } => 1,
            Error::DuplicateIdentifier { .. } => 2,
            Error::DuplicateMembership => 3,
            Error::ArtifactFetchFailed(_) => 4,
            Error::ArtifactDeleteFailed(_) => 5,
            Error::CatalogWriteFailed { .. } => 6,
            Error::CatalogDeleteFailed { .. } => 7,
            Error::DaemonUnavailable(_) => 8,
            Error::DaemonOperationFailed(_) => 9,
            Error::EmptyPlaylist => 10,
            Error::NoSongInfo => 11,
        }
    }
}

} // verus!
