//! The settings: where the media lie and where the catalog is kept.

use vstd::prelude::*;
use vstd::string::*;

verus! {

#[derive(Clone, Debug, PartialEq, Eq)]
pub struct Config {
    pub general: General,
    pub database: Database,
}

#[derive(Clone, Debug, PartialEq, Eq)]
pub struct General {
    /// Where the audio files are kept. Paths of audio files are spelled by
    /// putting the file's name right behind it.
    pub music_directory: String,
    /// Where the pictures are kept.
    pub miniature_directory: String,
    /// Whether a picture is fetched with each song.
    pub download_miniature: bool,
}

#[derive(Clone, Debug, PartialEq, Eq)]
pub struct Database {
    /// The file that holds the catalog.
    pub database_path: String,
}

/// How many connections to the catalog store may be open at once.
pub const POOL_SIZE: u32 = 10;

/// The address under which the catalog store at `path` is opened.
pub open spec fn store_url(path: Seq<char>) -> Seq<char> {
    "sqlite://"@ + path
}

impl Default for Config {
    fn default() -> (r: Config)
        ensures
            r.general.music_directory@ == "~/Music/songs/"@,
            r.general.miniature_directory@ == "~/Music/miniatures"@,
            !r.general.download_miniature,
            r.database.database_path@ == "~/.config/yap/yap.db"@,
    {
        Config {
            general: General {
                music_directory: String::from_str("~/Music/songs/"),
                miniature_directory: String::from_str("~/Music/miniatures"),
                download_miniature: false,
            },
            database: Database { database_path: String::from_str("~/.config/yap/yap.db") },
        }
    }
}

impl Config {
    /// The address under which the catalog store is opened.
    pub fn database_url(&self) -> (r: String)
        ensures
            r@ == store_url(self.database.database_path@),
    {
        String::from_str("sqlite://").concat(self.database.database_path.as_str())
    }
}

} // verus!
