//! The command surface: the argument types each subcommand is handed,
//! validation of the litterbox retention time, and credential resolution.
//!
//! The surrounding binary parses the command line into these types and
//! reads the environment; nothing here touches either.

use crate::litter::valid_retention;
use crate::strutil::{spec_parse_u8, u8_dec};
use vstd::prelude::*;
use vstd::string::*;

verus! {

/// The subcommands of the client.
pub enum CatboxCommand {
    Upload(Upload),
    Delete(Delete),
    Album(Album),
    Litter(Litter),
}

/// The album subcommands.
pub enum AlbumCommand {
    Create(AlbumCreate),
    Edit(AlbumEdit),
    Add(AlbumAdd),
    Remove(AlbumRemove),
    Delete(AlbumDelete),
}

/// A parsed command line: the subcommand and the global credential flag.
pub struct CatboxArgs {
    pub command: CatboxCommand,
    pub user_hash: Option<String>,
}

/// Upload files or remote URLs.
pub struct Upload {
    pub user_hash: Option<String>,
    pub files: Vec<String>,
}

/// Delete files by identifier or URL.
pub struct Delete {
    pub user_hash: Option<String>,
    pub files: Vec<String>,
}

/// An album subcommand with its arguments.
pub struct Album {
    pub album_command: AlbumCommand,
}

/// Upload temporary files to the ephemeral service.
pub struct Litter {
    pub time: Option<u8>,
    pub files: Vec<String>,
}

/// Create a new album.
pub struct AlbumCreate {
    pub title: String,
    pub description: Option<String>,
    pub user_hash: Option<String>,
    pub files: Vec<String>,
}

/// Overwrite an album: it ends up holding exactly the files given.
pub struct AlbumEdit {
    pub short: String,
    pub title: String,
    pub description: Option<String>,
    pub user_hash: Option<String>,
    pub files: Vec<String>,
}

/// Add files to an album.
pub struct AlbumAdd {
    pub short: String,
    pub user_hash: Option<String>,
    pub files: Vec<String>,
}

/// Remove files from an album.
pub struct AlbumRemove {
    pub short: String,
    pub user_hash: Option<String>,
    pub files: Vec<String>,
}

/// Delete an album.
pub struct AlbumDelete {
    pub user_hash: Option<String>,
    pub short: String,
}

/// The credential that results from an explicit flag value and the
/// environment's: the flag wins, else the environment's value, else none.
pub open spec fn resolved_user(flag: Option<Seq<char>>, env: Option<Seq<char>>) -> Option<
    Seq<char>,
> {
    if flag is Some {
        flag
    } else {
        env
    }
}

/// Resolve the credential: an explicit flag value wins over the
/// environment's; both may be absent.
pub fn resolve_user_hash(flag: Option<String>, env: Option<String>) -> (r: Option<String>)
    ensures
        r.deep_view() == resolved_user(flag.deep_view(), env.deep_view()),
{
    match flag {
        Some(f) => Some(f),
        None => env,
    }
}

/// Check a retention argument: accepted exactly when it reads as a
/// decimal number that is one of the hours the ephemeral service keeps a
/// file for; anything else is rejected before any request is made.
pub fn valid_hour(hour: &str) -> (r: Result<u8, String>)
    ensures
        match r {
            Ok(h) => spec_parse_u8(hour@) == Some(h) && valid_retention(h),
            Err(m) => match spec_parse_u8(hour@) {
                None => m@ == hour@ + " is not a valid number"@,
                Some(h) => !valid_retention(h) && m@ == u8_dec(h as nat)
                    + " is not a valid value (Options: 1, 12, 24, 72"@,
            },
        },
{
    match crate::strutil::parse_u8_dec(hour) {
        None => Err(hour.to_owned().concat(" is not a valid number")),
        Some(h) => {
            if h == 1 || h == 12 || h == 24 || h == 72 {
                Ok(h)
            } else {
                Err(
                    crate::strutil::u8_to_dec_string(h).concat(
                        " is not a valid value (Options: 1, 12, 24, 72",
                    ),
                )
            }
        },
    }
}

} // verus!
