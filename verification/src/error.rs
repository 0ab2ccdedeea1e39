pub mod handler_error;

use vstd::prelude::*;

verus! {

/// Why a video could not be queued or played.
#[derive(Debug)]
pub enum VideoError {
    GetVideoError { link: String },
    VideoUnpackError { value: String, link: String },
    PlaylistError { link: String },
    BannedTitleWordError { link: String, word: String },
    BannedSearchWordError { search: String, word: String },
    BannedVideoError { link: String },
    VideoSourceError { link: String, reason: String },
}

/// `prefix`, then `a`.
fn join2(prefix: &str, a: &String) -> (s: String)
    ensures
        s@ == prefix@ + a@,
{
    let mut s = String::from_str(prefix);
    s.append(a.as_str());
    s
}

/// `prefix`, `a`, `middle`, then `b`.
fn join4(prefix: &str, a: &String, middle: &str, b: &String) -> (s: String)
    ensures
        s@ == prefix@ + a@ + middle@ + b@,
{
    let mut s = join2(prefix, a);
    s.append(middle);
    s.append(b.as_str());
    s
}

/// `prefix`, `a`, then `suffix`.
fn join3(prefix: &str, a: &String, suffix: &str) -> (s: String)
    ensures
        s@ == prefix@ + a@ + suffix@,
{
    let mut s = join2(prefix, a);
    s.append(suffix);
    s
}

impl VideoError {
    /// What the error says to a user.
    pub fn message(&self) -> (s: String)
        ensures
            match self {
                VideoError::GetVideoError { link } => s@ == "Could not get video at link "@ + link@,
                VideoError::VideoUnpackError { value, link } => s@ == "Could not unpack value "@
                    + value@ + " at link "@ + link@,
                VideoError::PlaylistError { link } => s@ == "The video at link "@ + link@
                    + " is a playlist and is not supported"@,
                VideoError::BannedTitleWordError { link, word } => s@ == "The title of video at "@
                    + link@ + " contains banned term "@ + word@,
                VideoError::BannedSearchWordError { search, word } => s@ == "The search term "@
                    + search@ + " contains banned term "@ + word@,
                VideoError::BannedVideoError { link } => s@ == "The video at link "@ + link@
                    + " is currently banned"@,
                VideoError::VideoSourceError { link, reason } => s@
                    == "Could not get a source for the video at link "@ + link@ + ": "@ + reason@,
            },
    {
        match self {
            VideoError::GetVideoError { link } => join2("Could not get video at link ", link),
            VideoError::VideoUnpackError { value, link } => join4(
                "Could not unpack value ",
                value,
                " at link ",
                link,
            ),
            VideoError::PlaylistError { link } => join3(
                "The video at link ",
                link,
                " is a playlist and is not supported",
            ),
            VideoError::BannedTitleWordError { link, word } => join4(
                "The title of video at ",
                link,
                " contains banned term ",
                word,
            ),
            VideoError::BannedSearchWordError { search, word } => join4(
                "The search term ",
                search,
                " contains banned term ",
                word,
            ),
            VideoError::BannedVideoError { link } => join3(
                "The video at link ",
                link,
                " is currently banned",
            ),
            VideoError::VideoSourceError { link, reason } => join4(
                "Could not get a source for the video at link ",
                link,
                ": ",
                reason,
            ),
        }
    }
}

} // verus!
