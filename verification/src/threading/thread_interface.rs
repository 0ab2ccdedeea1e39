use vstd::prelude::*;

use crate::config_loader::Video;

verus! {

/// The commands a music thread takes: play or queue, skip, seek, and exit.
#[derive(Debug, PartialEq, Eq, Structural, Clone, Copy)]
pub enum MessageType {
    Play,
    Skip,
    Seek,
    Exit,
}

/// A command for a music thread, with the video it concerns where there is one.
#[derive(Debug)]
pub struct ThreadComm {
    com_type: MessageType,
    video_optional: Option<Video>,
}

} // verus!
