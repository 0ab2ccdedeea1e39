use vstd::prelude::*;

use crate::config_loader::Video;

verus! {

/// What a message between the command side and a server's music thread asks for.
#[derive(Debug, PartialEq, Eq, Structural, Clone, Copy)]
pub enum CommunicationType {
    GetMusic,
    AddMusic,
    ShutdownThread,
    Ok200,
}

/// Which way a message travels.
#[derive(Debug, PartialEq, Eq, Structural, Clone, Copy)]
pub enum SendRecv {
    Send,
    Recv,
}

/// A message between the command side and a server's music thread.
#[derive(Debug)]
pub struct ThreadCommunication {
    pub com_type: CommunicationType,
    pub com_t_type: SendRecv,
    pub com_message: String,
    pub com_video: Video,
}

impl ThreadCommunication {
    /// A message of kind `t`, travelling `t_type`, with the text `msg` and the video `vid`.
    pub fn new(t: CommunicationType, t_type: SendRecv, msg: String, vid: Video) -> (c: Self)
        ensures
            c.com_type == t,
            c.com_t_type == t_type,
            c.com_message == msg,
            c.com_video == vid,
    {
        ThreadCommunication { com_type: t, com_t_type: t_type, com_message: msg, com_video: vid }
    }
}

} // verus!
