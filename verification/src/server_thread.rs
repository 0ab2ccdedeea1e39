// The decisions of a server's music thread: which messages bring a video,
// what the queue holds as tracks come and go, and what the thread answers
// while it joins a voice channel and gets its voice handler.
use vstd::prelude::*;

use crate::config_loader::{Video, VideoLength};
use crate::error::handler_error::HandlerError;
use crate::text::{decimal, decimal_reads_back, decimal_string, digits_value};
use crate::thread_interfacer::{CommunicationType, ThreadCommunication};
use crossbeam::channel::{Receiver, RecvError};

verus! {

/// The receiving end of a crossbeam channel.
#[verifier::external_type_specification]
#[verifier::external_body]
#[verifier::reject_recursive_types(T)]
pub struct ExReceiver<T>(Receiver<T>);

/// The error of a receive on a channel that is empty and whose senders are gone.
#[verifier::external_type_specification]
#[verifier::external_body]
pub struct ExRecvError(RecvError);

/// Calls `crossbeam::channel::Receiver::recv`, which blocks until a message
/// comes and fails once the channel is empty and disconnected. Which message
/// comes, and whether one comes, depends on the other threads: nothing is
/// claimed of the result.
#[verifier::external_body]
fn receive(recv: &Receiver<ThreadCommunication>) -> (r: Result<ThreadCommunication, RecvError>) {
    recv.recv()
}

/// The video that a receive brings: the video of a message that asks to add
/// music, and none for any other message or for a failed receive.
pub open spec fn spec_added_video(received: Result<ThreadCommunication, RecvError>) -> Option<Video> {
    match received {
        Ok(com) => if com.com_type == CommunicationType::AddMusic {
            Some(com.com_video)
        } else {
            None
        },
        Err(_) => None,
    }
}

/// The video that a receive brings, if any.
pub fn added_video(received: Result<ThreadCommunication, RecvError>) -> (r: Option<Video>)
    ensures
        r == spec_added_video(received),
{
    match received {
        Ok(com) => match com.com_type {
            CommunicationType::AddMusic => Some(com.com_video),
            _ => None,
        },
        Err(_) => None,
    }
}

/// A message made to add music brings its video; a message of any other
/// kind brings none, whatever it carries.
pub proof fn only_add_music_brings_a_video(
    t: CommunicationType,
    t_type: crate::thread_interfacer::SendRecv,
    msg: String,
    vid: Video,
)
    ensures
        spec_added_video(Ok(ThreadCommunication { com_type: t, com_t_type: t_type, com_message: msg, com_video: vid }))
            == (if t == CommunicationType::AddMusic { Some(vid) } else { None::<Video> }),
{
}

/// A failed receive brings no video.
pub proof fn failed_receive_brings_nothing(e: RecvError)
    ensures
        spec_added_video(Err(e)) is None,
{
}

/// Waits for the next message of the channel and gives the video it adds,
/// if it adds one.
pub fn read_recv(recv: &Receiver<ThreadCommunication>) -> (r: Option<Video>) {
    let com = receive(recv);
    added_video(com)
}

/// The queue after a receive that brought `v`, or nothing.
pub open spec fn queue_after_receive(q: Seq<Video>, v: Option<Video>) -> Seq<Video> {
    match v {
        Some(video) => q.push(video),
        None => q,
    }
}

/// The queue after the timer of the playing track was checked: when it has
/// run out, the video that was played (the first) leaves the queue.
pub open spec fn queue_after_timer(q: Seq<Video>, expired: bool) -> Seq<Video> {
    if expired && q.len() > 0 {
        q.drop_first()
    } else {
        q
    }
}

/// The videos waiting in a server's music thread; the first one is played.
pub struct MusicQueue {
    queue: Vec<Video>,
}

impl View for MusicQueue {
    type V = Seq<Video>;

    closed spec fn view(&self) -> Seq<Video> {
        self.queue@
    }
}

impl MusicQueue {
    /// An empty queue.
    pub fn new() -> (q: MusicQueue)
        ensures
            q@ == Seq::<Video>::empty(),
    {
        MusicQueue { queue: Vec::new() }
    }

    /// How many videos wait.
    pub fn len(&self) -> (n: usize)
        ensures
            n == self@.len(),
    {
        self.queue.len()
    }

    /// Whether some video waits; the thread stops once none does.
    pub fn has_music(&self) -> (b: bool)
        ensures
            b == (self@.len() > 0),
    {
        self.queue.len() > 0
    }

    /// Adds what a receive brought, at the end.
    pub fn receive(&mut self, v: Option<Video>)
        ensures
            final(self)@ == queue_after_receive(old(self)@, v),
    {
        if let Some(video) = v {
            self.queue.push(video);
        }
    }

    /// The video to play: the first of the queue.
    pub fn now_playing(&self) -> (r: Option<&Video>)
        ensures
            self@.len() > 0 ==> r == Some(&self@[0]),
            self@.len() == 0 ==> r is None,
    {
        if self.queue.len() > 0 {
            Some(&self.queue[0])
        } else {
            None
        }
    }

    /// Checks the timer of the playing track: once it has run out, the video
    /// that was played leaves the queue and the waiting ends (`true`).
    pub fn timer_tick(&mut self, expired: bool) -> (done: bool)
        ensures
            done == expired,
            final(self)@ == queue_after_timer(old(self)@, expired),
    {
        if expired {
            if self.queue.len() > 0 {
                let _ = self.queue.remove(0);
                assert(old(self)@.remove(0) =~= old(self)@.drop_first());
            }
            true
        } else {
            false
        }
    }
}

/// Videos are played in the order they arrived, each once: where the queue
/// holds the arrivals from the `played`-th on, the video playing is the
/// `played`-th arrival; a receive adds the new video after all earlier
/// arrivals, and the end of a track leaves the arrivals from the next one on.
pub proof fn queue_is_arrivals_in_order(arrived: Seq<Video>, played: int, v: Option<Video>)
    requires
        0 <= played <= arrived.len(),
    ensures
        played < arrived.len() ==> arrived.skip(played)[0] == arrived[played],
        queue_after_receive(arrived.skip(played), v) == (match v {
            Some(video) => arrived.push(video),
            None => arrived,
        }).skip(played),
        played < arrived.len() ==> queue_after_timer(arrived.skip(played), true) == arrived.skip(
            played + 1,
        ),
{
    match v {
        Some(video) => {
            assert(arrived.skip(played).push(video) =~= arrived.push(video).skip(played));
        },
        None => {},
    }
    if played < arrived.len() {
        assert(arrived.skip(played).drop_first() =~= arrived.skip(played + 1));
    }
}

/// When a track ends with another video waiting, that video is played next.
pub proof fn track_end_plays_next(q: Seq<Video>)
    requires
        q.len() > 1,
    ensures
        queue_after_timer(q, true).len() == q.len() - 1,
        queue_after_timer(q, true)[0] == q[1],
{
}

/// Receiving never changes which video is played, once one is.
pub proof fn receive_keeps_front(q: Seq<Video>, v: Option<Video>)
    requires
        q.len() > 0,
    ensures
        queue_after_receive(q, v).len() > 0,
        queue_after_receive(q, v)[0] == q[0],
{
}

/// The end of a track takes exactly one video out of a queue that holds one;
/// a timer that has not run out changes nothing.
pub proof fn timer_removes_one(q: Seq<Video>, expired: bool)
    ensures
        expired && q.len() > 0 ==> queue_after_timer(q, expired).len() == q.len() - 1,
        !expired ==> queue_after_timer(q, expired) == q,
{
}

/// The length of a track as it is shown: its text, else "Ok Boomer".
pub open spec fn length_label(video: Video) -> Seq<char> {
    match video.length {
        VideoLength::Text(t) => t@,
        _ => "Ok Boomer"@,
    }
}

/// The length of a track in seconds: its number, else 0.
pub open spec fn length_secs(video: Video) -> u64 {
    match video.length {
        VideoLength::Seconds(k) => k,
        _ => 0,
    }
}

/// The length of a track as it is shown: its text, else "Ok Boomer".
pub fn track_length_label(video: &Video) -> (s: &str)
    ensures
        s@ == length_label(*video),
{
    match video.length.as_str() {
        Some(s) => s,
        None => "Ok Boomer",
    }
}

/// The length of a track in seconds, 0 where it is not given as a number;
/// the timer of the track runs for that long.
pub fn track_length_secs(video: &Video) -> (n: u64)
    ensures
        n == length_secs(*video),
{
    match video.length.as_u64() {
        Some(s) => s,
        None => 0,
    }
}

/// What the thread says when it starts a track.
pub fn now_playing_message(video: &Video) -> (s: String)
    ensures
        s@ == "Currently Playing: "@ + video.title@,
{
    let mut s = String::from_str("Currently Playing: ");
    s.append(video.title.as_str());
    s
}

/// Where a server's music thread stands: about to take in a message and
/// pick the next track, waiting for the audio source of that track, or
/// waiting for the track's timer to run out.
#[derive(Debug, PartialEq, Eq, Structural, Clone, Copy)]
pub enum PlayerPhase {
    Loading,
    Fetching,
    Timing,
}

/// What the outside world reports to the music thread: what a receive
/// brought, whether an audio source was had for the track, or, while a track
/// plays, what a receive brought and whether the track's timer has run out
/// after it.
#[derive(Debug)]
pub enum PlayerEvent {
    Received(Option<Video>),
    SourceFetched(bool),
    TimerChecked { received: Option<Video>, expired: bool },
}

/// What the music thread asks of the outside world next.
#[derive(Debug)]
pub enum PlayerAction {
    /// Nothing is left to play: the thread ends.
    Stop,
    /// Get an audio source for the link.
    FetchSource { link: String },
    /// Play the source, say the announcement, and run a timer of `secs` seconds.
    Play { announcement: String, length_label: String, secs: u64 },
    /// No source was had: wait for the timer that runs already.
    NoSource,
    /// The track plays on: receive and check the timer again.
    Wait,
    /// The track is over: receive and pick the next one.
    TrackOver,
    /// The event does not fit where the thread stands; nothing changes.
    Ignore,
}

/// A music thread's state as mathematical values.
pub ghost struct PlayerView {
    pub queue: Seq<Video>,
    pub phase: PlayerPhase,
}

/// The state a music thread moves to on an event.
pub open spec fn next_state(s: PlayerView, e: PlayerEvent) -> PlayerView {
    match e {
        PlayerEvent::Received(v) => if s.phase == PlayerPhase::Loading {
            let q = queue_after_receive(s.queue, v);
            PlayerView {
                queue: q,
                phase: if q.len() > 0 {
                    PlayerPhase::Fetching
                } else {
                    PlayerPhase::Loading
                },
            }
        } else {
            s
        },
        PlayerEvent::SourceFetched(_) => if s.phase == PlayerPhase::Fetching && s.queue.len() > 0 {
            PlayerView { queue: s.queue, phase: PlayerPhase::Timing }
        } else {
            s
        },
        PlayerEvent::TimerChecked { received, expired } => if s.phase == PlayerPhase::Timing {
            PlayerView {
                queue: queue_after_timer(queue_after_receive(s.queue, received), expired),
                phase: if expired {
                    PlayerPhase::Loading
                } else {
                    PlayerPhase::Timing
                },
            }
        } else {
            s
        },
    }
}

/// Whether `a` is what a music thread in state `s` asks for on event `e`.
pub open spec fn action_fits(s: PlayerView, e: PlayerEvent, a: PlayerAction) -> bool {
    match e {
        PlayerEvent::Received(v) => if s.phase == PlayerPhase::Loading {
            let q = queue_after_receive(s.queue, v);
            if q.len() == 0 {
                a is Stop
            } else {
                a matches PlayerAction::FetchSource { link } && link@ == q[0].link@
            }
        } else {
            a is Ignore
        },
        PlayerEvent::SourceFetched(ok) => if s.phase == PlayerPhase::Fetching && s.queue.len() > 0 {
            if ok {
                &&& a matches PlayerAction::Play { announcement, length_label: label, secs }
                &&& announcement@ == "Currently Playing: "@ + s.queue[0].title@
                &&& label@ == length_label(s.queue[0])
                &&& secs == length_secs(s.queue[0])
            } else {
                a is NoSource
            }
        } else {
            a is Ignore
        },
        PlayerEvent::TimerChecked { received, expired } => if s.phase == PlayerPhase::Timing {
            if expired {
                a is TrackOver
            } else {
                a is Wait
            }
        } else {
            a is Ignore
        },
    }
}

/// A server's music thread: its queue and where it stands.
pub struct MusicPlayer {
    queue: MusicQueue,
    phase: PlayerPhase,
}

impl View for MusicPlayer {
    type V = PlayerView;

    closed spec fn view(&self) -> PlayerView {
        PlayerView { queue: self.queue@, phase: self.phase }
    }
}

impl MusicPlayer {
    /// A thread with nothing queued, about to take in its first message.
    pub fn new() -> (p: MusicPlayer)
        ensures
            p@.queue == Seq::<Video>::empty(),
            p@.phase == PlayerPhase::Loading,
    {
        MusicPlayer { queue: MusicQueue::new(), phase: PlayerPhase::Loading }
    }

    /// How many videos wait, the one playing included.
    pub fn len(&self) -> (n: usize)
        ensures
            n == self@.queue.len(),
    {
        self.queue.len()
    }

    /// Takes in an event and says what to do next.
    pub fn step(&mut self, event: PlayerEvent) -> (a: PlayerAction)
        ensures
            final(self)@ == next_state(old(self)@, event),
            action_fits(old(self)@, event, a),
    {
        match event {
            PlayerEvent::Received(v) => {
                if self.phase != PlayerPhase::Loading {
                    return PlayerAction::Ignore;
                }
                self.queue.receive(v);
                let link = match self.queue.now_playing() {
                    Some(front) => Some(front.link.clone()),
                    None => None,
                };
                match link {
                    Some(link) => {
                        self.phase = PlayerPhase::Fetching;
                        PlayerAction::FetchSource { link }
                    },
                    None => PlayerAction::Stop,
                }
            },
            PlayerEvent::SourceFetched(ok) => {
                if self.phase != PlayerPhase::Fetching {
                    return PlayerAction::Ignore;
                }
                let action = match self.queue.now_playing() {
                    Some(front) => if ok {
                        Some(
                            PlayerAction::Play {
                                announcement: now_playing_message(front),
                                length_label: String::from_str(track_length_label(front)),
                                secs: track_length_secs(front),
                            },
                        )
                    } else {
                        Some(PlayerAction::NoSource)
                    },
                    None => None,
                };
                match action {
                    Some(a) => {
                        self.phase = PlayerPhase::Timing;
                        a
                    },
                    None => PlayerAction::Ignore,
                }
            },
            PlayerEvent::TimerChecked { received, expired } => {
                if self.phase != PlayerPhase::Timing {
                    return PlayerAction::Ignore;
                }
                self.queue.receive(received);
                if self.queue.timer_tick(expired) {
                    self.phase = PlayerPhase::Loading;
                    PlayerAction::TrackOver
                } else {
                    PlayerAction::Wait
                }
            },
        }
    }
}

/// While a track plays, the video played stays the first one; and from the
/// state a track's end leaves, the next video to be fetched is the one that
/// waited behind it.
pub proof fn track_end_fetches_the_next_video(s: PlayerView, received: Option<Video>, v: Option<Video>)
    requires
        s.phase == PlayerPhase::Timing,
        s.queue.len() > 0,
    ensures
        ({
            let t = next_state(s, PlayerEvent::TimerChecked { received, expired: false });
            t.phase == PlayerPhase::Timing && t.queue[0] == s.queue[0]
        }),
        ({
            let t = next_state(s, PlayerEvent::TimerChecked { received, expired: true });
            let u = next_state(t, PlayerEvent::Received(v));
            let rest = queue_after_receive(queue_after_receive(s.queue, received).drop_first(), v);
            t.phase == PlayerPhase::Loading && (rest.len() > 0 ==> u.phase == PlayerPhase::Fetching
                && u.queue[0] == rest[0]) && (s.queue.len() > 1 ==> rest[0] == s.queue[1])
        }),
{
}

/// The video a received message adds, if any, as a sequence of at most one.
pub open spec fn arrivals(v: Option<Video>) -> Seq<Video> {
    match v {
        Some(x) => seq![x],
        None => Seq::empty(),
    }
}

/// When the thread picks its next track, a received video joins the queue at
/// its end and nothing leaves it; the source fetched is that of the oldest
/// waiting video, the one at the front, and the thread stops only when no
/// video waits at all.
pub proof fn receive_then_fetch_the_oldest(s: PlayerView, v: Option<Video>, a: PlayerAction)
    requires
        s.phase == PlayerPhase::Loading,
        action_fits(s, PlayerEvent::Received(v), a),
    ensures
        next_state(s, PlayerEvent::Received(v)).queue == s.queue + arrivals(v),
        next_state(s, PlayerEvent::Received(v)).queue.len() == s.queue.len() + arrivals(v).len(),
        s.queue.len() > 0 ==> (a matches PlayerAction::FetchSource { link } && link@
            == s.queue[0].link@),
        s.queue.len() == 0 && v is Some ==> (a matches PlayerAction::FetchSource { link } && link@
            == v->0.link@),
        s.queue.len() == 0 && v is None <==> a is Stop,
{
    match v {
        Some(x) => {
            assert(s.queue.push(x) =~= s.queue + seq![x]);
        },
        None => {
            assert(s.queue =~= s.queue + Seq::<Video>::empty());
        },
    }
}

/// The video whose source is fetched is the video then announced and timed:
/// its title in the announcement, its length label and its seconds.
pub proof fn fetched_video_is_the_one_played(s: PlayerView, v: Option<Video>, a1: PlayerAction, a2: PlayerAction)
    requires
        s.phase == PlayerPhase::Loading,
        s.queue.len() > 0 || v is Some,
        action_fits(s, PlayerEvent::Received(v), a1),
        action_fits(next_state(s, PlayerEvent::Received(v)), PlayerEvent::SourceFetched(true), a2),
    ensures
        ({
            let w = if s.queue.len() > 0 {
                s.queue[0]
            } else {
                v->0
            };
            &&& a1 matches PlayerAction::FetchSource { link }
            &&& link@ == w.link@
            &&& a2 matches PlayerAction::Play { announcement, length_label: label, secs }
            &&& announcement@ == "Currently Playing: "@ + w.title@
            &&& secs == (match w.length {
                VideoLength::Seconds(k) => k,
                _ => 0u64,
            })
            &&& label@ == (match w.length {
                VideoLength::Text(t) => t@,
                _ => "Ok Boomer"@,
            })
        }),
        next_state(next_state(s, PlayerEvent::Received(v)), PlayerEvent::SourceFetched(true)).queue
            == s.queue + arrivals(v),
{
}

/// While a track plays, a received video joins the queue at its end; when
/// the timer has run out, exactly the video that was played (the first)
/// leaves, and every other video stays, in order.
pub proof fn timer_check_removes_only_the_played_video(s: PlayerView, received: Option<Video>, expired: bool)
    requires
        s.phase == PlayerPhase::Timing,
    ensures
        ({
            let q = s.queue + arrivals(received);
            let t = next_state(s, PlayerEvent::TimerChecked { received, expired });
            &&& !expired ==> t.queue == q && t.phase == PlayerPhase::Timing
            &&& expired && q.len() > 0 ==> t.queue == q.subrange(1, q.len() as int) && t.phase
                == PlayerPhase::Loading
            &&& forall|ok: bool| #[trigger] next_state(s, PlayerEvent::SourceFetched(ok)) == s
        }),
{
    let q = s.queue + arrivals(received);
    match received {
        Some(x) => assert(s.queue.push(x) =~= q),
        None => assert(s.queue =~= q),
    }
    if expired && q.len() > 0 {
        assert(q.drop_first() =~= q.subrange(1, q.len() as int));
    }
}

/// After a track ends, the next source fetched is that of the request that
/// came right after the one played: the second video of the queue, or, when
/// the played one was alone, the first video received after it.
pub proof fn next_track_is_the_next_request(
    s: PlayerView,
    received: Option<Video>,
    v: Option<Video>,
    a: PlayerAction,
)
    requires
        s.phase == PlayerPhase::Timing,
        s.queue.len() > 0,
        action_fits(
            next_state(s, PlayerEvent::TimerChecked { received, expired: true }),
            PlayerEvent::Received(v),
            a,
        ),
    ensures
        s.queue.len() > 1 ==> (a matches PlayerAction::FetchSource { link } && link@
            == s.queue[1].link@),
        s.queue.len() == 1 && received is Some ==> (a matches PlayerAction::FetchSource { link }
            && link@ == received->0.link@),
        s.queue.len() == 1 && received is None && v is Some ==> (
        a matches PlayerAction::FetchSource { link } && link@ == v->0.link@),
        s.queue.len() == 1 && received is None && v is None ==> a is Stop,
{
}

/// The guild whose voice handler is wanted; a message from outside a guild
/// has none.
pub fn handler_guild(guild_id: Option<u64>) -> (r: Result<u64, HandlerError>)
    ensures
        match guild_id {
            Some(g) => r == Ok::<u64, HandlerError>(g),
            None => r matches Err(HandlerError::HandlerGetError { why }) && why@
                == "Guild ID returned None "@,
        },
{
    match guild_id {
        Some(g) => Ok(g),
        None => Err(HandlerError::HandlerGetError { why: String::from_str("Guild ID returned None ") }),
    }
}

/// The outcome of looking up a guild's voice handler: `lookup` is the voice
/// channel that the voice manager holds for the guild, if any, or why the
/// voice manager itself could not be had.
pub fn handler_lookup(lookup: Result<Option<u64>, String>) -> (r: Result<u64, HandlerError>)
    ensures
        match lookup {
            Ok(Some(c)) => r == Ok::<u64, HandlerError>(c),
            Ok(None) => r matches Err(HandlerError::HandlerGetError { why }) && why@
                == "Failed to lock handler."@,
            Err(b) => r matches Err(HandlerError::HandlerGetError { why }) && why@ == b@,
        },
{
    match lookup {
        Ok(Some(c)) => Ok(c),
        Ok(None) => Err(HandlerError::HandlerGetError { why: String::from_str("Failed to lock handler.") }),
        Err(b) => Err(HandlerError::HandlerGetError { why: b }),
    }
}

/// How a chat answer is sent: into the channel, or as a reply to the author.
#[derive(Debug, PartialEq, Eq, Structural, Clone, Copy)]
pub enum ReplyTarget {
    Channel,
    Author,
}

/// A chat answer.
#[derive(Debug)]
pub struct ChatReply {
    pub target: ReplyTarget,
    pub text: String,
}

/// What joining the author's voice channel comes to before the join itself:
/// an answer and no join, or a join of the channel given.
#[derive(Debug)]
pub enum JoinPlan {
    Refuse(ChatReply),
    Connect(u64),
}

/// How serenity writes a mention of the channel `id`.
pub open spec fn channel_mention(id: u64) -> Seq<char> {
    seq!['<', '#'] + decimal(id as nat) + seq!['>']
}

/// Writes a mention of the channel `id` the way serenity's `Mention` of a
/// `ChannelId` displays one: `<#`, the whole id in decimal, and `>`.
fn mention_channel(id: u64) -> (s: String)
    ensures
        s@ == channel_mention(id),
{
    proof {
        reveal_strlit("<#");
        reveal_strlit(">");
    }
    let mut s = String::from_str("<#");
    let digits = decimal_string(id);
    s.append(digits.as_str());
    s.append(">");
    assert("<#"@ =~= seq!['<', '#']);
    assert(">"@ =~= seq!['>']);
    s
}

/// A channel's mention names the whole id: reading the characters between
/// `<#` and `>` as a decimal number gives the id back, so two channels never
/// share a mention.
pub proof fn mention_names_the_whole_id(id: u64, other: u64)
    ensures
        channel_mention(id).len() >= 3,
        channel_mention(id)[0] == '<',
        channel_mention(id)[1] == '#',
        channel_mention(id)[channel_mention(id).len() - 1] == '>',
        digits_value(channel_mention(id).subrange(2, channel_mention(id).len() - 1)) == id,
        id != other ==> channel_mention(id) != channel_mention(other),
{
    decimal_reads_back(id as nat);
    decimal_reads_back(other as nat);
    let m = channel_mention(id);
    assert(m.subrange(2, m.len() - 1) =~= decimal(id as nat));
    let m2 = channel_mention(other);
    assert(m2.subrange(2, m2.len() - 1) =~= decimal(other as nat));
}

/// The voice channel that a join request leads to: the author's, and only
/// where the message came from a guild.
pub open spec fn join_target(guild_found: bool, voice_channel: Option<u64>) -> Option<u64> {
    if guild_found {
        voice_channel
    } else {
        None
    }
}

/// Whether a join request ends in success, given whether the join of the
/// target channel worked.
pub open spec fn join_reported(guild_found: bool, voice_channel: Option<u64>, joined: bool) -> bool {
    match join_target(guild_found, voice_channel) {
        Some(_) => joined,
        None => false,
    }
}

/// Decides how to answer a request to join the author's voice channel:
/// outside a guild, and for an author in no voice channel, with an answer;
/// else by joining that channel.
pub fn plan_join(guild_found: bool, voice_channel: Option<u64>) -> (p: JoinPlan)
    ensures
        !guild_found ==> (p matches JoinPlan::Refuse(r) && r.target == ReplyTarget::Channel
            && r.text@ == "Groups and DMs not supported"@),
        guild_found && voice_channel is None ==> (p matches JoinPlan::Refuse(r) && r.target
            == ReplyTarget::Author && r.text@ == "Not in a voice channel"@),
        guild_found && voice_channel is Some ==> p == JoinPlan::Connect(voice_channel->0),
        p is Refuse <==> join_target(guild_found, voice_channel) is None,
        p matches JoinPlan::Connect(c) ==> join_target(guild_found, voice_channel) == Some(c),
{
    if !guild_found {
        return JoinPlan::Refuse(
            ChatReply {
                target: ReplyTarget::Channel,
                text: String::from_str("Groups and DMs not supported"),
            },
        );
    }
    match voice_channel {
        Some(channel) => JoinPlan::Connect(channel),
        None => JoinPlan::Refuse(
            ChatReply { target: ReplyTarget::Author, text: String::from_str("Not in a voice channel") },
        ),
    }
}

/// A join request ends in success exactly when the message came from a
/// guild, its author is in a voice channel, and joining that channel worked;
/// the only channel ever joined is the author's.
pub proof fn join_succeeds_exactly_when_joined(guild_found: bool, voice_channel: Option<u64>, joined: bool)
    ensures
        join_reported(guild_found, voice_channel, joined) == (guild_found && voice_channel is Some
            && joined),
        join_target(guild_found, voice_channel) matches Some(c) ==> voice_channel == Some(c),
{
}

/// The answer once a join of `channel` was tried, and whether the bot is in
/// the channel now.
pub fn join_outcome(channel: u64, joined: bool) -> (r: (ChatReply, bool))
    ensures
        r.1 == joined,
        r.0.target == ReplyTarget::Channel,
        joined ==> r.0.text@ == "Joined "@ + channel_mention(channel),
        !joined ==> r.0.text@ == "Error joining the channel"@,
{
    if joined {
        let mut text = String::from_str("Joined ");
        let mention = mention_channel(channel);
        text.append(mention.as_str());
        (ChatReply { target: ReplyTarget::Channel, text }, true)
    } else {
        (ChatReply { target: ReplyTarget::Channel, text: String::from_str("Error joining the channel") }, false)
    }
}

} // verus!
