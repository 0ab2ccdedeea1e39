use crossbeam::channel::{unbounded, RecvError};
use music_bot::config_loader::{Video, VideoLength};
use music_bot::error::handler_error::HandlerError;
use music_bot::server_thread::{
    added_video, handler_guild, handler_lookup, join_outcome, now_playing_message, plan_join,
    read_recv, track_length_label, track_length_secs, JoinPlan, MusicPlayer, MusicQueue,
    PlayerAction, PlayerEvent, ReplyTarget,
};
use music_bot::thread_interfacer::{CommunicationType, SendRecv, ThreadCommunication};

fn video(title: &str) -> Video {
    Video {
        title: String::from(title),
        link: format!("https://youtu.be/{}", title),
        author: String::from("someone"),
        id: String::from(title),
        thumbnail: String::new(),
        length: VideoLength::Unknown,
    }
}

fn message(t: CommunicationType, title: &str) -> ThreadCommunication {
    ThreadCommunication::new(t, SendRecv::Send, String::from("msg"), video(title))
}

fn titles(q: &MusicQueue) -> Option<String> {
    q.now_playing().map(|v| v.title.clone())
}

#[test]
fn new_message_keeps_its_parts() {
    let c = ThreadCommunication::new(CommunicationType::Ok200, SendRecv::Recv, String::from("hi"), video("a"));
    assert_eq!(c.com_type, CommunicationType::Ok200);
    assert_eq!(c.com_t_type, SendRecv::Recv);
    assert_eq!(c.com_message, "hi");
    assert_eq!(c.com_video.title, "a");
}

#[test]
fn only_add_music_messages_bring_videos() {
    let got = added_video(Ok(message(CommunicationType::AddMusic, "song")));
    assert_eq!(got.map(|v| v.title), Some(String::from("song")));
    assert!(added_video(Ok(message(CommunicationType::GetMusic, "song"))).is_none());
    assert!(added_video(Ok(message(CommunicationType::ShutdownThread, "song"))).is_none());
    assert!(added_video(Ok(message(CommunicationType::Ok200, "song"))).is_none());
    assert!(added_video(Err(RecvError)).is_none());
}

#[test]
fn read_recv_takes_messages_from_the_channel() {
    let (tx, rx) = unbounded();
    tx.send(message(CommunicationType::AddMusic, "first")).unwrap();
    tx.send(message(CommunicationType::GetMusic, "second")).unwrap();
    tx.send(message(CommunicationType::AddMusic, "third")).unwrap();
    assert_eq!(read_recv(&rx).map(|v| v.title), Some(String::from("first")));
    assert!(read_recv(&rx).is_none());
    assert_eq!(read_recv(&rx).map(|v| v.title), Some(String::from("third")));
    drop(tx);
    assert!(read_recv(&rx).is_none());
}

#[test]
fn queue_plays_its_first_video() {
    let mut q = MusicQueue::new();
    assert!(!q.has_music());
    assert!(q.now_playing().is_none());
    q.receive(Some(video("a")));
    q.receive(None);
    q.receive(Some(video("b")));
    assert_eq!(q.len(), 2);
    assert!(q.has_music());
    assert_eq!(titles(&q), Some(String::from("a")));
}

#[test]
fn timer_that_has_not_run_out_changes_nothing() {
    let mut q = MusicQueue::new();
    q.receive(Some(video("a")));
    assert!(!q.timer_tick(false));
    assert_eq!(q.len(), 1);
}

#[test]
fn track_end_takes_the_played_video_out() {
    let mut q = MusicQueue::new();
    q.receive(Some(video("a")));
    q.receive(Some(video("b")));
    q.receive(Some(video("c")));
    assert!(q.timer_tick(true));
    assert_eq!(q.len(), 2);
    assert_eq!(titles(&q), Some(String::from("b")));
    assert!(q.timer_tick(true));
    assert_eq!(titles(&q), Some(String::from("c")));
    assert!(q.timer_tick(true));
    assert!(!q.has_music());
    // an empty queue stays empty
    assert!(q.timer_tick(true));
    assert_eq!(q.len(), 0);
}

#[test]
fn video_received_while_playing_is_played_next() {
    let mut q = MusicQueue::new();
    q.receive(Some(video("a")));
    q.receive(Some(video("b")));
    assert!(q.timer_tick(true));
    assert_eq!(q.len(), 1);
    assert_eq!(titles(&q), Some(String::from("b")));
}

fn fetch_link(a: &PlayerAction) -> Option<String> {
    match a {
        PlayerAction::FetchSource { link } => Some(link.clone()),
        _ => None,
    }
}

#[test]
fn player_plays_each_video_once_in_arrival_order() {
    let mut p = MusicPlayer::new();
    let a = p.step(PlayerEvent::Received(Some(video("a"))));
    assert_eq!(fetch_link(&a), Some(String::from("https://youtu.be/a")));
    let mut v = video("b");
    v.length = VideoLength::Seconds(30);
    match p.step(PlayerEvent::SourceFetched(true)) {
        PlayerAction::Play { announcement, length_label, secs } => {
            assert_eq!(announcement, "Currently Playing: a");
            assert_eq!(length_label, "Ok Boomer");
            assert_eq!(secs, 0);
        }
        other => panic!("expected Play, got {:?}", other),
    }
    // b arrives while a plays
    assert!(matches!(
        p.step(PlayerEvent::TimerChecked { received: Some(v), expired: false }),
        PlayerAction::Wait
    ));
    assert!(matches!(
        p.step(PlayerEvent::TimerChecked { received: None, expired: true }),
        PlayerAction::TrackOver
    ));
    assert_eq!(p.len(), 1);
    let a = p.step(PlayerEvent::Received(None));
    assert_eq!(fetch_link(&a), Some(String::from("https://youtu.be/b")));
    match p.step(PlayerEvent::SourceFetched(true)) {
        PlayerAction::Play { announcement, length_label, secs } => {
            assert_eq!(announcement, "Currently Playing: b");
            assert_eq!(length_label, "Ok Boomer");
            assert_eq!(secs, 30);
        }
        other => panic!("expected Play, got {:?}", other),
    }
    assert!(matches!(
        p.step(PlayerEvent::TimerChecked { received: None, expired: true }),
        PlayerAction::TrackOver
    ));
    assert!(matches!(p.step(PlayerEvent::Received(None)), PlayerAction::Stop));
    assert_eq!(p.len(), 0);
}

#[test]
fn player_without_music_stops() {
    let mut p = MusicPlayer::new();
    assert!(matches!(p.step(PlayerEvent::Received(None)), PlayerAction::Stop));
    // a message that only asks for music adds nothing
    let got = added_video(Ok(message(CommunicationType::GetMusic, "x")));
    assert!(matches!(p.step(PlayerEvent::Received(got)), PlayerAction::Stop));
}

#[test]
fn player_without_source_waits_for_the_timer() {
    let mut p = MusicPlayer::new();
    let mut v = video("a");
    v.length = VideoLength::Text(String::from("1:00"));
    p.step(PlayerEvent::Received(Some(v)));
    assert!(matches!(p.step(PlayerEvent::SourceFetched(false)), PlayerAction::NoSource));
    assert!(matches!(
        p.step(PlayerEvent::TimerChecked { received: None, expired: true }),
        PlayerAction::TrackOver
    ));
    assert!(matches!(p.step(PlayerEvent::Received(None)), PlayerAction::Stop));
}

#[test]
fn player_ignores_events_out_of_turn() {
    let mut p = MusicPlayer::new();
    assert!(matches!(p.step(PlayerEvent::SourceFetched(true)), PlayerAction::Ignore));
    assert!(matches!(
        p.step(PlayerEvent::TimerChecked { received: Some(video("a")), expired: true }),
        PlayerAction::Ignore
    ));
    assert_eq!(p.len(), 0);
    p.step(PlayerEvent::Received(Some(video("a"))));
    assert!(matches!(p.step(PlayerEvent::Received(Some(video("b")))), PlayerAction::Ignore));
    assert_eq!(p.len(), 1);
}

#[test]
fn track_lengths() {
    let mut v = video("a");
    assert_eq!(track_length_label(&v), "Ok Boomer");
    assert_eq!(track_length_secs(&v), 0);
    v.length = VideoLength::Text(String::from("4:20"));
    assert_eq!(track_length_label(&v), "4:20");
    assert_eq!(track_length_secs(&v), 0);
    v.length = VideoLength::Seconds(260);
    assert_eq!(track_length_label(&v), "Ok Boomer");
    assert_eq!(track_length_secs(&v), 260);
}

#[test]
fn now_playing_message_names_the_title() {
    assert_eq!(now_playing_message(&video("Song 2")), "Currently Playing: Song 2");
}

#[test]
fn handler_needs_a_guild() {
    assert!(matches!(handler_guild(Some(42)), Ok(42)));
    match handler_guild(None) {
        Err(HandlerError::HandlerGetError { why }) => assert_eq!(why, "Guild ID returned None "),
        Ok(_) => panic!("no guild, no handler"),
    }
}

#[test]
fn handler_lookup_outcomes() {
    assert!(matches!(handler_lookup(Ok(Some(77))), Ok(77)));
    match handler_lookup(Ok(None)) {
        Err(HandlerError::HandlerGetError { why }) => assert_eq!(why, "Failed to lock handler."),
        Ok(_) => panic!("a missing handler is an error"),
    }
    match handler_lookup(Err(String::from("no voice manager"))) {
        Err(HandlerError::HandlerGetError { why }) => assert_eq!(why, "no voice manager"),
        Ok(_) => panic!("a missing voice manager is an error"),
    }
}

#[test]
fn join_outside_a_guild_is_refused() {
    match plan_join(false, Some(7)) {
        JoinPlan::Refuse(r) => {
            assert_eq!(r.target, ReplyTarget::Channel);
            assert_eq!(r.text, "Groups and DMs not supported");
        }
        JoinPlan::Connect(_) => panic!("no guild"),
    }
}

#[test]
fn join_needs_the_author_in_a_voice_channel() {
    match plan_join(true, None) {
        JoinPlan::Refuse(r) => {
            assert_eq!(r.target, ReplyTarget::Author);
            assert_eq!(r.text, "Not in a voice channel");
        }
        JoinPlan::Connect(_) => panic!("no voice channel"),
    }
    assert!(matches!(plan_join(true, Some(99)), JoinPlan::Connect(99)));
}

#[test]
fn join_outcome_mentions_the_channel() {
    let (reply, joined) = join_outcome(123456789, true);
    assert!(joined);
    assert_eq!(reply.target, ReplyTarget::Channel);
    assert_eq!(reply.text, "Joined <#123456789>");
    let (reply, joined) = join_outcome(5, false);
    assert!(!joined);
    assert_eq!(reply.text, "Error joining the channel");
}
