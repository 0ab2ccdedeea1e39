use music_bot::bot::rate_limited_message;
use music_bot::error::handler_error::HandlerError;
use music_bot::error::VideoError;
use music_bot::text::decimal_string;

#[test]
fn decimal_string_writes_numbers() {
    assert_eq!(decimal_string(0), "0");
    assert_eq!(decimal_string(7), "7");
    assert_eq!(decimal_string(10), "10");
    assert_eq!(decimal_string(1234), "1234");
    assert_eq!(decimal_string(u64::MAX), u64::MAX.to_string());
}

#[test]
fn rate_limit_message_names_the_seconds() {
    assert_eq!(rate_limited_message(5), "Error: Rate Limited! 5s");
    assert_eq!(rate_limited_message(0), "Error: Rate Limited! 0s");
    assert_eq!(rate_limited_message(120), "Error: Rate Limited! 120s");
}

#[test]
fn video_error_messages() {
    let l = || String::from("https://youtu.be/x");
    assert_eq!(
        VideoError::GetVideoError { link: l() }.message(),
        "Could not get video at link https://youtu.be/x"
    );
    assert_eq!(
        VideoError::VideoUnpackError { value: String::from("title"), link: l() }.message(),
        "Could not unpack value title at link https://youtu.be/x"
    );
    assert_eq!(
        VideoError::PlaylistError { link: l() }.message(),
        "The video at link https://youtu.be/x is a playlist and is not supported"
    );
    assert_eq!(
        VideoError::BannedTitleWordError { link: l(), word: String::from("spam") }.message(),
        "The title of video at https://youtu.be/x contains banned term spam"
    );
    assert_eq!(
        VideoError::BannedSearchWordError { search: String::from("buy spam"), word: String::from("spam") }
            .message(),
        "The search term buy spam contains banned term spam"
    );
    assert_eq!(
        VideoError::BannedVideoError { link: l() }.message(),
        "The video at link https://youtu.be/x is currently banned"
    );
    assert_eq!(
        VideoError::VideoSourceError { link: l(), reason: String::from("no ffmpeg") }.message(),
        "Could not get a source for the video at link https://youtu.be/x: no ffmpeg"
    );
}

#[test]
fn handler_error_message() {
    assert_eq!(
        HandlerError::HandlerGetError { why: String::from("Failed to lock handler.") }.message(),
        "Could not handler, serenity returned: Failed to lock handler."
    );
}
