use voice_notify::commands::build_invite_message;
use voice_notify::message_helper::build_notification_message;
use voice_notify::message_helper::build_text_channel_notification_message;
use voice_notify::message_helper::build_voice_channel_notification_message;
use voice_notify::message_helper::EventKind;

#[test]
fn voice_channel_message_text() {
    let m = build_voice_channel_notification_message("alice", "general", "our server");
    assert_eq!(
        m,
        "*alice* joined to voice channel *general* in server *our server*. Are you joining?"
    );
}

#[test]
fn text_channel_message_text() {
    let m = build_text_channel_notification_message("bob", "chat", "our server");
    assert_eq!(
        m,
        "*bob* is calling in text channel *chat* in server *our server*. Are you joining?"
    );
}

#[test]
fn one_builder_serves_both_kinds() {
    assert_eq!(
        build_notification_message(EventKind::VoiceChannelJoin, "u", "c", "g"),
        build_voice_channel_notification_message("u", "c", "g")
    );
    assert_eq!(
        build_notification_message(EventKind::TextChannelCall, "u", "c", "g"),
        build_text_channel_notification_message("u", "c", "g")
    );
}

#[test]
fn message_with_empty_names() {
    let m = build_voice_channel_notification_message("", "", "");
    assert_eq!(m, "** joined to voice channel ** in server **. Are you joining?");
}

#[test]
fn invite_message_text() {
    let m = build_invite_message("https://t.me/example_group");
    assert_eq!(
        m,
        "Use this link to join our telegram!\nhttps://t.me/example_group"
    );
}
