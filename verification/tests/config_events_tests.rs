use voice_notify::config::Config;
use voice_notify::events::resolve_name;
use voice_notify::events::should_notify_voice_join;

#[test]
fn config_hands_back_what_it_was_given() {
    let config = Config::new(
        String::from("discord-token"),
        String::from("telegram-token"),
        String::from("12345"),
        String::from("https://t.me/example_group"),
    );
    assert_eq!(config.discord_bot_token(), "discord-token");
    assert_eq!(config.telegram_bot_token(), "telegram-token");
    assert_eq!(config.telegram_chat_id(), "12345");
    assert_eq!(config.telegram_invite_link(), "https://t.me/example_group");
}

#[test]
fn notify_only_on_a_fresh_solo_join() {
    assert!(should_notify_voice_join(false, true, 0));
    assert!(should_notify_voice_join(false, true, 1));
    assert!(!should_notify_voice_join(false, true, 2));
    assert!(!should_notify_voice_join(true, true, 1));
    assert!(!should_notify_voice_join(false, false, 1));
}

#[test]
fn resolve_name_keeps_a_found_name() {
    assert_eq!(resolve_name(Some(String::from("alice"))), "alice");
}

#[test]
fn resolve_name_falls_back_to_the_placeholder() {
    assert_eq!(resolve_name(None), "<not_obtained>");
}
