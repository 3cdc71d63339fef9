use voice_notify::animation::AnimationStore;
use voice_notify::commands::animations_command_urls;
use voice_notify::commands::choose_notify_message;
use voice_notify::commands::command_name;
use voice_notify::commands::parse_command;
use voice_notify::commands::CommandKind;
use voice_notify::commands::NotifyError;
use voice_notify::message_helper::build_text_channel_notification_message;

fn sample_store() -> AnimationStore {
    AnimationStore::new(vec![
        String::from("https://example.com/a.gif"),
        String::from("https://example.com/b.gif"),
    ])
    .unwrap()
}

#[test]
fn command_names() {
    assert_eq!(command_name(CommandKind::Notify), "notify");
    assert_eq!(command_name(CommandKind::Animations), "animations");
    assert_eq!(command_name(CommandKind::Invite), "invite");
}

#[test]
fn parse_command_finds_each_command() {
    assert_eq!(
        parse_command(&String::from("notify")),
        Some(CommandKind::Notify)
    );
    assert_eq!(
        parse_command(&String::from("animations")),
        Some(CommandKind::Animations)
    );
    assert_eq!(
        parse_command(&String::from("invite")),
        Some(CommandKind::Invite)
    );
}

#[test]
fn parse_command_rejects_other_names() {
    assert_eq!(parse_command(&String::from("notifyy")), None);
    assert_eq!(parse_command(&String::from("Notify")), None);
    assert_eq!(parse_command(&String::from("")), None);
}

#[test]
fn choose_animation_url_by_index() {
    let store = sample_store();
    assert_eq!(
        store.choose_animation_url(Some(0)),
        Ok(String::from("https://example.com/a.gif"))
    );
    assert_eq!(
        store.choose_animation_url(Some(1)),
        Ok(String::from("https://example.com/b.gif"))
    );
}

#[test]
fn choose_animation_url_out_of_range() {
    let store = sample_store();
    assert_eq!(
        store.choose_animation_url(Some(2)),
        Err(NotifyError::IndexOutOfRange { index: 2, size: 2 })
    );
    assert_eq!(
        store.choose_animation_url(Some(100)),
        Err(NotifyError::IndexOutOfRange { index: 100, size: 2 })
    );
}

#[test]
fn choose_animation_url_without_index_picks_a_held_url() {
    let store = sample_store();
    let urls = store.get_animation_urls();
    for _ in 0..50 {
        let url = store.choose_animation_url(None).unwrap();
        assert!(urls.contains(&url));
    }
}

#[test]
fn choose_notify_message_prefers_the_custom_message() {
    let m = choose_notify_message(Some(String::from("come play!")), "u", "c", "g");
    assert_eq!(m, "come play!");
}

#[test]
fn choose_notify_message_builds_the_default() {
    let m = choose_notify_message(None, "bob", "chat", "our server");
    assert_eq!(
        m,
        build_text_channel_notification_message("bob", "chat", "our server")
    );
}

#[test]
fn animations_command_lists_urls_for_the_subcommand() {
    let store = sample_store();
    assert_eq!(
        animations_command_urls(&store, true),
        Some(store.get_animation_urls())
    );
}

#[test]
fn animations_command_refuses_without_the_subcommand() {
    let store = sample_store();
    assert_eq!(animations_command_urls(&store, false), None);
}
