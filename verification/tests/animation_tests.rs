use voice_notify::animation::AnimationError;
use voice_notify::animation::AnimationStore;

fn sample_store() -> AnimationStore {
    AnimationStore::new(vec![
        String::from("https://example.com/a.gif"),
        String::from("https://example.com/b.gif"),
        String::from("https://example.com/c.gif"),
    ])
    .unwrap()
}

#[test]
fn new_refuses_an_empty_list() {
    let r = AnimationStore::new(Vec::new());
    assert_eq!(r.err(), Some(AnimationError::EmptyList));
}

#[test]
fn new_keeps_the_urls() {
    let store = sample_store();
    assert_eq!(store.get_animation_urls_size(), 3);
    assert_eq!(
        store.get_animation_urls(),
        vec![
            String::from("https://example.com/a.gif"),
            String::from("https://example.com/b.gif"),
            String::from("https://example.com/c.gif"),
        ]
    );
}

#[test]
fn from_json_decodes_a_list() {
    let store =
        AnimationStore::from_json("[\"https://example.com/a.gif\", \"https://example.com/b.gif\"]")
            .unwrap();
    assert_eq!(store.get_animation_urls_size(), 2);
    assert_eq!(
        store.get_animation_url(0),
        Some(String::from("https://example.com/a.gif"))
    );
    assert_eq!(
        store.get_animation_url(1),
        Some(String::from("https://example.com/b.gif"))
    );
}

#[test]
fn from_json_refuses_text_that_is_no_list() {
    assert_eq!(
        AnimationStore::from_json("{\"a\": 1}").err(),
        Some(AnimationError::InvalidJson)
    );
    assert_eq!(
        AnimationStore::from_json("not json at all").err(),
        Some(AnimationError::InvalidJson)
    );
    assert_eq!(
        AnimationStore::from_json("[1, 2, 3]").err(),
        Some(AnimationError::InvalidJson)
    );
}

#[test]
fn from_json_refuses_an_empty_list() {
    assert_eq!(
        AnimationStore::from_json("[]").err(),
        Some(AnimationError::EmptyList)
    );
}

#[test]
fn get_animation_url_by_index() {
    let store = sample_store();
    assert_eq!(
        store.get_animation_url(2),
        Some(String::from("https://example.com/c.gif"))
    );
    assert_eq!(store.get_animation_url(3), None);
    assert_eq!(store.get_animation_url(usize::MAX), None);
}

#[test]
fn random_url_is_a_held_url() {
    let store = sample_store();
    let urls = store.get_animation_urls();
    for _ in 0..50 {
        let url = store.get_random_animation_url();
        assert!(urls.contains(&url));
    }
}
