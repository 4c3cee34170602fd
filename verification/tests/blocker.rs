use focus_companion::distraction_blocker::{
    get_popular_distractions, BlockItemType, BlockMode, BlockedItem, BlockerManager,
    BlockerSettings,
};

#[test]
fn default_settings_are_disabled_warn_only() {
    let m = BlockerManager::default();
    let s = m.get_blocker_settings().unwrap();
    assert!(!s.enabled);
    assert_eq!(s.block_mode, BlockMode::Warn);
    assert!(s.blocked_items.is_empty());
    assert!(s.allow_override);
    assert_eq!(s.override_timeout, 300);
}

#[test]
fn add_blocked_item_assigns_fresh_36_char_ids() {
    let mut m = BlockerManager::default();
    let a = m
        .add_blocked_item("YouTube".to_string(), "youtube.com".to_string(), "website".to_string())
        .unwrap();
    let b = m
        .add_blocked_item("Games".to_string(), "game.exe".to_string(), "application".to_string())
        .unwrap();
    assert_eq!(a.id.len(), 36);
    assert_eq!(b.id.len(), 36);
    assert_ne!(a.id, b.id);
    assert_eq!(a.item_type, BlockItemType::Website);
    assert_eq!(b.item_type, BlockItemType::Application);
    assert!(a.is_active && b.is_active);
    assert_eq!(a.name, "YouTube");
    assert_eq!(a.url_pattern, "youtube.com");
    let s = m.get_blocker_settings().unwrap();
    assert_eq!(s.blocked_items.len(), 2);
    assert_eq!(s.blocked_items[0].id, a.id);
    assert_eq!(s.blocked_items[1].id, b.id);
}

#[test]
fn unknown_item_type_defaults_to_website() {
    let mut m = BlockerManager::default();
    let item = m
        .add_blocked_item("X".to_string(), "x.com".to_string(), "whatever".to_string())
        .unwrap();
    assert_eq!(item.item_type, BlockItemType::Website);
}

#[test]
fn remove_blocked_item_keeps_the_others_in_order() {
    let mut m = BlockerManager::default();
    let a = m
        .add_blocked_item("A".to_string(), "a.com".to_string(), "website".to_string())
        .unwrap();
    let b = m
        .add_blocked_item("B".to_string(), "b.com".to_string(), "website".to_string())
        .unwrap();
    let c = m
        .add_blocked_item("C".to_string(), "c.com".to_string(), "website".to_string())
        .unwrap();
    m.remove_blocked_item(b.id.clone()).unwrap();
    let s = m.get_blocker_settings().unwrap();
    assert_eq!(s.blocked_items.len(), 2);
    assert_eq!(s.blocked_items[0].id, a.id);
    assert_eq!(s.blocked_items[1].id, c.id);
    // removing an unknown id is a no-op
    m.remove_blocked_item("no-such-id".to_string()).unwrap();
    assert_eq!(m.get_blocker_settings().unwrap().blocked_items.len(), 2);
}

#[test]
fn toggle_blocked_item_flips_only_the_matching_entry() {
    let mut m = BlockerManager::default();
    let a = m
        .add_blocked_item("A".to_string(), "a.com".to_string(), "website".to_string())
        .unwrap();
    let b = m
        .add_blocked_item("B".to_string(), "b.com".to_string(), "website".to_string())
        .unwrap();
    m.toggle_blocked_item(a.id.clone()).unwrap();
    let s = m.get_blocker_settings().unwrap();
    assert!(!s.blocked_items[0].is_active);
    assert!(s.blocked_items[1].is_active);
    m.toggle_blocked_item(a.id.clone()).unwrap();
    assert!(m.get_blocker_settings().unwrap().blocked_items[0].is_active);
    // toggling an unknown id changes nothing and still succeeds
    m.toggle_blocked_item("no-such-id".to_string()).unwrap();
    let s = m.get_blocker_settings().unwrap();
    assert!(s.blocked_items[0].is_active && s.blocked_items[1].is_active);
    let _ = b;
}

#[test]
fn check_url_blocked_matches_active_patterns_when_enabled() {
    let mut m = BlockerManager::default();
    let item = m
        .add_blocked_item("YouTube".to_string(), "youtube.com".to_string(), "website".to_string())
        .unwrap();
    // disabled: nothing is blocked
    assert!(!m.check_url_blocked("https://youtube.com/watch".to_string()).unwrap());
    // enable blocking
    let mut s = m.get_blocker_settings().unwrap();
    s.enabled = true;
    m.update_blocker_settings(s).unwrap();
    assert!(m.check_url_blocked("https://youtube.com/watch".to_string()).unwrap());
    assert!(!m.check_url_blocked("https://example.org".to_string()).unwrap());
    // an inactive item does not match
    m.toggle_blocked_item(item.id.clone()).unwrap();
    assert!(!m.check_url_blocked("https://youtube.com/watch".to_string()).unwrap());
}

#[test]
fn override_suspends_blocking_until_ended() {
    let mut m = BlockerManager::default();
    m.add_blocked_item("Y".to_string(), "youtube.com".to_string(), "website".to_string())
        .unwrap();
    let mut s = m.get_blocker_settings().unwrap();
    s.enabled = true;
    m.update_blocker_settings(s).unwrap();
    assert!(m.request_override(60).unwrap());
    assert!(!m.check_url_blocked("youtube.com".to_string()).unwrap());
    m.end_override().unwrap();
    assert!(m.check_url_blocked("youtube.com".to_string()).unwrap());
}

#[test]
fn override_is_denied_when_not_allowed() {
    let mut m = BlockerManager::default();
    m.add_blocked_item("Y".to_string(), "youtube.com".to_string(), "website".to_string())
        .unwrap();
    let mut s = m.get_blocker_settings().unwrap();
    s.enabled = true;
    s.allow_override = false;
    m.update_blocker_settings(s).unwrap();
    assert!(!m.request_override(60).unwrap());
    assert!(m.check_url_blocked("youtube.com".to_string()).unwrap());
}

#[test]
fn settings_roundtrip_through_update_and_get() {
    let mut m = BlockerManager::default();
    let new_settings = BlockerSettings {
        enabled: true,
        block_mode: BlockMode::Block,
        blocked_items: vec![BlockedItem {
            id: "fixed-id".to_string(),
            name: "Reddit".to_string(),
            url_pattern: "reddit.com".to_string(),
            item_type: BlockItemType::Website,
            is_active: true,
        }],
        allow_override: false,
        override_timeout: 42,
    };
    m.update_blocker_settings(new_settings.clone()).unwrap();
    let s = m.get_blocker_settings().unwrap();
    assert!(s.enabled);
    assert_eq!(s.block_mode, BlockMode::Block);
    assert!(!s.allow_override);
    assert_eq!(s.override_timeout, 42);
    assert_eq!(s.blocked_items.len(), 1);
    assert_eq!(s.blocked_items[0].id, "fixed-id");
    assert!(m.check_url_blocked("https://reddit.com/r/rust".to_string()).unwrap());
}

#[test]
fn toggle_with_duplicate_ids_flips_only_the_first_match() {
    let mut m = BlockerManager::default();
    let twin = |name: &str| BlockedItem {
        id: "same-id".to_string(),
        name: name.to_string(),
        url_pattern: "x.com".to_string(),
        item_type: BlockItemType::Website,
        is_active: true,
    };
    let settings = BlockerSettings {
        enabled: false,
        block_mode: BlockMode::Warn,
        blocked_items: vec![twin("first"), twin("second")],
        allow_override: true,
        override_timeout: 300,
    };
    m.update_blocker_settings(settings).unwrap();
    m.toggle_blocked_item("same-id".to_string()).unwrap();
    let s = m.get_blocker_settings().unwrap();
    assert!(!s.blocked_items[0].is_active);
    assert!(s.blocked_items[1].is_active);
}

#[test]
fn empty_pattern_matches_every_url() {
    let mut m = BlockerManager::default();
    m.add_blocked_item("All".to_string(), "".to_string(), "website".to_string())
        .unwrap();
    let mut s = m.get_blocker_settings().unwrap();
    s.enabled = true;
    m.update_blocker_settings(s).unwrap();
    assert!(m.check_url_blocked("https://anything.example".to_string()).unwrap());
    assert!(m.check_url_blocked("".to_string()).unwrap());
}

#[test]
fn popular_distractions_list_is_fixed() {
    let v = get_popular_distractions().unwrap();
    assert_eq!(
        v,
        vec![
            "youtube.com",
            "facebook.com",
            "twitter.com",
            "x.com",
            "instagram.com",
            "reddit.com",
            "tiktok.com",
            "netflix.com",
            "twitch.tv",
            "discord.com",
        ]
    );
}
