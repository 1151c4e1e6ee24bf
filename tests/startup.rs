use lcap::session::{get_cache_root, partition_id, BaseDir};
use lcap::visibility::{
    decide_initial_visibility, is_likely_auto_login, ShowTrigger, VisibilityController,
    VisibilityState,
};

fn is_v4(id: u128) -> bool {
    (id >> 76) & 0xf == 4 && (id >> 62) & 0x3 == 2
}

#[test]
fn auto_login_needs_an_existing_cache() {
    assert!(is_likely_auto_login(Some(true)));
    assert!(!is_likely_auto_login(Some(false)));
    assert!(!is_likely_auto_login(None));
}

#[test]
fn missing_cache_shows_at_once() {
    assert!(decide_initial_visibility(true, Some(false)));
    assert!(decide_initial_visibility(true, None));
    assert!(decide_initial_visibility(false, Some(false)));
    assert!(!decide_initial_visibility(true, Some(true)));
    assert!(decide_initial_visibility(false, Some(true)));
}

#[test]
fn timer_first_shows_once() {
    let mut v = VisibilityController::new(false);
    assert_eq!(v.state, VisibilityState::PendingShow);
    assert!(v.on_trigger(ShowTrigger::TimerElapsed));
    assert!(!v.on_trigger(ShowTrigger::PageLoaded));
    assert!(!v.on_trigger(ShowTrigger::TimerElapsed));
    assert_eq!(v.state, VisibilityState::Shown);
}

#[test]
fn load_first_shows_once() {
    let mut v = VisibilityController::new(false);
    assert!(v.on_trigger(ShowTrigger::PageLoaded));
    assert!(!v.on_trigger(ShowTrigger::TimerElapsed));
}

#[test]
fn shown_window_ignores_triggers() {
    let mut v = VisibilityController::new(true);
    assert_eq!(v.state, VisibilityState::Shown);
    assert!(!v.on_trigger(ShowTrigger::PageLoaded));
    assert!(!v.on_trigger(ShowTrigger::TimerElapsed));
}

#[test]
fn valid_partition_id_is_kept() {
    let id = partition_id(Some("550e8400-e29b-41d4-a716-446655440000"));
    assert_eq!(id, 0x550e8400_e29b_41d4_a716_446655440000);
    let simple = partition_id(Some("550e8400e29b41d4a716446655440000"));
    assert_eq!(simple, 0x550e8400_e29b_41d4_a716_446655440000);
}

#[test]
fn malformed_partition_id_is_replaced() {
    let a = partition_id(Some("not-a-uuid"));
    assert!(is_v4(a));
    let b = partition_id(None);
    assert!(is_v4(b));
    assert_ne!(a, b);
}

#[test]
fn cache_root_under_data_dir() {
    let r = get_cache_root(true, true, 0x550e8400_e29b_41d4_a716_446655440000);
    assert_eq!(r.base, BaseDir::ProjectDataLocal);
    assert_eq!(r.segments, vec!["550e8400-e29b-41d4-a716-446655440000".to_string()]);
}

#[test]
fn cache_root_fallbacks() {
    let home = get_cache_root(false, true, 0xabcdef);
    assert_eq!(home.base, BaseDir::Home);
    assert_eq!(
        home.segments,
        vec!["LCAP".to_string(), "00000000-0000-0000-0000-000000abcdef".to_string()]
    );
    let temp = get_cache_root(false, false, 0xabcdef);
    assert_eq!(temp.base, BaseDir::Temp);
    assert_eq!(temp.segments[0], "LCAP");
}
