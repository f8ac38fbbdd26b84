use hn_core::client::HackerNewsComment;
use hn_core::client::HackerNewsItem;
use hn_core::controller::drain_comment_messages;
use hn_core::controller::App;
use hn_core::controller::CommentFetchMessage;
use hn_core::controller::CommentStatus;
use hn_core::controller::InputEvent;

fn item(id: u64, title: &str) -> HackerNewsItem {
    HackerNewsItem {
        id,
        title: title.to_string(),
        by: "someone".to_string(),
        score: 1,
        url: None,
        time: None,
        text: None,
        kids: vec![],
        descendants: None,
    }
}

fn comment(id: u64, text: &str) -> HackerNewsComment {
    HackerNewsComment {
        id,
        by: "someone".to_string(),
        text: text.to_string(),
        kids: vec![],
        time: None,
    }
}

fn three_item_app() -> App {
    App::new(vec![item(1, "a"), item(2, "b"), item(3, "c")])
}

#[test]
fn new_app_selects_first_item() {
    let app = three_item_app();
    assert_eq!(app.selected, Some(0));
    assert!(matches!(app.comment_status, CommentStatus::Idle));
}

#[test]
fn new_app_on_empty_list_selects_nothing() {
    let app = App::new(vec![]);
    assert_eq!(app.selected, None);
    assert_eq!(app.selected_post_id(), None);
}

#[test]
fn quit_reports_immediately_with_fetch_outstanding() {
    let mut app = three_item_app();
    let started = app.ensure_comments_for_selection();
    assert_eq!(started, Some(1));
    let (quit, changed) = app.handle_key_event(InputEvent::Quit);
    assert!(quit);
    assert!(!changed);
    assert_eq!(app.selected, Some(0));
}

#[test]
fn navigating_down_from_last_wraps_to_first() {
    let mut app = three_item_app();
    app.handle_key_event(InputEvent::Up);
    assert_eq!(app.selected, Some(2));
    let (quit, changed) = app.handle_key_event(InputEvent::Down);
    assert!(!quit);
    assert!(changed);
    assert_eq!(app.selected, Some(0));
}

#[test]
fn navigating_up_from_first_wraps_to_last() {
    let mut app = three_item_app();
    let (quit, changed) = app.handle_key_event(InputEvent::Up);
    assert!(!quit);
    assert!(changed);
    assert_eq!(app.selected, Some(2));
}

#[test]
fn navigating_empty_list_reports_no_change() {
    let mut app = App::new(vec![]);
    assert_eq!(app.handle_key_event(InputEvent::Down), (false, false));
    assert_eq!(app.handle_key_event(InputEvent::Up), (false, false));
    assert_eq!(app.selected, None);
}

#[test]
fn navigating_single_item_list_reports_no_change() {
    let mut app = App::new(vec![item(9, "only")]);
    assert_eq!(app.handle_key_event(InputEvent::Down), (false, false));
    assert_eq!(app.selected, Some(0));
}

#[test]
fn other_keys_are_ignored() {
    let mut app = three_item_app();
    assert_eq!(app.handle_key_event(InputEvent::Other), (false, false));
    assert_eq!(app.selected, Some(0));
}

#[test]
fn ensure_starts_one_fetch_for_selection() {
    let mut app = three_item_app();
    assert_eq!(app.ensure_comments_for_selection(), Some(1));
    assert!(matches!(app.comment_status, CommentStatus::Loading));
    assert_eq!(app.inflight_story, Some(1));
}

#[test]
fn ensure_does_not_duplicate_inflight_fetch() {
    let mut app = three_item_app();
    assert_eq!(app.ensure_comments_for_selection(), Some(1));
    assert_eq!(app.ensure_comments_for_selection(), None);
    assert!(matches!(app.comment_status, CommentStatus::Loading));
}

#[test]
fn ensure_on_cached_selection_starts_no_fetch() {
    let mut app = three_item_app();
    assert_eq!(app.ensure_comments_for_selection(), Some(1));
    app.process_comment_message(CommentFetchMessage {
        story_id: 1,
        result: Ok(vec![comment(100, "hi")]),
    });
    assert_eq!(app.ensure_comments_for_selection(), None);
    assert!(matches!(app.comment_status, CommentStatus::Ready));
    assert_eq!(app.inflight_story, None);
}

#[test]
fn ensure_on_empty_list_goes_idle() {
    let mut app = App::new(vec![]);
    assert_eq!(app.ensure_comments_for_selection(), None);
    assert!(matches!(app.comment_status, CommentStatus::Idle));
}

#[test]
fn successful_completion_sets_ready_and_caches() {
    let mut app = three_item_app();
    app.ensure_comments_for_selection();
    app.process_comment_message(CommentFetchMessage {
        story_id: 1,
        result: Ok(vec![comment(100, "hi"), comment(101, "there")]),
    });
    assert!(matches!(app.comment_status, CommentStatus::Ready));
    assert_eq!(app.inflight_story, None);
    let cached = app.comments_for_selected().expect("cached comments");
    assert_eq!(cached.len(), 2);
    assert_eq!(cached[0].id, 100);
    assert_eq!(cached[1].id, 101);
}

#[test]
fn failed_completion_sets_error_and_caches_nothing() {
    let mut app = three_item_app();
    app.ensure_comments_for_selection();
    app.process_comment_message(CommentFetchMessage {
        story_id: 1,
        result: Err("boom".to_string()),
    });
    match &app.comment_status {
        CommentStatus::Error(msg) => assert_eq!(msg, "boom"),
        other => panic!("expected error status, got {:?}", other),
    }
    assert!(app.comments_for_selected().is_none());
    assert_eq!(app.ensure_comments_for_selection(), Some(1));
}

#[test]
fn completion_after_navigating_away_and_back_sets_ready() {
    let mut app = three_item_app();
    assert_eq!(app.ensure_comments_for_selection(), Some(1));
    app.handle_key_event(InputEvent::Down);
    assert_eq!(app.ensure_comments_for_selection(), Some(2));
    app.handle_key_event(InputEvent::Up);
    app.ensure_comments_for_selection();
    app.process_comment_message(CommentFetchMessage {
        story_id: 1,
        result: Ok(vec![comment(100, "hi")]),
    });
    assert!(matches!(app.comment_status, CommentStatus::Ready));
    assert!(app.comments_for_selected().is_some());
}

#[test]
fn stale_completion_does_not_touch_visible_status() {
    let mut app = three_item_app();
    assert_eq!(app.ensure_comments_for_selection(), Some(1));
    app.handle_key_event(InputEvent::Down);
    assert_eq!(app.ensure_comments_for_selection(), Some(2));
    app.process_comment_message(CommentFetchMessage {
        story_id: 1,
        result: Ok(vec![comment(100, "hi")]),
    });
    assert!(matches!(app.comment_status, CommentStatus::Loading));
    app.handle_key_event(InputEvent::Up);
    assert_eq!(app.ensure_comments_for_selection(), None);
    assert!(matches!(app.comment_status, CommentStatus::Ready));
}

#[test]
fn cache_entry_is_never_overwritten() {
    let mut app = three_item_app();
    app.ensure_comments_for_selection();
    app.process_comment_message(CommentFetchMessage {
        story_id: 1,
        result: Ok(vec![comment(100, "first")]),
    });
    app.process_comment_message(CommentFetchMessage {
        story_id: 1,
        result: Ok(vec![comment(200, "second")]),
    });
    let cached = app.comments_for_selected().expect("cached comments");
    assert_eq!(cached.len(), 1);
    assert_eq!(cached[0].id, 100);
}

#[test]
fn drain_applies_messages_in_arrival_order() {
    let mut app = three_item_app();
    app.ensure_comments_for_selection();
    drain_comment_messages(
        &mut app,
        vec![
            CommentFetchMessage { story_id: 1, result: Err("flaky".to_string()) },
            CommentFetchMessage { story_id: 1, result: Ok(vec![comment(100, "hi")]) },
        ],
    );
    assert!(matches!(app.comment_status, CommentStatus::Ready));
    assert!(app.comments_for_selected().is_some());
}
