use hivehook::pagination::{CursorWalk, OffsetWalk};
use hivehook::types::{ListResult, PageInfo, User};

fn user(id: &str) -> User {
    User { id: id.to_string(), ..Default::default() }
}

fn page<T>(nodes: Vec<T>, has_next_page: bool, end_cursor: Option<&str>) -> ListResult<T> {
    ListResult {
        nodes,
        page_info: PageInfo {
            has_next_page,
            end_cursor: end_cursor.map(String::from),
            ..Default::default()
        },
    }
}

#[test]
fn list_all_walks_every_page() {
    let mut walk = OffsetWalk::new(None);
    let mut requested = Vec::new();
    let mut responses = vec![
        page(vec![user("u1"), user("u2")], true, None),
        page(vec![user("u3")], false, None),
    ]
    .into_iter();
    while !walk.is_finished() {
        requested.push(walk.next_offset());
        walk.accept(responses.next().expect("a page for every request"));
    }
    assert_eq!(requested, vec![0, 2]);
    let ids: Vec<String> = walk.into_items().into_iter().map(|u| u.id).collect();
    assert_eq!(ids, vec!["u1", "u2", "u3"]);
}

#[test]
fn offset_walk_starts_at_given_offset_and_stops_on_empty_page() {
    let mut walk = OffsetWalk::new(Some(10));
    assert_eq!(walk.next_offset(), 10);
    walk.accept(page(vec![user("a"), user("b"), user("c")], true, None));
    assert!(!walk.is_finished());
    assert_eq!(walk.next_offset(), 13);
    walk.accept(page(Vec::<User>::new(), true, None));
    assert!(walk.is_finished());
    assert_eq!(walk.into_items().len(), 3);
}

#[test]
fn cursor_walk_follows_end_cursors() {
    let mut walk = CursorWalk::new(None);
    assert_eq!(walk.next_after(), None);
    walk.accept(page(vec![1, 2], true, Some("c1")));
    assert_eq!(walk.next_after().as_deref(), Some("c1"));
    walk.accept(page(vec![3], true, Some("c2")));
    assert_eq!(walk.next_after().as_deref(), Some("c2"));
    walk.accept(page(vec![4, 5], false, Some("c3")));
    assert!(walk.is_finished());
    assert_eq!(walk.into_items(), vec![1, 2, 3, 4, 5]);
}

#[test]
fn cursor_walk_stops_without_cursor() {
    let mut walk = CursorWalk::new(Some(String::from("start")));
    assert_eq!(walk.next_after().as_deref(), Some("start"));
    walk.accept(page(vec!["x"], true, None));
    assert!(walk.is_finished());
    assert_eq!(walk.into_items(), vec!["x"]);
}

#[test]
fn defaults_for_absent_fields() {
    assert_eq!(hivehook::types::default_output_format(), "default");
    assert_eq!(hivehook::types::default_alert_channel(), "WEBHOOK");
}
