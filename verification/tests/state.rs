//! Interface-side state: thread reading, comment scrolling, cursors.

use bahamut::post::{Post, PostComment, PostContent};
use bahamut::state::{
    wrap_next_index, wrap_previous_index, KeyBindEvent, PostCommentState, PostPageState,
};
use bahamut::user::User;

fn content(floor: u16, lines: usize) -> PostContent {
    PostContent {
        id: format!("c{}", floor),
        desc: (0..lines).map(|i| format!("line {}", i)).collect(),
        user: User::default(),
        floor,
        date: String::new(),
    }
}

fn loaded(posts: usize) -> PostPageState {
    let mut s = PostPageState::default();
    s.data(Post {
        id: "1".to_string(),
        title: "t".to_string(),
        posts: (0..posts).map(|i| content(i as u16 + 1, 3)).collect(),
        floor: 0,
    });
    s.page(1);
    s.last_page(2);
    s
}

#[test]
fn reader_steps_through_loaded_posts() {
    let mut s = loaded(3);
    assert_eq!(s.index, 0);
    assert_eq!(s.next(), Some(()));
    assert_eq!(s.index, 1);
    assert_eq!(s.next(), Some(()));
    assert_eq!(s.index, 2);
    // No further post is loaded.
    assert_eq!(s.next(), None);
    assert_eq!(s.index, 2);
}

#[test]
fn reader_clamps_at_the_first_post() {
    let mut s = loaded(2);
    s.previous();
    assert_eq!(s.index, 0);
    s.next();
    s.previous();
    assert_eq!(s.index, 0);
}

#[test]
fn stepping_resets_the_scroll() {
    let mut s = loaded(2);
    s.scroll_size(1);
    s.scroll_down();
    assert_eq!(s.scroll_offset, 1);
    s.next();
    assert_eq!(s.scroll_offset, 0);
}

#[test]
fn has_next_looks_at_posts_then_pages() {
    let mut s = loaded(2);
    assert!(s.has_next());
    s.next();
    // On the last loaded post, but page 1 of 2: more can be requested.
    assert!(s.has_next());
    s.page(2);
    assert!(!s.has_next());
}

#[test]
fn current_follows_the_cursor() {
    let mut s = loaded(2);
    assert_eq!(s.current().unwrap().floor, 1);
    s.next();
    assert_eq!(s.current().unwrap().floor, 2);
    s.index(9);
    assert!(s.current().is_none());
}

#[test]
fn first_rewinds_everything() {
    let mut s = loaded(3);
    s.next();
    s.scroll_size(1);
    s.scroll_down();
    s.first();
    assert_eq!(s.index, 0);
    assert_eq!(s.scroll_offset, 0);
}

#[test]
fn scrolling_respects_the_window() {
    let mut s = loaded(1);
    // Three body lines, a window of one line: two steps down remain.
    s.scroll_size(1);
    s.scroll_down();
    s.scroll_down();
    assert_eq!(s.scroll_offset, 2);
    s.scroll_down();
    assert_eq!(s.scroll_offset, 2);
    s.scroll_up();
    assert_eq!(s.scroll_offset, 1);
    s.scroll_up();
    s.scroll_up();
    assert_eq!(s.scroll_offset, 0);
}

#[test]
fn chain_posts_appends_a_page() {
    let mut s = loaded(2);
    s.chain_posts(vec![content(3, 1)]);
    assert_eq!(s.data.posts.len(), 3);
    assert_eq!(s.data.posts[2].floor, 3);
}

fn comment(floor: u16) -> PostComment {
    PostComment {
        bsn: String::new(),
        sn: String::new(),
        userid: String::new(),
        comment: String::new(),
        gp: String::new(),
        bp: String::new(),
        wtime: String::new(),
        mtime: String::new(),
        state: String::new(),
        floor,
        content: String::new(),
        time: String::new(),
        nick: String::new(),
    }
}

#[test]
fn comment_scroller_stays_inside_the_list() {
    let mut s = PostCommentState::default();
    s.items(vec![comment(1), comment(2), comment(3)]);
    s.scroll_size(1);
    s.next();
    s.next();
    assert_eq!(s.offset, 2);
    // Nothing remains below the window.
    s.next();
    assert_eq!(s.offset, 2);
    s.previous();
    assert_eq!(s.offset, 1);
    s.previous();
    s.previous();
    assert_eq!(s.offset, 0);
    s.next();
    s.init();
    assert_eq!(s.offset, 0);
}

#[test]
fn comment_scroller_ignores_empty_lists() {
    let mut s = PostCommentState::default();
    s.next();
    assert_eq!(s.offset, 0);
    s.previous();
    assert_eq!(s.offset, 0);
}

#[test]
fn cursor_wraps_around() {
    assert_eq!(wrap_next_index(0, 3), 1);
    assert_eq!(wrap_next_index(2, 3), 0);
    assert_eq!(wrap_next_index(0, 0), 0);
    assert_eq!(wrap_previous_index(2, 3), 1);
    assert_eq!(wrap_previous_index(0, 3), 2);
    assert_eq!(wrap_previous_index(0, 0), 0);
}

#[test]
fn quit_is_the_only_quitting_event() {
    assert!(KeyBindEvent::Quit.is_quit());
    assert!(!KeyBindEvent::Idle.is_quit());
}
