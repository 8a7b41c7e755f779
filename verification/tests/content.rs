//! Thread content: comment ordering, defaults, personas.

use bahamut::post::{Post, PostComment, PostContent, PostPage, PostPageRef, PostPageUrlParameter};
use bahamut::search::SearchResult;
use bahamut::user::{User, UserCareer, UserRace};

fn comment(floor: u16, nick: &str) -> PostComment {
    PostComment {
        bsn: String::new(),
        sn: String::new(),
        userid: String::new(),
        comment: String::new(),
        gp: String::new(),
        bp: String::new(),
        wtime: String::new(),
        mtime: String::new(),
        state: String::new(),
        floor,
        content: String::new(),
        time: String::new(),
        nick: nick.to_string(),
    }
}

#[test]
fn comments_sort_by_floor() {
    let sorted = PostComment::sorted_by_floor(vec![
        comment(4, "d"),
        comment(1, "a"),
        comment(3, "c"),
        comment(2, "b"),
    ]);
    let floors: Vec<u16> = sorted.iter().map(|c| c.floor).collect();
    assert_eq!(floors, vec![1, 2, 3, 4]);
    let nicks: Vec<&str> = sorted.iter().map(|c| c.nick.as_str()).collect();
    assert_eq!(nicks, vec!["a", "b", "c", "d"]);
}

#[test]
fn sorting_keeps_every_comment() {
    let sorted = PostComment::sorted_by_floor(vec![
        comment(2, "x"),
        comment(2, "y"),
        comment(1, "z"),
    ]);
    assert_eq!(sorted.len(), 3);
    assert_eq!(sorted[0].floor, 1);
    let mut later: Vec<&str> = sorted[1..].iter().map(|c| c.nick.as_str()).collect();
    later.sort();
    assert_eq!(later, vec!["x", "y"]);
}

#[test]
fn sorting_an_empty_list_is_empty() {
    assert!(PostComment::sorted_by_floor(vec![]).is_empty());
}

#[test]
fn empty_thread_page_default() {
    let p = Post::default();
    assert_eq!(p.id, "");
    assert_eq!(p.title, "");
    assert!(p.posts.is_empty());
    assert_eq!(p.floor, 0);
}

#[test]
fn thread_cache_takes_its_key_from_the_parameter() {
    let param = PostPageUrlParameter::from_url(
        "https://forum.gamer.com.tw/C.php?bsn=60076&snA=99&tnum=12",
    )
    .unwrap();
    let page = PostPage::from_param(param);
    assert_eq!(page.board_id, "60076");
    assert_eq!(page.id, "99");
    assert_eq!(page.floor, 12);
    assert_eq!(page.page(), 1);
    assert_eq!(page.max(), 0);
}

#[test]
fn thread_snapshot_records_where_the_reader_stands() {
    let mut page = PostPage::new("60076", "99");
    page.floor(4);
    page.init(Some(("text".to_string(), 9)));
    let snap = PostPageRef::of(&page);
    assert_eq!(snap.board_id, "60076");
    assert_eq!(snap.id, "99");
    assert_eq!(snap.floor, 4);
    assert_eq!(snap.page, 1);
    // The snapshot's `max` takes the cursor, not the discovered bound.
    assert_eq!(snap.max, 1);
}

#[test]
fn persona_labels() {
    assert_eq!(UserRace::Human.label(), "人類");
    assert_eq!(UserRace::Elf.label(), "妖精");
    assert_eq!(UserRace::Dwarf.label(), "矮人");
    assert_eq!(UserRace::Ork.label(), "獸人");
    assert_eq!(UserRace::Unknown.label(), "未知");
    assert_eq!(UserCareer::Noob.label(), "初心者");
    assert_eq!(UserCareer::Sword.label(), "劍士");
    assert_eq!(UserCareer::Archer.label(), "弓箭手");
    assert_eq!(UserCareer::Preist.label(), "僧侶");
    assert_eq!(UserCareer::Wizard.label(), "法師");
    assert_eq!(UserCareer::Fighter.label(), "武鬥家");
    assert_eq!(UserCareer::Business.label(), "商人");
    assert_eq!(UserCareer::Assassin.label(), "盜賊");
    assert_eq!(UserCareer::Unknown.label(), "未知");
}

#[test]
fn default_user_is_a_level_one_dwarf_noob() {
    let u = User::default();
    assert_eq!(u.id, "");
    assert_eq!(u.name, "");
    assert_eq!(u.lv, 1);
    assert!(matches!(u.race, UserRace::Dwarf));
    assert!(matches!(u.carrer, UserCareer::Noob));
}

#[test]
fn content_clone_keeps_every_line() {
    let c = PostContent {
        id: "c1".to_string(),
        desc: vec!["a".to_string(), "b".to_string()],
        user: User::default(),
        floor: 2,
        date: "04/05".to_string(),
    };
    let d = c.clone();
    assert_eq!(d.id, "c1");
    assert_eq!(d.desc, vec!["a", "b"]);
    assert_eq!(d.floor, 2);
    assert_eq!(d.date, "04/05");
}

#[test]
fn search_result_clone_keeps_fields() {
    let s = SearchResult {
        id: "60076".to_string(),
        name: "some board".to_string(),
        platform: "PC".to_string(),
    };
    let t = s.clone();
    assert_eq!(t.id, s.id);
    assert_eq!(t.name, s.name);
    assert_eq!(t.platform, s.platform);
}
