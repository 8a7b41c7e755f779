//! A board cache driven against a fixture page, with the maximum page
//! number extracted the way the page source does it.

use bahamut::board::{Board, BoardCategory, BoardCategoryId, BoardPage, BoardPost};
use bahamut::cache::GetStep;
use bahamut::query::parse_u16;
use scraper::{Html, Selector};

/// The page source's maximum-page extraction: the text of the last
/// page-button link.
fn extract_max(html: &str) -> u16 {
    let document = Html::parse_document(html);
    let selector = Selector::parse(".BH-pagebtnA a").unwrap();
    document
        .select(&selector)
        .last()
        .and_then(|last| parse_u16(&last.text().collect::<String>()))
        .unwrap_or(0)
}

const FIXTURE: &str = r#"
<html><head><title>B1 board</title></head><body>
<div class="BH-pagebtnA">
  <a href="B.php?bsn=B1&page=1">1</a>
  <a href="B.php?bsn=B1&page=2">2</a>
  <a href="B.php?bsn=B1&page=5">5</a>
</div>
</body></html>
"#;

fn board(id: &str) -> Board {
    Board {
        id: id.to_string(),
        name: format!("board {}", id),
        category: vec![],
        posts: vec![BoardPost::default()],
    }
}

#[test]
fn discovery_finds_the_last_page_link() {
    // The fixture's last page link reads "5", so the maximum becomes 5;
    // page 6 is refused and page 5 is served.
    assert_eq!(extract_max(FIXTURE), 5);

    let mut page = BoardPage::new("B1");
    page.init(Some((FIXTURE.to_string(), extract_max(FIXTURE))));
    assert_eq!(page.max(), 5);

    assert!(matches!(page.get(6, false), GetStep::Done(None)));

    assert!(matches!(page.get(5, false), GetStep::Fetch));
    let served = page.get_and_cache(5, Some(board("B1")));
    assert!(served.is_some());
    assert!(matches!(page.get(5, false), GetStep::Done(Some(_))));
}

#[test]
fn failed_discovery_learns_nothing() {
    let mut page = BoardPage::new("B1");
    page.init(None);
    assert_eq!(page.max(), 0);
    assert!(matches!(page.get(1, false), GetStep::Fetch));
}

#[test]
fn from_page_starts_where_asked() {
    let page = BoardPage::from_page("B1", 4);
    assert_eq!(page.id, "B1");
    assert_eq!(page.page(), 4);
    assert_eq!(page.max(), 0);
    assert!(!page.is_over_min());
    assert!(!page.is_over_max());
}

#[test]
fn board_hands_out_its_posts() {
    let mut post = BoardPost::default();
    post.title("hello".to_string());
    post.gp(3);
    let b = Board {
        id: "B1".to_string(),
        name: "name".to_string(),
        category: vec![],
        posts: vec![post],
    };
    let listed = b.post();
    assert_eq!(listed.len(), 1);
    assert_eq!(listed[0].title, "hello");
    assert_eq!(listed[0].gp, 3);
    // The board keeps its own copy.
    assert_eq!(b.posts.len(), 1);
}

#[test]
fn post_builder_sets_each_field() {
    let mut p = BoardPost::default();
    assert_eq!(p.id, "0");
    p.id("77".to_string());
    p.title("title".to_string());
    p.date("04/05".to_string());
    p.desc("about".to_string());
    p.gp(9);
    p.reply_count(12);
    p.floor(3);
    p.category(BoardCategory {
        name: "general".to_string(),
        id: BoardCategoryId { id: "B1".to_string(), sub_id: "2".to_string() },
    });
    assert_eq!(p.id, "77");
    assert_eq!(p.title, "title");
    assert_eq!(p.date, "04/05");
    assert_eq!(p.desc, "about");
    assert_eq!(p.gp, 9);
    assert_eq!(p.reply, 12);
    assert_eq!(p.floor, 3);
    assert_eq!(p.category.name, "general");
    assert_eq!(p.category.id(), "2");
    assert_eq!(p.category.board_id(), "B1");
}

#[test]
fn clones_preserve_content() {
    let b = board("B9");
    let c = b.clone();
    assert_eq!(c.id, b.id);
    assert_eq!(c.name, b.name);
    assert_eq!(c.posts.len(), b.posts.len());
}
