//! The fetch dispatcher, driven against a mock page source that counts
//! how often it is actually fetched from.

use bahamut::board::{Board, BoardPost};
use bahamut::channel::{DataRequestMsg, FetchDataMsg};
use bahamut::fetcher::{Action, FetchSpec, Fetched, Fetcher};
use bahamut::post::{Post, PostComment};

/// A page source whose every board page holds one post, whose threads
/// have three pages, and whose fetches are counted.
struct MockSource {
    fetches: u32,
}

impl MockSource {
    fn new() -> MockSource {
        MockSource { fetches: 0 }
    }

    fn board(&self, id: &str, page: u16) -> Board {
        let mut post = BoardPost::default();
        post.title(format!("post of {} page {}", id, page));
        Board {
            id: id.to_string(),
            name: format!("board {}", id),
            category: vec![],
            posts: vec![post],
        }
    }

    fn perform(&mut self, spec: FetchSpec) -> Fetched {
        match spec {
            FetchSpec::Search { query } => {
                self.fetches += 1;
                let _ = query;
                Fetched::Search(vec![])
            }
            FetchSpec::BoardFirst { .. } => {
                self.fetches += 1;
                Fetched::BoardFirst(Some(("board page one".to_string(), 5)))
            }
            FetchSpec::BoardPage { id, page } => {
                self.fetches += 1;
                Fetched::BoardPage(Some(self.board(&id, page)))
            }
            FetchSpec::BoardParse { id, .. } => {
                // Parsing retained text is not a fetch.
                Fetched::BoardPage(Some(self.board(&id, 1)))
            }
            FetchSpec::PostFirst { .. } => {
                self.fetches += 1;
                Fetched::PostFirst(Some(("thread page one".to_string(), 3)))
            }
            FetchSpec::PostPage { id, page, .. } => {
                self.fetches += 1;
                Fetched::PostPage(Some(Post {
                    id,
                    title: format!("thread page {}", page),
                    posts: vec![],
                    floor: 0,
                }))
            }
            FetchSpec::PostParse { id, .. } => Fetched::PostPage(Some(Post {
                id,
                title: "thread page 1".to_string(),
                posts: vec![],
                floor: 0,
            })),
            FetchSpec::Comments { .. } => {
                self.fetches += 1;
                Fetched::Comments(Some(vec![]))
            }
        }
    }
}

/// Runs one request to completion; responses are collected, and `true`
/// means the worker stopped.
fn run(
    fetcher: &mut Fetcher,
    source: &mut MockSource,
    req: DataRequestMsg,
    responses: &mut Vec<FetchDataMsg>,
) -> bool {
    let mut act = fetcher.on_request(req);
    loop {
        match act {
            Action::Fetch(spec) => {
                let outcome = source.perform(spec);
                act = fetcher.on_fetched(outcome);
            }
            Action::Respond(msg) => {
                responses.push(msg);
                return false;
            }
            Action::Stop => {
                return true;
            }
        }
    }
}

#[test]
fn repeated_board_request_fetches_once() {
    // Two identical board requests, then the terminal request: one
    // underlying fetch (page one, at discovery), two responses, stop.
    let mut fetcher = Fetcher::new();
    let mut source = MockSource::new();
    let mut responses = Vec::new();

    let r1 = run(
        &mut fetcher,
        &mut source,
        DataRequestMsg::BoardPage("B1".to_string(), 1, false),
        &mut responses,
    );
    let r2 = run(
        &mut fetcher,
        &mut source,
        DataRequestMsg::BoardPage("B1".to_string(), 1, false),
        &mut responses,
    );
    let stopped = run(&mut fetcher, &mut source, DataRequestMsg::End, &mut responses);

    assert!(!r1 && !r2);
    assert!(stopped);
    assert_eq!(source.fetches, 1);
    assert_eq!(responses.len(), 2);
    for msg in &responses {
        match msg {
            FetchDataMsg::BoardPage(pd) => {
                assert_eq!(pd.page, 1);
                assert_eq!(pd.max, 5);
                assert_eq!(pd.items.len(), 1);
            }
            _ => panic!("expected a board response"),
        }
    }
}

#[test]
fn forced_board_request_fetches_every_time() {
    // The same forced request twice: the cache is discarded and
    // rediscovered both times, so the source is fetched twice.
    let mut fetcher = Fetcher::new();
    let mut source = MockSource::new();
    let mut responses = Vec::new();

    run(
        &mut fetcher,
        &mut source,
        DataRequestMsg::BoardPage("B1".to_string(), 1, true),
        &mut responses,
    );
    run(
        &mut fetcher,
        &mut source,
        DataRequestMsg::BoardPage("B1".to_string(), 1, true),
        &mut responses,
    );

    assert_eq!(source.fetches, 2);
    assert_eq!(responses.len(), 2);
}

#[test]
fn board_page_beyond_maximum_answers_empty() {
    let mut fetcher = Fetcher::new();
    let mut source = MockSource::new();
    let mut responses = Vec::new();

    run(
        &mut fetcher,
        &mut source,
        DataRequestMsg::BoardPage("B1".to_string(), 1, false),
        &mut responses,
    );
    run(
        &mut fetcher,
        &mut source,
        DataRequestMsg::BoardPage("B1".to_string(), 9, false),
        &mut responses,
    );

    // The second request lies beyond the discovered maximum of 5: it is
    // answered at once, with no further fetch.
    assert_eq!(source.fetches, 1);
    match &responses[1] {
        FetchDataMsg::BoardPage(pd) => {
            assert_eq!(pd.page, 9);
            assert_eq!(pd.max, 5);
            assert!(pd.items.is_empty());
        }
        _ => panic!("expected a board response"),
    }
}

#[test]
fn distinct_boards_do_not_share_caches() {
    let mut fetcher = Fetcher::new();
    let mut source = MockSource::new();
    let mut responses = Vec::new();

    run(
        &mut fetcher,
        &mut source,
        DataRequestMsg::BoardPage("B1".to_string(), 1, false),
        &mut responses,
    );
    run(
        &mut fetcher,
        &mut source,
        DataRequestMsg::BoardPage("B2".to_string(), 1, false),
        &mut responses,
    );
    run(
        &mut fetcher,
        &mut source,
        DataRequestMsg::BoardPage("B1".to_string(), 1, false),
        &mut responses,
    );

    // Each board is discovered once; the repeat costs nothing.
    assert_eq!(source.fetches, 2);
    assert_eq!(responses.len(), 3);
}

#[test]
fn thread_request_uses_compound_key() {
    let mut fetcher = Fetcher::new();
    let mut source = MockSource::new();
    let mut responses = Vec::new();

    let url = "https://example.invalid/C.php?bsn=60076&snA=123".to_string();
    run(
        &mut fetcher,
        &mut source,
        DataRequestMsg::PostPage(url.clone(), 1, false),
        &mut responses,
    );
    run(
        &mut fetcher,
        &mut source,
        DataRequestMsg::PostPage(url, 1, false),
        &mut responses,
    );

    assert_eq!(source.fetches, 1);
    assert_eq!(responses.len(), 2);
    match &responses[0] {
        FetchDataMsg::PostPage(pd) => {
            assert_eq!(pd.page, 1);
            assert_eq!(pd.max, 3);
            assert_eq!(pd.items.title, "thread page 1");
        }
        _ => panic!("expected a thread response"),
    }
}

#[test]
fn unreadable_thread_url_answers_empty_page() {
    let mut fetcher = Fetcher::new();
    let mut source = MockSource::new();
    let mut responses = Vec::new();

    run(
        &mut fetcher,
        &mut source,
        DataRequestMsg::PostPage("not a url".to_string(), 2, false),
        &mut responses,
    );

    assert_eq!(source.fetches, 0);
    match &responses[0] {
        FetchDataMsg::PostPage(pd) => {
            assert_eq!(pd.page, 2);
            assert_eq!(pd.max, 0);
            assert!(pd.items.id.is_empty());
            assert!(pd.items.posts.is_empty());
        }
        _ => panic!("expected a thread response"),
    }
}

#[test]
fn comments_come_back_sorted() {
    let mut fetcher = Fetcher::new();
    let mut responses = Vec::new();

    let mut act = fetcher.on_request(DataRequestMsg::CommentPage(
        "B1".to_string(),
        "c9".to_string(),
    ));
    // Answer the comment fetch with floors out of order.
    if let Action::Fetch(FetchSpec::Comments { board_id, comment_id }) = act {
        assert_eq!(board_id, "B1");
        assert_eq!(comment_id, "c9");
        act = fetcher.on_fetched(Fetched::Comments(Some(vec![
            comment(3),
            comment(1),
            comment(2),
        ])));
    } else {
        panic!("expected a comment fetch");
    }
    if let Action::Respond(msg) = act {
        responses.push(msg);
    } else {
        panic!("expected a response");
    }

    match &responses[0] {
        FetchDataMsg::CommentPage(list) => {
            let floors: Vec<u16> = list.iter().map(|c| c.floor).collect();
            assert_eq!(floors, vec![1, 2, 3]);
        }
        _ => panic!("expected a comment response"),
    }
}

#[test]
fn search_request_passes_through() {
    let mut fetcher = Fetcher::new();
    let act = fetcher.on_request(DataRequestMsg::SearchResult("gaming".to_string()));
    match act {
        Action::Fetch(FetchSpec::Search { query }) => assert_eq!(query, "gaming"),
        _ => panic!("expected a search fetch"),
    }
    let act = fetcher.on_fetched(Fetched::Search(vec![]));
    assert!(matches!(
        act,
        Action::Respond(FetchDataMsg::SearchResult(_))
    ));
}

fn comment(floor: u16) -> PostComment {
    PostComment {
        bsn: String::new(),
        sn: String::new(),
        userid: String::new(),
        comment: String::new(),
        gp: String::new(),
        bp: String::new(),
        wtime: String::new(),
        mtime: String::new(),
        state: String::new(),
        floor,
        content: String::new(),
        time: String::new(),
        nick: String::new(),
    }
}
