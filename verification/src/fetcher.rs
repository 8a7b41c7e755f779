//! The fetch dispatcher: the single owner of every resource's page cache.
//!
//! The dispatcher is a state machine. [`Fetcher::on_request`] takes one
//! request and answers with an [`Action`]: either the response is already
//! decided, or one piece of outside work — a fetch or a parse, named by a
//! [`FetchSpec`] — is required first. The caller performs that work and
//! hands its outcome back through [`Fetcher::on_fetched`], which continues
//! until the response is ready. Every non-terminal request is answered by
//! exactly one response, after at most two pieces of outside work; the
//! terminal request stops the loop.
//!
//! A forced request (`ignore_cache`) discards the resource's cache and
//! rediscovers it, so the page source is always asked afresh; an ordinary
//! request reuses the existing cache of the resource, creating and
//! initializing it on first reference.

use vstd::prelude::*;
use crate::board::{Board, BoardPage, BoardPost};
use crate::cache::{GetStep, PageModel, beyond_max};
use crate::channel::{DataRequestMsg, FetchDataMsg, PageData};
use crate::post::{
    Post, PostComment, PostPage, PostPageUrlParameter, empty_post, post_like, sorted_by_floor,
};
use crate::query::{last_value, or_empty, url_query_pairs_of};
use crate::search::SearchResult;

verus! {

/// One piece of outside work: a network fetch, or a parse of retained
/// page-one text. The caller performs it and answers with the matching
/// [`Fetched`] event.
#[derive(Debug)]
pub enum FetchSpec {
    /// Search boards by this text.
    Search { query: String },
    /// Fetch page one of the board and extract its maximum page number;
    /// `page` repeats the page the request asked for.
    BoardFirst { id: String, page: u16 },
    /// Fetch and parse the given page of the board.
    BoardPage { id: String, page: u16 },
    /// Parse this retained page-one text of the board; no fetch.
    BoardParse { id: String, page: u16, html: String },
    /// Fetch page one of the thread and extract its maximum page number;
    /// `page` repeats the page the request asked for.
    PostFirst { board_id: String, id: String, floor: u16, page: u16 },
    /// Fetch and parse the given page of the thread.
    PostPage { board_id: String, id: String, floor: u16, page: u16 },
    /// Parse this retained page-one text of the thread; no fetch.
    PostParse { board_id: String, id: String, floor: u16, page: u16, html: String },
    /// Fetch the comments below the post `comment_id` of board `board_id`.
    Comments { board_id: String, comment_id: String },
}

/// The outcome of a piece of outside work. Any failure — network, parse,
/// or content — arrives as `None` (or an empty list); the dispatcher
/// never learns why.
#[derive(Debug)]
pub enum Fetched {
    Search(Vec<SearchResult>),
    /// The raw text of page one and the maximum page number extracted
    /// from it, or `None` if the fetch failed.
    BoardFirst(Option<(String, u16)>),
    /// A parsed board page, from a fetch or from retained text.
    BoardPage(Option<Board>),
    /// As [`Fetched::BoardFirst`], for a thread.
    PostFirst(Option<(String, u16)>),
    /// A parsed thread page, from a fetch or from retained text.
    PostPage(Option<Post>),
    /// The comments below a post, or `None` if the endpoint failed.
    Comments(Option<Vec<PostComment>>),
}

/// What the dispatcher asks of its caller after a step.
#[derive(Debug)]
pub enum Action {
    /// Perform this outside work and answer through
    /// [`Fetcher::on_fetched`].
    Fetch(FetchSpec),
    /// Deliver this response; the request is finished.
    Respond(FetchDataMsg),
    /// Stop the loop; no further requests are read.
    Stop,
}

/// The event kinds that may answer a given piece of outside work.
pub open spec fn answers(f: Fetched, s: FetchSpec) -> bool {
    match (f, s) {
        (Fetched::Search(_), FetchSpec::Search { .. }) => true,
        (Fetched::BoardFirst(_), FetchSpec::BoardFirst { .. }) => true,
        (Fetched::BoardPage(_), FetchSpec::BoardPage { .. }) => true,
        (Fetched::BoardPage(_), FetchSpec::BoardParse { .. }) => true,
        (Fetched::PostFirst(_), FetchSpec::PostFirst { .. }) => true,
        (Fetched::PostPage(_), FetchSpec::PostPage { .. }) => true,
        (Fetched::PostPage(_), FetchSpec::PostParse { .. }) => true,
        (Fetched::Comments(_), FetchSpec::Comments { .. }) => true,
        _ => false,
    }
}

/// Some board in the registry carries this id.
pub open spec fn has_board(s: Seq<BoardPage>, id: Seq<char>) -> bool {
    exists|j: int| 0 <= j < s.len() && s[j].id@ == id
}

/// The index of the board with this id (unique in a well-formed registry).
pub open spec fn board_at(s: Seq<BoardPage>, id: Seq<char>) -> int {
    choose|j: int| 0 <= j < s.len() && s[j].id@ == id
}

/// Some thread in the registry carries this compound key.
pub open spec fn has_post(s: Seq<PostPage>, board_id: Seq<char>, id: Seq<char>, floor: nat) -> bool {
    exists|j: int|
        0 <= j < s.len() && s[j].board_id@ == board_id && s[j].id@ == id && s[j].floor == floor
}

/// The index of the thread with this compound key (unique in a
/// well-formed registry).
pub open spec fn post_at(s: Seq<PostPage>, board_id: Seq<char>, id: Seq<char>, floor: nat) -> int {
    choose|j: int|
        0 <= j < s.len() && s[j].board_id@ == board_id && s[j].id@ == id && s[j].floor == floor
}

/// A cache as it stands right after construction: cursor on the requested
/// page, maximum unknown, nothing cached, no retained text.
pub open spec fn fresh_model<T>(page: u16) -> PageModel<T> {
    PageModel { page, max: 0, entries: Map::empty(), first: None }
}

/// The items of a board response: the posts of the parsed page, or
/// nothing where the page could not be read.
pub open spec fn board_items_of(v: Option<Board>) -> Seq<BoardPost> {
    match v {
        Some(b) => b.posts@,
        None => Seq::empty(),
    }
}

/// A board response envelope is correct for page `page`, known maximum
/// `max` and page value `v`.
pub open spec fn board_response(
    pd: PageData<Vec<BoardPost>>,
    page: u16,
    max: u16,
    v: Option<Board>,
) -> bool {
    &&& pd.page == page
    &&& pd.max == max
    &&& pd.items@ == board_items_of(v)
}

/// A thread response envelope is correct for page `page`, known maximum
/// `max` and page value `v`: it carries the parsed page, or an empty
/// thread page where the page could not be read.
pub open spec fn post_response(pd: PageData<Post>, page: u16, max: u16, v: Option<Post>) -> bool {
    &&& pd.page == page
    &&& pd.max == max
    &&& match v {
        Some(p) => post_like(p, pd.items),
        None => empty_post(pd.items),
    }
}

/// What becomes of a board read on cache state `m`: a ready answer is
/// responded at once, otherwise the named outside work is requested and
/// remembered as awaited.
pub open spec fn board_step_action(
    m: PageModel<Board>,
    id: Seq<char>,
    page: u16,
    act: Action,
    aw: Option<FetchSpec>,
) -> bool {
    if beyond_max(m, page) {
        &&& act matches Action::Respond(FetchDataMsg::BoardPage(pd))
            && board_response(pd, page, m.max, None)
        &&& aw is None
    } else if m.entries.contains_key(page) {
        &&& act matches Action::Respond(FetchDataMsg::BoardPage(pd))
            && board_response(pd, page, m.max, m.entries[page])
        &&& aw is None
    } else if page == 1 && m.first is Some {
        act matches Action::Fetch(s) && s matches FetchSpec::BoardParse {
            id: id2,
            page: p2,
            html,
        } && id2@ == id && p2 == page && html@ == m.first.unwrap() && aw == Some(s)
    } else {
        act matches Action::Fetch(s) && s matches FetchSpec::BoardPage { id: id2, page: p2 }
            && id2@ == id && p2 == page && aw == Some(s)
    }
}

/// What becomes of a thread read on cache state `m`; as
/// [`board_step_action`], for a thread addressed by its compound key.
pub open spec fn post_step_action(
    m: PageModel<Post>,
    board_id: Seq<char>,
    id: Seq<char>,
    floor: nat,
    page: u16,
    act: Action,
    aw: Option<FetchSpec>,
) -> bool {
    if beyond_max(m, page) {
        &&& act matches Action::Respond(FetchDataMsg::PostPage(pd))
            && post_response(pd, page, m.max, None)
        &&& aw is None
    } else if m.entries.contains_key(page) {
        &&& act matches Action::Respond(FetchDataMsg::PostPage(pd))
            && post_response(pd, page, m.max, m.entries[page])
        &&& aw is None
    } else if page == 1 && m.first is Some {
        act matches Action::Fetch(s) && s matches FetchSpec::PostParse {
            board_id: b2,
            id: id2,
            floor: f2,
            page: p2,
            html,
        } && b2@ == board_id && id2@ == id && f2 == floor && p2 == page && html@
            == m.first.unwrap() && aw == Some(s)
    } else {
        act matches Action::Fetch(s) && s matches FetchSpec::PostPage {
            board_id: b2,
            id: id2,
            floor: f2,
            page: p2,
        } && b2@ == board_id && id2@ == id && f2 == floor && p2 == page && aw == Some(s)
    }
}

#[derive(Clone, Copy, Debug)]
enum Pending {
    Idle,
    Search,
    Comments,
    BoardInit { idx: usize, page: u16 },
    BoardGet { idx: usize, page: u16 },
    PostInit { idx: usize, page: u16 },
    PostGet { idx: usize, page: u16 },
}

/// The fetch dispatcher: the registries of board and thread caches — one
/// cache per resource, created on first reference, never shared — and the
/// piece of outside work currently awaited.
pub struct Fetcher {
    boards: Vec<BoardPage>,
    posts: Vec<PostPage>,
    pending: Pending,
    awaiting_spec: Ghost<Option<FetchSpec>>,
}

impl Fetcher {
    /// The board registry, in creation order.
    pub closed spec fn boards(&self) -> Seq<BoardPage> {
        self.boards@
    }

    /// The thread registry, in creation order.
    pub closed spec fn posts(&self) -> Seq<PostPage> {
        self.posts@
    }

    /// The piece of outside work the dispatcher is waiting on, if any.
    pub closed spec fn awaiting(&self) -> Option<FetchSpec> {
        self.awaiting_spec@
    }

    /// How many pieces of outside work remain before the current request
    /// is answered: never more than two.
    pub closed spec fn steps_left(&self) -> nat {
        match self.pending {
            Pending::Idle => 0,
            Pending::Search => 1,
            Pending::Comments => 1,
            Pending::BoardInit { .. } => 2,
            Pending::BoardGet { .. } => 1,
            Pending::PostInit { .. } => 2,
            Pending::PostGet { .. } => 1,
        }
    }

    /// Registry consistency alone: every cache is well-formed and each
    /// resource has at most one cache.
    pub closed spec fn regs_wf(&self) -> bool {
        &&& forall|i: int| 0 <= i < self.boards@.len() ==> (#[trigger] self.boards@[i]).wf()
        &&& forall|i: int, j: int|
            0 <= i < j < self.boards@.len() ==> self.boards@[i].id@ != self.boards@[j].id@
        &&& forall|i: int| 0 <= i < self.posts@.len() ==> (#[trigger] self.posts@[i]).wf()
        &&& forall|i: int, j: int|
            0 <= i < j < self.posts@.len() ==> !(self.posts@[i].board_id@ == self.posts@[
                j
            ].board_id@ && self.posts@[i].id@ == self.posts@[j].id@ && self.posts@[i].floor
                == self.posts@[j].floor)
    }

    /// Registry consistency, and the awaited work names a cache in the
    /// state the continuation expects.
    pub closed spec fn wf(&self) -> bool {
        &&& self.regs_wf()
        &&& match self.pending {
            Pending::Idle => self.awaiting_spec@ is None,
            Pending::Search => self.awaiting_spec@ matches Some(FetchSpec::Search { .. }),
            Pending::Comments => self.awaiting_spec@ matches Some(FetchSpec::Comments { .. }),
            Pending::BoardInit { idx, page } => {
                &&& idx < self.boards@.len()
                &&& self.boards@[idx as int]@.max == 0
                &&& self.boards@[idx as int]@.entries == Map::<u16, Option<Board>>::empty()
                &&& self.awaiting_spec@ matches Some(FetchSpec::BoardFirst { id, page: p })
                    && id@ == self.boards@[idx as int].id@ && p == page
            },
            Pending::BoardGet { idx, page } => {
                &&& idx < self.boards@.len()
                &&& !beyond_max(self.boards@[idx as int]@, page)
                &&& self.awaiting_spec@ matches Some(s) && match s {
                    FetchSpec::BoardPage { id, page: p } => id@ == self.boards@[idx as int].id@
                        && p == page,
                    FetchSpec::BoardParse { id, page: p, .. } => id@ == self.boards@[
                        idx as int
                    ].id@ && p == page,
                    _ => false,
                }
            },
            Pending::PostInit { idx, page } => {
                &&& idx < self.posts@.len()
                &&& self.posts@[idx as int]@.max == 0
                &&& self.posts@[idx as int]@.entries == Map::<u16, Option<Post>>::empty()
                &&& self.awaiting_spec@ matches Some(FetchSpec::PostFirst {
                    board_id,
                    id,
                    floor,
                    page: p,
                }) && board_id@ == self.posts@[idx as int].board_id@ && id@ == self.posts@[
                    idx as int
                ].id@ && floor == self.posts@[idx as int].floor && p == page
            },
            Pending::PostGet { idx, page } => {
                &&& idx < self.posts@.len()
                &&& !beyond_max(self.posts@[idx as int]@, page)
                &&& self.awaiting_spec@ matches Some(s) && match s {
                    FetchSpec::PostPage { board_id, id, floor, page: p } => board_id@
                        == self.posts@[idx as int].board_id@ && id@ == self.posts@[idx as int].id@
                        && floor == self.posts@[idx as int].floor && p == page,
                    FetchSpec::PostParse { board_id, id, floor, page: p, .. } => board_id@
                        == self.posts@[idx as int].board_id@ && id@ == self.posts@[idx as int].id@
                        && floor == self.posts@[idx as int].floor && p == page,
                    _ => false,
                }
            },
        }
    }

    /// A dispatcher with empty registries, waiting for its first request.
    pub fn new() -> (r: Fetcher)
        ensures
            r.wf(),
            r.boards() == Seq::<BoardPage>::empty(),
            r.posts() == Seq::<PostPage>::empty(),
            r.awaiting() is None,
            r.steps_left() == 0,
    {
        Fetcher {
            boards: Vec::new(),
            posts: Vec::new(),
            pending: Pending::Idle,
            awaiting_spec: Ghost(None),
        }
    }

    /// No outside work is awaited: the next request may be dispatched.
    pub fn is_idle(&self) -> (r: bool)
        requires
            self.wf(),
        ensures
            r == (self.awaiting() is None),
    {
        match self.pending {
            Pending::Idle => true,
            _ => false,
        }
    }

    fn board_lookup(&self, id: &String) -> (r: Option<usize>)
        ensures
            match r {
                Some(i) => i < self.boards@.len() && self.boards@[i as int].id@ == id@,
                None => !has_board(self.boards@, id@),
            },
    {
        let n = self.boards.len();
        let mut i: usize = 0;
        while i < n
            invariant
                n == self.boards@.len(),
                0 <= i <= n,
                forall|j: int| 0 <= j < i ==> self.boards@[j].id@ != id@,
            decreases n - i,
        {
            if self.boards[i].id == *id {
                return Some(i);
            }
            i = i + 1;
        }
        None
    }

    fn post_lookup(&self, board_id: &String, id: &String, floor: u16) -> (r: Option<usize>)
        ensures
            match r {
                Some(i) => i < self.posts@.len() && self.posts@[i as int].board_id@ == board_id@
                    && self.posts@[i as int].id@ == id@ && self.posts@[i as int].floor == floor,
                None => !has_post(self.posts@, board_id@, id@, floor as nat),
            },
    {
        let n = self.posts.len();
        let mut i: usize = 0;
        while i < n
            invariant
                n == self.posts@.len(),
                0 <= i <= n,
                forall|j: int|
                    0 <= j < i ==> !(self.posts@[j].board_id@ == board_id@ && self.posts@[j].id@
                        == id@ && self.posts@[j].floor == floor),
            decreases n - i,
        {
            if self.posts[i].board_id == *board_id && self.posts[i].id == *id && self.posts[i].floor
                == floor {
                return Some(i);
            }
            i = i + 1;
        }
        None
    }

    /// Dispatches one request. Requires that no outside work is pending:
    /// one request is processed fully before the next is read.
    pub fn on_request(&mut self, req: DataRequestMsg) -> (act: Action)
        requires
            old(self).wf(),
            old(self).awaiting() is None,
        ensures
            final(self).wf(),
            final(self).steps_left() <= 2,
            act is Stop || act is Respond ==> final(self).awaiting() is None
                && final(self).steps_left() == 0,
            act is Fetch ==> final(self).awaiting() is Some && final(self).steps_left() >= 1,
            match req {
                DataRequestMsg::End => {
                    &&& act == Action::Stop
                    &&& final(self).boards() == old(self).boards()
                    &&& final(self).posts() == old(self).posts()
                },
                DataRequestMsg::SearchResult(q) => {
                    &&& act matches Action::Fetch(s) && s matches FetchSpec::Search { query }
                        && query == q && final(self).awaiting() == Some(s)
                    &&& final(self).boards() == old(self).boards()
                    &&& final(self).posts() == old(self).posts()
                },
                DataRequestMsg::CommentPage(b, c) => {
                    &&& act matches Action::Fetch(s) && s matches FetchSpec::Comments {
                        board_id,
                        comment_id,
                    } && board_id == b && comment_id == c && final(self).awaiting() == Some(s)
                    &&& final(self).boards() == old(self).boards()
                    &&& final(self).posts() == old(self).posts()
                },
                DataRequestMsg::BoardPage(id, page, force) => {
                    &&& final(self).posts() == old(self).posts()
                    &&& if !force && has_board(old(self).boards(), id@) {
                        let i = board_at(old(self).boards(), id@);
                        &&& final(self).boards() == old(self).boards()
                        &&& board_step_action(
                            old(self).boards()[i]@,
                            id@,
                            page,
                            act,
                            final(self).awaiting(),
                        )
                    } else {
                        let i = if has_board(old(self).boards(), id@) {
                            board_at(old(self).boards(), id@)
                        } else {
                            old(self).boards().len() as int
                        };
                        &&& final(self).boards().len() == if has_board(old(self).boards(), id@) {
                            old(self).boards().len()
                        } else {
                            old(self).boards().len() + 1
                        }
                        &&& forall|j: int|
                            0 <= j < final(self).boards().len() && j != i ==> final(self).boards()[j]
                                == old(self).boards()[j]
                        &&& final(self).boards()[i].id@ == id@
                        &&& final(self).boards()[i]@ == fresh_model::<Board>(page)
                        &&& act matches Action::Fetch(s) && s matches FetchSpec::BoardFirst {
                            id: id2,
                            page: p2,
                        } && id2@ == id@ && p2 == page && final(self).awaiting() == Some(s)
                    }
                },
                DataRequestMsg::PostPage(url, page, force) => {
                    &&& final(self).boards() == old(self).boards()
                    &&& match url_query_pairs_of(url@) {
                        None => {
                            &&& final(self).posts() == old(self).posts()
                            &&& act matches Action::Respond(FetchDataMsg::PostPage(pd))
                                && post_response(pd, page, 0, None)
                            &&& final(self).awaiting() is None
                        },
                        Some(pairs) => {
                            let b = or_empty(last_value(pairs, "bsn"@));
                            let pid = or_empty(last_value(pairs, "snA"@));
                            let fl = crate::post::floor_of(last_value(pairs, "tnum"@));
                            if !force && has_post(old(self).posts(), b, pid, fl) {
                                let i = post_at(old(self).posts(), b, pid, fl);
                                &&& final(self).posts() == old(self).posts()
                                &&& post_step_action(
                                    old(self).posts()[i]@,
                                    b,
                                    pid,
                                    fl,
                                    page,
                                    act,
                                    final(self).awaiting(),
                                )
                            } else {
                                let i = if has_post(old(self).posts(), b, pid, fl) {
                                    post_at(old(self).posts(), b, pid, fl)
                                } else {
                                    old(self).posts().len() as int
                                };
                                &&& final(self).posts().len() == if has_post(
                                    old(self).posts(),
                                    b,
                                    pid,
                                    fl,
                                ) {
                                    old(self).posts().len()
                                } else {
                                    old(self).posts().len() + 1
                                }
                                &&& forall|j: int|
                                    0 <= j < final(self).posts().len() && j != i ==> final(self).posts()[j] == old(self).posts()[j]
                                &&& final(self).posts()[i].board_id@ == b
                                &&& final(self).posts()[i].id@ == pid
                                &&& final(self).posts()[i].floor == fl
                                &&& final(self).posts()[i]@ == fresh_model::<Post>(1)
                                &&& act matches Action::Fetch(s) && s
                                    matches FetchSpec::PostFirst {
                                    board_id: b2,
                                    id: id2,
                                    floor: f2,
                                    page: p2,
                                } && b2@ == b && id2@ == pid && f2 == fl && p2 == page && final(self).awaiting() == Some(s)
                            }
                        },
                    }
                },
            },
    {
        match req {
            DataRequestMsg::End => Action::Stop,
            DataRequestMsg::SearchResult(q) => {
                self.pending = Pending::Search;
                let s = FetchSpec::Search { query: q };
                self.awaiting_spec = Ghost(Some(s));
                Action::Fetch(s)
            }
            DataRequestMsg::CommentPage(b, c) => {
                self.pending = Pending::Comments;
                let s = FetchSpec::Comments { board_id: b, comment_id: c };
                self.awaiting_spec = Ghost(Some(s));
                Action::Fetch(s)
            }
            DataRequestMsg::BoardPage(id, page, force) => {
                let existing = if force {
                    None
                } else {
                    self.board_lookup(&id)
                };
                match existing {
                    Some(i) => {
                        proof {
                            let k = board_at(self.boards@, id@);
                            assert(self.boards@[k].id@ == id@);
                            assert(k == i as int);
                        }
                        let step = self.boards[i].get(page, false);
                        self.board_step(i, page, id, step)
                    }
                    None => {
                        let fresh = BoardPage::from_page(id.as_str(), page);
                        let idx = self.board_place(fresh);
                        self.pending = Pending::BoardInit { idx, page };
                        let s = FetchSpec::BoardFirst { id, page };
                        self.awaiting_spec = Ghost(Some(s));
                        Action::Fetch(s)
                    }
                }
            }
            DataRequestMsg::PostPage(url, page, force) => {
                let param = match PostPageUrlParameter::from_url(url.as_str()) {
                    Some(p) => p,
                    None => {
                        let pd = PageData { page, max: 0u16, items: Post::default() };
                        return Action::Respond(FetchDataMsg::PostPage(pd));
                    }
                };
                let existing = if force {
                    None
                } else {
                    self.post_lookup(&param.board_id, &param.id, param.floor)
                };
                match existing {
                    Some(i) => {
                        proof {
                            let pairs = url_query_pairs_of(url@).unwrap();
                            let b = or_empty(last_value(pairs, "bsn"@));
                            let pid = or_empty(last_value(pairs, "snA"@));
                            let fl = crate::post::floor_of(last_value(pairs, "tnum"@));
                            let k = post_at(self.posts@, b, pid, fl);
                            assert(self.posts@[k].board_id@ == b && self.posts@[k].id@ == pid
                                && self.posts@[k].floor == fl);
                            assert(k == i as int);
                        }
                        let step = self.posts[i].get(page, false);
                        let board_id = self.posts[i].board_id.clone();
                        let pid = self.posts[i].id.clone();
                        let floor = self.posts[i].floor;
                        self.post_step(i, page, board_id, pid, floor, step)
                    }
                    None => {
                        let board_id = param.board_id.clone();
                        let pid = param.id.clone();
                        let floor = param.floor;
                        let fresh = PostPage::from_param(param);
                        let idx = self.post_place(fresh);
                        self.pending = Pending::PostInit { idx, page };
                        let s = FetchSpec::PostFirst { board_id, id: pid, floor, page };
                        self.awaiting_spec = Ghost(Some(s));
                        Action::Fetch(s)
                    }
                }
            }
        }
    }

    /// Hands back the outcome of the awaited outside work and continues
    /// the request: the dispatcher either answers now or names the one
    /// further piece of work still required.
    pub fn on_fetched(&mut self, f: Fetched) -> (act: Action)
        requires
            old(self).wf(),
            old(self).awaiting() is Some,
            answers(f, old(self).awaiting().unwrap()),
        ensures
            final(self).wf(),
            act is Stop || act is Respond ==> final(self).awaiting() is None
                && final(self).steps_left() == 0,
            act is Fetch ==> final(self).awaiting() is Some && final(self).steps_left()
                < old(self).steps_left(),
            match (old(self).awaiting().unwrap(), f) {
                (FetchSpec::Search { .. }, Fetched::Search(items)) => {
                    &&& act == Action::Respond(FetchDataMsg::SearchResult(items))
                    &&& final(self).boards() == old(self).boards()
                    &&& final(self).posts() == old(self).posts()
                },
                (FetchSpec::Comments { .. }, Fetched::Comments(res)) => {
                    &&& act matches Action::Respond(FetchDataMsg::CommentPage(list))
                        && sorted_by_floor(list@) && list@.to_multiset() == (match res {
                        Some(l) => l@,
                        None => Seq::<PostComment>::empty(),
                    }).to_multiset()
                    &&& final(self).boards() == old(self).boards()
                    &&& final(self).posts() == old(self).posts()
                },
                (FetchSpec::BoardFirst { id, page }, Fetched::BoardFirst(res)) => {
                    let i = board_at(old(self).boards(), id@);
                    let m2 = match res {
                        Some(fr) => PageModel {
                            max: fr.1,
                            first: Some(fr.0@),
                            ..old(self).boards()[i]@
                        },
                        None => old(self).boards()[i]@,
                    };
                    &&& final(self).boards().len() == old(self).boards().len()
                    &&& forall|j: int|
                        0 <= j < final(self).boards().len() && j != i ==> final(self).boards()[j]
                            == old(self).boards()[j]
                    &&& final(self).boards()[i].id@ == id@
                    &&& final(self).boards()[i]@ == m2
                    &&& final(self).posts() == old(self).posts()
                    &&& board_step_action(m2, id@, page, act, final(self).awaiting())
                },
                (FetchSpec::BoardPage { id, page }, Fetched::BoardPage(opt))
                | (FetchSpec::BoardParse { id, page, .. }, Fetched::BoardPage(opt)) => {
                    let i = board_at(old(self).boards(), id@);
                    &&& final(self).boards().len() == old(self).boards().len()
                    &&& forall|j: int|
                        0 <= j < final(self).boards().len() && j != i ==> final(self).boards()[j]
                            == old(self).boards()[j]
                    &&& final(self).boards()[i].id@ == id@
                    &&& final(self).boards()[i]@ == (PageModel {
                        entries: old(self).boards()[i]@.entries.insert(page, opt),
                        ..old(self).boards()[i]@
                    })
                    &&& final(self).posts() == old(self).posts()
                    &&& act matches Action::Respond(FetchDataMsg::BoardPage(pd)) && board_response(
                        pd,
                        page,
                        old(self).boards()[i]@.max,
                        opt,
                    )
                    &&& final(self).awaiting() is None
                },
                (FetchSpec::PostFirst { board_id, id, floor, page }, Fetched::PostFirst(res)) => {
                    let i = post_at(old(self).posts(), board_id@, id@, floor as nat);
                    let m2 = match res {
                        Some(fr) => PageModel {
                            max: fr.1,
                            first: Some(fr.0@),
                            ..old(self).posts()[i]@
                        },
                        None => old(self).posts()[i]@,
                    };
                    &&& final(self).posts().len() == old(self).posts().len()
                    &&& forall|j: int|
                        0 <= j < final(self).posts().len() && j != i ==> final(self).posts()[j]
                            == old(self).posts()[j]
                    &&& final(self).posts()[i].board_id@ == board_id@
                    &&& final(self).posts()[i].id@ == id@
                    &&& final(self).posts()[i].floor == floor
                    &&& final(self).posts()[i]@ == m2
                    &&& final(self).boards() == old(self).boards()
                    &&& post_step_action(
                        m2,
                        board_id@,
                        id@,
                        floor as nat,
                        page,
                        act,
                        final(self).awaiting(),
                    )
                },
                (FetchSpec::PostPage { board_id, id, floor, page }, Fetched::PostPage(opt))
                | (
                    FetchSpec::PostParse { board_id, id, floor, page, .. },
                    Fetched::PostPage(opt),
                ) => {
                    let i = post_at(old(self).posts(), board_id@, id@, floor as nat);
                    &&& final(self).posts().len() == old(self).posts().len()
                    &&& forall|j: int|
                        0 <= j < final(self).posts().len() && j != i ==> final(self).posts()[j]
                            == old(self).posts()[j]
                    &&& final(self).posts()[i].board_id@ == board_id@
                    &&& final(self).posts()[i].id@ == id@
                    &&& final(self).posts()[i].floor == floor
                    &&& final(self).posts()[i]@ == (PageModel {
                        entries: old(self).posts()[i]@.entries.insert(page, opt),
                        ..old(self).posts()[i]@
                    })
                    &&& final(self).boards() == old(self).boards()
                    &&& act matches Action::Respond(FetchDataMsg::PostPage(pd)) && post_response(
                        pd,
                        page,
                        old(self).posts()[i]@.max,
                        opt,
                    )
                    &&& final(self).awaiting() is None
                },
                _ => true,
            },
    {
        let p = self.pending;
        match (p, f) {
            (Pending::Search, Fetched::Search(items)) => {
                self.pending = Pending::Idle;
                self.awaiting_spec = Ghost(None);
                Action::Respond(FetchDataMsg::SearchResult(items))
            }
            (Pending::Comments, Fetched::Comments(res)) => {
                let list = match res {
                    Some(l) => l,
                    None => Vec::new(),
                };
                let sorted = PostComment::sorted_by_floor(list);
                self.pending = Pending::Idle;
                self.awaiting_spec = Ghost(None);
                Action::Respond(FetchDataMsg::CommentPage(sorted))
            }
            (Pending::BoardInit { idx, page }, Fetched::BoardFirst(res)) => {
                proof {
                    let aw = self.awaiting_spec@.unwrap();
                    let id_v = match aw {
                        FetchSpec::BoardFirst { id, .. } => id@,
                        _ => Seq::empty(),
                    };
                    let k = board_at(self.boards@, id_v);
                    assert(self.boards@[idx as int].id@ == id_v);
                    assert(k == idx as int);
                }
                let slot = &mut self.boards[idx];
                slot.init(res);
                let id = self.boards[idx].id.clone();
                let step = self.boards[idx].get(page, false);
                self.board_step(idx, page, id, step)
            }
            (Pending::BoardGet { idx, page }, Fetched::BoardPage(opt)) => {
                proof {
                    let aw = self.awaiting_spec@.unwrap();
                    let id_v = match aw {
                        FetchSpec::BoardPage { id, .. } => id@,
                        FetchSpec::BoardParse { id, .. } => id@,
                        _ => Seq::empty(),
                    };
                    let k = board_at(self.boards@, id_v);
                    assert(self.boards@[idx as int].id@ == id_v);
                    assert(k == idx as int);
                }
                let max = self.boards[idx].max();
                let slot = &mut self.boards[idx];
                let v = slot.get_and_cache(page, opt);
                let items = board_items(v);
                self.pending = Pending::Idle;
                self.awaiting_spec = Ghost(None);
                Action::Respond(FetchDataMsg::BoardPage(PageData { page, max, items }))
            }
            (Pending::PostInit { idx, page }, Fetched::PostFirst(res)) => {
                proof {
                    let aw = self.awaiting_spec@.unwrap();
                    let key = match aw {
                        FetchSpec::PostFirst { board_id, id, floor, .. } => (
                            board_id@,
                            id@,
                            floor as nat,
                        ),
                        _ => (Seq::empty(), Seq::empty(), 0nat),
                    };
                    let k = post_at(self.posts@, key.0, key.1, key.2);
                    assert(self.posts@[idx as int].board_id@ == key.0);
                    assert(k == idx as int);
                }
                let slot = &mut self.posts[idx];
                slot.init(res);
                let board_id = self.posts[idx].board_id.clone();
                let pid = self.posts[idx].id.clone();
                let floor = self.posts[idx].floor;
                let step = self.posts[idx].get(page, false);
                self.post_step(idx, page, board_id, pid, floor, step)
            }
            (Pending::PostGet { idx, page }, Fetched::PostPage(opt)) => {
                proof {
                    let aw = self.awaiting_spec@.unwrap();
                    let key = match aw {
                        FetchSpec::PostPage { board_id, id, floor, .. } => (
                            board_id@,
                            id@,
                            floor as nat,
                        ),
                        FetchSpec::PostParse { board_id, id, floor, .. } => (
                            board_id@,
                            id@,
                            floor as nat,
                        ),
                        _ => (Seq::empty(), Seq::empty(), 0nat),
                    };
                    let k = post_at(self.posts@, key.0, key.1, key.2);
                    assert(self.posts@[idx as int].board_id@ == key.0);
                    assert(k == idx as int);
                }
                let max = self.posts[idx].max();
                let slot = &mut self.posts[idx];
                let v = slot.get_and_cache(page, opt);
                let items = match v {
                    Some(post) => post,
                    None => Post::default(),
                };
                self.pending = Pending::Idle;
                self.awaiting_spec = Ghost(None);
                Action::Respond(FetchDataMsg::PostPage(PageData { page, max, items }))
            }
            _ => {
                proof {
                    assert(false);
                }
                Action::Stop
            }
        }
    }

    /// Puts a fresh board cache into the registry: in the slot of the
    /// board it replaces, or at the end.
    fn board_place(&mut self, fresh: BoardPage) -> (idx: usize)
        requires
            old(self).wf(),
            old(self).awaiting() is None,
            fresh.wf(),
        ensures
            final(self).wf(),
            final(self).awaiting() is None,
            final(self).posts() == old(self).posts(),
            idx < final(self).boards().len(),
            final(self).boards()[idx as int] == fresh,
            forall|j: int|
                0 <= j < final(self).boards().len() && j != idx ==> final(self).boards()[j] == old(self).boards()[j],
            if has_board(old(self).boards(), fresh.id@) {
                final(self).boards().len() == old(self).boards().len() && idx as int == board_at(
                    old(self).boards(),
                    fresh.id@,
                )
            } else {
                final(self).boards().len() == old(self).boards().len() + 1 && idx as int == old(self).boards().len()
            },
    {
        match self.board_lookup(&fresh.id) {
            Some(i) => {
                proof {
                    let k = board_at(self.boards@, fresh.id@);
                    assert(self.boards@[k].id@ == fresh.id@);
                    assert(k == i as int);
                }
                let slot = &mut self.boards[i];
                *slot = fresh;
                i
            }
            None => {
                let i = self.boards.len();
                self.boards.push(fresh);
                i
            }
        }
    }

    /// Puts a fresh thread cache into the registry: in the slot of the
    /// thread it replaces, or at the end.
    fn post_place(&mut self, fresh: PostPage) -> (idx: usize)
        requires
            old(self).wf(),
            old(self).awaiting() is None,
            fresh.wf(),
        ensures
            final(self).wf(),
            final(self).awaiting() is None,
            final(self).boards() == old(self).boards(),
            idx < final(self).posts().len(),
            final(self).posts()[idx as int] == fresh,
            forall|j: int|
                0 <= j < final(self).posts().len() && j != idx ==> final(self).posts()[j] == old(self).posts()[j],
            if has_post(old(self).posts(), fresh.board_id@, fresh.id@, fresh.floor as nat) {
                final(self).posts().len() == old(self).posts().len() && idx as int == post_at(
                    old(self).posts(),
                    fresh.board_id@,
                    fresh.id@,
                    fresh.floor as nat,
                )
            } else {
                final(self).posts().len() == old(self).posts().len() + 1 && idx as int == old(self).posts().len()
            },
    {
        match self.post_lookup(&fresh.board_id, &fresh.id, fresh.floor) {
            Some(i) => {
                proof {
                    let k = post_at(self.posts@, fresh.board_id@, fresh.id@, fresh.floor as nat);
                    assert(self.posts@[k].board_id@ == fresh.board_id@);
                    assert(k == i as int);
                }
                let slot = &mut self.posts[i];
                *slot = fresh;
                i
            }
            None => {
                let i = self.posts.len();
                self.posts.push(fresh);
                i
            }
        }
    }

    /// Turns a board read's step into the dispatcher's action: responds
    /// with a ready answer, or records and names the outside work.
    fn board_step(&mut self, idx: usize, page: u16, id: String, step: GetStep<Board>) -> (act:
        Action)
        requires
            old(self).regs_wf(),
            idx < old(self).boards().len(),
            old(self).boards()[idx as int].id@ == id@,
            crate::cache::get_step_ok(old(self).boards()[idx as int]@, page, false, step),
        ensures
            final(self).wf(),
            final(self).boards() == old(self).boards(),
            final(self).posts() == old(self).posts(),
            board_step_action(
                old(self).boards()[idx as int]@,
                id@,
                page,
                act,
                final(self).awaiting(),
            ),
            act is Respond ==> final(self).awaiting() is None && final(self).steps_left() == 0,
            act is Fetch ==> final(self).awaiting() is Some && final(self).steps_left() == 1,
    {
        match step {
            GetStep::Done(v) => {
                let max = self.boards[idx].max();
                let items = board_items(v);
                self.pending = Pending::Idle;
                self.awaiting_spec = Ghost(None);
                Action::Respond(FetchDataMsg::BoardPage(PageData { page, max, items }))
            }
            GetStep::Parse(html) => {
                self.pending = Pending::BoardGet { idx, page };
                let s = FetchSpec::BoardParse { id, page, html };
                self.awaiting_spec = Ghost(Some(s));
                Action::Fetch(s)
            }
            GetStep::Fetch => {
                self.pending = Pending::BoardGet { idx, page };
                let s = FetchSpec::BoardPage { id, page };
                self.awaiting_spec = Ghost(Some(s));
                Action::Fetch(s)
            }
        }
    }

    /// Turns a thread read's step into the dispatcher's action; as
    /// [`Fetcher::board_step`], for a thread.
    fn post_step(
        &mut self,
        idx: usize,
        page: u16,
        board_id: String,
        id: String,
        floor: u16,
        step: GetStep<Post>,
    ) -> (act: Action)
        requires
            old(self).regs_wf(),
            idx < old(self).posts().len(),
            old(self).posts()[idx as int].board_id@ == board_id@,
            old(self).posts()[idx as int].id@ == id@,
            old(self).posts()[idx as int].floor == floor,
            crate::cache::get_step_ok(old(self).posts()[idx as int]@, page, false, step),
        ensures
            final(self).wf(),
            final(self).boards() == old(self).boards(),
            final(self).posts() == old(self).posts(),
            post_step_action(
                old(self).posts()[idx as int]@,
                board_id@,
                id@,
                floor as nat,
                page,
                act,
                final(self).awaiting(),
            ),
            act is Respond ==> final(self).awaiting() is None && final(self).steps_left() == 0,
            act is Fetch ==> final(self).awaiting() is Some && final(self).steps_left() == 1,
    {
        match step {
            GetStep::Done(v) => {
                let max = self.posts[idx].max();
                let items = match v {
                    Some(post) => post,
                    None => Post::default(),
                };
                self.pending = Pending::Idle;
                self.awaiting_spec = Ghost(None);
                Action::Respond(FetchDataMsg::PostPage(PageData { page, max, items }))
            }
            GetStep::Parse(html) => {
                self.pending = Pending::PostGet { idx, page };
                let s = FetchSpec::PostParse { board_id, id, floor, page, html };
                self.awaiting_spec = Ghost(Some(s));
                Action::Fetch(s)
            }
            GetStep::Fetch => {
                self.pending = Pending::PostGet { idx, page };
                let s = FetchSpec::PostPage { board_id, id, floor, page };
                self.awaiting_spec = Ghost(Some(s));
                Action::Fetch(s)
            }
        }
    }
}

fn board_items(v: Option<Board>) -> (r: Vec<BoardPost>)
    ensures
        r@ == board_items_of(v),
{
    match v {
        Some(b) => b.post(),
        None => Vec::new(),
    }
}

} // verus!
