//! Threads: a paginated discussion, its posts, and the comments below a
//! post.
//!
//! A thread page arrives from the page source as plain values — the
//! thread's id and title and the posts of the page — and [`PostPage`]
//! drives the generic cache engine for one thread, addressed by the
//! compound key read out of the thread's URL.

use vstd::prelude::*;
use crate::cache::{CachedPage, GetStep, PageModel, get_step_ok, next_ok, previous_ok, beyond_max};
use crate::query::{
    dec_spec, last_value, or_empty, parse_u16, url_query_pairs, url_query_pairs_of,
};
use crate::user::User;

verus! {

/// Read access to the comments below a post.
pub trait CommentReadable {
    fn comment(&self) -> Vec<PostComment>;
}

/// One comment below a post, as delivered by the comment endpoint.
#[derive(Debug)]
pub struct PostComment {
    pub bsn: String,
    pub sn: String,
    pub userid: String,
    pub comment: String,
    pub gp: String,
    pub bp: String,
    pub wtime: String,
    pub mtime: String,
    pub state: String,
    pub floor: u16,
    pub content: String,
    pub time: String,
    pub nick: String,
}

impl Clone for PostComment {
    fn clone(&self) -> (r: Self)
        ensures
            r == *self,
    {
        PostComment {
            bsn: self.bsn.clone(),
            sn: self.sn.clone(),
            userid: self.userid.clone(),
            comment: self.comment.clone(),
            gp: self.gp.clone(),
            bp: self.bp.clone(),
            wtime: self.wtime.clone(),
            mtime: self.mtime.clone(),
            state: self.state.clone(),
            floor: self.floor,
            content: self.content.clone(),
            time: self.time.clone(),
            nick: self.nick.clone(),
        }
    }
}

/// The comments stand in ascending floor order.
pub open spec fn sorted_by_floor(s: Seq<PostComment>) -> bool {
    forall|i: int, j: int| 0 <= i < j < s.len() ==> s[i].floor <= s[j].floor
}

impl PostComment {
    /// Orders comments by their floor number, ascending; the comment
    /// endpoint hands them out in arbitrary order. The result holds
    /// exactly the given comments.
    pub fn sorted_by_floor(list: Vec<PostComment>) -> (r: Vec<PostComment>)
        ensures
            sorted_by_floor(r@),
            r@.to_multiset() == list@.to_multiset(),
    {
        broadcast use vstd::seq_lib::group_to_multiset_ensures;

        let ghost all = list@.to_multiset();
        let mut rest = list;
        let mut out: Vec<PostComment> = Vec::new();
        while rest.len() > 0
            invariant
                out@.to_multiset().add(rest@.to_multiset()) == all,
                sorted_by_floor(out@),
                forall|i: int, j: int|
                    0 <= i < out@.len() && 0 <= j < rest@.len()
                        ==> out@[i].floor <= rest@[j].floor,
            decreases rest.len(),
        {
            let n = rest.len();
            let mut m: usize = 0;
            let mut i: usize = 1;
            while i < n
                invariant
                    n == rest@.len(),
                    0 < n,
                    m < i <= n,
                    forall|j: int| 0 <= j < i ==> rest@[m as int].floor <= rest@[j].floor,
                decreases n - i,
            {
                if rest[i].floor < rest[m].floor {
                    m = i;
                }
                i = i + 1;
            }
            let ghost rest1 = rest@;
            let ghost out1 = out@;
            let x = rest.remove(m);
            out.push(x);
            proof {
                assert(out@ == out1.push(x));
                assert(rest@ == rest1.remove(m as int));
                assert(rest1[m as int] == x);
                vstd::seq_lib::to_multiset_build(out1, x);
                vstd::seq_lib::to_multiset_remove(rest1, m as int);
                assert(out@.to_multiset() =~= out1.to_multiset().insert(x));
                assert(rest@.to_multiset() =~= rest1.to_multiset().remove(x));
                assert(rest1.to_multiset().count(x) > 0) by {
                    assert(rest1[m as int] == x);
                    assert(rest1.contains(x));
                    vstd::seq_lib::to_multiset_contains(rest1, x);
                }
                assert(out@.to_multiset().add(rest@.to_multiset()) =~= all);
                assert forall|i2: int, j2: int|
                    0 <= i2 < out@.len() && 0 <= j2 < rest@.len()
                        implies out@[i2].floor <= rest@[j2].floor by {
                    assert(rest@[j2] == if j2 < m { rest1[j2] } else { rest1[j2 + 1] });
                }
            }
        }
        proof {
            assert(out@.to_multiset() =~= all);
        }
        out
    }
}

/// One post of a thread page: its content id, body lines, author, floor
/// number and date.
#[derive(Debug)]
pub struct PostContent {
    pub id: String,
    pub desc: Vec<String>,
    pub user: User,
    pub floor: u16,
    pub date: String,
}

/// The two posts carry the same content, line for line.
pub open spec fn content_like(a: PostContent, b: PostContent) -> bool {
    &&& a.id == b.id
    &&& a.desc@ == b.desc@
    &&& a.user == b.user
    &&& a.floor == b.floor
    &&& a.date == b.date
}

impl Clone for PostContent {
    fn clone(&self) -> (r: Self)
        ensures
            content_like(*self, r),
    {
        let r = PostContent {
            id: self.id.clone(),
            desc: self.desc.clone(),
            user: self.user.clone(),
            floor: self.floor,
            date: self.date.clone(),
        };
        proof {
            assert(r.desc@ =~= self.desc@);
        }
        r
    }
}

impl Default for PostContent {
    /// An empty post: no content, a placeholder author, floor zero.
    fn default() -> (r: Self)
        ensures
            r.id@ == Seq::<char>::empty(),
            r.desc@ == Seq::<String>::empty(),
            r.user.lv == 1,
            r.floor == 0,
            r.date@ == Seq::<char>::empty(),
    {
        PostContent {
            id: String::new(),
            desc: Vec::new(),
            user: User::default(),
            floor: 0,
            date: String::new(),
        }
    }
}

impl CommentReadable for PostContent {
    fn comment(&self) -> Vec<PostComment> {
        vec![]
    }
}

/// The two post lists carry the same posts, content for content.
pub open spec fn posts_like(a: Seq<PostContent>, b: Seq<PostContent>) -> bool {
    &&& a.len() == b.len()
    &&& forall|i: int| 0 <= i < a.len() ==> content_like(a[i], #[trigger] b[i])
}

/// A parsed thread page: the thread's id and title, the posts of the
/// page, and the floor its deep link pointed at.
#[derive(Debug)]
pub struct Post {
    pub id: String,
    pub title: String,
    pub posts: Vec<PostContent>,
    pub floor: u16,
}

/// A thread page with nothing in it, as used when a thread could not be
/// read.
pub open spec fn empty_post(p: Post) -> bool {
    &&& p.id@ == Seq::<char>::empty()
    &&& p.title@ == Seq::<char>::empty()
    &&& p.posts@.len() == 0
    &&& p.floor == 0
}

/// The two thread pages carry the same content.
pub open spec fn post_like(a: Post, b: Post) -> bool {
    &&& a.id == b.id
    &&& a.title == b.title
    &&& posts_like(a.posts@, b.posts@)
    &&& a.floor == b.floor
}

impl Clone for Post {
    fn clone(&self) -> (r: Self)
        ensures
            post_like(*self, r),
    {
        Post {
            id: self.id.clone(),
            title: self.title.clone(),
            posts: self.posts.clone(),
            floor: self.floor,
        }
    }
}

impl Default for Post {
    /// An empty thread page, used when a thread could not be read.
    fn default() -> (r: Self)
        ensures
            r.id@ == Seq::<char>::empty(),
            r.title@ == Seq::<char>::empty(),
            r.posts@ == Seq::<PostContent>::empty(),
            r.floor == 0,
    {
        Post { id: String::new(), title: String::new(), posts: Vec::new(), floor: 0 }
    }
}

/// The compound key of a thread, read out of its URL: the board id
/// (`bsn`), the thread id (`snA`), and the floor of the deep link
/// (`tnum`), `0` when absent or unreadable.
#[derive(Debug)]
pub struct PostPageUrlParameter {
    pub board_id: String,
    pub id: String,
    pub floor: u16,
}

impl Clone for PostPageUrlParameter {
    fn clone(&self) -> (r: Self)
        ensures
            r == *self,
    {
        PostPageUrlParameter {
            board_id: self.board_id.clone(),
            id: self.id.clone(),
            floor: self.floor,
        }
    }
}

/// The floor number denoted by a `tnum` query value: its decimal reading,
/// or `0` where it is missing, malformed or too large.
pub open spec fn floor_of(v: Option<Seq<char>>) -> nat {
    match v {
        Some(s) => match dec_spec(s) {
            Some(n) => if n <= u16::MAX { n } else { 0 },
            None => 0,
        },
        None => 0,
    }
}

impl PostPageUrlParameter {
    /// Reads the compound key out of a thread URL. Returns `None` exactly
    /// when the text is not a URL; a missing key leaves its field empty
    /// (or `0` for the floor).
    pub fn from_url(text: &str) -> (r: Option<Self>)
        ensures
            r is Some <==> url_query_pairs_of(text@) is Some,
            r matches Some(p) ==> {
                let pairs = url_query_pairs_of(text@).unwrap();
                &&& p.board_id@ == or_empty(last_value(pairs, "bsn"@))
                &&& p.id@ == or_empty(last_value(pairs, "snA"@))
                &&& p.floor as nat == floor_of(last_value(pairs, "tnum"@))
            },
    {
        let pairs = match url_query_pairs(text) {
            Some(p) => p,
            None => {
                return None;
            }
        };
        let board_id = match crate::query::find_last_value(&pairs, "bsn") {
            Some(v) => v,
            None => String::new(),
        };
        let id = match crate::query::find_last_value(&pairs, "snA") {
            Some(v) => v,
            None => String::new(),
        };
        let floor: u16 = match crate::query::find_last_value(&pairs, "tnum") {
            Some(v) => match parse_u16(v.as_str()) {
                Some(n) => n,
                None => 0,
            },
            None => 0,
        };
        Some(PostPageUrlParameter { board_id, id, floor })
    }
}

/// The paginated cache of one thread, keyed by the compound key of its
/// URL.
pub struct PostPage {
    pub board_id: String,
    pub id: String,
    pub floor: u16,
    pub cache: CachedPage<Post>,
}

impl PostPage {
    /// The cache engine is in a consistent state.
    pub open spec fn wf(&self) -> bool {
        self.cache.wf()
    }

    pub open spec fn view(&self) -> PageModel<Post> {
        self.cache@
    }

    /// A fresh thread cache with the cursor on page one.
    pub fn new(board_id: &str, id: &str) -> (r: PostPage)
        ensures
            r.wf(),
            r.board_id@ == board_id@,
            r.id@ == id@,
            r.floor == 0,
            r@ == (PageModel::<Post> { page: 1, max: 0, entries: Map::empty(), first: None }),
    {
        PostPage {
            board_id: board_id.to_owned(),
            id: id.to_owned(),
            floor: 0,
            cache: CachedPage::new(1),
        }
    }

    /// A fresh thread cache addressed by the compound key of a URL.
    pub fn from_param(value: PostPageUrlParameter) -> (r: PostPage)
        ensures
            r.wf(),
            r.board_id == value.board_id,
            r.id == value.id,
            r.floor == value.floor,
            r@ == (PageModel::<Post> { page: 1, max: 0, entries: Map::empty(), first: None }),
    {
        let PostPageUrlParameter { board_id, id, floor } = value;
        PostPage { board_id, id, floor, cache: CachedPage::new(1) }
    }

    /// Sets the floor of the thread's deep link.
    pub fn floor(&mut self, floor: u16)
        ensures
            *final(self) == (PostPage { floor, ..*old(self) }),
    {
        self.floor = floor;
    }

    /// Records the discovery step for this thread: the raw text of page
    /// one and the maximum page number extracted from it, or `None` if
    /// the fetch failed.
    pub fn init(&mut self, fetched: Option<(String, u16)>)
        requires
            old(self).wf(),
            old(self)@.max == 0,
            old(self)@.entries == Map::<u16, Option<Post>>::empty(),
        ensures
            final(self).wf(),
            final(self).board_id == old(self).board_id,
            final(self).id == old(self).id,
            final(self).floor == old(self).floor,
            match fetched {
                Some(f) => final(self)@ == (PageModel {
                    max: f.1,
                    first: Some(f.0@),
                    ..old(self)@
                }),
                None => final(self)@ == old(self)@,
            },
    {
        self.cache.init(fetched)
    }

    /// The current page cursor.
    pub fn page(&self) -> (r: u16)
        ensures
            r == self@.page,
    {
        self.cache.page()
    }

    /// The maximum page number, `0` while not yet discovered.
    pub fn max(&self) -> (r: u16)
        ensures
            r == self@.max,
    {
        self.cache.max()
    }

    /// The cursor has moved below the first page.
    pub fn is_over_min(&self) -> (r: bool)
        ensures
            r == (self@.page == 0),
    {
        self.cache.is_over_min()
    }

    /// The cursor has moved beyond a known maximum page.
    pub fn is_over_max(&self) -> (r: bool)
        ensures
            r == beyond_max(self@, self@.page),
    {
        self.cache.is_over_max()
    }

    /// Asks for a page of the thread; see [`CachedPage::get`].
    pub fn get(&self, page: u16, ignore_cache: bool) -> (r: GetStep<Post>)
        requires
            self.wf(),
        ensures
            get_step_ok(self@, page, ignore_cache, r),
    {
        self.cache.get(page, ignore_cache)
    }

    /// Reads the page under the cursor.
    pub fn get_current(&self) -> (r: GetStep<Post>)
        requires
            self.wf(),
        ensures
            get_step_ok(self@, self@.page, false, r),
    {
        self.cache.get_current()
    }

    /// A forced read of the page under the cursor.
    pub fn get_current_force(&self) -> (r: GetStep<Post>)
        requires
            self.wf(),
        ensures
            get_step_ok(self@, self@.page, true, r),
    {
        self.cache.get_current_force()
    }

    /// Records the page source's answer for `page`; see
    /// [`CachedPage::get_and_cache`].
    pub fn get_and_cache(&mut self, page: u16, fetched: Option<Post>) -> (r: Option<Post>)
        requires
            old(self).wf(),
        ensures
            final(self).wf(),
            final(self).board_id == old(self).board_id,
            final(self).id == old(self).id,
            final(self).floor == old(self).floor,
            if beyond_max(old(self)@, page) {
                final(self)@ == old(self)@ && r is None
            } else {
                &&& final(self)@ == (PageModel {
                    entries: old(self)@.entries.insert(page, fetched),
                    ..old(self)@
                })
                &&& crate::cache::option_cloned(fetched, r)
            },
    {
        self.cache.get_and_cache(page, fetched)
    }

    /// Moves the cursor forward and reads; see [`CachedPage::next`].
    pub fn next(&mut self) -> (r: GetStep<Post>)
        requires
            old(self).wf(),
            old(self)@.page < u16::MAX,
        ensures
            final(self).wf(),
            final(self).board_id == old(self).board_id,
            final(self).id == old(self).id,
            final(self).floor == old(self).floor,
            next_ok(old(self)@, final(self)@, false, r),
    {
        self.cache.next()
    }

    /// Moves the cursor forward with a forced read.
    pub fn force_next(&mut self) -> (r: GetStep<Post>)
        requires
            old(self).wf(),
            old(self)@.page < u16::MAX,
        ensures
            final(self).wf(),
            final(self).board_id == old(self).board_id,
            final(self).id == old(self).id,
            final(self).floor == old(self).floor,
            next_ok(old(self)@, final(self)@, true, r),
    {
        self.cache.force_next()
    }

    /// Moves the cursor back and reads; see [`CachedPage::previous`].
    pub fn previous(&mut self) -> (r: GetStep<Post>)
        requires
            old(self).wf(),
        ensures
            final(self).wf(),
            final(self).board_id == old(self).board_id,
            final(self).id == old(self).id,
            final(self).floor == old(self).floor,
            previous_ok(old(self)@, final(self)@, false, r),
    {
        self.cache.previous()
    }

    /// Moves the cursor back with a forced read.
    pub fn force_previous(&mut self) -> (r: GetStep<Post>)
        requires
            old(self).wf(),
        ensures
            final(self).wf(),
            final(self).board_id == old(self).board_id,
            final(self).id == old(self).id,
            final(self).floor == old(self).floor,
            previous_ok(old(self)@, final(self)@, true, r),
    {
        self.cache.force_previous()
    }
}

/// A plain snapshot of a thread cache's coordinates.
#[derive(Debug)]
pub struct PostPageRef {
    pub board_id: String,
    pub id: String,
    pub page: u16,
    pub max: u16,
    pub floor: u16,
}

impl PostPageRef {
    /// Snapshots a thread cache's coordinates. Both the `page` and the
    /// `max` field take the current page cursor: the snapshot records
    /// where the reader stands, not how far the thread goes.
    pub fn of(value: &PostPage) -> (r: PostPageRef)
        ensures
            r.board_id@ == value.board_id@,
            r.id@ == value.id@,
            r.page == value@.page,
            r.max == value@.page,
            r.floor == value.floor,
    {
        PostPageRef {
            board_id: value.board_id.clone(),
            id: value.id.clone(),
            page: value.page(),
            max: value.page(),
            floor: value.floor,
        }
    }
}

} // verus!
