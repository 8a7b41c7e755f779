//! Boards: a paginated list of posts, with the board's categories.
//!
//! A board page arrives from the page source already reduced to plain
//! values — the board's id, name, categories and the posts of the page —
//! and [`BoardPage`] drives the generic cache engine for one board.

use vstd::prelude::*;
use crate::cache::{CachedPage, GetStep, PageModel, get_step_ok, next_ok, previous_ok, beyond_max};
use crate::query::{last_value, last_other_value, or_empty};

verus! {

/// Read access to the posts of a parsed board page.
pub trait PostReadable {
    fn id(&self) -> String;

    fn post(&self) -> Vec<BoardPost>;
}

/// A category key: the board it belongs to and the sub-board id.
#[derive(Debug)]
pub struct BoardCategoryId {
    pub id: String,
    pub sub_id: String,
}

impl Clone for BoardCategoryId {
    fn clone(&self) -> (r: Self)
        ensures
            r == *self,
    {
        BoardCategoryId { id: self.id.clone(), sub_id: self.sub_id.clone() }
    }
}

impl BoardCategoryId {
    /// Reads a category key out of the query pairs of a category link:
    /// the last `bsn` value is the board id, and the last value under any
    /// other key is the sub-board id; a missing key leaves its field empty.
    pub fn from_query_pairs(pairs: &Vec<(String, String)>) -> (r: Self)
        ensures
            r.id@ == or_empty(last_value(pairs.deep_view(), "bsn"@)),
            r.sub_id@ == or_empty(last_other_value(pairs.deep_view(), "bsn"@)),
    {
        let id = match crate::query::find_last_value(pairs, "bsn") {
            Some(v) => v,
            None => String::new(),
        };
        let sub_id = match crate::query::find_last_other_value(pairs, "bsn") {
            Some(v) => v,
            None => String::new(),
        };
        BoardCategoryId { id, sub_id }
    }
}

/// A category of a board, shown as a tag on each post.
#[derive(Debug)]
pub struct BoardCategory {
    pub name: String,
    pub id: BoardCategoryId,
}

impl Clone for BoardCategory {
    fn clone(&self) -> (r: Self)
        ensures
            r == *self,
    {
        BoardCategory { name: self.name.clone(), id: self.id.clone() }
    }
}

impl BoardCategory {
    /// The sub-board id of the category.
    pub fn id(&self) -> (r: String)
        ensures
            r@ == self.id.sub_id@,
    {
        self.id.sub_id.clone()
    }

    /// The id of the board the category belongs to.
    pub fn board_id(&self) -> (r: String)
        ensures
            r@ == self.id.id@,
    {
        self.id.id.clone()
    }
}

/// One post row of a board page.
#[derive(Debug)]
pub struct BoardPost {
    pub id: String,
    pub title: String,
    pub date: String,
    pub desc: String,
    pub category: BoardCategory,
    pub gp: u16,
    pub reply: u16,
    pub floor: u16,
    pub url: String,
}

impl Clone for BoardPost {
    fn clone(&self) -> (r: Self)
        ensures
            r == *self,
    {
        BoardPost {
            id: self.id.clone(),
            title: self.title.clone(),
            date: self.date.clone(),
            desc: self.desc.clone(),
            category: self.category.clone(),
            gp: self.gp,
            reply: self.reply,
            floor: self.floor,
            url: self.url.clone(),
        }
    }
}

impl Default for BoardPost {
    /// An empty post row; the id `"0"` marks a row not yet filled in.
    fn default() -> (r: Self)
        ensures
            r.id@ == "0"@,
            r.title@ == Seq::<char>::empty(),
            r.date@ == Seq::<char>::empty(),
            r.desc@ == Seq::<char>::empty(),
            r.url@ == Seq::<char>::empty(),
            r.gp == 0,
            r.reply == 0,
            r.floor == 0,
            r.category.name@ == Seq::<char>::empty(),
            r.category.id.id@ == Seq::<char>::empty(),
            r.category.id.sub_id@ == Seq::<char>::empty(),
    {
        BoardPost {
            id: "0".to_owned(),
            title: String::new(),
            date: String::new(),
            desc: String::new(),
            url: String::new(),
            gp: 0,
            reply: 0,
            floor: 0,
            category: BoardCategory {
                name: String::new(),
                id: BoardCategoryId { id: String::new(), sub_id: String::new() },
            },
        }
    }
}

impl BoardPost {
    /// Sets the post id.
    pub fn id(&mut self, id: String) -> (r: &Self)
        ensures
            *final(self) == (BoardPost { id, ..*old(self) }),
    {
        self.id = id;
        self
    }

    /// Sets the reply count.
    pub fn reply_count(&mut self, reply: u16) -> (r: &Self)
        ensures
            *final(self) == (BoardPost { reply, ..*old(self) }),
    {
        self.reply = reply;
        self
    }

    /// Sets the title.
    pub fn title(&mut self, title: String) -> (r: &Self)
        ensures
            *final(self) == (BoardPost { title, ..*old(self) }),
    {
        self.title = title;
        self
    }

    /// Sets the last-edit date text.
    pub fn date(&mut self, date: String) -> (r: &Self)
        ensures
            *final(self) == (BoardPost { date, ..*old(self) }),
    {
        self.date = date;
        self
    }

    /// Sets the appreciation count.
    pub fn gp(&mut self, gp: u16) -> (r: &Self)
        ensures
            *final(self) == (BoardPost { gp, ..*old(self) }),
    {
        self.gp = gp;
        self
    }

    /// Sets the summary text.
    pub fn desc(&mut self, desc: String) -> (r: &Self)
        ensures
            *final(self) == (BoardPost { desc, ..*old(self) }),
    {
        self.desc = desc;
        self
    }

    /// Sets the category tag.
    pub fn category(&mut self, category: BoardCategory) -> (r: &Self)
        ensures
            *final(self) == (BoardPost { category, ..*old(self) }),
    {
        self.category = category;
        self
    }

    /// Sets the floor the post's deep link points at.
    pub fn floor(&mut self, floor: u16) -> (r: &Self)
        ensures
            *final(self) == (BoardPost { floor, ..*old(self) }),
    {
        self.floor = floor;
        self
    }
}

/// A parsed board page: the board's identity and categories, and the
/// posts of the page.
#[derive(Debug)]
pub struct Board {
    pub id: String,
    pub name: String,
    pub category: Vec<BoardCategory>,
    pub posts: Vec<BoardPost>,
}

impl Clone for Board {
    fn clone(&self) -> (r: Self)
        ensures
            r.id == self.id,
            r.name == self.name,
            r.category@ == self.category@,
            r.posts@ == self.posts@,
    {
        let r = Board {
            id: self.id.clone(),
            name: self.name.clone(),
            category: self.category.clone(),
            posts: self.posts.clone(),
        };
        proof {
            assert(r.category@ =~= self.category@);
            assert(r.posts@ =~= self.posts@);
        }
        r
    }
}

impl Board {
    /// The posts of the page, as listed on the board.
    pub fn post(&self) -> (r: Vec<BoardPost>)
        ensures
            r@ == self.posts@,
    {
        let r = self.posts.clone();
        proof {
            assert(r@ =~= self.posts@);
        }
        r
    }
}

impl PostReadable for Board {
    fn id(&self) -> String {
        self.id.clone()
    }

    fn post(&self) -> Vec<BoardPost> {
        Board::post(self)
    }
}

/// The paginated cache of one board, keyed by the board id.
pub struct BoardPage {
    pub id: String,
    pub cache: CachedPage<Board>,
}

impl BoardPage {
    /// The cache engine is in a consistent state.
    pub open spec fn wf(&self) -> bool {
        self.cache.wf()
    }

    pub open spec fn view(&self) -> PageModel<Board> {
        self.cache@
    }

    /// A fresh board cache with the cursor on page one.
    pub fn new(id: &str) -> (r: BoardPage)
        ensures
            r.wf(),
            r.id@ == id@,
            r@ == (PageModel::<Board> { page: 1, max: 0, entries: Map::empty(), first: None }),
    {
        BoardPage { id: id.to_owned(), cache: CachedPage::new(1) }
    }

    /// A fresh board cache with the cursor on the given page.
    pub fn from_page(id: &str, page: u16) -> (r: BoardPage)
        ensures
            r.wf(),
            r.id@ == id@,
            r@ == (PageModel::<Board> { page, max: 0, entries: Map::empty(), first: None }),
    {
        BoardPage { id: id.to_owned(), cache: CachedPage::new(page) }
    }

    /// Records the discovery step for this board: the raw text of page one
    /// and the maximum page number extracted from it, or `None` if the
    /// fetch failed.
    pub fn init(&mut self, fetched: Option<(String, u16)>)
        requires
            old(self).wf(),
            old(self)@.max == 0,
            old(self)@.entries == Map::<u16, Option<Board>>::empty(),
        ensures
            final(self).wf(),
            final(self).id == old(self).id,
            match fetched {
                Some(f) => final(self)@ == (PageModel {
                    max: f.1,
                    first: Some(f.0@),
                    ..old(self)@
                }),
                None => final(self)@ == old(self)@,
            },
    {
        self.cache.init(fetched)
    }

    /// The current page cursor.
    pub fn page(&self) -> (r: u16)
        ensures
            r == self@.page,
    {
        self.cache.page()
    }

    /// The maximum page number, `0` while not yet discovered.
    pub fn max(&self) -> (r: u16)
        ensures
            r == self@.max,
    {
        self.cache.max()
    }

    /// The cursor has moved below the first page.
    pub fn is_over_min(&self) -> (r: bool)
        ensures
            r == (self@.page == 0),
    {
        self.cache.is_over_min()
    }

    /// The cursor has moved beyond a known maximum page.
    pub fn is_over_max(&self) -> (r: bool)
        ensures
            r == beyond_max(self@, self@.page),
    {
        self.cache.is_over_max()
    }

    /// Asks for a page of the board; see [`CachedPage::get`].
    pub fn get(&self, page: u16, ignore_cache: bool) -> (r: GetStep<Board>)
        requires
            self.wf(),
        ensures
            get_step_ok(self@, page, ignore_cache, r),
    {
        self.cache.get(page, ignore_cache)
    }

    /// Reads the page under the cursor.
    pub fn get_current(&self) -> (r: GetStep<Board>)
        requires
            self.wf(),
        ensures
            get_step_ok(self@, self@.page, false, r),
    {
        self.cache.get_current()
    }

    /// A forced read of the page under the cursor.
    pub fn get_current_force(&self) -> (r: GetStep<Board>)
        requires
            self.wf(),
        ensures
            get_step_ok(self@, self@.page, true, r),
    {
        self.cache.get_current_force()
    }

    /// Records the page source's answer for `page`; see
    /// [`CachedPage::get_and_cache`].
    pub fn get_and_cache(&mut self, page: u16, fetched: Option<Board>) -> (r: Option<Board>)
        requires
            old(self).wf(),
        ensures
            final(self).wf(),
            final(self).id == old(self).id,
            if beyond_max(old(self)@, page) {
                final(self)@ == old(self)@ && r is None
            } else {
                &&& final(self)@ == (PageModel {
                    entries: old(self)@.entries.insert(page, fetched),
                    ..old(self)@
                })
                &&& crate::cache::option_cloned(fetched, r)
            },
    {
        self.cache.get_and_cache(page, fetched)
    }

    /// Moves the cursor forward and reads; see [`CachedPage::next`].
    pub fn next(&mut self) -> (r: GetStep<Board>)
        requires
            old(self).wf(),
            old(self)@.page < u16::MAX,
        ensures
            final(self).wf(),
            final(self).id == old(self).id,
            next_ok(old(self)@, final(self)@, false, r),
    {
        self.cache.next()
    }

    /// Moves the cursor forward with a forced read.
    pub fn force_next(&mut self) -> (r: GetStep<Board>)
        requires
            old(self).wf(),
            old(self)@.page < u16::MAX,
        ensures
            final(self).wf(),
            final(self).id == old(self).id,
            next_ok(old(self)@, final(self)@, true, r),
    {
        self.cache.force_next()
    }

    /// Moves the cursor back and reads; see [`CachedPage::previous`].
    pub fn previous(&mut self) -> (r: GetStep<Board>)
        requires
            old(self).wf(),
        ensures
            final(self).wf(),
            final(self).id == old(self).id,
            previous_ok(old(self)@, final(self)@, false, r),
    {
        self.cache.previous()
    }

    /// Moves the cursor back with a forced read.
    pub fn force_previous(&mut self) -> (r: GetStep<Board>)
        requires
            old(self).wf(),
        ensures
            final(self).wf(),
            final(self).id == old(self).id,
            previous_ok(old(self)@, final(self)@, true, r),
    {
        self.cache.force_previous()
    }
}

} // verus!
