//! A generic pagination and caching engine, used once per remote resource.
//!
//! `CachedPage<T>` owns a page cursor, the resource's maximum page number
//! (`0` until it has been discovered), a map from page numbers to fetch
//! results, and optionally the raw text of page one retained from the
//! discovery step. It never performs network or parse work itself: reading
//! a page yields a [`GetStep`] that either carries the answer or names the
//! outside work (a fetch, or a parse of the retained page-one text) whose
//! result the caller then hands back to [`CachedPage::get_and_cache`].

use vstd::prelude::*;
use vstd::pervasive::cloned;

verus! {

/// The mathematical state of a [`CachedPage`]: the page cursor, the known
/// maximum (`0` for "not yet discovered"), the cache contents, and the
/// retained raw text of page one, if any.
pub struct PageModel<T> {
    pub page: u16,
    pub max: u16,
    pub entries: Map<u16, Option<T>>,
    pub first: Option<Seq<char>>,
}

/// The outcome of asking the cache for a page.
pub enum GetStep<T> {
    /// The answer is already decided: the page is beyond the known maximum
    /// (`None`), or the cache holds an entry for it (returned verbatim —
    /// which may itself be a remembered failure).
    Done(Option<T>),
    /// Page one was requested and its raw text is retained from the
    /// discovery step: parse this text instead of fetching.
    Parse(String),
    /// The page source must be asked for this page.
    Fetch,
}

/// Relates two optional values where the second was cloned from the first.
pub open spec fn option_cloned<T: Clone>(a: Option<T>, b: Option<T>) -> bool {
    &&& (b is Some <==> a is Some)
    &&& (a is Some ==> cloned::<T>(a.unwrap(), b.unwrap()))
}

/// The requested page lies above a known maximum.
pub open spec fn beyond_max<T>(m: PageModel<T>, page: u16) -> bool {
    m.max != 0 && page > m.max
}

/// Exactly what a [`CachedPage::get`] call may answer on state `m`:
/// the bound check comes first, then the cache (unless it is to be
/// ignored), then the retained page-one text, and a fetch only as the
/// last resort.
pub open spec fn get_step_ok<T: Clone>(
    m: PageModel<T>,
    page: u16,
    ignore_cache: bool,
    r: GetStep<T>,
) -> bool {
    if beyond_max(m, page) {
        r == GetStep::<T>::Done(None)
    } else if !ignore_cache && m.entries.contains_key(page) {
        r matches GetStep::Done(v) && option_cloned(m.entries[page], v)
    } else if !ignore_cache && page == 1 && m.first is Some {
        r matches GetStep::Parse(h) && h@ == m.first.unwrap()
    } else {
        r == GetStep::<T>::Fetch
    }
}

/// How [`CachedPage::next`] and its forced variant change the state:
/// a no-op answering `None` when the cursor is already beyond a known
/// maximum, otherwise a step forward followed by an ordinary read.
pub open spec fn next_ok<T: Clone>(
    m1: PageModel<T>,
    m2: PageModel<T>,
    ignore_cache: bool,
    r: GetStep<T>,
) -> bool {
    if beyond_max(m1, m1.page) {
        m2 == m1 && r == GetStep::<T>::Done(None)
    } else {
        &&& m2 == PageModel { page: (m1.page + 1) as u16, ..m1 }
        &&& get_step_ok(m2, m2.page, ignore_cache, r)
    }
}

/// How [`CachedPage::previous`] and its forced variant change the state:
/// a no-op answering `None` at the lower boundary `0`, otherwise a step
/// back followed by an ordinary read.
pub open spec fn previous_ok<T: Clone>(
    m1: PageModel<T>,
    m2: PageModel<T>,
    ignore_cache: bool,
    r: GetStep<T>,
) -> bool {
    if m1.page == 0 {
        m2 == m1 && r == GetStep::<T>::Done(None)
    } else {
        &&& m2 == PageModel { page: (m1.page - 1) as u16, ..m1 }
        &&& get_step_ok(m2, m2.page, ignore_cache, r)
    }
}

/// A paginated cache for one resource, generic over the parsed page type.
pub struct CachedPage<T> {
    page: u16,
    max: u16,
    entries: Vec<(u16, Option<T>)>,
    first_page: Option<String>,
}

spec fn keys_unique<T>(s: Seq<(u16, Option<T>)>) -> bool {
    forall|i: int, j: int| 0 <= i < j < s.len() ==> s[i].0 != s[j].0
}

spec fn entries_map<T>(s: Seq<(u16, Option<T>)>) -> Map<u16, Option<T>>
    decreases s.len(),
{
    if s.len() == 0 {
        Map::empty()
    } else {
        entries_map(s.drop_last()).insert(s.last().0, s.last().1)
    }
}

proof fn lemma_entries_map_domain<T>(s: Seq<(u16, Option<T>)>, k: u16)
    requires
        entries_map(s).contains_key(k),
    ensures
        exists|i: int| 0 <= i < s.len() && s[i].0 == k,
    decreases s.len(),
{
    if s.len() > 0 {
        if s.last().0 == k {
            assert(s[s.len() - 1].0 == k);
        } else {
            lemma_entries_map_domain(s.drop_last(), k);
            let i = choose|i: int| 0 <= i < s.drop_last().len() && s.drop_last()[i].0 == k;
            assert(s[i].0 == k);
        }
    }
}

proof fn lemma_entries_map_index<T>(s: Seq<(u16, Option<T>)>, i: int)
    requires
        keys_unique(s),
        0 <= i < s.len(),
    ensures
        entries_map(s).contains_key(s[i].0),
        entries_map(s)[s[i].0] == s[i].1,
    decreases s.len(),
{
    if i == s.len() - 1 {
    } else {
        assert(keys_unique(s.drop_last()));
        assert(s.drop_last()[i] == s[i]);
        lemma_entries_map_index(s.drop_last(), i);
        assert(s[i].0 != s.last().0);
    }
}

proof fn lemma_entries_map_absent<T>(s: Seq<(u16, Option<T>)>, k: u16)
    requires
        forall|i: int| 0 <= i < s.len() ==> s[i].0 != k,
    ensures
        !entries_map(s).contains_key(k),
{
    if entries_map(s).contains_key(k) {
        lemma_entries_map_domain(s, k);
    }
}

proof fn lemma_entries_map_update<T>(s: Seq<(u16, Option<T>)>, i: int, v: Option<T>)
    requires
        keys_unique(s),
        0 <= i < s.len(),
    ensures
        entries_map(s.update(i, (s[i].0, v))) == entries_map(s).insert(s[i].0, v),
    decreases s.len(),
{
    let k = s[i].0;
    let t = s.update(i, (k, v));
    if i == s.len() - 1 {
        assert(t.drop_last() =~= s.drop_last());
        assert(entries_map(t) =~= entries_map(s).insert(k, v));
    } else {
        assert(t.drop_last() =~= s.drop_last().update(i, (k, v)));
        assert(keys_unique(s.drop_last()));
        assert(s.drop_last()[i] == s[i]);
        lemma_entries_map_update(s.drop_last(), i, v);
        assert(s[i].0 != s.last().0);
        assert(t.last() == s.last());
        assert(entries_map(t) =~= entries_map(s).insert(k, v));
    }
}

proof fn lemma_entries_map_push<T>(s: Seq<(u16, Option<T>)>, k: u16, v: Option<T>)
    ensures
        entries_map(s.push((k, v))) == entries_map(s).insert(k, v),
{
    assert(s.push((k, v)).drop_last() =~= s);
    assert(s.push((k, v)).last() == (k, v));
}

impl<T: Clone> CachedPage<T> {
    /// All cache keys are distinct, and no key lies above a known maximum.
    pub closed spec fn wf(&self) -> bool {
        &&& keys_unique(self.entries@)
        &&& self.max != 0 ==> forall|i: int|
            0 <= i < self.entries@.len() ==> self.entries@[i].0 <= self.max
    }

    pub closed spec fn view(&self) -> PageModel<T> {
        PageModel {
            page: self.page,
            max: self.max,
            entries: entries_map(self.entries@),
            first: match self.first_page {
                Some(h) => Some(h@),
                None => None,
            },
        }
    }

    /// Once the maximum page is known, every cached page number lies
    /// within it — the bound check of `get` keeps later entries in range,
    /// and discovery happens before anything is cached.
    pub proof fn lemma_cached_pages_bounded(&self)
        requires
            self.wf(),
        ensures
            self@.max != 0 ==> forall|p: u16|
                self@.entries.contains_key(p) ==> p <= self@.max,
    {
        if self.max != 0 {
            assert forall|p: u16| self@.entries.contains_key(p) implies p <= self@.max by {
                lemma_entries_map_domain(self.entries@, p);
            }
        }
    }

    /// A fresh cache: cursor at `page`, maximum unknown, nothing cached.
    pub fn new(page: u16) -> (r: Self)
        ensures
            r.wf(),
            r@ == (PageModel::<T> {
                page,
                max: 0,
                entries: Map::empty(),
                first: None,
            }),
    {
        let r = CachedPage { page, max: 0, entries: Vec::new(), first_page: None };
        proof {
            assert(r@.entries =~= Map::<u16, Option<T>>::empty());
        }
        r
    }

    /// The current page cursor.
    pub fn page(&self) -> (r: u16)
        ensures
            r == self@.page,
    {
        self.page
    }

    /// The maximum page number, `0` while not yet discovered.
    pub fn max(&self) -> (r: u16)
        ensures
            r == self@.max,
    {
        self.max
    }

    /// The cursor has moved below the first page.
    pub fn is_over_min(&self) -> (r: bool)
        ensures
            r == (self@.page == 0),
    {
        self.page == 0
    }

    /// The cursor has moved beyond a known maximum page.
    pub fn is_over_max(&self) -> (r: bool)
        ensures
            r == beyond_max(self@, self@.page),
    {
        self.max != 0 && self.page > self.max
    }

    /// Records the outcome of the one-time discovery step: the caller
    /// fetched page one and extracted the maximum page number from it
    /// (`None` if the fetch failed, in which case nothing is learned).
    /// The raw page-one text is retained so that a later read of page one
    /// need not fetch it again.
    pub fn init(&mut self, fetched: Option<(String, u16)>)
        requires
            old(self).wf(),
            old(self)@.max == 0,
            old(self)@.entries == Map::<u16, Option<T>>::empty(),
        ensures
            final(self).wf(),
            match fetched {
                Some(f) => final(self)@ == (PageModel {
                    max: f.1,
                    first: Some(f.0@),
                    ..old(self)@
                }),
                None => final(self)@ == old(self)@,
            },
    {
        if let Some((html, max)) = fetched {
            self.max = max;
            self.first_page = Some(html);
            proof {
                if self.max != 0 {
                    assert forall|i: int| 0 <= i < self.entries@.len()
                        implies self.entries@[i].0 <= self.max by {
                        lemma_entries_map_index(self.entries@, i);
                        assert(entries_map(self.entries@).contains_key(self.entries@[i].0));
                    }
                }
            }
        }
    }

    fn find(&self, page: u16) -> (r: Option<usize>)
        requires
            self.wf(),
        ensures
            match r {
                Some(i) => i < self.entries@.len() && self.entries@[i as int].0 == page,
                None => !self@.entries.contains_key(page),
            },
    {
        let n = self.entries.len();
        let mut i: usize = 0;
        while i < n
            invariant
                n == self.entries@.len(),
                0 <= i <= n,
                forall|j: int| 0 <= j < i ==> self.entries@[j].0 != page,
            decreases n - i,
        {
            if self.entries[i].0 == page {
                return Some(i);
            }
            i = i + 1;
        }
        proof {
            lemma_entries_map_absent(self.entries@, page);
        }
        None
    }

    /// Asks for a page. The bound check precedes everything else; then the
    /// cache answers (unless `ignore_cache`); then the retained page-one
    /// text; and only otherwise must the page source be asked. No state is
    /// changed and no entry is written.
    pub fn get(&self, page: u16, ignore_cache: bool) -> (r: GetStep<T>)
        requires
            self.wf(),
        ensures
            get_step_ok(self@, page, ignore_cache, r),
    {
        if self.max != 0 && page > self.max {
            return GetStep::Done(None);
        }
        if !ignore_cache {
            if let Some(i) = self.find(page) {
                proof {
                    lemma_entries_map_index(self.entries@, i as int);
                }
                let v = self.entries[i].1.clone();
                return GetStep::Done(v);
            }
            if page == 1 {
                if let Some(html) = &self.first_page {
                    return GetStep::Parse(html.clone());
                }
            }
        }
        GetStep::Fetch
    }

    /// Shorthand for reading the page under the cursor.
    pub fn get_current(&self) -> (r: GetStep<T>)
        requires
            self.wf(),
        ensures
            get_step_ok(self@, self@.page, false, r),
    {
        self.get(self.page, false)
    }

    /// Shorthand for a forced read of the page under the cursor.
    pub fn get_current_force(&self) -> (r: GetStep<T>)
        requires
            self.wf(),
        ensures
            get_step_ok(self@, self@.page, true, r),
    {
        self.get(self.page, true)
    }

    /// The and-cache completion: records what the page source answered for
    /// `page` — a parsed page, or `None` for any failure, remembered so the
    /// page is not asked for again — and returns it. A page beyond a known
    /// maximum is refused without touching the cache.
    pub fn get_and_cache(&mut self, page: u16, fetched: Option<T>) -> (r: Option<T>)
        requires
            old(self).wf(),
        ensures
            final(self).wf(),
            if beyond_max(old(self)@, page) {
                final(self)@ == old(self)@ && r is None
            } else {
                &&& final(self)@ == (PageModel {
                    entries: old(self)@.entries.insert(page, fetched),
                    ..old(self)@
                })
                &&& option_cloned(fetched, r)
            },
    {
        if self.max != 0 && page > self.max {
            return None;
        }
        let r = fetched.clone();
        match self.find(page) {
            Some(i) => {
                proof {
                    lemma_entries_map_update(self.entries@, i as int, fetched);
                    assert(keys_unique(self.entries@.update(i as int, (page, fetched))));
                }
                let slot = &mut self.entries[i];
                *slot = (page, fetched);
            }
            None => {
                proof {
                    lemma_entries_map_push(self.entries@, page, fetched);
                    assert forall|j: int| 0 <= j < self.entries@.len()
                        implies self.entries@[j].0 != page by {
                        if self.entries@[j].0 == page {
                            lemma_entries_map_index(self.entries@, j);
                        }
                    }
                    assert(keys_unique(self.entries@.push((page, fetched))));
                }
                self.entries.push((page, fetched));
            }
        }
        r
    }

    /// Moves the cursor one page forward and reads it, unless the cursor
    /// already stands beyond a known maximum, in which case nothing moves
    /// and the answer is `None`.
    pub fn next(&mut self) -> (r: GetStep<T>)
        requires
            old(self).wf(),
            old(self)@.page < u16::MAX,
        ensures
            final(self).wf(),
            next_ok(old(self)@, final(self)@, false, r),
    {
        if self.is_over_max() {
            GetStep::Done(None)
        } else {
            self.page = self.page + 1;
            self.get(self.page, false)
        }
    }

    /// As [`CachedPage::next`], but the read bypasses the cache and the
    /// retained page-one text, so the page source is always asked.
    pub fn force_next(&mut self) -> (r: GetStep<T>)
        requires
            old(self).wf(),
            old(self)@.page < u16::MAX,
        ensures
            final(self).wf(),
            next_ok(old(self)@, final(self)@, true, r),
    {
        if self.is_over_max() {
            GetStep::Done(None)
        } else {
            self.page = self.page + 1;
            self.get(self.page, true)
        }
    }

    /// Moves the cursor one page back and reads it, unless the cursor
    /// already stands at the lower boundary `0`, which is sticky: nothing
    /// moves and the answer is `None`.
    pub fn previous(&mut self) -> (r: GetStep<T>)
        requires
            old(self).wf(),
        ensures
            final(self).wf(),
            previous_ok(old(self)@, final(self)@, false, r),
    {
        if self.is_over_min() {
            GetStep::Done(None)
        } else {
            self.page = self.page - 1;
            self.get(self.page, false)
        }
    }

    /// As [`CachedPage::previous`], but the read always asks the page source.
    pub fn force_previous(&mut self) -> (r: GetStep<T>)
        requires
            old(self).wf(),
        ensures
            final(self).wf(),
            previous_ok(old(self)@, final(self)@, true, r),
    {
        if self.is_over_min() {
            GetStep::Done(None)
        } else {
            self.page = self.page - 1;
            self.get(self.page, true)
        }
    }
}

/// A read of a page beyond a known maximum answers `None` at once — before
/// the cache is consulted and before any outside work is named — and, since
/// reads never write, the cache is unchanged.
pub proof fn law_bound_check_precedes<T: Clone>(m: PageModel<T>, page: u16, r: GetStep<T>)
    requires
        get_step_ok(m, page, false, r),
        m.max != 0,
        page > m.max,
    ensures
        r == GetStep::<T>::Done(None),
{
}

/// Two reads of the same page on the same state decide alike: they agree on
/// whether the answer is ready, on which outside work is named, and ready
/// answers are clones of the same cache entry.
pub proof fn law_read_deterministic<T: Clone>(
    m: PageModel<T>,
    page: u16,
    ignore_cache: bool,
    r1: GetStep<T>,
    r2: GetStep<T>,
)
    requires
        get_step_ok(m, page, ignore_cache, r1),
        get_step_ok(m, page, ignore_cache, r2),
    ensures
        r1 is Done <==> r2 is Done,
        r1 is Fetch <==> r2 is Fetch,
        r1 matches GetStep::Parse(h1) ==> r2 matches GetStep::Parse(h2) && h1@ == h2@,
        r1 is Done && m.entries.contains_key(page) && !beyond_max(m, page) ==> {
            &&& option_cloned(m.entries[page], r1->Done_0)
            &&& option_cloned(m.entries[page], r2->Done_0)
        },
{
}

/// Once the and-cache form has recorded a result for a page within bounds,
/// an ordinary read of that page is answered from the cache — no fetch and
/// no parse is named — and the answer is a clone of the recorded value. In
/// particular, recording `Some(x)` and then reading the page round-trips a
/// value cloned from `x`.
pub proof fn law_cached_read<T: Clone>(
    m1: PageModel<T>,
    m2: PageModel<T>,
    page: u16,
    v: Option<T>,
    r: GetStep<T>,
)
    requires
        !beyond_max(m1, page),
        m2 == (PageModel { entries: m1.entries.insert(page, v), ..m1 }),
        get_step_ok(m2, page, false, r),
    ensures
        r matches GetStep::Done(w) && option_cloned(v, w),
{
}

/// A forced read never answers from the cache or from the retained page-one
/// text: within bounds it always names a fetch, whatever was cached before.
pub proof fn law_force_always_fetches<T: Clone>(m: PageModel<T>, page: u16, r: GetStep<T>)
    requires
        get_step_ok(m, page, true, r),
        !beyond_max(m, page),
    ensures
        r == GetStep::<T>::Fetch,
{
}

/// Below a known maximum, `next` advances the cursor by exactly one page
/// and reads the new page in the ordinary, cache-first way.
pub proof fn law_next_advances<T: Clone>(
    m1: PageModel<T>,
    m2: PageModel<T>,
    r: GetStep<T>,
)
    requires
        next_ok(m1, m2, false, r),
        m1.max != 0,
        m1.page < m1.max,
    ensures
        m2.page == m1.page + 1,
        m2.entries == m1.entries,
        get_step_ok(m2, m2.page, false, r),
{
}

/// At the known maximum, `next` answers `None`: the cursor steps onto
/// `max + 1`, and the bound check refuses the read before any outside work.
pub proof fn law_next_at_max<T: Clone>(m1: PageModel<T>, m2: PageModel<T>, r: GetStep<T>)
    requires
        next_ok(m1, m2, false, r),
        m1.max != 0,
        m1.page == m1.max,
        m1.page < u16::MAX,
    ensures
        r == GetStep::<T>::Done(None),
        m2.page == m1.page + 1,
        m2.entries == m1.entries,
{
}

/// The lower boundary is sticky: at page `0`, `previous` answers `None`
/// and moves nothing.
pub proof fn law_previous_at_floor<T: Clone>(m1: PageModel<T>, m2: PageModel<T>, r: GetStep<T>)
    requires
        previous_ok(m1, m2, false, r),
        m1.page == 0,
    ensures
        r == GetStep::<T>::Done(None),
        m2 == m1,
{
}

} // verus!
