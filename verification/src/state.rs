//! Interface-side state that the worker's responses feed: which screen is
//! shown, the reader's position inside a thread, and the comment scroller.
//!
//! Cursor movement over lists wraps around; the post reader instead clamps
//! at both ends and falls back to requesting the next page when the local
//! posts run out.

use vstd::prelude::*;
use crate::post::{Post, PostComment, PostContent};

verus! {

/// Whether the search field is being edited.
#[derive(Clone, Copy, Debug, PartialEq, Eq, Structural, Default)]
pub enum InputMode {
    #[default]
    Normal,
    Edit,
}

/// The screen currently shown.
#[derive(Clone, Copy, Debug, PartialEq, Eq, Structural)]
pub enum Page {
    Search,
    Board,
    Post,
    Comment,
}

/// What a key press decided: nothing, or leaving the program.
#[derive(Clone, Copy, Debug, PartialEq, Eq, Structural)]
pub enum KeyBindEvent {
    Idle,
    Quit,
}

impl KeyBindEvent {
    /// The event asks to leave the program.
    pub fn is_quit(&self) -> (r: bool)
        ensures
            r == (*self == KeyBindEvent::Quit),
    {
        *self == KeyBindEvent::Quit
    }
}

/// The list index after `i`, wrapping to the top past the last of `max`
/// entries (and staying at `0` for an empty list).
pub fn wrap_next_index(i: usize, max: usize) -> (r: usize)
    ensures
        r == if max == 0 || i + 1 >= max { 0usize } else { (i + 1) as usize },
{
    if max == 0 {
        0
    } else if i >= max - 1 {
        0
    } else {
        i + 1
    }
}

/// The list index before `i`, wrapping to the bottom of `max` entries
/// (and staying put for an empty list).
pub fn wrap_previous_index(i: usize, max: usize) -> (r: usize)
    ensures
        r == if i > 0 { (i - 1) as usize } else if max > 0 { (max - 1) as usize } else { i },
{
    if i > 0 {
        i - 1
    } else if max > 0 {
        max - 1
    } else {
        i
    }
}

/// A selection cursor over a list, moving with wrap-around.
pub trait CursorMoveable {
    fn index(&self) -> usize;

    fn max(&self) -> usize;

    fn next(&mut self);

    fn previous(&mut self);

    /// The index that `next` should select.
    fn next_index(&self) -> usize {
        wrap_next_index(self.index(), self.max())
    }

    /// The index that `previous` should select.
    fn previous_index(&self) -> usize {
        wrap_previous_index(self.index(), self.max())
    }
}

/// The reader's position inside a thread: the loaded pages' posts, the
/// post under the cursor, and the scroll position inside that post.
#[derive(Debug)]
pub struct PostPageState {
    pub data: Post,
    pub index: u16,
    pub page: u16,
    pub last_page: u16,
    pub url: String,
    pub scroll_offset: usize,
    pub scroll_size: usize,
}

impl Default for PostPageState {
    /// No thread loaded: an empty page, everything at zero.
    fn default() -> (r: Self)
        ensures
            r.data.id@ == Seq::<char>::empty(),
            r.data.title@ == Seq::<char>::empty(),
            r.data.posts@ == Seq::<PostContent>::empty(),
            r.data.floor == 0,
            r.index == 0,
            r.page == 0,
            r.last_page == 0,
            r.url@ == Seq::<char>::empty(),
            r.scroll_offset == 0,
            r.scroll_size == 0,
    {
        PostPageState {
            data: Post::default(),
            index: 0,
            page: 0,
            last_page: 0,
            url: String::new(),
            scroll_offset: 0,
            scroll_size: 0,
        }
    }
}

/// The post under the cursor can still be scrolled further down: there
/// are body lines below the window of `scroll_size` lines starting at
/// `scroll_offset`.
pub open spec fn scrollable_spec(s: PostPageState) -> bool {
    &&& s.index < s.data.posts@.len()
    &&& {
        let desc = s.data.posts@[s.index as int].desc@;
        &&& desc.len() > 0
        &&& desc.len() >= s.scroll_offset
        &&& desc.len() - s.scroll_offset > s.scroll_size
    }
}

impl PostPageState {
    /// Replaces the loaded thread data.
    pub fn data(&mut self, data: Post)
        ensures
            *final(self) == (PostPageState { data, ..*old(self) }),
    {
        self.data = data;
    }

    /// Appends a further page's posts to the loaded thread.
    pub fn chain_posts(&mut self, posts: Vec<PostContent>)
        ensures
            final(self).data.posts@ == old(self).data.posts@ + posts@,
            final(self).data.id == old(self).data.id,
            final(self).data.title == old(self).data.title,
            final(self).data.floor == old(self).data.floor,
            final(self).index == old(self).index,
            final(self).page == old(self).page,
            final(self).last_page == old(self).last_page,
            final(self).url == old(self).url,
            final(self).scroll_offset == old(self).scroll_offset,
            final(self).scroll_size == old(self).scroll_size,
    {
        let mut posts = posts;
        self.data.posts.append(&mut posts);
    }

    /// Sets the post cursor.
    pub fn index(&mut self, index: u16)
        ensures
            *final(self) == (PostPageState { index, ..*old(self) }),
    {
        self.index = index;
    }

    /// Sets the page the loaded data ends at.
    pub fn page(&mut self, page: u16)
        ensures
            *final(self) == (PostPageState { page, ..*old(self) }),
    {
        self.page = page;
    }

    /// Sets the thread's last page as reported by the worker.
    pub fn last_page(&mut self, page: u16)
        ensures
            *final(self) == (PostPageState { last_page: page, ..*old(self) }),
    {
        self.last_page = page;
    }

    /// Jumps back to the first post, scrolled to the top.
    pub fn first(&mut self)
        ensures
            *final(self) == (PostPageState { scroll_offset: 0usize, index: 0u16, ..*old(self) }),
    {
        self.scroll_offset = 0;
        self.index = 0;
    }

    /// Steps to the next loaded post, scrolled to the top; answers `None`
    /// when no further post is loaded (the caller may then request the
    /// next page).
    pub fn next(&mut self) -> (r: Option<()>)
        ensures
            if old(self).index + 1 < old(self).data.posts@.len() && old(self).index < u16::MAX {
                &&& r == Some(())
                &&& *final(self) == (PostPageState {
                    scroll_offset: 0usize,
                    index: (old(self).index + 1) as u16,
                    ..*old(self)
                })
            } else {
                r is None && *final(self) == *old(self)
            },
    {
        let ni = self.next_index();
        if ni < self.data.posts.len() && self.index < u16::MAX {
            self.scroll_offset = 0;
            self.index = self.index + 1;
            Some(())
        } else {
            None
        }
    }

    /// Steps back to the previous post, scrolled to the top; the first
    /// post is a boundary.
    pub fn previous(&mut self)
        ensures
            if old(self).index > 0 {
                *final(self) == (PostPageState {
                    scroll_offset: 0usize,
                    index: (old(self).index - 1) as u16,
                    ..*old(self)
                })
            } else {
                *final(self) == *old(self)
            },
    {
        if self.index > 0 {
            self.scroll_offset = 0;
            self.index = self.index - 1;
        }
    }

    /// There is something after the current post: a further loaded post,
    /// or a further page of the thread to request.
    pub fn has_next(&self) -> (r: bool)
        ensures
            r == (self.index + 1 < self.data.posts@.len() || self.page < self.last_page),
    {
        let ni = self.next_index();
        if ni < self.data.posts.len() {
            true
        } else {
            self.page < self.last_page
        }
    }

    fn next_index(&self) -> (r: usize)
        ensures
            r == self.index + 1,
    {
        self.index as usize + 1
    }

    /// The post under the cursor, if the cursor is on a loaded post.
    pub fn current(&self) -> (r: Option<&PostContent>)
        ensures
            match r {
                Some(c) => self.index < self.data.posts@.len()
                    && *c == self.data.posts@[self.index as int],
                None => self.index >= self.data.posts@.len(),
            },
    {
        let i = self.index as usize;
        if i < self.data.posts.len() {
            Some(&self.data.posts[i])
        } else {
            None
        }
    }

    /// Scrolls one line up inside the current post; the top is a boundary.
    pub fn scroll_up(&mut self)
        ensures
            if old(self).scroll_offset > 0 {
                *final(self) == (PostPageState {
                    scroll_offset: (old(self).scroll_offset - 1) as usize,
                    ..*old(self)
                })
            } else {
                *final(self) == *old(self)
            },
    {
        if self.scroll_offset > 0 {
            self.scroll_offset = self.scroll_offset - 1;
        }
    }

    /// Scrolls one line down inside the current post, as long as lines
    /// remain below the window.
    pub fn scroll_down(&mut self)
        ensures
            if scrollable_spec(*old(self)) {
                *final(self) == (PostPageState {
                    scroll_offset: (old(self).scroll_offset + 1) as usize,
                    ..*old(self)
                })
            } else {
                *final(self) == *old(self)
            },
    {
        if self.scrollable() {
            self.scroll_offset = self.scroll_offset + 1;
        }
    }

    /// Sets the height of the visible window.
    pub fn scroll_size(&mut self, size: usize)
        ensures
            *final(self) == (PostPageState { scroll_size: size, ..*old(self) }),
    {
        self.scroll_size = size;
    }

    fn scrollable(&self) -> (r: bool)
        ensures
            r == scrollable_spec(*self),
            r ==> self.scroll_offset < usize::MAX,
    {
        match self.current() {
            Some(content) => {
                let len = content.desc.len();
                len > 0 && len >= self.scroll_offset && len - self.scroll_offset > self.scroll_size
            }
            None => false,
        }
    }
}

/// The comment screen: the comments shown and the scroll position.
#[derive(Debug)]
pub struct PostCommentState {
    pub offset: usize,
    pub items: Vec<PostComment>,
    pub scroll_size: usize,
}

impl Default for PostCommentState {
    /// No comments loaded, scrolled to the top.
    fn default() -> (r: Self)
        ensures
            r.offset == 0,
            r.items@ == Seq::<PostComment>::empty(),
            r.scroll_size == 0,
    {
        PostCommentState { offset: 0, items: Vec::new(), scroll_size: 0 }
    }
}

/// Comments remain below the window of `scroll_size` entries starting at
/// `offset` (an offset beyond the list counts as nothing below).
pub open spec fn comments_scrollable_spec(s: PostCommentState) -> bool {
    s.items@.len() >= s.offset && s.items@.len() - s.offset > s.scroll_size
}

impl PostCommentState {
    /// Replaces the comments shown.
    pub fn items(&mut self, items: Vec<PostComment>)
        ensures
            final(self).items == items,
            final(self).offset == old(self).offset,
            final(self).scroll_size == old(self).scroll_size,
    {
        self.items = items;
    }

    /// Sets the height of the visible window.
    pub fn scroll_size(&mut self, size: usize)
        ensures
            final(self).scroll_size == size,
            final(self).offset == old(self).offset,
            final(self).items == old(self).items,
    {
        self.scroll_size = size;
    }

    /// Scrolls one comment down, as long as comments remain below the
    /// window.
    pub fn next(&mut self)
        ensures
            if old(self).items@.len() > 0 && comments_scrollable_spec(*old(self)) {
                &&& final(self).offset == old(self).offset + 1
                &&& final(self).items == old(self).items
                &&& final(self).scroll_size == old(self).scroll_size
            } else {
                *final(self) == *old(self)
            },
    {
        if !self.items.is_empty() && self.scrollable() {
            self.offset = self.offset + 1;
        }
    }

    /// Scrolls one comment up; the top is a boundary.
    pub fn previous(&mut self)
        ensures
            if old(self).offset > 0 {
                &&& final(self).offset == old(self).offset - 1
                &&& final(self).items == old(self).items
                &&& final(self).scroll_size == old(self).scroll_size
            } else {
                *final(self) == *old(self)
            },
    {
        if self.offset > 0 {
            self.offset = self.offset - 1;
        }
    }

    /// Comments remain below the visible window.
    pub fn scrollable(&self) -> (r: bool)
        ensures
            r == comments_scrollable_spec(*self),
            r ==> self.offset < usize::MAX,
    {
        self.items.len() >= self.offset && self.items.len() - self.offset > self.scroll_size
    }

    /// Scrolls back to the top.
    pub fn init(&mut self)
        ensures
            final(self).offset == 0,
            final(self).items == old(self).items,
            final(self).scroll_size == old(self).scroll_size,
    {
        self.offset = 0;
    }
}

} // verus!
