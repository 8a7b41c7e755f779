//! The message protocol between the interface and the fetch worker.
//!
//! Requests travel from the interface to the worker, responses travel
//! back; each non-terminal request is answered by exactly one response of
//! the matching kind, and the terminal request ends the worker.

use vstd::prelude::*;
use crate::board::BoardPost;
use crate::post::{Post, PostComment};
use crate::search::SearchResult;

verus! {

/// A page's contents together with its pagination coordinates, so the
/// interface needs no per-kind pagination plumbing.
#[derive(Debug)]
pub struct PageData<T> {
    /// The page the contents belong to.
    pub page: u16,
    /// The resource's maximum page as known when the page was read
    /// (`0` while not yet discovered).
    pub max: u16,
    /// The page's contents.
    pub items: T,
}

/// A response from the fetch worker, one per non-terminal request.
#[derive(Debug)]
pub enum FetchDataMsg {
    /// The rows answering a board search.
    SearchResult(Vec<SearchResult>),
    /// One page of a board's post list.
    BoardPage(PageData<Vec<BoardPost>>),
    /// One page of a thread.
    PostPage(PageData<Post>),
    /// The comments below one post.
    CommentPage(Vec<PostComment>),
}

/// A request for the fetch worker.
#[derive(Debug)]
pub enum DataRequestMsg {
    /// Search boards by the given text.
    SearchResult(String),
    /// One page of a board: the board id, the page, and whether to bypass
    /// the board's caches and fetch afresh.
    BoardPage(String, u16, bool),
    /// One page of a thread: the thread's URL text, the page, and whether
    /// to bypass the thread's caches and fetch afresh.
    PostPage(String, u16, bool),
    /// The comments below a post: the board id and the post's content id.
    CommentPage(String, String),
    /// Stop the worker; no response is produced.
    End,
}

} // verus!
