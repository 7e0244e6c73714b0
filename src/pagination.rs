//! Pagination over one repository as a state machine.
//!
//! The caller performs each request and hands the decoded data back; the
//! state decides whether another request follows and with which cursor, and
//! keeps the pages in the order they came.
use vstd::prelude::*;
use crate::repoview::{next_cursor, option_view, RepoQuery, RepoView, MAX_NODES};
use crate::response::ResponseData;

verus! {

/// The state of one repository's retrieval.
pub struct Pagination {
    query: RepoQuery,
    pages: Vec<ResponseData>,
    done: bool,
}

/// The contents of a `Pagination`: the query of the next request, the pages
/// so far, and whether retrieval is over.
pub ghost struct PaginationView {
    pub owner: Seq<char>,
    pub name: Seq<char>,
    pub nnodes: i64,
    pub cursor: Option<Seq<char>>,
    pub pages: Seq<ResponseData>,
    pub done: bool,
}

/// The state before the first request of a query.
pub open spec fn start(owner: Seq<char>, name: Seq<char>, nnodes: i64, cursor: Option<
    Seq<char>,
>) -> PaginationView {
    PaginationView { owner, name, nnodes, cursor, pages: Seq::empty(), done: false }
}

/// One transition: a response without data, or one whose data holds no
/// repository, ends retrieval and adds no page. Otherwise the page is kept,
/// and retrieval goes on with the page's next cursor if it has one.
pub open spec fn step(s: PaginationView, data: Option<ResponseData>) -> PaginationView {
    match data {
        None => PaginationView { done: true, ..s },
        Some(d) => if d.repository is None {
            PaginationView { done: true, ..s }
        } else {
            match next_cursor(d) {
                Some(c) => PaginationView { cursor: Some(c), pages: s.pages.push(d), ..s },
                None => PaginationView { pages: s.pages.push(d), done: true, ..s },
            }
        },
    }
}

impl View for Pagination {
    type V = PaginationView;

    closed spec fn view(&self) -> PaginationView {
        PaginationView {
            owner: self.query.variables.owner@,
            name: self.query.variables.name@,
            nnodes: self.query.variables.nnodes,
            cursor: option_view(self.query.variables.pullcursor),
            pages: self.pages@,
            done: self.done,
        }
    }
}

impl Pagination {
    /// The well-formedness of a state: the node count stays within the
    /// service's bound.
    pub closed spec fn wf(&self) -> bool {
        self.query.variables.nnodes <= MAX_NODES
    }

    /// Starts retrieval at the given query.
    pub fn new(init: &RepoQuery) -> (p: Pagination)
        requires
            init.variables.nnodes <= MAX_NODES,
        ensures
            p.wf(),
            p@ == start(
                init.variables.owner@,
                init.variables.name@,
                init.variables.nnodes,
                option_view(init.variables.pullcursor),
            ),
    {
        let pullcursor = match &init.variables.pullcursor {
            Some(c) => Some(c.clone()),
            None => None,
        };
        let query = crate::repoview::repoview_request(
            init.variables.owner.as_str(),
            init.variables.name.as_str(),
            init.variables.nnodes,
            pullcursor,
        );
        Pagination { query, pages: Vec::new(), done: false }
    }

    /// The request to perform next.
    pub fn query(&self) -> (q: &RepoQuery)
        ensures
            q.variables.owner@ == self@.owner,
            q.variables.name@ == self@.name,
            q.variables.nnodes == self@.nnodes,
            option_view(q.variables.pullcursor) == self@.cursor,
    {
        &self.query
    }

    /// Whether retrieval is over.
    pub fn is_done(&self) -> (r: bool)
        ensures
            r == self@.done,
    {
        self.done
    }

    /// The pages kept so far, in the order they came.
    pub fn pages(&self) -> (r: &Vec<ResponseData>)
        ensures
            r@ == self@.pages,
    {
        &self.pages
    }

    /// Takes the outcome of the request `query()` and returns whether another
    /// request follows.
    pub fn on_response(&mut self, data: Option<ResponseData>) -> (more: bool)
        requires
            old(self).wf(),
            !old(self)@.done,
        ensures
            final(self).wf(),
            final(self)@ == step(old(self)@, data),
            more == !final(self)@.done,
    {
        match data {
            None => {
                self.done = true;
            },
            Some(d) => {
                if d.repository.is_none() {
                    self.done = true;
                } else {
                    let cursor = RepoView::next_cursor(&d);
                    self.pages.push(d);
                    match cursor {
                        Some(c) => {
                            self.query.variables.pullcursor = Some(c);
                        },
                        None => {
                            self.done = true;
                        },
                    }
                }
            },
        }
        !self.done
    }

    /// Hands over the pages kept, in the order they came.
    pub fn into_pages(self) -> (r: Vec<ResponseData>)
        ensures
            r@ == self@.pages,
    {
        self.pages
    }
}

/// A query without a cursor ends after its first response when that response
/// reports no next page or holds no repository, with at most that one page
/// kept.
pub proof fn lemma_first_page_ends(owner: Seq<char>, name: Seq<char>, nnodes: i64, data: Option<
    ResponseData,
>)
    requires
        data is None || data->0.repository is None
            || !data->0.repository->0.pull_requests.page_info.has_next_page,
    ensures
        step(start(owner, name, nnodes, None), data).done,
        step(start(owner, name, nnodes, None), data).pages.len() <= 1,
{
}

/// Continuing from a page moves to the cursor of its last edge, and handing
/// the same page over again selects that same cursor; owner, name and node
/// count never change.
pub proof fn lemma_cursor_replay(s: PaginationView, d: ResponseData)
    requires
        next_cursor(d) is Some,
    ensures
        step(s, Some(d)).cursor == next_cursor(d),
        step(step(s, Some(d)), Some(d)).cursor == step(s, Some(d)).cursor,
        step(s, Some(d)).owner == s.owner,
        step(s, Some(d)).name == s.name,
        step(s, Some(d)).nnodes == s.nnodes,
{
}

/// Two responses, the first pointing on to cursor `c` and the second ending
/// the connection: the second request carries `c`, retrieval then ends, and
/// both pages are kept in order.
pub proof fn lemma_two_pages(s: PaginationView, d1: ResponseData, d2: ResponseData, c: Seq<char>)
    requires
        !s.done,
        next_cursor(d1) == Some(c),
        d2.repository is Some,
        next_cursor(d2) is None,
    ensures
        !step(s, Some(d1)).done,
        step(s, Some(d1)).cursor == Some(c),
        step(step(s, Some(d1)), Some(d2)).done,
        step(step(s, Some(d1)), Some(d2)).pages == s.pages.push(d1).push(d2),
{
}

} // verus!
