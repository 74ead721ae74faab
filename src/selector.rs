use vstd::prelude::*;
use crate::page::{Candidate, ResultPage};

verus! {

/// What the user answered to a candidate.
#[derive(Debug, Clone, Copy, PartialEq, Eq, Structural)]
pub enum Answer {
    Accept,
    Reject,
    Unrecognized,
}

/// Where a browsing session stands.
#[derive(Debug, Clone, Copy, PartialEq, Eq, Structural)]
pub enum Mode {
    Browsing,
    Accepted,
    Exhausted,
}

/// What the driver of a session is asked to do next.
#[derive(Debug, Clone, PartialEq, Eq)]
pub enum Action {
    /// Ask the search service for this page, then hand it to `page_arrived`.
    FetchPage(i64),
    /// Download and show this candidate, then hand the answer to `answer`.
    Present(Candidate),
    /// Report "Not an option", then show this same candidate again.
    NotAnOption(Candidate),
    /// The session ends with this candidate chosen.
    Chosen(Candidate),
    /// The session ends: the search gave nothing at all.
    NoResults,
    /// The session ends: every candidate was rejected after browsing this many.
    NoMore(usize),
}

/// The browsing loop over pages of search results (or over the single images
/// of a source without pagination), one candidate at a time.
#[derive(Debug, Clone)]
pub struct Selector {
    /// The endpoint of a source without pagination, if the session uses one.
    pub fixed_source: Option<String>,
    pub page: Option<ResultPage>,
    pub cursor: usize,
    pub mode: Mode,
}

/// The candidate at position `c` of page `p`.
pub open spec fn candidate_at(p: ResultPage, c: int) -> Candidate {
    Candidate { url: p.items@[c], position: c as usize }
}

/// The selector is waiting for an answer about the candidate under its cursor.
pub open spec fn awaiting_answer(s: Selector) -> bool {
    &&& s.mode == Mode::Browsing
    &&& s.page is Some
    &&& s.cursor < s.page->0.items@.len()
}

/// The decision taken at the cursor of `s`, once a page is present: `t` is the
/// state after it and `r` the action asked for.
pub open spec fn decided(s: Selector, t: Selector, r: Action) -> bool {
    let p = s.page->0;
    let c = s.cursor as int;
    if c < p.items@.len() {
        t == s && r == Action::Present(candidate_at(p, c))
    } else if s.fixed_source is Some {
        let u = s.fixed_source->0;
        &&& t.fixed_source == s.fixed_source
        &&& t.page is Some
        &&& t.page->0.is_single(u)
        &&& t.cursor == 0
        &&& t.mode == Mode::Browsing
        &&& r == Action::Present(Candidate { url: u, position: 0 })
    } else if p.current_page < p.last_page {
        t == s && r == Action::FetchPage((p.current_page + 1) as i64)
    } else {
        &&& t == Selector { mode: Mode::Exhausted, ..s }
        &&& r == if c == 0 { Action::NoResults } else { Action::NoMore(s.cursor) }
    }
}

/// The state `s` with page `p` just arrived: the cursor goes back to the start.
pub open spec fn with_page(s: Selector, p: ResultPage) -> Selector {
    Selector { page: Some(p), cursor: 0, ..s }
}

/// The effect of answer `a` on a selector waiting for one.
pub open spec fn answered(s: Selector, a: Answer, t: Selector, r: Action) -> bool {
    let cand = candidate_at(s.page->0, s.cursor as int);
    match a {
        Answer::Accept => t == Selector { mode: Mode::Accepted, ..s } && r == Action::Chosen(cand),
        Answer::Reject => decided(Selector { cursor: (s.cursor + 1) as usize, ..s }, t, r),
        Answer::Unrecognized => t == s && r == Action::NotAnOption(cand),
    }
}

/// Once the cursor has passed the last candidate of a page of search results
/// that is not the last page, the one action asked for is the fetch of the
/// page numbered one past it, nothing else changes, and the page that then
/// arrives is browsed from its first candidate.
pub proof fn lemma_next_page_fetched(s: Selector, t: Selector, r: Action, next: ResultPage)
    requires
        s.mode == Mode::Browsing,
        s.fixed_source is None,
        s.page is Some,
        s.cursor >= s.page->0.items@.len(),
        s.page->0.current_page < s.page->0.last_page,
        decided(s, t, r),
    ensures
        r == Action::FetchPage((s.page->0.current_page + 1) as i64),
        t == s,
        with_page(t, next).page == Some(next),
        with_page(t, next).cursor == 0,
{
}

/// On the last page of search results, with the cursor just past its last
/// candidate, the session ends as exhausted and asks for no further page:
/// "no results" when nothing was shown, "no more" otherwise.
pub proof fn lemma_last_page_exhausts(s: Selector, t: Selector, r: Action)
    requires
        s.mode == Mode::Browsing,
        s.fixed_source is None,
        s.page is Some,
        s.page->0.current_page == s.page->0.last_page,
        s.cursor == s.page->0.items@.len(),
        decided(s, t, r),
    ensures
        t.mode == Mode::Exhausted,
        t.page == s.page,
        !(r is FetchPage),
        s.cursor == 0 ==> r == Action::NoResults,
        s.cursor != 0 ==> r == Action::NoMore(s.cursor),
{
}

/// Accepting ends the session with the candidate under the cursor, on the
/// same page, without asking for any page.
pub proof fn lemma_accept_chooses_current(s: Selector, t: Selector, r: Action)
    requires
        awaiting_answer(s),
        answered(s, Answer::Accept, t, r),
    ensures
        t.mode == Mode::Accepted,
        t.page == s.page,
        t.cursor == s.cursor,
        r == Action::Chosen(candidate_at(s.page->0, s.cursor as int)),
        r->Chosen_0.url == s.page->0.items@[s.cursor as int],
        r->Chosen_0.position == s.cursor,
{
}

/// An unrecognized answer changes neither the cursor nor the page, and asks
/// for exactly one diagnostic before the same candidate is shown again.
pub proof fn lemma_unrecognized_keeps_state(s: Selector, t: Selector, r: Action)
    requires
        awaiting_answer(s),
        answered(s, Answer::Unrecognized, t, r),
    ensures
        t == s,
        t.cursor == s.cursor,
        t.page == s.page,
        r == Action::NotAnOption(candidate_at(s.page->0, s.cursor as int)),
{
}

impl Selector {
    /// A session over paged search results.
    pub fn new() -> (r: Selector)
        ensures
            r.fixed_source is None,
            r.page is None,
            r.cursor == 0,
            r.mode == Mode::Browsing,
    {
        Selector { fixed_source: None, page: None, cursor: 0, mode: Mode::Browsing }
    }

    /// A session over a source without pagination, which hands out one image
    /// per request of `endpoint`.
    pub fn with_fixed_source(endpoint: String) -> (r: Selector)
        ensures
            r.fixed_source == Some(endpoint),
            r.page is None,
            r.cursor == 0,
            r.mode == Mode::Browsing,
    {
        Selector { fixed_source: Some(endpoint), page: None, cursor: 0, mode: Mode::Browsing }
    }

    /// The first step of a session: fetch page one, or, for a source without
    /// pagination, present its endpoint at once.
    pub fn start(&mut self) -> (r: Action)
        requires
            old(self).page is None,
            old(self).mode == Mode::Browsing,
        ensures
            match old(self).fixed_source {
                Some(u) => {
                    &&& final(self).fixed_source == old(self).fixed_source
                    &&& final(self).page is Some
                    &&& final(self).page->0.is_single(u)
                    &&& final(self).cursor == 0
                    &&& final(self).mode == Mode::Browsing
                    &&& r == Action::Present(Candidate { url: u, position: 0 })
                },
                None => *final(self) == *old(self) && r == Action::FetchPage(1),
            },
    {
        match &self.fixed_source {
            Some(u) => {
                let url = u.clone();
                self.page = Some(ResultPage::single(url.clone()));
                self.cursor = 0;
                Action::Present(Candidate { url, position: 0 })
            },
            None => Action::FetchPage(1),
        }
    }

    fn decide(&mut self) -> (r: Action)
        requires
            old(self).page is Some,
            old(self).mode == Mode::Browsing,
        ensures
            decided(*old(self), *final(self), r),
    {
        let c = self.cursor;
        let (len, current, last) = match &self.page {
            Some(p) => (p.items.len(), p.current_page, p.last_page),
            None => (0, 0, 0),
        };
        if c < len {
            let url = match &self.page {
                Some(p) => p.items[c].clone(),
                None => String::new(),
            };
            Action::Present(Candidate { url, position: c })
        } else {
            match &self.fixed_source {
                Some(u) => {
                    let url = u.clone();
                    self.page = Some(ResultPage::single(url.clone()));
                    self.cursor = 0;
                    return Action::Present(Candidate { url, position: 0 });
                },
                None => {},
            }
            if current < last {
                Action::FetchPage(current + 1)
            } else {
                self.mode = Mode::Exhausted;
                if c == 0 {
                    Action::NoResults
                } else {
                    Action::NoMore(c)
                }
            }
        }
    }

    /// A requested page has arrived: it replaces the current one, the cursor
    /// goes back to its start, and the next step is decided.
    pub fn page_arrived(&mut self, page: ResultPage) -> (r: Action)
        requires
            old(self).mode == Mode::Browsing,
        ensures
            decided(with_page(*old(self), page), *final(self), r),
    {
        self.page = Some(page);
        self.cursor = 0;
        self.decide()
    }

    /// The user answered about the candidate under the cursor.
    pub fn answer(&mut self, a: Answer) -> (r: Action)
        requires
            awaiting_answer(*old(self)),
        ensures
            answered(*old(self), a, *final(self), r),
    {
        let c = self.cursor;
        let (url, len) = match &self.page {
            Some(p) => (p.items[c].clone(), p.items.len()),
            None => (String::new(), 0),
        };
        match a {
            Answer::Accept => {
                self.mode = Mode::Accepted;
                Action::Chosen(Candidate { url, position: c })
            },
            Answer::Reject => {
                assert(c < len);
                self.cursor = c + 1;
                self.decide()
            },
            Answer::Unrecognized => Action::NotAnOption(Candidate { url, position: c }),
        }
    }
}

} // verus!
