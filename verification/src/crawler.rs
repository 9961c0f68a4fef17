//! The crawl as a state machine: a queue of pending URLs, the e-mails
//! collected so far, the kind that is recorded, and a budget of fetch cycles.
//!
//! The caller fetches the page that `next_step` names and hands the outcome
//! to `advance`, which returns what is to be written out.

use crate::kind::MatchKind;
use crate::links::{all_known, both_kinds, extract, lemma_texts_of_none, lemma_texts_of_step, links_in, links_view, texts, texts_of, Link, LinkView};
use crate::laws::lemma_no_links;
use vstd::prelude::*;

verus! {

/// What came of fetching a page.
#[derive(Debug)]
pub enum Fetched {
    /// The request failed: no connection, a timeout, no answer.
    Failed,
    /// An answer came, but its body could not be read as text.
    Undecodable,
    /// The body of the answer, as text.
    Body(String),
}

/// Why a crawl stops before its budget is spent.
#[derive(Clone, Copy, Debug, PartialEq, Eq, Structural)]
pub enum CrawlError {
    /// A page's body could not be read as text.
    Decode,
    /// A link was found that is neither a URL nor an e-mail address.
    UnknownLink,
}

/// What a crawl does next.
#[derive(Debug)]
pub enum Step {
    /// Fetch this URL, the oldest one pending, and hand the outcome to `advance`.
    Fetch(String),
    /// The budget is spent: the run is over.
    Finished,
    /// Cycles are left, but no URL is pending.
    Underflow,
}

/// A crawl in progress.
#[derive(Debug)]
pub struct Crawler {
    iterations: usize,
    remaining: usize,
    urls: Vec<String>,
    emails: Vec<String>,
    kind: MatchKind,
}

/// A crawl as plain values.
pub struct CrawlerView {
    /// The number of fetch cycles that the crawl was given.
    pub iterations: nat,
    /// The number of fetch cycles that are left.
    pub remaining: nat,
    /// The URLs that wait to be fetched, oldest first.
    pub pending: Seq<Seq<char>>,
    /// The e-mail addresses collected so far, in the order found.
    pub emails: Seq<Seq<char>>,
    /// The kind of link that is recorded.
    pub kind: MatchKind,
}

impl View for Crawler {
    type V = CrawlerView;

    closed spec fn view(&self) -> CrawlerView {
        CrawlerView {
            iterations: self.iterations as nat,
            remaining: self.remaining as nat,
            pending: texts(self.urls@),
            emails: texts(self.emails@),
            kind: self.kind,
        }
    }
}

/// The body that a fetch's outcome stands for: the empty text for a failed
/// request, none where the body could not be read.
pub open spec fn body_view(fetched: Fetched) -> Option<Seq<char>> {
    match fetched {
        Fetched::Failed => Some(Seq::<char>::empty()),
        Fetched::Undecodable => None,
        Fetched::Body(body) => Some(body@),
    }
}

/// The crawl after a page with these links was processed: the page's own URL
/// has left the front of the queue, every URL found has joined its back, and
/// the e-mails found are collected if e-mails are what the crawl records.
pub open spec fn after_links(before: CrawlerView, links: Seq<LinkView>) -> CrawlerView {
    CrawlerView {
        pending: before.pending.drop_first() + texts_of(MatchKind::Url, links),
        emails: if before.kind == MatchKind::Email {
            before.emails + texts_of(MatchKind::Email, links)
        } else {
            before.emails
        },
        ..before
    }
}

/// The same crawl with one fetch cycle less to go.
pub open spec fn one_cycle_spent(c: CrawlerView) -> CrawlerView
    recommends
        c.remaining > 0,
{
    CrawlerView { remaining: (c.remaining - 1) as nat, ..c }
}

/// How processing a page's links changes a crawl and what it returns: with
/// every link known, the new state and the texts of the links of the crawl's
/// kind, in their order; otherwise an error, and the crawl as it was.
pub open spec fn links_outcome(
    before: CrawlerView,
    links: Seq<LinkView>,
    after: CrawlerView,
    r: Result<Vec<String>, CrawlError>,
) -> bool {
    if all_known(links) {
        &&& after == after_links(before, links)
        &&& r is Ok
        &&& texts(r->Ok_0@) == texts_of(before.kind, links)
    } else {
        &&& after == before
        &&& r == Err::<Vec<String>, CrawlError>(CrawlError::UnknownLink)
    }
}

/// How a fetch's outcome changes a crawl and what it returns: an unreadable
/// body is an error and changes nothing; any other outcome is processed by
/// the links in its body.
pub open spec fn fetch_outcome(
    before: CrawlerView,
    fetched: Fetched,
    after: CrawlerView,
    r: Result<Vec<String>, CrawlError>,
) -> bool {
    match body_view(fetched) {
        None => after == before && r == Err::<Vec<String>, CrawlError>(CrawlError::Decode),
        Some(body) => links_outcome(before, links_in(both_kinds(), body), after, r),
    }
}

/// How one fetch cycle changes a crawl and what it returns: what
/// `fetch_outcome` says, and on success one cycle less to go.
pub open spec fn cycle_outcome(
    before: CrawlerView,
    fetched: Fetched,
    after: CrawlerView,
    r: Result<Vec<String>, CrawlError>,
) -> bool {
    if r is Ok {
        fetch_outcome(one_cycle_spent(before), fetched, after, r)
    } else {
        fetch_outcome(before, fetched, after, r)
    }
}

/// What a crawl in this state does next: it is over once the budget is spent,
/// however many URLs are pending; before that it fetches the oldest pending
/// URL, and is stuck if there is none.
pub open spec fn step_fits(c: CrawlerView, step: Step) -> bool {
    match step {
        Step::Finished => c.remaining == 0,
        Step::Underflow => c.remaining > 0 && c.pending.len() == 0,
        Step::Fetch(url) => c.remaining > 0 && c.pending.len() > 0 && url@ == c.pending[0],
    }
}

/// The body to scan for a fetch's outcome. A failed request counts as an
/// empty page; a body that could not be read is an error.
pub fn body_of(fetched: Fetched) -> (r: Result<String, CrawlError>)
    ensures
        match body_view(fetched) {
            Some(body) => r is Ok && r->Ok_0@ == body,
            None => r == Err::<String, CrawlError>(CrawlError::Decode),
        },
{
    match fetched {
        Fetched::Failed => Ok(String::new()),
        Fetched::Undecodable => Err(CrawlError::Decode),
        Fetched::Body(body) => Ok(body),
    }
}

/// Whether every link of the list is a URL or an e-mail address.
pub fn all_links_known(links: &Vec<Link>) -> (known: bool)
    ensures
        known == all_known(links_view(links@)),
{
    let mut i: usize = 0;
    while i < links.len()
        invariant
            i <= links.len(),
            forall|j: int| 0 <= j < i ==> (#[trigger] links_view(links@)[j]).0.is_some(),
        decreases links.len() - i,
    {
        if links[i].kind.is_none() {
            assert(links_view(links@)[i as int].0.is_none());
            return false;
        }
        i += 1;
    }
    true
}

impl Crawler {
    /// A crawl that starts at `starting_url`, with `iterations` fetch cycles to
    /// go, nothing collected, and only the starting URL pending.
    pub fn new(starting_url: String, iterations: usize, kind: MatchKind) -> (c: Crawler)
        ensures
            c@ == (CrawlerView {
                iterations: iterations as nat,
                remaining: iterations as nat,
                pending: seq![starting_url@],
                emails: Seq::<Seq<char>>::empty(),
                kind,
            }),
    {
        let mut urls: Vec<String> = Vec::new();
        urls.push(starting_url);
        let c = Crawler { iterations, remaining: iterations, urls, emails: Vec::new(), kind };
        assert(c@.pending =~= seq![starting_url@]);
        assert(c@.emails =~= Seq::<Seq<char>>::empty());
        c
    }

    /// Processes the links of the page at the front of the queue. Every URL
    /// joins the back of the queue, whatever the crawl records; e-mails are
    /// collected only where the crawl records e-mails; the front of the queue
    /// leaves. Returns the texts to write out: those of the links of the
    /// crawl's kind, in the order found. A link of no known kind is an error
    /// and leaves the crawl as it was.
    pub fn record_links(&mut self, links: Vec<Link>) -> (r: Result<Vec<String>, CrawlError>)
        requires
            old(self)@.pending.len() > 0,
        ensures
            links_outcome(old(self)@, links_view(links@), final(self)@, r),
    {
        if !all_links_known(&links) {
            return Err(CrawlError::UnknownLink);
        }
        let ghost before = self@;
        let ghost found = links_view(links@);
        let mut matches: Vec<String> = Vec::new();
        let mut i: usize = 0;
        proof {
            lemma_texts_of_none(MatchKind::Url);
            lemma_texts_of_none(MatchKind::Email);
            assert(found.take(0) =~= Seq::<LinkView>::empty());
            assert(before.pending + Seq::<Seq<char>>::empty() =~= before.pending);
            assert(before.emails + Seq::<Seq<char>>::empty() =~= before.emails);
        }
        while i < links.len()
            invariant
                i <= links.len(),
                found == links_view(links@),
                self@.iterations == before.iterations,
                self@.remaining == before.remaining,
                self@.kind == before.kind,
                self@.pending == before.pending + texts_of(MatchKind::Url, found.take(i as int)),
                self@.emails == if before.kind == MatchKind::Email {
                    before.emails + texts_of(MatchKind::Email, found.take(i as int))
                } else {
                    before.emails
                },
                texts(matches@) == texts_of(before.kind, found.take(i as int)),
            decreases links.len() - i,
        {
            proof {
                lemma_texts_of_step(MatchKind::Url, found, i as int);
                lemma_texts_of_step(MatchKind::Email, found, i as int);
            }
            let ghost urls_before = self.urls@;
            let ghost emails_before = self.emails@;
            let ghost matches_before = matches@;
            let link = &links[i];
            assert(found[i as int] == link@);
            match link.kind {
                Some(MatchKind::Url) => {
                    self.urls.push(link.text.clone());
                    assert(texts(self.urls@) =~= texts(urls_before).push(link.text@));
                    match self.kind {
                        MatchKind::Url => {
                            matches.push(link.text.clone());
                            assert(texts(matches@) =~= texts(matches_before).push(link.text@));
                        },
                        MatchKind::Email => {},
                    }
                },
                Some(MatchKind::Email) => {
                    match self.kind {
                        MatchKind::Email => {
                            self.emails.push(link.text.clone());
                            assert(texts(self.emails@) =~= texts(emails_before).push(link.text@));
                            matches.push(link.text.clone());
                            assert(texts(matches@) =~= texts(matches_before).push(link.text@));
                        },
                        MatchKind::Url => {},
                    }
                },
                None => {},
            }
            i += 1;
        }
        let ghost urls_before = self.urls@;
        self.urls.remove(0);
        proof {
            assert(found.take(links.len() as int) =~= found);
            assert(texts(self.urls@) =~= texts(urls_before).drop_first());
            assert(self@.pending =~= before.pending.drop_first() + texts_of(
                MatchKind::Url,
                found,
            ));
        }
        Ok(matches)
    }

    /// One iteration on the page at the front of the queue, given what came
    /// of fetching it: scans the body for URLs and e-mail addresses and
    /// processes them as `record_links` does. A failed request counts as an
    /// empty page. A body that could not be read is an error and leaves the
    /// crawl as it was.
    pub fn get_links(&mut self, fetched: Fetched) -> (r: Result<Vec<String>, CrawlError>)
        requires
            old(self)@.pending.len() > 0,
        ensures
            fetch_outcome(old(self)@, fetched, final(self)@, r),
            fetched is Failed ==> {
                &&& r is Ok
                &&& r->Ok_0@.len() == 0
                &&& final(self)@ == (CrawlerView {
                    pending: old(self)@.pending.drop_first(),
                    ..old(self)@
                })
            },
    {
        match body_of(fetched) {
            Err(e) => Err(e),
            Ok(body) => {
                let links = extract(body.as_str());
                let r = self.record_links(links);
                proof {
                    if fetched is Failed {
                        assert(links_view(links@) =~= Seq::<LinkView>::empty());
                        lemma_no_links(old(self)@, self@, r);
                    }
                }
                r
            },
        }
    }

    /// One fetch cycle of a run: `get_links` on the outcome of fetching the
    /// URL that `next_step` named, counted against the budget. An error
    /// leaves the crawl as it was.
    pub fn advance(&mut self, fetched: Fetched) -> (r: Result<Vec<String>, CrawlError>)
        requires
            old(self)@.remaining > 0,
            old(self)@.pending.len() > 0,
        ensures
            cycle_outcome(old(self)@, fetched, final(self)@, r),
            fetched is Failed ==> {
                &&& r is Ok
                &&& r->Ok_0@.len() == 0
                &&& final(self)@ == (CrawlerView {
                    pending: old(self)@.pending.drop_first(),
                    remaining: (old(self)@.remaining - 1) as nat,
                    ..old(self)@
                })
            },
    {
        let r = self.get_links(fetched);
        if r.is_ok() {
            self.remaining = self.remaining - 1;
        }
        r
    }

    /// What the run does next.
    pub fn next_step(&self) -> (step: Step)
        ensures
            step_fits(self@, step),
    {
        if self.remaining == 0 {
            Step::Finished
        } else if self.urls.len() == 0 {
            Step::Underflow
        } else {
            Step::Fetch(self.urls[0].clone())
        }
    }

    /// The URL at the front of the queue, which the next iteration fetches.
    pub fn target(&self) -> (url: Option<&String>)
        ensures
            match url {
                Some(u) => self@.pending.len() > 0 && u@ == self@.pending[0],
                None => self@.pending.len() == 0,
            },
    {
        if self.urls.len() == 0 {
            None
        } else {
            Some(&self.urls[0])
        }
    }

    /// The URLs that wait to be fetched, oldest first.
    pub fn pending(&self) -> (urls: &Vec<String>)
        ensures
            texts(urls@) == self@.pending,
    {
        &self.urls
    }

    /// The e-mail addresses collected so far, in the order found.
    pub fn emails(&self) -> (emails: &Vec<String>)
        ensures
            texts(emails@) == self@.emails,
    {
        &self.emails
    }

    /// The kind of link that the crawl records.
    pub fn kind(&self) -> (kind: MatchKind)
        ensures
            kind == self@.kind,
    {
        self.kind
    }

    /// The number of fetch cycles that the crawl was given.
    pub fn iterations(&self) -> (n: usize)
        ensures
            n == self@.iterations,
    {
        self.iterations
    }

    /// The number of fetch cycles that are left.
    pub fn remaining(&self) -> (n: usize)
        ensures
            n == self@.remaining,
    {
        self.remaining
    }
}

} // verus!
