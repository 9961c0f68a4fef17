//! What holds of every crawl, proved from the definitions that the crawl's
//! contracts are stated in.

use crate::crawler::{
    after_links, links_outcome, one_cycle_spent, step_fits, CrawlError, CrawlerView, Step,
};
use crate::kind::MatchKind;
use crate::links::{all_known, lemma_texts_of_none, texts, texts_of, LinkView};
use vstd::prelude::*;

verus! {

/// A page without links changes nothing but the queue's front: the front
/// leaves, nothing joins the queue, nothing is collected, and nothing is to be
/// written out.
pub proof fn lemma_no_links(
    before: CrawlerView,
    after: CrawlerView,
    r: Result<Vec<String>, CrawlError>,
)
    ensures
        all_known(Seq::<LinkView>::empty()),
        texts_of(before.kind, Seq::<LinkView>::empty()) == Seq::<Seq<char>>::empty(),
        after_links(before, Seq::<LinkView>::empty()) == (CrawlerView {
            pending: before.pending.drop_first(),
            ..before
        }),
        links_outcome(before, Seq::<LinkView>::empty(), after, r) ==> {
            &&& r is Ok
            &&& r->Ok_0@.len() == 0
            &&& after.pending == before.pending.drop_first()
            &&& after.emails == before.emails
        },
{
    let none = Seq::<LinkView>::empty();
    lemma_texts_of_none(before.kind);
    lemma_texts_of_none(MatchKind::Url);
    lemma_texts_of_none(MatchKind::Email);
    assert(before.pending.drop_first() + Seq::<Seq<char>>::empty()
        =~= before.pending.drop_first());
    assert(before.emails + Seq::<Seq<char>>::empty() =~= before.emails);
    if links_outcome(before, none, after, r) {
        assert(texts(r->Ok_0@).len() == r->Ok_0@.len());
    }
}

/// The queue is first in, first out: a page takes exactly the front away,
/// what stood behind it keeps its order and moves up by one, and the URLs
/// found stand behind that, in the order found and with nothing left out for
/// being there already.
pub proof fn lemma_queue_discipline(before: CrawlerView, links: Seq<LinkView>)
    requires
        before.pending.len() > 0,
    ensures
        ({
            let after = after_links(before, links);
            let found = texts_of(MatchKind::Url, links);
            let kept = before.pending.len() - 1;
            &&& after.pending.len() == kept + found.len()
            &&& forall|i: int| 0 <= i < kept ==> after.pending[i] == before.pending[i + 1]
            &&& forall|i: int| 0 <= i < found.len() ==> after.pending[kept + i] == found[i]
        }),
{
}

/// Which URLs join the queue does not depend on the kind that is recorded,
/// and e-mails are collected only where e-mails are recorded.
pub proof fn lemma_queue_ignores_kind(before: CrawlerView, kind: MatchKind, links: Seq<LinkView>)
    ensures
        after_links(CrawlerView { kind, ..before }, links).pending == after_links(
            before,
            links,
        ).pending,
        before.kind == MatchKind::Url ==> after_links(before, links).emails == before.emails,
{
}

/// The crawl after a run of fetch cycles, one page's links for each.
pub open spec fn after_cycles(c: CrawlerView, pages: Seq<Seq<LinkView>>) -> CrawlerView
    decreases pages.len(),
{
    if pages.len() == 0 {
        c
    } else {
        after_links(one_cycle_spent(after_cycles(c, pages.drop_last())), pages.last())
    }
}

/// The budget counts fetch cycles and nothing else: each cycle takes one off,
/// whatever the pages hold and however the queue grows, and the run is over
/// exactly when as many cycles were made as the budget allows.
pub proof fn lemma_budget_counts_cycles(c: CrawlerView, pages: Seq<Seq<LinkView>>)
    requires
        pages.len() <= c.remaining,
    ensures
        after_cycles(c, pages).remaining == c.remaining - pages.len(),
        after_cycles(c, pages).iterations == c.iterations,
        after_cycles(c, pages).kind == c.kind,
        step_fits(after_cycles(c, pages), Step::Finished) <==> pages.len() == c.remaining,
    decreases pages.len(),
{
    if pages.len() > 0 {
        lemma_budget_counts_cycles(c, pages.drop_last());
    }
}

} // verus!
