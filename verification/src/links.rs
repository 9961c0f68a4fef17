//! Links in a text: what the link finder hands over, read as plain values,
//! and what a list of links holds of one kind.

use crate::kind::MatchKind;
use linkify::{LinkFinder, LinkKind};
use vstd::prelude::*;

verus! {

/// A link as a plain value: its kind, where it is one that a run can record,
/// and its text.
pub type LinkView = (Option<MatchKind>, Seq<char>);

/// A link found in a text. `kind` is `None` for a link that is neither a URL
/// nor an e-mail address.
#[derive(Debug)]
pub struct Link {
    pub kind: Option<MatchKind>,
    pub text: String,
}

impl View for Link {
    type V = LinkView;

    open spec fn view(&self) -> LinkView {
        (self.kind, self.text@)
    }
}

/// A list of links as plain values.
pub open spec fn links_view(links: Seq<Link>) -> Seq<LinkView> {
    links.map_values(|l: Link| l@)
}

/// A list of texts as plain values.
pub open spec fn texts(v: Seq<String>) -> Seq<Seq<char>> {
    v.map_values(|s: String| s@)
}

/// The links that a finder restricted to `kinds` finds in `body`, in the
/// order in which they stand there.
pub uninterp spec fn links_in(kinds: Seq<MatchKind>, body: Seq<char>) -> Seq<LinkView>;

/// The kinds that a crawl looks for in every page.
pub open spec fn both_kinds() -> Seq<MatchKind> {
    seq![MatchKind::Url, MatchKind::Email]
}

/// Every link is a URL or an e-mail address.
pub open spec fn all_known(links: Seq<LinkView>) -> bool {
    forall|i: int| 0 <= i < links.len() ==> (#[trigger] links[i]).0.is_some()
}

/// The texts of the links of one kind, in the links' order.
pub open spec fn texts_of(kind: MatchKind, links: Seq<LinkView>) -> Seq<Seq<char>> {
    links.filter(|l: LinkView| l.0 == Some(kind)).map_values(|l: LinkView| l.1)
}

/// A list without links holds no texts of any kind.
pub proof fn lemma_texts_of_none(kind: MatchKind)
    ensures
        texts_of(kind, Seq::<LinkView>::empty()) == Seq::<Seq<char>>::empty(),
{
    reveal(Seq::filter);
    assert(texts_of(kind, Seq::<LinkView>::empty()) =~= Seq::<Seq<char>>::empty());
}

/// `texts_of` goes through a list link by link: the next link adds its text
/// if it is of the kind, and nothing otherwise.
pub proof fn lemma_texts_of_step(kind: MatchKind, links: Seq<LinkView>, i: int)
    requires
        0 <= i < links.len(),
    ensures
        texts_of(kind, links.take(i + 1)) == if links[i].0 == Some(kind) {
            texts_of(kind, links.take(i)).push(links[i].1)
        } else {
            texts_of(kind, links.take(i))
        },
{
    reveal(Seq::filter);
    let pred = |l: LinkView| l.0 == Some(kind);
    let front = links.take(i);
    let more = links.take(i + 1);
    assert(more.drop_last() =~= front);
    assert(more.last() == links[i]);
    assert(more.filter(pred) == if pred(links[i]) {
        front.filter(pred).push(links[i])
    } else {
        front.filter(pred)
    });
    assert(texts_of(kind, more) =~= if links[i].0 == Some(kind) {
        texts_of(kind, front).push(links[i].1)
    } else {
        texts_of(kind, front)
    });
}

/// Runs a `linkify::LinkFinder`, restricted by `kinds` to the given kinds, over
/// `body` with `links`, and hands out each link's kind and text. The list is
/// what that finder finds in that text, in its order; in an empty text it
/// finds nothing.
#[verifier::external_body]
fn find_links(kinds: &Vec<MatchKind>, body: &str) -> (found: Vec<Link>)
    ensures
        links_view(found@) == links_in(kinds@, body@),
        body@.len() == 0 ==> found@.len() == 0,
{
    let wanted: Vec<LinkKind> = kinds.iter().map(|k| match k {
        MatchKind::Url => LinkKind::Url,
        MatchKind::Email => LinkKind::Email,
    }).collect();
    let mut finder = LinkFinder::new();
    finder.kinds(&wanted);
    let kind_of = |k: &LinkKind| match k {
        LinkKind::Url => Some(MatchKind::Url),
        LinkKind::Email => Some(MatchKind::Email),
        _ => None,
    };
    finder.links(body).map(|l| Link { kind: kind_of(l.kind()), text: l.as_str().to_string() }).collect()
}

/// Finds the URLs and e-mail addresses in a text, by their shape alone, in
/// the order in which they stand there.
pub fn extract(body: &str) -> (found: Vec<Link>)
    ensures
        links_view(found@) == links_in(both_kinds(), body@),
        body@.len() == 0 ==> found@.len() == 0,
{
    let mut kinds: Vec<MatchKind> = Vec::new();
    kinds.push(MatchKind::Url);
    kinds.push(MatchKind::Email);
    assert(kinds@ =~= both_kinds());
    find_links(&kinds, body)
}

} // verus!
