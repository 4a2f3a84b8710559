//! Finding and deleting e-mail addresses and URLs.
//!
//! The `linkify` crate scans the text; what it reports is kept as plain
//! values, picked by kind, and deleted by [`crate::spans::remove_spans`].

use crate::spans::{remove_spans, without_spans};
use vstd::prelude::*;

verus! {

/// What kind of link a scanner found.
#[derive(Clone, Copy, Debug, PartialEq, Eq, Structural)]
pub enum LinkKind {
    /// A URL such as `https://example.org` or, where schemes are optional, `example.org`.
    Url,
    /// An e-mail address such as `someone@example.org`.
    Email,
    /// A kind this library does not know.
    Other,
}

/// A link found in a text: the half-open range of byte offsets it occupies, and its kind.
#[derive(Clone, Copy, Debug, PartialEq, Eq, Structural)]
pub struct Link {
    pub start: usize,
    pub end: usize,
    pub kind: LinkKind,
}

/// The links that a `linkify::LinkFinder` with the two options set as given
/// reports for `text`, in the order it reports them.
pub uninterp spec fn links_found(
    text: Seq<char>,
    email_domain_must_have_dot: bool,
    url_must_have_scheme: bool,
) -> Seq<Link>;

/// Makes a `linkify::LinkFinder`, sets its options `email_domain_must_have_dot`
/// and `url_must_have_scheme`, and collects what `LinkFinder::links` yields for
/// `text`, each link as its start, end and kind. Trusted: the outcome is
/// [`links_found`] of the text and the two options.
#[verifier::external_body]
fn find_links(text: &str, email_domain_must_have_dot: bool, url_must_have_scheme: bool) -> (found:
    Vec<Link>)
    ensures
        found@ == links_found(text@, email_domain_must_have_dot, url_must_have_scheme),
{
    let mut finder = linkify::LinkFinder::new();
    finder.email_domain_must_have_dot(email_domain_must_have_dot);
    finder.url_must_have_scheme(url_must_have_scheme);
    finder.links(text).map(|link| Link {
        start: link.start(),
        end: link.end(),
        kind: match link.kind() {
            linkify::LinkKind::Url => LinkKind::Url,
            linkify::LinkKind::Email => LinkKind::Email,
            _ => LinkKind::Other,
        },
    }).collect()
}

/// The byte ranges of the links of kind `kind` among `links`, in order.
pub open spec fn spans_of_kind(links: Seq<Link>, kind: LinkKind) -> Seq<(usize, usize)>
    decreases links.len(),
{
    if links.len() == 0 {
        Seq::empty()
    } else {
        let before = spans_of_kind(links.drop_last(), kind);
        if links.last().kind == kind {
            before.push((links.last().start, links.last().end))
        } else {
            before
        }
    }
}

/// `text` without the characters inside the links of kind `kind` among `links`.
pub open spec fn without_links(text: Seq<char>, links: Seq<Link>, kind: LinkKind) -> Seq<char> {
    without_spans(text, spans_of_kind(links, kind))
}

/// `text` without its e-mail addresses; the domain of an address need not hold a dot.
pub open spec fn without_emails(text: Seq<char>) -> Seq<char> {
    without_links(text, links_found(text, false, true), LinkKind::Email)
}

/// `text` without its URLs; a URL need not start with a scheme.
pub open spec fn without_urls(text: Seq<char>) -> Seq<char> {
    without_links(text, links_found(text, true, false), LinkKind::Url)
}

/// Deletes from `text` exactly the characters inside the links of kind `kind`
/// among `links`; everything around them stays, character for character.
pub fn remove_links(text: &str, links: &Vec<Link>, kind: LinkKind) -> (cleaned: String)
    ensures
        cleaned@ == without_links(text@, links@, kind),
{
    let mut spans: Vec<(usize, usize)> = Vec::new();
    let mut i: usize = 0;
    while i < links.len()
        invariant
            i <= links.len(),
            spans@ == spans_of_kind(links@.take(i as int), kind),
        decreases links.len() - i,
    {
        proof {
            assert(links@.take(i + 1).drop_last() =~= links@.take(i as int));
        }
        let link = links[i];
        if link.kind == kind {
            spans.push((link.start, link.end));
        }
        i += 1;
    }
    proof {
        assert(links@.take(links.len() as int) =~= links@);
    }
    remove_spans(text, &spans)
}

/// Deletes every e-mail address from `text`.
pub fn remove_all_emails(text: &str) -> (cleaned: String)
    ensures
        cleaned@ == without_emails(text@),
{
    let links = find_links(text, false, true);
    remove_links(text, &links, LinkKind::Email)
}

/// Deletes every URL from `text`, with or without a scheme.
pub fn remove_all_urls(text: &str) -> (cleaned: String)
    ensures
        cleaned@ == without_urls(text@),
{
    let links = find_links(text, true, false);
    remove_links(text, &links, LinkKind::Url)
}

} // verus!
