//! Release listing: deciding which feed request to make for a requested
//! version, and paging through the feed while filtering by tag prefix and
//! excluding pre-release tags. The network calls themselves are made by the
//! surrounding program, which drives a [`Pager`] with the pages it fetched.

use vstd::prelude::*;
use vstd::string::*;
use crate::release::{release_matches, Release};
use crate::strutil::{is_latest, is_latest_spec};
use crate::InstallError;

verus! {

/// A character that percent-encoding passes through unchanged.
pub open spec fn unreserved_char(c: char) -> bool {
    ('0' <= c && c <= '9') || ('A' <= c && c <= 'Z') || ('a' <= c && c <= 'z') || c == '-' || c
        == '.' || c == '_' || c == '~'
}

/// Every character of `s` is passed through unchanged by percent-encoding.
pub open spec fn all_unreserved(s: Seq<char>) -> bool {
    forall|i: int| 0 <= i < s.len() ==> unreserved_char(s[i])
}

/// The percent-encoding of `s`.
pub uninterp spec fn url_encoded(s: Seq<char>) -> Seq<char>;

/// Relies on urlencoding::encode: percent-encodes every byte except ASCII
/// alphanumerics and `-`, `.`, `_`, `~`, so a string of those characters
/// alone passes through unchanged; the result depends on the input alone.
#[verifier::external_body]
fn encode_uri_component(s: &str) -> (r: String)
    ensures
        r@ == url_encoded(s@),
        all_unreserved(s@) ==> r@ == s@,
{
    urlencoding::encode(s).into_owned()
}

/// The release tag for version `version` of the product named by `prefix`:
/// the prefix, a dash, and the version.
pub open spec fn full_tag(prefix: Seq<char>, version: Seq<char>) -> Seq<char> {
    prefix + seq!['-'] + version
}

/// Builds the release tag `prefix-version`.
pub fn make_tag(prefix: &str, version: &str) -> (t: String)
    ensures
        t@ == full_tag(prefix@, version@),
{
    let mut t = String::from_str(prefix);
    t.append("-");
    t.append(version);
    proof {
        reveal_strlit("-");
        assert(t@ =~= full_tag(prefix@, version@));
    }
    t
}

/// The single feed request that a version choice calls for: the latest
/// release, one specific tag, or a walk through the paginated listing.
pub enum FetchPlan {
    /// Ask the feed for its latest release.
    Latest,
    /// Ask the feed for the release tagged `tag`; `url_tag` is the
    /// percent-encoded form of the tag, fit for a request path.
    ByTag { url_tag: String, tag: String },
    /// Page through the feed, `per_page` entries at a time.
    Pages { per_page: u8 },
}

/// Decides which feed request a requested version calls for: "latest" (in
/// any ASCII letter case) asks for the latest release, any other explicit
/// version asks for the tag `prefix-version`, and no version at all pages
/// through the listing.
pub fn plan(tag_prefix: &str, zb_version: &Option<String>, n_items: u8) -> (p: FetchPlan)
    ensures
        match p {
            FetchPlan::Latest => zb_version matches Some(v) && is_latest_spec(v@),
            FetchPlan::ByTag { url_tag, tag } => zb_version matches Some(v) && !is_latest_spec(v@)
                && tag@ == full_tag(tag_prefix@, v@) && url_tag@ == url_encoded(tag@),
            FetchPlan::Pages { per_page } => zb_version is None && per_page == n_items,
        },
{
    match zb_version {
        Some(version) => {
            if is_latest(version.as_str()) {
                FetchPlan::Latest
            } else {
                let tag = make_tag(tag_prefix, version.as_str());
                let url_tag = encode_uri_component(tag.as_str());
                FetchPlan::ByTag { url_tag, tag }
            }
        },
        None => FetchPlan::Pages { per_page: n_items },
    }
}

/// Wraps the release that a "get latest" request returned as the listing
/// result: exactly that one release.
pub fn single_latest(release: Release) -> (v: Vec<Release>)
    ensures
        v@ == seq![release],
{
    let mut v: Vec<Release> = Vec::new();
    v.push(release);
    proof {
        assert(v@ =~= seq![release]);
    }
    v
}

/// Checks the release that a "get by tag" request returned against the tag
/// that was asked for, and wraps it as the listing result: exactly that one
/// release when its tag is the requested one, and `NotFound` otherwise.
pub fn single_from_tag(tag: &str, release: Release) -> (r: Result<Vec<Release>, InstallError>)
    ensures
        match r {
            Ok(v) => release.tag_name@ == tag@ && v@ == seq![release],
            Err(e) => e == InstallError::NotFound && release.tag_name@ != tag@,
        },
{
    if crate::strutil::str_eq(release.tag_name.as_str(), tag) {
        let mut v: Vec<Release> = Vec::new();
        let ghost g = release;
        v.push(release);
        proof {
            assert(v@ =~= seq![g]);
        }
        Ok(v)
    } else {
        Err(InstallError::NotFound)
    }
}

/// The releases of a fetched page that pass the listing filter for
/// `prefix`, in page order.
pub open spec fn page_filter(items: Seq<Release>, prefix: Seq<char>) -> Seq<Release> {
    items.filter(|r: Release| release_matches(r, prefix))
}

/// Filtering distributes over concatenation of pages.
pub proof fn lemma_page_filter_add(a: Seq<Release>, b: Seq<Release>, prefix: Seq<char>)
    ensures
        page_filter(a + b, prefix) == page_filter(a, prefix) + page_filter(b, prefix),
{
    Seq::<Release>::filter_distributes_over_add(a, b, |r: Release| release_matches(r, prefix));
}

/// Filtering a single release keeps it exactly when it passes the filter.
pub proof fn lemma_page_filter_one(x: Release, prefix: Seq<char>)
    ensures
        page_filter(seq![x], prefix) == (if release_matches(x, prefix) {
            seq![x]
        } else {
            Seq::<Release>::empty()
        }),
{
    reveal_with_fuel(Seq::filter, 2);
    assert(seq![x].drop_last() =~= Seq::<Release>::empty());
    if release_matches(x, prefix) {
        assert(page_filter(seq![x], prefix) =~= seq![x]);
    } else {
        assert(page_filter(seq![x], prefix) =~= Seq::<Release>::empty());
    }
}

/// Nothing passes the filter of an empty page.
pub proof fn lemma_page_filter_empty(prefix: Seq<char>)
    ensures
        page_filter(Seq::<Release>::empty(), prefix) == Seq::<Release>::empty(),
{
    reveal_with_fuel(Seq::filter, 1);
    assert(page_filter(Seq::<Release>::empty(), prefix) =~= Seq::<Release>::empty());
}

/// Every release that passes the filter, matches: the tag starts with the
/// prefix and holds no pre-release marker.
pub proof fn lemma_page_filter_matches(items: Seq<Release>, prefix: Seq<char>, i: int)
    requires
        0 <= i < page_filter(items, prefix).len(),
    ensures
        release_matches(page_filter(items, prefix)[i], prefix),
{
    items.lemma_filter_pred(|r: Release| release_matches(r, prefix), i);
}

/// Where a pager stands: still fetching pages, finished, or failed.
#[derive(PartialEq, Eq, Structural, Clone, Copy, Debug)]
pub enum PagerStatus {
    /// The next page should be fetched and fed in.
    Fetching,
    /// The walk is over; the result can be taken.
    Done,
    /// The first page already failed; nothing was gathered.
    Failed,
}

/// Walks the paginated release listing, gathering releases that pass the
/// prefix/pre-release filter until `n_items` are found or the feed stops
/// yielding new matches. The caller fetches each page and feeds it in.
pub struct Pager {
    /// Tag prefix that gathered releases must start with.
    pub prefix: String,
    /// How many releases are wanted; also the page size requested.
    pub n_items: u8,
    /// Number of the next page to fetch, starting from 1.
    pub page: u32,
    /// How many releases had been gathered when the last page was judged.
    pub count: usize,
    /// The matching releases gathered so far, in feed order.
    pub acc: Vec<Release>,
    /// Where the walk stands.
    pub status: PagerStatus,
}

impl Pager {
    /// Everything that holds of a pager between steps: every gathered
    /// release passes the filter, and the bookkeeping fields agree.
    pub open spec fn inv(self) -> bool {
        &&& forall|i: int|
            0 <= i < self.acc@.len() ==> release_matches(#[trigger] self.acc@[i], self.prefix@)
        &&& self.count <= self.acc@.len()
        &&& self.status == PagerStatus::Fetching ==> {
            &&& self.count == self.acc@.len()
            &&& self.count < self.n_items as usize
            &&& self.page >= 1
            &&& self.page <= self.count + 1
        }
    }

    /// Starts a walk for releases whose tag starts with `tag_prefix`,
    /// gathering up to `n_items` of them. With `n_items` zero there is
    /// nothing to fetch and the walk is already done, and empty.
    pub fn new(tag_prefix: &str, n_items: u8) -> (p: Pager)
        ensures
            p.inv(),
            p.prefix@ == tag_prefix@,
            p.n_items == n_items,
            p.acc@ =~= Seq::<Release>::empty(),
            p.page == 1,
            p.status == (if n_items == 0 {
                PagerStatus::Done
            } else {
                PagerStatus::Fetching
            }),
    {
        Pager {
            prefix: String::from_str(tag_prefix),
            n_items,
            page: 1,
            count: 0,
            acc: Vec::new(),
            status: if n_items == 0 {
                PagerStatus::Done
            } else {
                PagerStatus::Fetching
            },
        }
    }

    /// Feeds in the releases of the page just fetched. Those that pass the
    /// filter are appended, in order, to what was gathered. The walk goes on
    /// only while pages keep yielding new matches and fewer than `n_items`
    /// have been gathered.
    pub fn feed_page(&mut self, items: Vec<Release>) -> (done: bool)
        requires
            old(self).inv(),
            old(self).status == PagerStatus::Fetching,
        ensures
            final(self).inv(),
            final(self).prefix == old(self).prefix,
            final(self).n_items == old(self).n_items,
            final(self).acc@ == old(self).acc@ + page_filter(items@, old(self).prefix@),
            done == (final(self).status == PagerStatus::Done),
            !done ==> final(self).status == PagerStatus::Fetching
                && final(self).page == old(self).page + 1,
            done == (final(self).acc@.len() == old(self).count
                || final(self).acc@.len() >= old(self).n_items as int),
    {
        let ghost orig = items@;
        let ghost self0 = *self;
        let ghost prefix0 = self.prefix@;
        let mut items = items;
        let n0: usize = items.len();
        let mut j: usize = 0;
        proof {
            assert(orig.take(0) =~= Seq::<Release>::empty());
            lemma_page_filter_empty(prefix0);
            assert(self.acc@ + page_filter(orig.take(0), prefix0) =~= self.acc@);
        }
        while items.len() > 0
            invariant
                n0 == orig.len(),
                j <= orig.len(),
                items@ == orig.skip(j as int),
                self.prefix == self0.prefix,
                self.n_items == self0.n_items,
                self.count == self0.count,
                self.page == self0.page,
                self.status == self0.status,
                prefix0 == self0.prefix@,
                self.acc@ == self0.acc@ + page_filter(orig.take(j as int), prefix0),
            decreases orig.len() - j,
        {
            let item = items.remove(0);
            assert(item == orig[j as int]);
            proof {
                assert(items@ =~= orig.skip(j as int + 1));
            }
            let keep = item.passes_filter(self.prefix.as_str());
            proof {
                assert(orig.take(j as int + 1) =~= orig.take(j as int) + seq![orig[j as int]]);
                lemma_page_filter_add(orig.take(j as int), seq![orig[j as int]], prefix0);
                lemma_page_filter_one(orig[j as int], prefix0);
            }
            if keep {
                self.acc.push(item);
            }
            proof {
                assert(self.acc@ =~= self0.acc@ + page_filter(orig.take(j as int + 1), prefix0));
            }
            j = j + 1;
        }
        proof {
            assert(orig.skip(j as int).len() == 0);
            assert(j == orig.len());
            assert(orig.take(orig.len() as int) =~= orig);
            assert(forall|i: int|
                0 <= i < page_filter(orig, prefix0).len() ==> release_matches(
                    #[trigger] page_filter(orig, prefix0)[i],
                    prefix0,
                )) by {
                assert forall|i: int| 0 <= i < page_filter(orig, prefix0).len() implies release_matches(
                    #[trigger] page_filter(orig, prefix0)[i],
                    prefix0,
                ) by {
                    lemma_page_filter_matches(orig, prefix0, i);
                }
            }
        }
        // Judge the page: stop when it yielded no new matches or enough have
        // been gathered; otherwise move on to the next page.
        let new_len = self.acc.len();
        if new_len == self.count || new_len >= self.n_items as usize {
            self.status = PagerStatus::Done;
            true
        } else {
            self.count = new_len;
            self.page = self.page + 1;
            false
        }
    }

    /// Notes that fetching the current page failed. A failure on the first
    /// page fails the whole walk with `NetworkError`; on a later page it is
    /// tolerated and the walk ends with what was already gathered.
    pub fn feed_transport_error(&mut self) -> (r: Result<(), InstallError>)
        requires
            old(self).inv(),
            old(self).status == PagerStatus::Fetching,
        ensures
            final(self).inv(),
            final(self).prefix == old(self).prefix,
            final(self).n_items == old(self).n_items,
            final(self).acc@ == old(self).acc@,
            match r {
                Ok(()) => old(self).acc@.len() > 0 && final(self).status == PagerStatus::Done,
                Err(e) => e == InstallError::NetworkError && old(self).acc@.len() == 0
                    && final(self).status == PagerStatus::Failed,
            },
    {
        if self.acc.len() == 0 {
            self.status = PagerStatus::Failed;
            Err(InstallError::NetworkError)
        } else {
            self.status = PagerStatus::Done;
            Ok(())
        }
    }

    /// Hands out the gathered releases, at most `n_items` of them, in feed
    /// order. Every one starts with the prefix and holds no pre-release
    /// marker.
    pub fn take_result(self) -> (v: Vec<Release>)
        requires
            self.inv(),
            self.status == PagerStatus::Done,
        ensures
            v@ == (if self.acc@.len() <= self.n_items as int {
                self.acc@
            } else {
                self.acc@.subrange(0, self.n_items as int)
            }),
            v@.len() <= self.n_items as int,
            forall|i: int| 0 <= i < v@.len() ==> release_matches(#[trigger] v@[i], self.prefix@),
    {
        let mut v = self.acc;
        v.truncate(self.n_items as usize);
        proof {
            if self.acc@.len() <= self.n_items as int {
                assert(v@ =~= self.acc@);
            } else {
                assert(v@ =~= self.acc@.subrange(0, self.n_items as int));
            }
        }
        v
    }
}

} // verus!
