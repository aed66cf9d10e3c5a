//! Data model of the release feed: a release is a tagged set of named,
//! URL-addressable assets. Values of these types are handed in by the
//! surrounding program, which reads them from the remote feed.

use vstd::prelude::*;
use crate::strutil::{seq_contains, seq_starts_with, str_contains, str_eq, str_starts_with};

verus! {

/// A single named downloadable file attached to a release.
#[derive(Debug)]
pub struct Asset {
    pub name: String,
    pub browser_download_url: String,
}

/// A tagged, published set of downloadable assets in the remote feed.
#[derive(Debug)]
pub struct Release {
    pub tag_name: String,
    pub assets: Vec<Asset>,
}

/// Tags holding this marker are release candidates and are excluded when
/// listing published releases.
pub open spec fn pre_release_marker() -> Seq<char> {
    seq!['r', 'c']
}

/// The release passes the listing filter for `prefix`: its tag starts with
/// the prefix and holds no pre-release marker.
pub open spec fn release_matches(r: Release, prefix: Seq<char>) -> bool {
    seq_starts_with(r.tag_name@, prefix) && !seq_contains(r.tag_name@, pre_release_marker())
}

/// The release has an asset whose name equals `name` exactly.
pub open spec fn release_has_asset(r: Release, name: Seq<char>) -> bool {
    exists|i: int| 0 <= i < r.assets@.len() && (#[trigger] r.assets@[i]).name@ == name
}

impl Release {
    /// Whether this release passes the listing filter for `prefix`.
    pub fn passes_filter(&self, prefix: &str) -> (b: bool)
        ensures
            b == release_matches(*self, prefix@),
    {
        proof {
            reveal_strlit("rc");
            assert("rc"@ =~= pre_release_marker());
        }
        str_starts_with(self.tag_name.as_str(), prefix) && !str_contains(
            self.tag_name.as_str(),
            "rc",
        )
    }

    /// Whether this release has an asset named exactly `name`.
    pub fn has_asset(&self, name: &str) -> (b: bool)
        ensures
            b == release_has_asset(*self, name@),
    {
        let n: usize = self.assets.len();
        let mut i: usize = 0;
        while i < n
            invariant
                n == self.assets@.len(),
                i <= n,
                forall|k: int| 0 <= k < i ==> (#[trigger] self.assets@[k]).name@ != name@,
            decreases n - i,
        {
            if str_eq(self.assets[i].name.as_str(), name) {
                return true;
            }
            i = i + 1;
        }
        false
    }
}

} // verus!
