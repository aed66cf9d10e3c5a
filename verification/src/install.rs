//! Install-side logic: narrowing a release list to those that publish the
//! wanted asset, picking the release, resolving the asset inside it, and the
//! permission arithmetic of the final install step. Downloading and writing
//! the file are done by the surrounding program.

use vstd::prelude::*;
use crate::release::{release_has_asset, Asset, Release};
use crate::strutil::str_eq;
use crate::InstallError;

verus! {

/// The releases that publish an asset named exactly `name`, in order.
pub open spec fn asset_filter(rs: Seq<Release>, name: Seq<char>) -> Seq<Release> {
    rs.filter(|r: Release| release_has_asset(r, name))
}

/// Filtering by asset presence distributes over concatenation.
pub proof fn lemma_asset_filter_add(a: Seq<Release>, b: Seq<Release>, name: Seq<char>)
    ensures
        asset_filter(a + b, name) == asset_filter(a, name) + asset_filter(b, name),
{
    Seq::<Release>::filter_distributes_over_add(a, b, |r: Release| release_has_asset(r, name));
}

/// Filtering a single release keeps it exactly when it has the asset.
pub proof fn lemma_asset_filter_one(x: Release, name: Seq<char>)
    ensures
        asset_filter(seq![x], name) == (if release_has_asset(x, name) {
            seq![x]
        } else {
            Seq::<Release>::empty()
        }),
{
    reveal_with_fuel(Seq::filter, 2);
    assert(seq![x].drop_last() =~= Seq::<Release>::empty());
    if release_has_asset(x, name) {
        assert(asset_filter(seq![x], name) =~= seq![x]);
    } else {
        assert(asset_filter(seq![x], name) =~= Seq::<Release>::empty());
    }
}

/// An empty release list filters to nothing.
pub proof fn lemma_asset_filter_empty(name: Seq<char>)
    ensures
        asset_filter(Seq::<Release>::empty(), name) == Seq::<Release>::empty(),
{
    reveal_with_fuel(Seq::filter, 1);
    assert(asset_filter(Seq::<Release>::empty(), name) =~= Seq::<Release>::empty());
}

/// Keeps, in order, the releases that publish an asset named exactly
/// `target_asset`.
pub fn releases_with_asset(releases: Vec<Release>, target_asset: &str) -> (out: Vec<Release>)
    ensures
        out@ == asset_filter(releases@, target_asset@),
{
    let ghost orig = releases@;
    let ghost name = target_asset@;
    let mut releases = releases;
    let mut out: Vec<Release> = Vec::new();
    let n0: usize = releases.len();
    let mut j: usize = 0;
    proof {
        assert(orig.take(0) =~= Seq::<Release>::empty());
        lemma_asset_filter_empty(name);
        assert(out@ =~= asset_filter(orig.take(0), name));
    }
    while releases.len() > 0
        invariant
            n0 == orig.len(),
            j <= orig.len(),
            releases@ == orig.skip(j as int),
            name == target_asset@,
            out@ == asset_filter(orig.take(j as int), name),
        decreases orig.len() - j,
    {
        let item = releases.remove(0);
        assert(item == orig[j as int]);
        proof {
            assert(releases@ =~= orig.skip(j as int + 1));
        }
        let keep = item.has_asset(target_asset);
        proof {
            assert(orig.take(j as int + 1) =~= orig.take(j as int) + seq![orig[j as int]]);
            lemma_asset_filter_add(orig.take(j as int), seq![orig[j as int]], name);
            lemma_asset_filter_one(orig[j as int], name);
        }
        if keep {
            out.push(item);
        }
        proof {
            assert(out@ =~= asset_filter(orig.take(j as int + 1), name));
        }
        j = j + 1;
    }
    proof {
        assert(orig.skip(j as int).len() == 0);
        assert(j == orig.len());
        assert(orig.take(orig.len() as int) =~= orig);
    }
    out
}

/// Picks the release an explicit version request installs from: the first of
/// the narrowed list. An empty list means the wanted platform/signing
/// combination is not published for the requested release: `AssetNotFound`.
pub fn first_release(candidates: &Vec<Release>) -> (r: Result<&Release, InstallError>)
    ensures
        match r {
            Ok(rel) => candidates@.len() > 0 && *rel == candidates@[0],
            Err(e) => e == InstallError::AssetNotFound && candidates@.len() == 0,
        },
{
    if candidates.len() > 0 {
        Ok(&candidates[0])
    } else {
        Err(InstallError::AssetNotFound)
    }
}

/// Picks the release an interactive selection chose, by its index in the
/// narrowed list; `None` when the index is out of range.
pub fn nth_release(candidates: &Vec<Release>, selection: usize) -> (r: Option<&Release>)
    ensures
        match r {
            Some(rel) => selection < candidates@.len() && *rel == candidates@[selection as int],
            None => selection >= candidates@.len(),
        },
{
    if selection < candidates.len() {
        Some(&candidates[selection])
    } else {
        None
    }
}

/// Resolves `target_asset` within the release: the first asset whose name
/// equals the target exactly, by case-sensitive comparison. A name not
/// present in the release's asset set fails with `AssetNotFound`.
pub fn find_asset<'a>(release: &'a Release, target_asset: &str) -> (r: Result<
    &'a Asset,
    InstallError,
>)
    ensures
        match r {
            Ok(a) => exists|i: int|
                {
                    &&& 0 <= i < release.assets@.len()
                    &&& *a == release.assets@[i]
                    &&& (#[trigger] release.assets@[i]).name@ == target_asset@
                    &&& forall|k: int|
                        0 <= k < i ==> (#[trigger] release.assets@[k]).name@ != target_asset@
                },
            Err(e) => e == InstallError::AssetNotFound && !release_has_asset(
                *release,
                target_asset@,
            ),
        },
{
    let n: usize = release.assets.len();
    let mut i: usize = 0;
    while i < n
        invariant
            n == release.assets@.len(),
            i <= n,
            forall|k: int| 0 <= k < i ==> (#[trigger] release.assets@[k]).name@ != target_asset@,
        decreases n - i,
    {
        if str_eq(release.assets[i].name.as_str(), target_asset) {
            return Ok(&release.assets[i]);
        }
        i = i + 1;
    }
    Err(InstallError::AssetNotFound)
}

/// The permission bits after the install step: execute is added for owner,
/// group and other, and every other bit is kept.
pub open spec fn mode_with_execute(mode: u32) -> u32 {
    mode | 0o111
}

/// Computes the permission bits to set on the installed file, from the bits
/// the file has: adds execute for owner, group and other, keeping the rest.
pub fn add_executable_permission(mode: u32) -> (m: u32)
    ensures
        m == mode_with_execute(mode),
{
    mode | 0o111
}

/// What an installer run leaves on disk: the file's bytes and its
/// permission bits.
#[verifier::ext_equal]
pub struct FileImage {
    pub content: Seq<u8>,
    pub mode: u32,
}

/// The file image one installer run leaves, starting from the image `prior`
/// that creating the output file gave: the downloaded bytes are the content
/// wholesale, and the permission bits gain execute.
pub open spec fn install_effect(bytes: Seq<u8>, prior: FileImage) -> FileImage {
    FileImage { content: bytes, mode: mode_with_execute(prior.mode) }
}

/// Running the installer twice for the same release is idempotent: the
/// second run writes byte-identical content and leaves the same permission
/// bits as the first.
pub proof fn lemma_install_idempotent(bytes: Seq<u8>, prior: FileImage)
    ensures
        install_effect(bytes, install_effect(bytes, prior)) == install_effect(bytes, prior),
{
    let m = prior.mode;
    assert((m | 0o111) | 0o111 == m | 0o111) by (bit_vector);
    assert(install_effect(bytes, install_effect(bytes, prior)) =~= install_effect(bytes, prior));
}

} // verus!
