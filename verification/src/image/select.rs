//! Choosing the manifest of an index that fits the host.

use vstd::prelude::*;

use crate::error::PullError;
use crate::image::model::{DescriptorView, OciImageIndex};
use crate::text::str_eq;

verus! {

/// Whether a descriptor targets the given architecture and operating system.
/// Only these two are compared: version, features and variant play no part.
pub open spec fn fits(d: DescriptorView, arch: Seq<char>, os: Seq<char>) -> bool {
    d.platform.architecture == arch && d.platform.os == os
}

/// Whether `i` is the position of the first descriptor that fits.
pub open spec fn is_first_fit(
    manifests: Seq<DescriptorView>,
    arch: Seq<char>,
    os: Seq<char>,
    i: int,
) -> bool {
    &&& 0 <= i < manifests.len()
    &&& fits(manifests[i], arch, os)
    &&& forall|j: int| 0 <= j < i ==> !fits(#[trigger] manifests[j], arch, os)
}

/// The position of the selected descriptor: the first one in index order that
/// fits, or `None` when no descriptor fits.
pub open spec fn selection(manifests: Seq<DescriptorView>, arch: Seq<char>, os: Seq<char>) -> Option<
    int,
> {
    if exists|i: int| is_first_fit(manifests, arch, os, i) {
        Some(choose|i: int| is_first_fit(manifests, arch, os, i))
    } else {
        None
    }
}

/// The first descriptor that fits is the selected one.
pub proof fn lemma_first_fit_is_selected(
    manifests: Seq<DescriptorView>,
    arch: Seq<char>,
    os: Seq<char>,
    i: int,
)
    requires
        is_first_fit(manifests, arch, os, i),
    ensures
        selection(manifests, arch, os) == Some(i),
{
    let k = choose|k: int| is_first_fit(manifests, arch, os, k);
    assert(is_first_fit(manifests, arch, os, k));
    if k < i {
        assert(!fits(manifests[k], arch, os));
    }
    if i < k {
        assert(!fits(manifests[i], arch, os));
    }
}

/// Where exactly one descriptor fits, that descriptor is selected.
pub proof fn lemma_only_fit_is_selected(
    manifests: Seq<DescriptorView>,
    arch: Seq<char>,
    os: Seq<char>,
    i: int,
)
    requires
        0 <= i < manifests.len(),
        fits(manifests[i], arch, os),
        forall|j: int| 0 <= j < manifests.len() && j != i ==> !fits(manifests[j], arch, os),
    ensures
        selection(manifests, arch, os) == Some(i),
{
    lemma_first_fit_is_selected(manifests, arch, os, i);
}

/// Where several descriptors fit, the one that comes first in the index is
/// selected.
pub proof fn lemma_earlier_fit_wins(
    manifests: Seq<DescriptorView>,
    arch: Seq<char>,
    os: Seq<char>,
    i: int,
    j: int,
)
    requires
        0 <= i < j < manifests.len(),
        fits(manifests[i], arch, os),
        fits(manifests[j], arch, os),
    ensures
        selection(manifests, arch, os) is Some,
        selection(manifests, arch, os)->0 <= i,
{
    lemma_some_fit_is_selected(manifests, arch, os, i);
}

/// Where some descriptor fits, one at or before it is selected.
pub proof fn lemma_some_fit_is_selected(
    manifests: Seq<DescriptorView>,
    arch: Seq<char>,
    os: Seq<char>,
    i: int,
)
    requires
        0 <= i < manifests.len(),
        fits(manifests[i], arch, os),
    ensures
        selection(manifests, arch, os) is Some,
        0 <= selection(manifests, arch, os)->0 <= i,
        is_first_fit(manifests, arch, os, selection(manifests, arch, os)->0),
    decreases i,
{
    if exists|j: int| 0 <= j < i && fits(manifests[j], arch, os) {
        let j = choose|j: int| 0 <= j < i && fits(manifests[j], arch, os);
        lemma_some_fit_is_selected(manifests, arch, os, j);
    } else {
        assert(is_first_fit(manifests, arch, os, i));
        lemma_first_fit_is_selected(manifests, arch, os, i);
    }
}

/// Where no descriptor fits, nothing is selected; and nothing is selected
/// only where no descriptor fits.
pub proof fn lemma_no_fit_no_selection(
    manifests: Seq<DescriptorView>,
    arch: Seq<char>,
    os: Seq<char>,
)
    ensures
        selection(manifests, arch, os) is None <==> forall|j: int|
            0 <= j < manifests.len() ==> !fits(#[trigger] manifests[j], arch, os),
{
    if exists|j: int| 0 <= j < manifests.len() && fits(manifests[j], arch, os) {
        let j = choose|j: int| 0 <= j < manifests.len() && fits(manifests[j], arch, os);
        lemma_some_fit_is_selected(manifests, arch, os, j);
    }
}

/// Selects the manifest descriptor for the host: the first one in the order
/// of the index whose architecture and operating system both equal the host's.
/// Fails with `NoMatchingPlatform` exactly when no descriptor fits.
pub fn select_manifest(index: &OciImageIndex, arch: &str, os: &str) -> (chosen: Result<
    usize,
    PullError,
>)
    ensures
        match chosen {
            Ok(i) => selection(index@.manifests, arch@, os@) == Some(i as int) && i
                < index.manifests@.len(),
            Err(e) => selection(index@.manifests, arch@, os@) is None && e
                == PullError::NoMatchingPlatform,
        },
{
    let ghost all = index@.manifests;
    let mut i: usize = 0;
    while i < index.manifests.len()
        invariant
            i <= index.manifests@.len(),
            all == index@.manifests,
            all.len() == index.manifests@.len(),
            forall|j: int| 0 <= j < i ==> !fits(#[trigger] all[j], arch@, os@),
        decreases index.manifests@.len() - i,
    {
        let d = &index.manifests[i];
        assert(all[i as int] == d@);
        if str_eq(d.platform.architecture.as_str(), arch) && str_eq(d.platform.os.as_str(), os) {
            proof {
                lemma_first_fit_is_selected(all, arch@, os@, i as int);
            }
            return Ok(i);
        }
        i = i + 1;
    }
    proof {
        lemma_no_fit_no_selection(all, arch@, os@);
    }
    Err(PullError::NoMatchingPlatform)
}

} // verus!
