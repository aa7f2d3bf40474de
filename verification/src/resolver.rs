//! The dependency resolver: the two named policies that merge the
//! standard-library baseline with caller-supplied extra dependencies.

use vstd::prelude::*;
use crate::artifact::{CompiledModuleV, VerifiedModule, verified_views};
use crate::stdlib::{spec_stdlib, stdlib_modules};

verus! {

/// The default policy: the extras alone when the baseline is skipped,
/// otherwise the baseline followed by the extras.  Baseline entries come
/// first, so on a name collision a first-match lookup finds the baseline's.
pub open spec fn spec_resolve_default(extras: Seq<CompiledModuleV>, skip_baseline: bool) -> Seq<
    CompiledModuleV,
> {
    if skip_baseline {
        extras
    } else {
        spec_stdlib() + extras
    }
}

/// The forced-merge policy: the baseline followed by the extras, whatever
/// any skip flag says.
pub open spec fn spec_resolve_forced(extras: Seq<CompiledModuleV>) -> Seq<CompiledModuleV> {
    spec_stdlib() + extras
}

/// Resolve a dependency set under the default policy.
pub fn resolve_default(extras: Vec<VerifiedModule>, skip_baseline: bool) -> (r: Vec<
    VerifiedModule,
>)
    ensures
        verified_views(r) == spec_resolve_default(verified_views(extras), skip_baseline),
{
    let ghost ev = verified_views(extras);
    if skip_baseline {
        extras
    } else {
        let mut extras = extras;
        let mut r = stdlib_modules();
        r.append(&mut extras);
        proof {
            assert(verified_views(r) =~= spec_stdlib() + ev);
        }
        r
    }
}

/// Resolve a dependency set under the forced-merge policy.
pub fn resolve_forced_merge(extras: Vec<VerifiedModule>) -> (r: Vec<VerifiedModule>)
    ensures
        verified_views(r) == spec_resolve_forced(verified_views(extras)),
{
    let ghost ev = verified_views(extras);
    let mut extras = extras;
    let mut r = stdlib_modules();
    r.append(&mut extras);
    proof {
        assert(verified_views(r) =~= spec_stdlib() + ev);
    }
    r
}

/// Baseline inclusion: under the default policy with the baseline not
/// skipped, every baseline module is in the resolved set, whatever extras
/// were supplied, and it keeps its position.
pub proof fn lemma_baseline_inclusion(extras: Seq<CompiledModuleV>, j: int)
    requires
        0 <= j < spec_stdlib().len(),
    ensures
        spec_resolve_default(extras, false)[j] == spec_stdlib()[j],
        spec_resolve_default(extras, false).contains(spec_stdlib()[j]),
{
    assert(spec_resolve_default(extras, false)[j] == spec_stdlib()[j]);
}

} // verus!
