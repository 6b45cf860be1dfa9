//! Counts of the specialised accelerators a system has.
use vstd::prelude::*;
use crate::text::owned;

verus! {

/// The number of specialised accelerators: NPUs, TPUs and FPGAs together.
pub fn accelerator_count(npus: usize, tpus: usize, fpgas: usize) -> (r: usize)
    requires
        npus + tpus + fpgas <= usize::MAX,
    ensures
        r == npus + tpus + fpgas,
{
    npus + tpus + fpgas
}

/// One entry per kind of accelerator present, with its count.
pub open spec fn accelerator_entries(npus: usize, tpus: usize, fpgas: usize) -> Seq<(Seq<char>, usize)> {
    (if npus > 0 {
        seq![("NPUs"@, npus)]
    } else {
        seq![]
    }) + (if tpus > 0 {
        seq![("TPUs"@, tpus)]
    } else {
        seq![]
    }) + (if fpgas > 0 {
        seq![("FPGAs"@, fpgas)]
    } else {
        seq![]
    })
}

/// The accelerators present, by kind, with their counts.
pub fn accelerator_summary(npus: usize, tpus: usize, fpgas: usize) -> (r: Vec<(String, usize)>)
    ensures
        r@.map_values(|e: (String, usize)| (e.0@, e.1)) == accelerator_entries(npus, tpus, fpgas),
{
    let mut r: Vec<(String, usize)> = Vec::new();
    if npus > 0 {
        r.push((owned("NPUs"), npus));
    }
    if tpus > 0 {
        r.push((owned("TPUs"), tpus));
    }
    if fpgas > 0 {
        r.push((owned("FPGAs"), fpgas));
    }
    proof {
        assert(r@.map_values(|e: (String, usize)| (e.0@, e.1)) =~= accelerator_entries(
            npus,
            tpus,
            fpgas,
        ));
    }
    r
}

} // verus!
