//! Adapter selection.
//!
//! The factory enumerates the machine's adapters; what each one reports —
//! whether it is the software rasterizer, how much dedicated video memory
//! it has, and whether a device of the required feature tier can be created
//! on it — comes in as plain values, and the choice among them is made
//! here.  With the preference-ordered enumeration the first hardware
//! adapter that supports the tier wins; with the plain enumeration the
//! hardware adapter with the most dedicated video memory wins.

use vstd::prelude::*;

verus! {

/// What the enumeration reports about one adapter.
#[derive(Clone, Copy, PartialEq, Eq, Structural, Debug)]
pub struct AdapterInfo {
    /// The basic software rasterizer, never selected.
    pub is_software: bool,
    /// Dedicated video memory in bytes.
    pub dedicated_video_memory: u64,
    /// Whether a device of the required minimum feature tier can be
    /// created on this adapter.
    pub supports_min_feature_level: bool,
}

/// An adapter worth selecting: hardware, and able to run a device of the
/// required tier.
pub open spec fn spec_eligible(a: AdapterInfo) -> bool {
    !a.is_software && a.supports_min_feature_level
}

/// Selection over a preference-ordered enumeration (highest-performance
/// adapters first): the first eligible adapter wins.  `None` exactly when
/// no adapter is eligible.
pub fn select_adapter_by_gpu_preference(adapters: &Vec<AdapterInfo>) -> (r: Option<usize>)
    ensures
        match r {
            Some(i) => {
                &&& i < adapters@.len()
                &&& spec_eligible(adapters@[i as int])
                &&& forall|j: int| 0 <= j < i ==> !spec_eligible(#[trigger] adapters@[j])
            },
            None => forall|j: int|
                0 <= j < adapters@.len() ==> !spec_eligible(#[trigger] adapters@[j]),
        },
{
    let mut i: usize = 0;
    while i < adapters.len()
        invariant
            i <= adapters@.len(),
            forall|j: int| 0 <= j < i ==> !spec_eligible(#[trigger] adapters@[j]),
        decreases adapters@.len() - i,
    {
        let a = adapters[i];
        if !a.is_software && a.supports_min_feature_level {
            return Some(i);
        }
        i += 1;
    }
    None
}

/// Selection over a plain enumeration: among the eligible adapters, the
/// one with the most dedicated video memory wins, the earliest of them on
/// a tie.  `None` exactly when no adapter is eligible.
pub fn select_adapter_by_memory(adapters: &Vec<AdapterInfo>) -> (r: Option<usize>)
    ensures
        match r {
            Some(i) => {
                &&& i < adapters@.len()
                &&& spec_eligible(adapters@[i as int])
                &&& forall|j: int|
                    0 <= j < adapters@.len() && spec_eligible(#[trigger] adapters@[j])
                        ==> adapters@[j].dedicated_video_memory <= adapters@[
                        i as int
                    ].dedicated_video_memory
                &&& forall|j: int|
                    0 <= j < i && spec_eligible(#[trigger] adapters@[j]) ==> adapters@[
                        j
                    ].dedicated_video_memory < adapters@[i as int].dedicated_video_memory
            },
            None => forall|j: int|
                0 <= j < adapters@.len() ==> !spec_eligible(#[trigger] adapters@[j]),
        },
{
    let mut best: Option<usize> = None;
    let mut i: usize = 0;
    while i < adapters.len()
        invariant
            i <= adapters@.len(),
            match best {
                Some(b) => {
                    &&& b < i
                    &&& spec_eligible(adapters@[b as int])
                    &&& forall|j: int|
                        0 <= j < i && spec_eligible(#[trigger] adapters@[j]) ==> adapters@[
                            j
                        ].dedicated_video_memory <= adapters@[b as int].dedicated_video_memory
                    &&& forall|j: int|
                        0 <= j < b && spec_eligible(#[trigger] adapters@[j]) ==> adapters@[
                            j
                        ].dedicated_video_memory < adapters@[b as int].dedicated_video_memory
                },
                None => forall|j: int| 0 <= j < i ==> !spec_eligible(#[trigger] adapters@[j]),
            },
        decreases adapters@.len() - i,
    {
        let a = adapters[i];
        if !a.is_software && a.supports_min_feature_level {
            let better: bool = match best {
                None => true,
                Some(b) => adapters[b].dedicated_video_memory < a.dedicated_video_memory,
            };
            if better {
                best = Some(i);
            }
        }
        i += 1;
    }
    best
}

/// The adapter search: the preference-ordered strategy where the factory
/// offers it, the most-memory strategy otherwise.
pub fn get_adapter(adapters: &Vec<AdapterInfo>, has_gpu_preference: bool) -> (r: Option<usize>)
    ensures
        r is Some ==> {
            let i = r->0;
            i < adapters@.len() && spec_eligible(adapters@[i as int])
        },
        r is None ==> forall|j: int|
            0 <= j < adapters@.len() ==> !spec_eligible(#[trigger] adapters@[j]),
        has_gpu_preference ==> r == spec_first_eligible(adapters@),
        !has_gpu_preference && r is Some ==> {
            let i = r->0;
            // the most dedicated video memory wins, earliest on a tie
            &&& forall|j: int|
                0 <= j < adapters@.len() && spec_eligible(#[trigger] adapters@[j]) ==> adapters@[
                    j
                ].dedicated_video_memory <= adapters@[i as int].dedicated_video_memory
            &&& forall|j: int|
                0 <= j < i && spec_eligible(#[trigger] adapters@[j]) ==> adapters@[
                    j
                ].dedicated_video_memory < adapters@[i as int].dedicated_video_memory
        },
{
    if has_gpu_preference {
        // reading the length pins the view's length within the usize range
        let _len: usize = adapters.len();
        let r = select_adapter_by_gpu_preference(adapters);
        proof {
            lemma_first_eligible_unique(adapters@, r);
        }
        r
    } else {
        select_adapter_by_memory(adapters)
    }
}

/// The least index of an eligible adapter, if any.
pub open spec fn spec_first_eligible(adapters: Seq<AdapterInfo>) -> Option<usize>
    decreases adapters.len(),
{
    if adapters.len() == 0 {
        None
    } else if spec_eligible(adapters[0]) {
        Some(0usize)
    } else {
        match spec_first_eligible(adapters.drop_first()) {
            Some(i) => Some((i + 1) as usize),
            None => None,
        }
    }
}

/// Any index that is eligible and preceded only by ineligible adapters is
/// the first eligible index.
proof fn lemma_first_eligible_unique(adapters: Seq<AdapterInfo>, r: Option<usize>)
    requires
        match r {
            Some(i) => i < adapters.len() && spec_eligible(adapters[i as int]) && forall|j: int|
                0 <= j < i ==> !spec_eligible(#[trigger] adapters[j]),
            None => forall|j: int| 0 <= j < adapters.len() ==> !spec_eligible(#[trigger] adapters[j]),
        },
        adapters.len() <= usize::MAX,
    ensures
        r == spec_first_eligible(adapters),
    decreases adapters.len(),
{
    if adapters.len() > 0 {
        if spec_eligible(adapters[0]) {
            assert(r == Some(0usize));
        } else {
            let rest = adapters.drop_first();
            let r1: Option<usize> = match r {
                Some(i) => Some((i - 1) as usize),
                None => None,
            };
            assert forall|j: int| 0 <= j < rest.len() && r1 is None implies !spec_eligible(
                #[trigger] rest[j],
            ) by {
                assert(rest[j] == adapters[j + 1]);
            }
            if r1 is Some {
                let i = r1->0;
                assert(rest[i as int] == adapters[i + 1]);
                assert forall|j: int| 0 <= j < i implies !spec_eligible(#[trigger] rest[j]) by {
                    assert(rest[j] == adapters[j + 1]);
                }
            }
            lemma_first_eligible_unique(rest, r1);
        }
    }
}

} // verus!
