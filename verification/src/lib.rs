use vstd::prelude::*;

pub mod fsview;
pub mod lints;
pub mod podman;
pub mod task;

verus! {

/// The character sequences spelled by a sequence of strings.
pub open spec fn strs_view(v: Seq<String>) -> Seq<Seq<char>> {
    v.map_values(|s: String| s@)
}

} // verus!
