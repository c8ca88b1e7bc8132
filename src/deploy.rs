//! The command line handed to the orchestration binary.
use vstd::prelude::*;

use crate::monitor::strings_view;

verus! {

/// How many ticks a run observes when nothing else is asked for.
pub const DEFAULT_TICKS: u64 = 10;

/// The arguments of the orchestration binary: its compose subcommand, the
/// manifest path, then the forwarded arguments unchanged.
pub open spec fn compose_args(manifest_path: Seq<char>, forwarded: Seq<Seq<char>>) -> Seq<Seq<char>> {
    seq!["compose"@, "-f"@, manifest_path] + forwarded
}

pub fn compose_command_args(manifest_path: &str, forwarded: &Vec<String>) -> (r: Vec<String>)
    ensures
        strings_view(r@) == compose_args(manifest_path@, strings_view(forwarded@)),
{
    let mut r: Vec<String> = Vec::new();
    r.push("compose".to_string());
    r.push("-f".to_string());
    r.push(manifest_path.to_string());
    let mut i: usize = 0;
    while i < forwarded.len()
        invariant
            i <= forwarded@.len(),
            r@.len() == i + 3,
            strings_view(r@) == compose_args(manifest_path@, strings_view(forwarded@.subrange(0, i as int))),
        decreases forwarded@.len() - i,
    {
        let ghost before = r@;
        r.push(forwarded[i].clone());
        proof {
            assert forall|j: int| 0 <= j < i + 4 implies #[trigger] strings_view(r@)[j] == compose_args(
                manifest_path@,
                strings_view(forwarded@.subrange(0, i + 1)),
            )[j] by {
                if j < i + 3 {
                    assert(r@[j] == before[j]);
                    assert(strings_view(before)[j] == compose_args(
                        manifest_path@,
                        strings_view(forwarded@.subrange(0, i as int)),
                    )[j]);
                }
            }
            assert(strings_view(r@) =~= compose_args(
                manifest_path@,
                strings_view(forwarded@.subrange(0, i + 1)),
            ));
        }
        i = i + 1;
    }
    proof {
        assert(forwarded@.subrange(0, i as int) =~= forwarded@);
    }
    r
}

} // verus!
