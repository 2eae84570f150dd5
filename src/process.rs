//! The process resource detector: the command-line arguments and the
//! OS-assigned id of the running process, as two attributes.

use crate::attributes::{with_ints, with_string_arrays, AttributeModel};
use crate::resource::{
    arrays_model, command_args_key, command_args_key_text, ints_model, lossy_text, lossy_utf8,
    new_resource, pid_key, pid_key_text, resource_attributes,
};
use core::time::Duration;
use opentelemetry_sdk::Resource;
use vstd::prelude::*;

verus! {

/// Detects process information: the full command-line arguments
/// (`process.command_args`) and the OS-assigned process id (`process.pid`).
pub struct ProcessResourceDetector;

/// The attributes of a process whose arguments read as `args` and whose id is
/// `pid`.
pub open spec fn process_attributes(args: Seq<Seq<char>>, pid: u32) -> Map<
    Seq<char>,
    AttributeModel,
> {
    map![
        command_args_key_text() => AttributeModel::Strings(args),
        pid_key_text() => AttributeModel::Int(pid as i64),
    ]
}

/// Each raw argument read as text, invalid sequences replaced.
pub open spec fn lossy_args(args: Seq<Vec<u8>>) -> Seq<Seq<char>> {
    args.map_values(|a: Vec<u8>| lossy_utf8(a@))
}

/// The two keys differ, so a process's attributes are exactly two.
proof fn lemma_two_attributes(args: Seq<Seq<char>>, pid: u32)
    ensures
        command_args_key_text() != pid_key_text(),
        process_attributes(args, pid).dom().len() == 2,
{
    reveal_strlit("process.command_args");
    reveal_strlit("process.pid");
    assert(command_args_key_text().len() != pid_key_text().len());
    assert(process_attributes(args, pid).dom() =~= Set::empty().insert(
        command_args_key_text(),
    ).insert(pid_key_text()));
}

/// Detecting twice in one process, where the arguments and the id read the
/// same both times, yields the same process id and the same argument array
/// both times.
pub proof fn lemma_detect_repeatable(args: Seq<Vec<u8>>, pid: u32, first: Resource, second: Resource)
    requires
        resource_attributes(first) == process_attributes(lossy_args(args), pid),
        resource_attributes(second) == process_attributes(lossy_args(args), pid),
    ensures
        resource_attributes(first)[pid_key_text()] == resource_attributes(second)[pid_key_text()],
        resource_attributes(first)[command_args_key_text()] == resource_attributes(
            second,
        )[command_args_key_text()],
        resource_attributes(first) == resource_attributes(second),
{
}

/// Converts each raw argument to text, replacing invalid sequences.
pub fn lossy_arguments(args: &Vec<Vec<u8>>) -> (r: Vec<String>)
    ensures
        r@.map_values(|s: String| s@) == lossy_args(args@),
{
    let mut out: Vec<String> = Vec::new();
    let mut i: usize = 0;
    while i < args.len()
        invariant
            i <= args@.len(),
            out@.len() == i,
            forall|j: int| 0 <= j < i ==> out@[j]@ == lossy_utf8(args@[j]@),
        decreases args@.len() - i,
    {
        let text = lossy_text(args[i].as_slice());
        out.push(text);
        i = i + 1;
    }
    assert(out@.map_values(|s: String| s@) =~= lossy_args(args@));
    out
}

impl ProcessResourceDetector {
    /// The resource of a process whose arguments are already text.
    pub fn resource_from_text(&self, args: Vec<String>, pid: u32) -> (r: Resource)
        ensures
            resource_attributes(r) == process_attributes(args@.map_values(|s: String| s@), pid),
            resource_attributes(r).dom().len() == 2,
    {
        let ghost texts = args@.map_values(|s: String| s@);
        let mut arrays: Vec<(&'static str, Vec<String>)> = Vec::new();
        arrays.push((command_args_key(), args));
        let mut ints: Vec<(&'static str, i64)> = Vec::new();
        ints.push((pid_key(), pid as i64));
        let r = new_resource(arrays, ints);
        proof {
            let a = arrays_model(arrays@);
            let n = ints_model(ints@);
            assert(a.len() == 1 && n.len() == 1);
            assert(a.drop_last() =~= Seq::empty());
            assert(n.drop_last() =~= Seq::empty());
            assert(a.last().0 == command_args_key_text());
            assert(a.last().1 =~= texts);
            assert(n.last() == (pid_key_text(), pid as i64));
            let empty = Map::<Seq<char>, AttributeModel>::empty();
            assert(with_string_arrays(empty, a.drop_last()) == empty);
            let base = with_string_arrays(empty, a);
            assert(with_ints(base, n.drop_last()) == base);
            assert(base =~= map![command_args_key_text() => AttributeModel::Strings(texts)]);
            assert(with_ints(base, n) =~= process_attributes(texts, pid));
            lemma_two_attributes(texts, pid);
        }
        r
    }

    /// Detects the process resource from the process's raw command-line
    /// arguments and its id. The timeout is accepted for uniformity with
    /// other detectors: detection never waits, and the result does not
    /// depend on it.
    pub fn detect(&self, args: Vec<Vec<u8>>, pid: u32, timeout: Duration) -> (r: Resource)
        ensures
            resource_attributes(r) == process_attributes(lossy_args(args@), pid),
            resource_attributes(r).dom().len() == 2,
            resource_attributes(r)[command_args_key_text()] == AttributeModel::Strings(
                lossy_args(args@),
            ),
            resource_attributes(r)[pid_key_text()] == AttributeModel::Int(pid as i64),
    {
        let texts = lossy_arguments(&args);
        let r = self.resource_from_text(texts, pid);
        proof {
            lemma_two_attributes(lossy_args(args@), pid);
        }
        r
    }
}

} // verus!
