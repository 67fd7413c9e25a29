//! Locating the external processes that belong to a machine.
//!
//! A machine's processes are found by a pattern matched against command
//! lines.  The match is by substring: the patterns of two machines overlap
//! where one name begins with the other.

use vstd::prelude::*;
use crate::command::{texts, Action, ActionView, plan_of};
use crate::path::text_of;

verus! {

/// The pattern that the command line of a process of the machine `name`
/// contains.
pub open spec fn pattern_text(name: Seq<char>) -> Seq<char> {
    "qemu-system-x86_64 -name "@ + name
}

/// The pattern by which the processes of the machine `name` are found.
pub fn process_pattern(name: &str) -> (pattern: String)
    ensures
        pattern@ == pattern_text(name@),
{
    let mut pattern = String::from_str("qemu-system-x86_64 -name ");
    pattern.append(name);
    pattern
}

/// The lines of a text as `str::lines` yields them.
pub uninterp spec fn text_lines(text: Seq<char>) -> Seq<Seq<char>>;

/// Splits a text with `str::lines` and collects the lines as owned strings.
/// The contract only gives the outcome its name: the lines are a function of
/// the text alone.
#[verifier::external_body]
fn split_lines(text: &str) -> (lines: Vec<String>)
    ensures
        texts(lines@) == text_lines(text@),
{
    let mut lines: Vec<String> = Vec::new();
    for line in text.lines() {
        lines.push(line.to_string());
    }
    lines
}

/// The process identifiers that a listing holds, one on each line.  A listing
/// that could not be had holds none.
pub open spec fn pids_text(listing: Option<Seq<char>>) -> Seq<Seq<char>> {
    match listing {
        Some(t) => text_lines(t),
        None => Seq::empty(),
    }
}

/// The process identifiers in the answer to an `Enumerate` step; `None`
/// stands for a query that failed, which counts as no process.
pub fn find_pids(listing: Option<&str>) -> (pids: Vec<String>)
    ensures
        texts(pids@) == pids_text(text_of(listing)),
{
    match listing {
        Some(t) => split_lines(t),
        None => {
            let pids: Vec<String> = Vec::new();
            assert(texts(pids@) =~= Seq::<Seq<char>>::empty());
            pids
        },
    }
}

/// Whether the identifiers found show a live process.
pub fn any_running(pids: &Vec<String>) -> (running: bool)
    ensures
        running == (pids@.len() > 0),
{
    pids.len() > 0
}

/// Whether the answer to an `Enumerate` step shows a live process.  A query
/// that failed counts as "not running".
pub fn is_running(listing: Option<&str>) -> (running: bool)
    ensures
        running == (pids_text(text_of(listing)).len() > 0),
{
    let pids = find_pids(listing);
    assert(texts(pids@).len() == pids@.len());
    any_running(&pids)
}

/// One unconditional kill for each identifier, in order.
pub open spec fn kill_plan(pids: Seq<Seq<char>>) -> Seq<ActionView> {
    pids.map_values(|p: Seq<char>| ActionView::ForceKill(p))
}

/// The steps that kill each of `pids` unconditionally, in the order given.
pub fn force_kill_plan(pids: &Vec<String>) -> (plan: Vec<Action>)
    ensures
        plan_of(plan@) == kill_plan(texts(pids@)),
{
    let mut plan: Vec<Action> = Vec::new();
    let mut i: usize = 0;
    while i < pids.len()
        invariant
            i <= pids@.len(),
            plan@.len() == i,
            forall|j: int| 0 <= j < i ==> (#[trigger] plan@[j])@ == ActionView::ForceKill(pids@[j]@),
        decreases pids@.len() - i,
    {
        plan.push(Action::ForceKill(pids[i].clone()));
        i += 1;
    }
    assert(plan_of(plan@) =~= kill_plan(texts(pids@)));
    plan
}

} // verus!
