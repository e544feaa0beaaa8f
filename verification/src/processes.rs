//! Finding an app among the running processes (through `sysinfo`).

use vstd::prelude::*;
use crate::app_names::{app_to_process_names, process_names_of};
use crate::sorted_names::{sorted_list_of, views};
use crate::text::{contains_exec, lowercase, seq_contains, str_chars, str_lowercase};

verus! {

/// The running processes as `(name, pid)` pairs, from a fresh `sysinfo`
/// scan (`System::refresh_processes_specifics` over all processes, then
/// `Process::name` and `Process::pid`). The list reflects the machine at the
/// moment of the call, in no particular order, so nothing is stated of it.
#[verifier::external_body]
fn process_list() -> (r: Vec<(String, u32)>) {
    let mut sys = sysinfo::System::new();
    sys.refresh_processes_specifics(sysinfo::ProcessesToUpdate::All, false, sysinfo::ProcessRefreshKind::new());
    sys.processes().values().map(|p| (p.name().to_string_lossy().to_string(), p.pid().as_u32())).collect()
}

/// A process name (lower-cased) contains one of the candidate fragments.
pub open spec fn name_matches(name: Seq<char>, candidates: Seq<Seq<char>>) -> bool {
    exists|k: int| 0 <= k < candidates.len() && seq_contains(str_lowercase(name), candidates[k])
}

/// The indices below `n` of the names that match, in increasing order.
pub open spec fn matching_indices(names: Seq<Seq<char>>, candidates: Seq<Seq<char>>, n: int) -> Seq<int>
    decreases n,
{
    if n <= 0 {
        Seq::empty()
    } else if name_matches(names[n - 1], candidates) {
        matching_indices(names, candidates, n - 1).push(n - 1)
    } else {
        matching_indices(names, candidates, n - 1)
    }
}

/// The names of a process list.
pub open spec fn process_names(procs: Seq<(String, u32)>) -> Seq<Seq<char>> {
    procs.map_values(|p: (String, u32)| p.0@)
}

/// The indices (in list order) of the processes whose lower-cased name
/// contains one of `candidates`.
pub fn running_matches(procs: &Vec<(String, u32)>, candidates: &Vec<String>) -> (r: Vec<usize>)
    ensures
        r@.map_values(|i: usize| i as int) == matching_indices(
            process_names(procs@),
            views(candidates@),
            procs@.len() as int,
        ),
        forall|j: int| 0 <= j < r@.len() ==> r@[j] < procs@.len(),
{
    let ghost names = process_names(procs@);
    let ghost cands = views(candidates@);
    let mut out: Vec<usize> = Vec::new();
    let mut i: usize = 0;
    while i < procs.len()
        invariant
            i <= procs@.len(),
            names == process_names(procs@),
            cands == views(candidates@),
            out@.map_values(|x: usize| x as int) == matching_indices(names, cands, i as int),
            forall|j: int| 0 <= j < out@.len() ==> out@[j] < i,
        decreases procs@.len() - i,
    {
        let lower = lowercase(procs[i].0.as_str());
        let name = str_chars(lower.as_str());
        let mut hit = false;
        let mut k: usize = 0;
        while k < candidates.len()
            invariant
                k <= candidates@.len(),
                cands == views(candidates@),
                name@ == str_lowercase(names[i as int]),
                names == process_names(procs@),
                i < procs@.len(),
                hit == exists|m: int| 0 <= m < k && seq_contains(name@, cands[m]),
            decreases candidates@.len() - k,
        {
            let c = str_chars(candidates[k].as_str());
            proof {
                assert(cands[k as int] == c@);
            }
            if contains_exec(&name, &c) {
                hit = true;
            }
            k += 1;
        }
        proof {
            assert(names[i as int] == procs@[i as int].0@);
            assert(hit == name_matches(names[i as int], cands));
        }
        let ghost before = out@;
        if hit {
            out.push(i);
            proof {
                assert(out@.map_values(|x: usize| x as int) =~= before.map_values(|x: usize| x as int).push(i as int));
            }
        }
        i += 1;
    }
    out
}

/// A process name (lower-cased) contains one of the process-name fragments
/// for `target`.
pub open spec fn looks_like(target: Seq<char>, name: Seq<char>) -> bool {
    exists|c: Seq<char>| #[trigger] process_names_of(target).contains(c) && seq_contains(str_lowercase(name), c)
}

/// The processes of `procs` whose lower-cased name contains one of the
/// process-name fragments for `target`, as `(name, pid)`, in list order.
pub open spec fn matching_procs(procs: Seq<(String, u32)>, target: Seq<char>) -> Seq<(Seq<char>, u32)> {
    matching_indices(process_names(procs), sorted_list_of(process_names_of(target)), procs.len() as int).map_values(
        |i: int| (procs[i].0@, procs[i].1),
    )
}

/// The `(name, pid)` views of a process list.
pub open spec fn proc_views(procs: Seq<(String, u32)>) -> Seq<(Seq<char>, u32)> {
    procs.map_values(|p: (String, u32)| (p.0@, p.1))
}

/// Picks, from a process list, the processes that look like `target` (an app
/// name, lower-cased), in list order.
pub fn running_apps_among(procs: &Vec<(String, u32)>, target: &str) -> (r: Vec<(String, u32)>)
    ensures
        proc_views(r@) == matching_procs(procs@, target@),
        forall|j: int| 0 <= j < r@.len() ==> looks_like(target@, #[trigger] r@[j].0@),
{
    let candidates = app_to_process_names(target);
    let hits = running_matches(procs, &candidates);
    let ghost names = process_names(procs@);
    let ghost cands = views(candidates@);
    let ghost idx = hits@.map_values(|i: usize| i as int);
    let mut out: Vec<(String, u32)> = Vec::new();
    let mut j: usize = 0;
    while j < hits.len()
        invariant
            j <= hits@.len(),
            out@.len() == j,
            names == process_names(procs@),
            cands == views(candidates@),
            cands == sorted_list_of(process_names_of(target@)),
            cands.to_set() == process_names_of(target@),
            idx == hits@.map_values(|i: usize| i as int),
            idx == matching_indices(names, cands, procs@.len() as int),
            forall|m: int| 0 <= m < hits@.len() ==> hits@[m] < procs@.len(),
            proc_views(out@) == idx.take(j as int).map_values(|i: int| (procs@[i].0@, procs@[i].1)),
            forall|m: int| 0 <= m < out@.len() ==> looks_like(target@, #[trigger] out@[m].0@),
        decreases hits@.len() - j,
    {
        let k = hits[j];
        proof {
            lemma_matching_indices_match(names, cands, procs@.len() as int, j as int);
            assert(idx[j as int] == k as int);
            let c = choose|c: int| 0 <= c < cands.len() && seq_contains(str_lowercase(names[k as int]), cands[c]);
            assert(cands.to_set().contains(cands[c]));
            assert(names[k as int] == procs@[k as int].0@);
        }
        let name = procs[k].0.clone();
        let ghost before = out@;
        out.push((name, procs[k].1));
        proof {
            assert(out@[j as int].0@ == procs@[k as int].0@);
            assert forall|m: int| 0 <= m < out@.len() implies looks_like(target@, #[trigger] out@[m].0@) by {
                if m < before.len() {
                    assert(out@[m] == before[m]);
                }
            }
            assert(idx.take(j + 1) =~= idx.take(j as int).push(k as int));
            assert(proc_views(out@) =~= proc_views(before).push((procs@[k as int].0@, procs@[k as int].1)));
            assert(idx.take(j + 1).map_values(|i: int| (procs@[i].0@, procs@[i].1)) =~= idx.take(j as int).map_values(
                |i: int| (procs@[i].0@, procs@[i].1),
            ).push((procs@[k as int].0@, procs@[k as int].1)));
        }
        j += 1;
    }
    proof {
        assert(idx.take(j as int) =~= idx);
    }
    out
}

/// The running processes that look like `target` (an app name, lower-cased),
/// as `(name, pid)` pairs in the order the scan listed them: exactly those
/// of the scan that `running_apps_among` picks. Which processes are running
/// is read from the machine at the moment of the call, so what is stated is
/// what holds of every scan: the result is what `running_apps_among` keeps of
/// some process list, and each process returned has a lower-cased name
/// containing one of the process-name fragments for `target`.
pub fn find_running_app(target: &str) -> (r: Vec<(String, u32)>)
    ensures
        exists|procs: Seq<(String, u32)>| proc_views(r@) == #[trigger] matching_procs(procs, target@),
        forall|j: int| 0 <= j < r@.len() ==> looks_like(target@, #[trigger] r@[j].0@),
{
    let procs = process_list();
    let r = running_apps_among(&procs, target);
    proof {
        assert(proc_views(r@) == matching_procs(procs@, target@));
    }
    r
}

/// Every index listed by `matching_indices` is that of a matching name.
proof fn lemma_matching_indices_match(names: Seq<Seq<char>>, cands: Seq<Seq<char>>, n: int, j: int)
    requires
        0 <= j < matching_indices(names, cands, n).len(),
    ensures
        name_matches(names[matching_indices(names, cands, n)[j]], cands),
    decreases n,
{
    if n > 0 {
        let prev = matching_indices(names, cands, n - 1);
        if name_matches(names[n - 1], cands) {
            if j < prev.len() {
                lemma_matching_indices_match(names, cands, n - 1, j);
            }
        } else {
            lemma_matching_indices_match(names, cands, n - 1, j);
        }
    }
}

/// Every matching name below `n` is listed by `matching_indices`.
proof fn lemma_matching_indices_complete(names: Seq<Seq<char>>, cands: Seq<Seq<char>>, n: int, i: int)
    requires
        0 <= i < n,
        name_matches(names[i], cands),
    ensures
        matching_indices(names, cands, n).contains(i),
    decreases n,
{
    if i < n - 1 {
        lemma_matching_indices_complete(names, cands, n - 1, i);
        let prev = matching_indices(names, cands, n - 1);
        let k = choose|k: int| 0 <= k < prev.len() && prev[k] == i;
        if name_matches(names[n - 1], cands) {
            assert(matching_indices(names, cands, n)[k] == i);
        }
    } else {
        let all = matching_indices(names, cands, n);
        assert(all[all.len() - 1] == i);
    }
}

/// Every index listed by `matching_indices` is below the bound.
proof fn lemma_matching_indices_bounded(names: Seq<Seq<char>>, cands: Seq<Seq<char>>, n: int, j: int)
    requires
        0 <= j < matching_indices(names, cands, n).len(),
    ensures
        0 <= matching_indices(names, cands, n)[j] < n,
    decreases n,
{
    if n > 0 {
        let prev = matching_indices(names, cands, n - 1);
        if j < prev.len() {
            lemma_matching_indices_bounded(names, cands, n - 1, j);
        }
    }
}

/// Picking the processes that look like an app keeps every one of them and
/// nothing else: a process of the list whose lower-cased name contains one of
/// the app's process-name fragments is in the result, and everything in the
/// result is such a process of the list.
pub proof fn law_running_apps_complete(procs: Seq<(String, u32)>, target: Seq<char>)
    ensures
        forall|i: int|
            0 <= i < procs.len() && name_matches(procs[i].0@, sorted_list_of(process_names_of(target)))
                ==> matching_procs(procs, target).contains((#[trigger] procs[i].0@, procs[i].1)),
        forall|e: (Seq<char>, u32)|
            #[trigger] matching_procs(procs, target).contains(e) ==> exists|i: int|
                0 <= i < procs.len() && e == (procs[i].0@, procs[i].1) && name_matches(
                    procs[i].0@,
                    sorted_list_of(process_names_of(target)),
                ),
{
    let names = process_names(procs);
    let cands = sorted_list_of(process_names_of(target));
    let n = procs.len() as int;
    let idx = matching_indices(names, cands, n);
    let m = matching_procs(procs, target);
    assert forall|i: int|
        0 <= i < procs.len() && name_matches(procs[i].0@, cands) implies m.contains((#[trigger] procs[i].0@, procs[i].1)) by {
        assert(names[i] == procs[i].0@);
        lemma_matching_indices_complete(names, cands, n, i);
        let k = choose|k: int| 0 <= k < idx.len() && idx[k] == i;
        assert(m[k] == (procs[i].0@, procs[i].1));
    }
    assert forall|e: (Seq<char>, u32)| #[trigger] m.contains(e) implies exists|i: int|
        0 <= i < procs.len() && e == (procs[i].0@, procs[i].1) && name_matches(procs[i].0@, cands) by {
        let k = choose|k: int| 0 <= k < m.len() && m[k] == e;
        lemma_matching_indices_bounded(names, cands, n, k);
        lemma_matching_indices_match(names, cands, n, k);
        let i = idx[k];
        assert(names[i] == procs[i].0@);
        assert(e == (procs[i].0@, procs[i].1));
    }
}

} // verus!
