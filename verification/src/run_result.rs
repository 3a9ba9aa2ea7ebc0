//! What a verification run accumulates, and the final report on it.
//!
//! A run files each failing path under one of two sets, missing or corrupt.
//! The sets do not depend on the order in which the files were visited.
use vstd::prelude::*;
use vstd::string::StringExecFns;
use crate::verdict::is_failure;
use crate::verdict::Verdict;

verus! {

/// The two sets of a run, as mathematical sets of path texts.
pub struct Tally {
    pub missing: Set<Seq<char>>,
    pub corrupt: Set<Seq<char>>,
}

/// The tally of a run that has seen nothing.
pub open spec fn empty_tally() -> Tally {
    Tally { missing: Set::empty(), corrupt: Set::empty() }
}

/// The tally after one more verdict.
///
/// A missing path joins the missing set and a corrupt path the corrupt set;
/// every other verdict leaves the tally as it is. One file has one verdict
/// in a run, so a path already filed in one set is never moved or copied to
/// the other.
pub open spec fn filed(tally: Tally, path: Seq<char>, verdict: Verdict) -> Tally {
    match verdict {
        Verdict::Missing => if tally.corrupt.contains(path) {
            tally
        } else {
            Tally { missing: tally.missing.insert(path), corrupt: tally.corrupt }
        },
        Verdict::Corrupt => if tally.missing.contains(path) {
            tally
        } else {
            Tally { missing: tally.missing, corrupt: tally.corrupt.insert(path) }
        },
        _ => tally,
    }
}

/// A verdict that does not count against the backup leaves the tally as it
/// is: a matched, skipped or excluded file never contributes to a failure.
pub proof fn only_failures_are_filed(tally: Tally, path: Seq<char>, verdict: Verdict)
    requires
        !is_failure(verdict),
    ensures
        filed(tally, path, verdict) == tally,
{
}

/// The tally after a sequence of verdicts, filed one after the other.
pub open spec fn tally_of(events: Seq<(Seq<char>, Verdict)>) -> Tally
    decreases events.len(),
{
    if events.len() == 0 {
        empty_tally()
    } else {
        filed(tally_of(events.drop_last()), events.last().0, events.last().1)
    }
}

/// Whether no path comes with two different verdicts.
pub open spec fn one_verdict_per_path(events: Seq<(Seq<char>, Verdict)>) -> bool {
    forall|i: int, j: int|
        0 <= i < events.len() && 0 <= j < events.len() && events[i].0 == events[j].0
            ==> events[i].1 == events[j].1
}

/// The events of a list of paths with their verdicts, as texts.
pub open spec fn events_of(list: Seq<(String, Verdict)>) -> Seq<(Seq<char>, Verdict)> {
    list.map_values(|event: (String, Verdict)| (event.0@, event.1))
}

/// Where each path has one verdict, the tally holds exactly the paths that
/// came with the verdict missing, and exactly those that came with corrupt.
pub proof fn tally_holds_the_failed_paths(events: Seq<(Seq<char>, Verdict)>)
    requires
        one_verdict_per_path(events),
    ensures
        forall|path: Seq<char>|
            tally_of(events).missing.contains(path) <==> events.contains((path, Verdict::Missing)),
        forall|path: Seq<char>|
            tally_of(events).corrupt.contains(path) <==> events.contains((path, Verdict::Corrupt)),
    decreases events.len(),
{
    if events.len() > 0 {
        let earlier = events.drop_last();
        let last = events.last();
        let before = tally_of(earlier);
        let after = tally_of(events);
        tally_holds_the_failed_paths(earlier);
        assert(events =~= earlier.push(last));
        assert(after == filed(before, last.0, last.1));
        assert forall|event: (Seq<char>, Verdict)|
            events.contains(event) <==> earlier.contains(event) || event == last by {
            vstd::seq_lib::lemma_seq_contains_after_push(earlier, last, event);
        }
        if last.1 == Verdict::Missing && before.corrupt.contains(last.0) {
            assert(earlier.contains((last.0, Verdict::Corrupt)));
            let j = choose|j: int|
                0 <= j < earlier.len() && earlier[j] == (last.0, Verdict::Corrupt);
            assert(events[j] == earlier[j]);
            assert(events[events.len() - 1] == last);
            assert(false);
        }
        if last.1 == Verdict::Corrupt && before.missing.contains(last.0) {
            assert(earlier.contains((last.0, Verdict::Missing)));
            let j = choose|j: int|
                0 <= j < earlier.len() && earlier[j] == (last.0, Verdict::Missing);
            assert(events[j] == earlier[j]);
            assert(events[events.len() - 1] == last);
            assert(false);
        }
        assert forall|path: Seq<char>|
            after.missing.contains(path) <==> events.contains((path, Verdict::Missing)) by {
            assert(before.missing.contains(path) <==> earlier.contains((path, Verdict::Missing)));
            assert(events.contains((path, Verdict::Missing)) <==> earlier.contains(
                (path, Verdict::Missing),
            ) || (path, Verdict::Missing) == last);
        }
        assert forall|path: Seq<char>|
            after.corrupt.contains(path) <==> events.contains((path, Verdict::Corrupt)) by {
            assert(before.corrupt.contains(path) <==> earlier.contains((path, Verdict::Corrupt)));
            assert(events.contains((path, Verdict::Corrupt)) <==> earlier.contains(
                (path, Verdict::Corrupt),
            ) || (path, Verdict::Corrupt) == last);
        }
    } else {
        assert forall|path: Seq<char>| !events.contains((path, Verdict::Missing)) by {}
        assert forall|path: Seq<char>| !events.contains((path, Verdict::Corrupt)) by {}
    }
}

/// The tally does not depend on the order of the visits: two runs over the
/// same files with the same verdicts, in whatever order, end with the same
/// missing set and the same corrupt set.
pub proof fn tally_is_order_independent(
    first: Seq<(Seq<char>, Verdict)>,
    second: Seq<(Seq<char>, Verdict)>,
)
    requires
        one_verdict_per_path(first),
        first.to_multiset() == second.to_multiset(),
    ensures
        tally_of(first) == tally_of(second),
{
    assert forall|event: (Seq<char>, Verdict)| first.contains(event) <==> second.contains(
        event,
    ) by {
        vstd::seq_lib::to_multiset_contains(first, event);
        vstd::seq_lib::to_multiset_contains(second, event);
    }
    assert(one_verdict_per_path(second)) by {
        assert forall|i: int, j: int|
            0 <= i < second.len() && 0 <= j < second.len() && second[i].0 == second[j].0
                implies second[i].1 == second[j].1 by {
            assert(second.contains(second[i]));
            assert(second.contains(second[j]));
            let a = choose|a: int| 0 <= a < first.len() && first[a] == second[i];
            let b = choose|b: int| 0 <= b < first.len() && first[b] == second[j];
            assert(first[a].0 == first[b].0);
        }
    }
    tally_holds_the_failed_paths(first);
    tally_holds_the_failed_paths(second);
    assert(tally_of(first).missing =~= tally_of(second).missing);
    assert(tally_of(first).corrupt =~= tally_of(second).corrupt);
}

/// Two partial tallies of one run, folded into one: each set is the union of
/// its parts. A path that the first part has filed keeps its set.
pub open spec fn merged(first: Tally, second: Tally) -> Tally {
    Tally {
        missing: first.missing + (second.missing - first.corrupt),
        corrupt: first.corrupt + (second.corrupt - first.missing),
    }
}

/// Whether two partial tallies agree: no path is missing in one and corrupt
/// in the other, as holds of the parts of one run.
pub open spec fn agree(first: Tally, second: Tally) -> bool {
    first.missing.disjoint(second.corrupt) && first.corrupt.disjoint(second.missing)
}

/// Parts that agree merge into the plain unions of their sets, whichever
/// part comes first.
pub proof fn merge_is_commutative(first: Tally, second: Tally)
    requires
        agree(first, second),
    ensures
        merged(first, second).missing == first.missing + second.missing,
        merged(first, second).corrupt == first.corrupt + second.corrupt,
        merged(first, second) == merged(second, first),
{
    assert(merged(first, second).missing =~= first.missing + second.missing);
    assert(merged(first, second).corrupt =~= first.corrupt + second.corrupt);
    assert(merged(second, first).missing =~= first.missing + second.missing);
    assert(merged(second, first).corrupt =~= first.corrupt + second.corrupt);
}

/// Merging parts that agree pairwise is associative: the workers of one run
/// may be folded in any grouping.
pub proof fn merge_is_associative(first: Tally, second: Tally, third: Tally)
    requires
        agree(first, second),
        agree(first, third),
        agree(second, third),
    ensures
        merged(merged(first, second), third) == merged(first, merged(second, third)),
{
    let left = merged(merged(first, second), third);
    let right = merged(first, merged(second, third));
    assert(left.missing =~= right.missing);
    assert(left.corrupt =~= right.corrupt);
}

/// The paths that failed verification in one run.
pub struct RunResult {
    missing: Vec<String>,
    corrupt: Vec<String>,
}

/// The single, aggregate failure of a run: every missing and every corrupt
/// path, each listed once.
#[derive(Debug)]
pub struct VerificationFailure {
    pub missing: Vec<String>,
    pub corrupt: Vec<String>,
}

fn holds(list: &Vec<String>, path: &String) -> (found: bool)
    ensures
        found == list.deep_view().contains(path@),
{
    let mut i: usize = 0;
    while i < list.len()
        invariant
            i <= list.len(),
            list.deep_view().len() == list.len(),
            forall|k: int| 0 <= k < i ==> list.deep_view()[k] != path@,
        decreases list.len() - i,
    {
        assert(list.deep_view()[i as int] == list@[i as int]@);
        if list[i] == *path {
            return true;
        }
        i += 1;
    }
    false
}

fn copy_of(list: &Vec<String>) -> (copy: Vec<String>)
    ensures
        copy.deep_view() == list.deep_view(),
{
    let mut copy: Vec<String> = Vec::new();
    let mut i: usize = 0;
    while i < list.len()
        invariant
            i <= list.len(),
            copy.deep_view() == list.deep_view().take(i as int),
        decreases list.len() - i,
    {
        let ghost before = copy.deep_view();
        copy.push(list[i].clone());
        assert(copy.deep_view() =~= before.push(list@[i as int]@));
        assert(list.deep_view().take(i + 1) =~= list.deep_view().take(i as int).push(
            list@[i as int]@,
        ));
        i += 1;
    }
    assert(list.deep_view().take(i as int) =~= list.deep_view());
    copy
}

impl View for RunResult {
    type V = Tally;

    closed spec fn view(&self) -> Tally {
        Tally {
            missing: self.missing.deep_view().to_set(),
            corrupt: self.corrupt.deep_view().to_set(),
        }
    }
}

impl RunResult {
    /// Validity: each set lists a path once, and no path is in both.
    pub closed spec fn wf(&self) -> bool {
        &&& self.missing.deep_view().no_duplicates()
        &&& self.corrupt.deep_view().no_duplicates()
        &&& self@.missing.disjoint(self@.corrupt)
    }

    /// No path is both missing and corrupt.
    pub proof fn sets_are_disjoint(&self)
        requires
            self.wf(),
        ensures
            self@.missing.disjoint(self@.corrupt),
            self@.missing.finite(),
            self@.corrupt.finite(),
    {
        broadcast use vstd::seq_lib::seq_to_set_is_finite;

    }

    /// The result of a run that has seen nothing.
    pub fn new() -> (result: RunResult)
        ensures
            result.wf(),
            result@ == empty_tally(),
    {
        let result = RunResult { missing: Vec::new(), corrupt: Vec::new() };
        assert(result@.missing =~= Set::empty());
        assert(result@.corrupt =~= Set::empty());
        result
    }

    /// Files one verdict.
    pub fn record(&mut self, path: String, verdict: Verdict)
        requires
            old(self).wf(),
        ensures
            final(self).wf(),
            final(self)@ == filed(old(self)@, path@, verdict),
    {
        broadcast use vstd::seq_lib::lemma_seq_contains_after_push;

        match verdict {
            Verdict::Missing => {
                if !holds(&self.corrupt, &path) {
                    if holds(&self.missing, &path) {
                        assert(self@.missing.insert(path@) =~= self@.missing);
                    } else {
                        let ghost before = self.missing.deep_view();
                        let ghost text = path@;
                        self.missing.push(path);
                        assert(self.missing.deep_view() =~= before.push(text));
                        assert(self@.missing =~= before.to_set().insert(text));
                    }
                }
            },
            Verdict::Corrupt => {
                if !holds(&self.missing, &path) {
                    if holds(&self.corrupt, &path) {
                        assert(self@.corrupt.insert(path@) =~= self@.corrupt);
                    } else {
                        let ghost before = self.corrupt.deep_view();
                        let ghost text = path@;
                        self.corrupt.push(path);
                        assert(self.corrupt.deep_view() =~= before.push(text));
                        assert(self@.corrupt =~= before.to_set().insert(text));
                    }
                }
            },
            _ => {},
        }
    }

    /// The result of filing the given verdicts in order.
    pub fn collect(events: &Vec<(String, Verdict)>) -> (result: RunResult)
        ensures
            result.wf(),
            result@ == tally_of(events_of(events@)),
    {
        let mut result = RunResult::new();
        let mut i: usize = 0;
        while i < events.len()
            invariant
                i <= events.len(),
                result.wf(),
                result@ == tally_of(events_of(events@).take(i as int)),
            decreases events.len() - i,
        {
            proof {
                let next = events_of(events@).take(i + 1);
                assert(next.drop_last() =~= events_of(events@).take(i as int));
                assert(next.last() == (events@[i as int].0@, events@[i as int].1));
            }
            result.record(events[i].0.clone(), events[i].1);
            i += 1;
        }
        assert(events_of(events@).take(i as int) =~= events_of(events@));
        result
    }

    /// Folds the result of another part of the same run into this one.
    pub fn merge(&mut self, other: &RunResult)
        requires
            old(self).wf(),
            other.wf(),
        ensures
            final(self).wf(),
            final(self)@ == merged(old(self)@, other@),
    {
        let ghost start = self@;
        let mut i: usize = 0;
        while i < other.missing.len()
            invariant
                i <= other.missing.len(),
                self.wf(),
                self@.corrupt == start.corrupt,
                self@.missing == start.missing + (other.missing.deep_view().take(
                    i as int,
                ).to_set() - start.corrupt),
            decreases other.missing.len() - i,
        {
            proof {
                let done = other.missing.deep_view().take(i as int);
                let next = other.missing.deep_view().take(i + 1);
                let text = other.missing@[i as int]@;
                assert(other.missing.deep_view()[i as int] == text);
                assert(next =~= done.push(text));
                assert forall|p: Seq<char>| next.contains(p) <==> done.contains(p) || p == text by {
                    vstd::seq_lib::lemma_seq_contains_after_push(done, text, p);
                }
                assert(filed(self@, text, Verdict::Missing).missing =~= start.missing + (
                next.to_set() - start.corrupt));
            }
            self.record(other.missing[i].clone(), Verdict::Missing);
            i += 1;
        }
        assert(other.missing.deep_view().take(i as int) =~= other.missing.deep_view());
        let ghost middle = self@;
        let mut j: usize = 0;
        while j < other.corrupt.len()
            invariant
                j <= other.corrupt.len(),
                self.wf(),
                other.wf(),
                middle.missing == start.missing + (other@.missing - start.corrupt),
                self@.missing == middle.missing,
                self@.corrupt == start.corrupt + (other.corrupt.deep_view().take(
                    j as int,
                ).to_set() - start.missing),
            decreases other.corrupt.len() - j,
        {
            proof {
                let done = other.corrupt.deep_view().take(j as int);
                let next = other.corrupt.deep_view().take(j + 1);
                let text = other.corrupt@[j as int]@;
                assert(other.corrupt.deep_view()[j as int] == text);
                assert(other@.corrupt.contains(text));
                assert(!other@.missing.contains(text));
                assert(next =~= done.push(text));
                assert forall|p: Seq<char>| next.contains(p) <==> done.contains(p) || p == text by {
                    vstd::seq_lib::lemma_seq_contains_after_push(done, text, p);
                }
                assert(filed(self@, text, Verdict::Corrupt).corrupt =~= start.corrupt + (
                next.to_set() - start.missing));
            }
            self.record(other.corrupt[j].clone(), Verdict::Corrupt);
            j += 1;
        }
        assert(other.corrupt.deep_view().take(j as int) =~= other.corrupt.deep_view());
    }

    /// Whether nothing failed.
    pub fn is_clean(&self) -> (clean: bool)
        ensures
            clean == (self@ == empty_tally()),
    {
        let clean = self.missing.len() == 0 && self.corrupt.len() == 0;
        proof {
            if self.missing.len() > 0 {
                assert(self.missing.deep_view()[0] == self.missing@[0]@);
                assert(self@.missing.contains(self.missing.deep_view()[0]));
            } else {
                assert(self@.missing =~= Set::empty());
            }
            if self.corrupt.len() > 0 {
                assert(self.corrupt.deep_view()[0] == self.corrupt@[0]@);
                assert(self@.corrupt.contains(self.corrupt.deep_view()[0]));
            } else {
                assert(self@.corrupt =~= Set::empty());
            }
        }
        clean
    }

    /// Whether the path is filed as missing.
    pub fn is_missing(&self, path: &String) -> (found: bool)
        ensures
            found == self@.missing.contains(path@),
    {
        holds(&self.missing, path)
    }

    /// Whether the path is filed as corrupt.
    pub fn is_corrupt(&self, path: &String) -> (found: bool)
        ensures
            found == self@.corrupt.contains(path@),
    {
        holds(&self.corrupt, path)
    }

    /// Turns the accumulated sets into the run's outcome.
    ///
    /// Succeeds exactly when both sets are empty. The failure otherwise
    /// lists every missing and every corrupt path, each once.
    pub fn report(&self) -> (outcome: Result<(), VerificationFailure>)
        requires
            self.wf(),
        ensures
            outcome is Ok <==> self@ == empty_tally(),
            outcome is Err ==> outcome->Err_0.lists(self@),
    {
        if self.is_clean() {
            Ok(())
        } else {
            Err(
                VerificationFailure {
                    missing: copy_of(&self.missing),
                    corrupt: copy_of(&self.corrupt),
                },
            )
        }
    }
}

impl VerificationFailure {
    /// Whether the failure enumerates exactly the paths of the tally, each
    /// path once.
    pub open spec fn lists(&self, tally: Tally) -> bool {
        &&& self.missing.deep_view().to_set() == tally.missing
        &&& self.corrupt.deep_view().to_set() == tally.corrupt
        &&& self.missing.deep_view().no_duplicates()
        &&& self.corrupt.deep_view().no_duplicates()
    }

    /// The one line that names the failure.
    pub fn message(&self) -> (text: String)
        ensures
            text@ == "Verification failed"@,
    {
        String::from_str("Verification failed")
    }
}

} // verus!
