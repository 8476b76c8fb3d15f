//! Scheduling a batch of downloads: per-resource destination and temporary
//! paths, the counting admission gate that caps how many downloads are in
//! flight, and batch-level guarantees.

use crate::conflict::conflict_decision;
use crate::conflict::Decision;
use crate::conflict::OverwriteMode;
use crate::paths::dir_name_split;
use crate::paths::split_dir_name;
use vstd::prelude::*;
use vstd::string::StringExecFns;

verus! {

/// The name of the temporary file a resource is streamed into: the final
/// name behind a marker, in the same directory, so the publishing rename is
/// same-filesystem and atomic.  Never equal to the resource's own name.
pub fn make_temp_file_name(name: &str) -> (r: String)
    ensures
        r@ == "~!"@ + name@,
        r@ != name@,
{
    let mut s = String::from_str("~!");
    s.append(name);
    proof {
        reveal_strlit("~!");
        assert(s@.len() == name@.len() + 2);
    }
    s
}

/// Compute where one resource is written and where its temporary file
/// lives: both under the destination root, the temporary file beside the
/// final one with the marker prefixed to its name.  The two paths are never
/// equal, so a download in flight never occupies the destination path.
pub fn plan_download_paths(dest_root: &str, rel_path: &str) -> (r: (String, String))
    ensures
        r.0@ == dest_root@ + seq!['/'] + rel_path@,
        exists|dir: Seq<char>, name: Seq<char>|
            #[trigger] dir_name_split(rel_path@, dir, name) && r.1@ == dest_root@ + seq!['/'] + dir
                + "~!"@ + name,
        r.1@ != r.0@,
{
    let mut real_path = String::from_str(dest_root);
    crate::strutil::push_char(&mut real_path, '/');
    real_path.append(rel_path);
    let (dir, name) = split_dir_name(rel_path);
    let temp_name = make_temp_file_name(name.as_str());
    let mut temp = String::from_str(dest_root);
    crate::strutil::push_char(&mut temp, '/');
    temp.append(dir.as_str());
    temp.append(temp_name.as_str());
    proof {
        reveal_strlit("~!");
        assert(real_path@ =~= dest_root@ + seq!['/'] + rel_path@);
        assert(temp@ =~= dest_root@ + seq!['/'] + dir@ + "~!"@ + name@);
        assert(dir_name_split(rel_path@, dir@, name@));
        assert(rel_path@ =~= dir@ + name@);
        assert(temp@.len() == real_path@.len() + 2);
    }
    (real_path, temp)
}

/// A counting admission gate: the bounded-concurrency primitive capping
/// how many downloads run at once.  A unit of work runs only between a
/// successful `try_acquire` and the matching `release`.
pub struct AdmissionGate {
    /// The configured concurrency limit.
    pub limit: usize,
    /// How many units of work hold a slot right now.
    pub in_flight: usize,
}

impl AdmissionGate {
    /// Well-formedness: the in-flight count is at most the limit.
    pub open spec fn wf(&self) -> bool {
        self.in_flight <= self.limit
    }

    /// A gate with no work in flight.
    pub fn new(limit: usize) -> (g: AdmissionGate)
        ensures
            g.wf(),
            g.limit == limit,
            g.in_flight == 0,
    {
        AdmissionGate { limit, in_flight: 0 }
    }

    /// Admit one unit of work if a slot is free: admission succeeds exactly
    /// when fewer units than the limit are in flight, and never raises the
    /// count beyond the limit.
    pub fn try_acquire(&mut self) -> (admitted: bool)
        requires
            old(self).wf(),
        ensures
            final(self).wf(),
            final(self).limit == old(self).limit,
            admitted <==> old(self).in_flight < old(self).limit,
            admitted ==> final(self).in_flight == old(self).in_flight + 1,
            !admitted ==> final(self).in_flight == old(self).in_flight,
    {
        if self.in_flight < self.limit {
            self.in_flight = self.in_flight + 1;
            true
        } else {
            false
        }
    }

    /// Hand a slot back when a unit of work finishes.
    pub fn release(&mut self)
        requires
            old(self).wf(),
            old(self).in_flight > 0,
        ensures
            final(self).wf(),
            final(self).limit == old(self).limit,
            final(self).in_flight == old(self).in_flight - 1,
    {
        self.in_flight = self.in_flight - 1;
    }
}

/// Concurrency bound: whatever sequence of admissions and releases a
/// well-formed gate has seen, the number of simultaneously in-flight
/// downloads never exceeds the configured limit.
pub proof fn lemma_gate_bounded(g: AdmissionGate)
    requires
        g.wf(),
    ensures
        g.in_flight <= g.limit,
{
}

/// The decisions a whole batch produces: one per resource, each from that
/// resource's local probe and remote time alone, under the batch mode.
pub open spec fn batch_decisions(
    locals: Seq<Option<int>>,
    remotes: Seq<int>,
    mode: OverwriteMode,
) -> Seq<(bool, Decision)> {
    Seq::new(locals.len(), |i: int| conflict_decision(locals[i], remotes[i], mode))
}

/// Idempotence of a full second run: against an unchanged remote tree,
/// every local copy is at least as fresh as its remote counterpart, so
/// every resource reports `AlreadyHave` and nothing is downloaded or
/// written, whatever the mode.
pub proof fn lemma_sync_idempotent(locals: Seq<Option<int>>, remotes: Seq<int>, mode: OverwriteMode)
    requires
        locals.len() == remotes.len(),
        forall|i: int|
            0 <= i < locals.len() ==> ((#[trigger] locals[i]) matches Some(t) && t >= remotes[i]),
    ensures
        forall|i: int|
            0 <= i < locals.len() ==> #[trigger] batch_decisions(locals, remotes, mode)[i] == (
            false,
            Decision::AlreadyHave,
            ),
{
}

/// Partial-failure isolation: each resource's decision depends on its own
/// probe and remote time alone.  Change one resource — make it fail, make
/// it stale — and every other resource's decision is exactly what it was.
pub proof fn lemma_decision_isolation(
    locals1: Seq<Option<int>>,
    remotes1: Seq<int>,
    locals2: Seq<Option<int>>,
    remotes2: Seq<int>,
    mode: OverwriteMode,
    changed: int,
)
    requires
        locals1.len() == remotes1.len(),
        locals2.len() == remotes2.len(),
        locals1.len() == locals2.len(),
        forall|i: int|
            0 <= i < locals1.len() && i != changed ==> #[trigger] locals1[i] == locals2[i]
                && remotes1[i] == remotes2[i],
    ensures
        forall|i: int|
            0 <= i < locals1.len() && i != changed ==> #[trigger] batch_decisions(
                locals1,
                remotes1,
                mode,
            )[i] == batch_decisions(locals2, remotes2, mode)[i],
{
}

} // verus!
