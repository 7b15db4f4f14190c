//! The registry of jobs: one record for every job that was accepted, found
//! by the id of the job.

use crate::text::{chars_of, text_of};
use crate::types::{JobState, JobStateView, JobStatus, JobUpdateEvent};
use vstd::prelude::*;

verus! {

/// No two records of a list bear the same id.
pub open spec fn ids_distinct(jobs: Seq<JobState>) -> bool {
    forall|i: int, j: int| 0 <= i < j < jobs.len() ==> jobs[i].id@ != jobs[j].id@
}

/// The records of a list by the id of their job.
pub open spec fn records(jobs: Seq<JobState>) -> Map<Seq<char>, JobStateView>
    decreases jobs.len(),
{
    if jobs.len() == 0 {
        Map::empty()
    } else {
        records(jobs.drop_last()).insert(jobs.last().id@, jobs.last()@)
    }
}

/// No record of the list bears the id.
pub open spec fn id_unused(jobs: Seq<JobState>, id: Seq<char>) -> bool {
    forall|i: int| 0 <= i < jobs.len() ==> (#[trigger] jobs[i]).id@ != id
}

proof fn lemma_unused_id_is_absent(jobs: Seq<JobState>, id: Seq<char>)
    requires
        id_unused(jobs, id),
    ensures
        !records(jobs).contains_key(id),
    decreases jobs.len(),
{
    if jobs.len() > 0 {
        assert(jobs[jobs.len() - 1].id@ != id);
        assert forall|i: int| 0 <= i < jobs.drop_last().len() implies (
        #[trigger] jobs.drop_last()[i]).id@ != id by {
            assert(jobs.drop_last()[i] == jobs[i]);
        }
        lemma_unused_id_is_absent(jobs.drop_last(), id);
    }
}

proof fn lemma_records_keyed_by_id(jobs: Seq<JobState>, id: Seq<char>)
    requires
        records(jobs).contains_key(id),
    ensures
        records(jobs)[id].id == id,
    decreases jobs.len(),
{
    if jobs.len() > 0 && jobs.last().id@ != id {
        lemma_records_keyed_by_id(jobs.drop_last(), id);
    }
}

proof fn lemma_record_found(jobs: Seq<JobState>, i: int)
    requires
        ids_distinct(jobs),
        0 <= i < jobs.len(),
    ensures
        records(jobs).contains_key(jobs[i].id@),
        records(jobs)[jobs[i].id@] == jobs[i]@,
    decreases jobs.len(),
{
    if i < jobs.len() - 1 {
        assert(jobs.drop_last()[i] == jobs[i]);
        assert(ids_distinct(jobs.drop_last())) by {
            assert forall|a: int, b: int| 0 <= a < b < jobs.drop_last().len() implies jobs.drop_last()[a].id@
                != jobs.drop_last()[b].id@ by {
                assert(jobs.drop_last()[a] == jobs[a]);
                assert(jobs.drop_last()[b] == jobs[b]);
            }
        }
        lemma_record_found(jobs.drop_last(), i);
        assert(jobs[i].id@ != jobs[jobs.len() - 1].id@);
    }
}

proof fn lemma_record_replaced(jobs: Seq<JobState>, i: int, state: JobState)
    requires
        ids_distinct(jobs),
        0 <= i < jobs.len(),
        state.id@ == jobs[i].id@,
    ensures
        ids_distinct(jobs.update(i, state)),
        records(jobs.update(i, state)) == records(jobs).insert(state.id@, state@),
    decreases jobs.len(),
{
    let changed = jobs.update(i, state);
    assert(ids_distinct(changed)) by {
        assert forall|a: int, b: int| 0 <= a < b < changed.len() implies changed[a].id@
            != changed[b].id@ by {
            assert(changed[a].id@ == jobs[a].id@);
            assert(changed[b].id@ == jobs[b].id@);
        }
    }
    if i == jobs.len() - 1 {
        assert(changed.drop_last() =~= jobs.drop_last());
        assert(records(changed) =~= records(jobs).insert(state.id@, state@));
    } else {
        assert(ids_distinct(jobs.drop_last())) by {
            assert forall|a: int, b: int| 0 <= a < b < jobs.drop_last().len() implies jobs.drop_last()[a].id@
                != jobs.drop_last()[b].id@ by {
                assert(jobs.drop_last()[a] == jobs[a]);
                assert(jobs.drop_last()[b] == jobs[b]);
            }
        }
        assert(jobs.drop_last()[i] == jobs[i]);
        lemma_record_replaced(jobs.drop_last(), i, state);
        assert(changed.drop_last() =~= jobs.drop_last().update(i, state));
        assert(changed.last() == jobs.last());
        assert(jobs[i].id@ != jobs[jobs.len() - 1].id@);
        assert(records(changed) =~= records(jobs).insert(state.id@, state@));
    }
}

/// The registry of jobs. It holds one record for each id, and no record
/// ever leaves it.
pub struct JobRegistry {
    jobs: Vec<JobState>,
}

impl View for JobRegistry {
    type V = Map<Seq<char>, JobStateView>;

    closed spec fn view(&self) -> Map<Seq<char>, JobStateView> {
        records(self.jobs@)
    }
}

fn position(jobs: &Vec<JobState>, id: &str) -> (r: Option<usize>)
    ensures
        match r {
            Some(i) => i < jobs@.len() && jobs@[i as int].id@ == id@,
            None => id_unused(jobs@, id@),
        },
{
    let wanted = id.to_owned();
    let mut i: usize = 0;
    while i < jobs.len()
        invariant
            0 <= i <= jobs@.len(),
            wanted@ == id@,
            forall|k: int| 0 <= k < i ==> (#[trigger] jobs@[k]).id@ != id@,
        decreases jobs@.len() - i,
    {
        if jobs[i].id == wanted {
            return Some(i);
        }
        i += 1;
    }
    None
}

impl JobRegistry {
    #[verifier::type_invariant]
    spec fn distinct(self) -> bool {
        ids_distinct(self.jobs@)
    }

    /// A registry without jobs.
    pub fn new() -> (r: JobRegistry)
        ensures
            r@ == Map::<Seq<char>, JobStateView>::empty(),
    {
        JobRegistry { jobs: Vec::new() }
    }

    /// Enters the record of a job. A record that the registry held under the
    /// same id is replaced.
    pub fn insert(&mut self, state: JobState)
        ensures
            final(self)@ == old(self)@.insert(state.id@, state@),
            forall|id: Seq<char>| old(self)@.contains_key(id) ==> final(self)@.contains_key(id),
    {
        proof {
            use_type_invariant(&*self);
        }
        let mut jobs: Vec<JobState> = Vec::new();
        std::mem::swap(&mut jobs, &mut self.jobs);
        let ghost before = jobs@;
        match position(&jobs, state.id.as_str()) {
            Some(i) => {
                proof {
                    lemma_record_replaced(before, i as int, state);
                }
                jobs.set(i, state);
            },
            None => {
                jobs.push(state);
                proof {
                    assert(jobs@.drop_last() =~= before);
                    assert(ids_distinct(jobs@));
                }
            },
        }
        self.jobs = jobs;
    }

    /// The record of a job, where the registry holds one under the id.
    pub fn get(&self, id: &str) -> (r: Option<&JobState>)
        ensures
            match r {
                Some(state) => self@.contains_key(id@) && self@[id@] == state@ && state@.id == id@,
                None => !self@.contains_key(id@),
            },
    {
        proof {
            use_type_invariant(self);
        }
        match position(&self.jobs, id) {
            Some(i) => {
                proof {
                    lemma_record_found(self.jobs@, i as int);
                }
                Some(&self.jobs[i])
            },
            None => {
                proof {
                    lemma_unused_id_is_absent(self.jobs@, id@);
                }
                None
            },
        }
    }

    /// Tells whether the registry holds a record under the id.
    pub fn contains(&self, id: &str) -> (r: bool)
        ensures
            r == self@.contains_key(id@),
    {
        self.get(id).is_some()
    }

    /// Writes the status of a job into its record, whatever the status was
    /// before. Returns whether there is such a job; where there is none, the
    /// registry stays as it is.
    pub fn set_status(&mut self, id: &str, status: JobStatus) -> (r: bool)
        ensures
            r == old(self)@.contains_key(id@),
            r ==> final(self)@ == old(self)@.insert(
                id@,
                JobStateView { status, ..old(self)@[id@] },
            ),
            !r ==> final(self)@ == old(self)@,
            forall|id: Seq<char>| old(self)@.contains_key(id) ==> final(self)@.contains_key(id),
    {
        let changed = match self.get(id) {
            Some(state) => {
                let mut next = state.duplicate();
                next.status = status;
                next
            },
            None => {
                return false;
            },
        };
        self.insert(changed);
        true
    }

    /// Writes the id of the agent session of a job into its record. Returns
    /// whether there is such a job; where there is none, the registry stays
    /// as it is.
    pub fn set_session(&mut self, id: &str, session_id: &str) -> (r: bool)
        ensures
            r == old(self)@.contains_key(id@),
            r ==> final(self)@ == old(self)@.insert(
                id@,
                JobStateView { jules_session_id: Some(session_id@), ..old(self)@[id@] },
            ),
            !r ==> final(self)@ == old(self)@,
            forall|id: Seq<char>| old(self)@.contains_key(id) ==> final(self)@.contains_key(id),
    {
        let changed = match self.get(id) {
            Some(state) => {
                let mut next = state.duplicate();
                next.jules_session_id = Some(session_id.to_owned());
                next
            },
            None => {
                return false;
            },
        };
        self.insert(changed);
        true
    }

    /// Writes the repository of a job into its record, as `owner/name`, once
    /// the repository is known. Returns whether there is such a job; where
    /// there is none, the registry stays as it is.
    pub fn set_repo(&mut self, id: &str, github_repo: &str) -> (r: bool)
        ensures
            r == old(self)@.contains_key(id@),
            r ==> final(self)@ == old(self)@.insert(
                id@,
                JobStateView { github_repo: github_repo@, ..old(self)@[id@] },
            ),
            !r ==> final(self)@ == old(self)@,
            forall|id: Seq<char>| old(self)@.contains_key(id) ==> final(self)@.contains_key(id),
    {
        let changed = match self.get(id) {
            Some(state) => {
                let mut next = state.duplicate();
                next.github_repo = github_repo.to_owned();
                next
            },
            None => {
                return false;
            },
        };
        self.insert(changed);
        true
    }

    /// An id under which the registry holds no job. It has one character
    /// for each job of the registry, and differs from the id of each: where
    /// the id of job `k` has a character at place `k`, in that character;
    /// where it has none, in length.
    pub fn free_id(&self) -> (r: String)
        ensures
            !self@.contains_key(r@),
    {
        let mut out: Vec<char> = Vec::new();
        let mut i: usize = 0;
        while i < self.jobs.len()
            invariant
                0 <= i <= self.jobs@.len(),
                out@.len() == i,
                forall|k: int|
                    0 <= k < i && (#[trigger] self.jobs@[k]).id@.len() > k ==> out@[k]
                        != self.jobs@[k].id@[k],
            decreases self.jobs@.len() - i,
        {
            let id = chars_of(self.jobs[i].id.as_str());
            let c = if i < id.len() && id[i] == 'a' {
                'b'
            } else {
                'a'
            };
            out.push(c);
            i += 1;
        }
        proof {
            assert forall|k: int| 0 <= k < self.jobs@.len() implies (#[trigger] self.jobs@[k]).id@
                != out@ by {
                if self.jobs@[k].id@.len() > k {
                    assert(out@[k] != self.jobs@[k].id@[k]);
                }
            }
            lemma_unused_id_is_absent(self.jobs@, out@);
        }
        text_of(&out)
    }

    /// Writes what an event tells into the record of its job: the status,
    /// and the time of the poll, in seconds, at which it was learned.
    /// Returns whether there is such a job; where there is none, the
    /// registry stays as it is.
    pub fn record(&mut self, event: &JobUpdateEvent, now: u64) -> (r: bool)
        ensures
            r == old(self)@.contains_key(event@.id),
            r ==> final(self)@ == old(self)@.insert(
                event@.id,
                JobStateView {
                    status: event@.status,
                    last_poll: Some(now),
                    ..old(self)@[event@.id]
                },
            ),
            !r ==> final(self)@ == old(self)@,
            forall|id: Seq<char>| old(self)@.contains_key(id) ==> final(self)@.contains_key(id),
    {
        let changed = match self.get(event.id.as_str()) {
            Some(state) => {
                let mut next = state.duplicate();
                next.status = event.status;
                next.last_poll = Some(now);
                next
            },
            None => {
                return false;
            },
        };
        self.insert(changed);
        true
    }
}

impl JobRegistry {
    /// Every record is filed under the id of its job.
    pub proof fn lemma_filed_by_id(&self, id: Seq<char>)
        requires
            self@.contains_key(id),
        ensures
            self@[id].id == id,
    {
        lemma_records_keyed_by_id(self.jobs@, id);
    }
}

} // verus!
