use vstd::prelude::*;
use crate::model::{HttpJob, JobModel, jobs_view};

verus! {

/// Whether the `cron` crate accepts this text as a schedule expression.
pub uninterp spec fn cron_ok(expr: Seq<char>) -> bool;

/// Relies on `<cron::Schedule as FromStr>::from_str`, the parser the scheduler compiles
/// each expression with; it succeeds or fails on the text alone.
#[verifier::external_body]
fn valid_cron(expr: &str) -> (r: bool)
    ensures
        r == cron_ok(expr@),
{
    <cron::Schedule as std::str::FromStr>::from_str(expr).is_ok()
}

/// What becomes of one enabled job when the scheduler starts.
#[derive(Clone, Copy, Debug, PartialEq, Eq, Structural)]
pub enum PlanEntry {
    /// The job at this index is scheduled on its cron expression.
    Schedule(usize),
    /// The job at this index has an invalid cron expression and is not scheduled.
    InvalidCron(usize),
}

pub open spec fn entry_for(i: int, job: JobModel) -> PlanEntry {
    if cron_ok(job.cron) {
        PlanEntry::Schedule(i as usize)
    } else {
        PlanEntry::InvalidCron(i as usize)
    }
}

/// One entry per enabled job, in registry order; disabled jobs get none.
pub open spec fn plan_of(js: Seq<JobModel>) -> Seq<PlanEntry>
    decreases js.len(),
{
    if js.len() == 0 {
        seq![]
    } else {
        let rest = plan_of(js.drop_last());
        if js.last().enable {
            rest.push(entry_for(js.len() - 1, js.last()))
        } else {
            rest
        }
    }
}

pub open spec fn entry_index(e: PlanEntry) -> usize {
    match e {
        PlanEntry::Schedule(i) => i,
        PlanEntry::InvalidCron(i) => i,
    }
}

/// Decides, for each job of the registry, whether the scheduler takes it up.
pub fn plan_schedule(jobs: &Vec<HttpJob>) -> (r: Vec<PlanEntry>)
    ensures
        r@ == plan_of(jobs_view(jobs@)),
        forall|k: int|
            0 <= k < r@.len() ==> entry_index(#[trigger] r@[k]) < jobs@.len() && jobs@[entry_index(
                r@[k],
            ) as int].enable,
{
    let ghost js = jobs_view(jobs@);
    let mut plan: Vec<PlanEntry> = Vec::new();
    let mut i: usize = 0;
    while i < jobs.len()
        invariant
            i <= jobs@.len(),
            js == jobs_view(jobs@),
            plan@ == plan_of(js.subrange(0, i as int)),
        decreases jobs@.len() - i,
    {
        let job = &jobs[i];
        assert(js.subrange(0, i + 1).drop_last() =~= js.subrange(0, i as int));
        assert(js[i as int] == job@);
        if job.enable {
            if valid_cron(job.cron.as_str()) {
                plan.push(PlanEntry::Schedule(i));
            } else {
                plan.push(PlanEntry::InvalidCron(i));
            }
        }
        i = i + 1;
    }
    assert(js.subrange(0, i as int) =~= js);
    proof {
        lemma_plan_enabled_only(js);
    }
    plan
}

/// Every entry of a plan names an enabled job of the registry.
pub proof fn lemma_plan_enabled_only(js: Seq<JobModel>)
    requires
        js.len() <= usize::MAX,
    ensures
        forall|k: int|
            0 <= k < plan_of(js).len() ==> entry_index(#[trigger] plan_of(js)[k]) < js.len()
                && js[entry_index(plan_of(js)[k]) as int].enable,
    decreases js.len(),
{
    if js.len() > 0 {
        let init = js.drop_last();
        lemma_plan_enabled_only(init);
        assert forall|k: int| 0 <= k < plan_of(js).len() implies entry_index(
            #[trigger] plan_of(js)[k],
        ) < js.len() && js[entry_index(plan_of(js)[k]) as int].enable by {
            if k < plan_of(init).len() {
                assert(plan_of(js)[k] == plan_of(init)[k]);
                assert(js[entry_index(plan_of(init)[k]) as int] == init[entry_index(
                    plan_of(init)[k],
                ) as int]);
            } else {
                assert(plan_of(js)[k] == entry_for(js.len() - 1, js.last()));
            }
        }
    }
}

/// A disabled job is never scheduled, whatever its cron expression.
pub proof fn lemma_disabled_never_scheduled(js: Seq<JobModel>, i: int)
    requires
        js.len() <= usize::MAX,
        0 <= i < js.len(),
        !js[i].enable,
    ensures
        forall|k: int| 0 <= k < plan_of(js).len() ==> entry_index(#[trigger] plan_of(js)[k]) != i,
{
    lemma_plan_enabled_only(js);
}

} // verus!
