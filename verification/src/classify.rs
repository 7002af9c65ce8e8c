//! Which projects are inactive.

use crate::models::{ProjectView, ScannedProject};
use crate::time::Timestamp;
use vstd::prelude::*;

verus! {

/// Whether `project` is inactive at `now`: strictly more than `days` days
/// have passed since its last activity. A project exactly `days` days old is
/// still active.
pub open spec fn is_inactive(project: ProjectView, now: Timestamp, days: u64) -> bool {
    now.spec_exceeds_days(project.last_activity, days)
}

/// The inactive ones among `projects`, in their order.
pub open spec fn inactive_at(projects: Seq<ProjectView>, now: Timestamp, days: u64) -> Seq<
    ProjectView,
> {
    projects.filter(|p: ProjectView| is_inactive(p, now, days))
}

/// A project is among the inactive ones exactly if it was scanned and more
/// than the threshold has passed since its last activity: every inactive
/// project is selected, and no active one.
pub proof fn law_inactive_exactly(
    projects: Seq<ProjectView>,
    now: Timestamp,
    days: u64,
    project: ProjectView,
)
    ensures
        inactive_at(projects, now, days).contains(project) <==> projects.contains(project)
            && now.instant() - project.last_activity.instant() > days * 86_400_000_000_000,
{
    let pred = |p: ProjectView| is_inactive(p, now, days);
    let chosen = projects.filter(pred);
    broadcast use vstd::seq_lib::group_filter_ensures;

    if chosen.contains(project) {
        let i = choose|i: int| 0 <= i < chosen.len() && chosen[i] == project;
        assert(pred(chosen[i]));
        projects.lemma_filter_contains_rev(pred, project);
    }
    if projects.contains(project) && is_inactive(project, now, days) {
        let i = choose|i: int| 0 <= i < projects.len() && projects[i] == project;
        assert(pred(projects[i]));
        assert(chosen.contains(projects[i]));
    }
}

/// Whether `project` is inactive at `now`: see [`is_inactive`].
pub fn is_inactive_at(project: &ScannedProject, now: Timestamp, days: u64) -> (r: bool)
    ensures
        r == is_inactive(project@, now, days),
{
    now.exceeds_days(&project.last_activity, days)
}

/// The inactive ones among `projects` at `now`, in their order: see
/// [`inactive_at`].
pub fn filter_inactive_at(projects: Vec<ScannedProject>, now: Timestamp, days: u64) -> (inactive:
    Vec<ScannedProject>)
    ensures
        inactive.deep_view() == inactive_at(projects.deep_view(), now, days),
{
    let ghost views = projects.deep_view();
    let ghost pred = |p: ProjectView| is_inactive(p, now, days);
    let mut inactive: Vec<ScannedProject> = Vec::new();
    let mut i: usize = 0;
    proof {
        reveal(Seq::filter);
        assert(views.take(0).filter(pred) =~= Seq::empty());
        assert(inactive.deep_view() =~= Seq::empty());
    }
    while i < projects.len()
        invariant
            i <= projects.len(),
            views == projects.deep_view(),
            pred == |p: ProjectView| is_inactive(p, now, days),
            inactive.deep_view() == views.take(i as int).filter(pred),
        decreases projects.len() - i,
    {
        proof {
            assert(views[i as int] == projects[i as int]@);
            assert(views.take(i + 1) =~= views.take(i as int).push(views[i as int]));
            views.take(i as int).lemma_filter_push(views[i as int], pred);
        }
        if is_inactive_at(&projects[i], now, days) {
            let ghost before = inactive.deep_view();
            inactive.push(projects[i].clone());
            assert(inactive.deep_view() =~= before.push(views[i as int]));
        }
        i += 1;
    }
    proof {
        assert(views.take(projects.len() as int) =~= views);
    }
    inactive
}

} // verus!
