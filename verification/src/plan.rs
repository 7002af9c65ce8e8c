//! What a run decided to do.

use vstd::prelude::*;
use vstd::std_specs::cmp::PartialEqSpecImpl;

verus! {

/// One decision of an archive run.
#[derive(Debug)]
pub enum ActionPlan {
    /// The project at `path` is inactive and goes into the archive.
    Archive { project_name: String, path: String },
    /// The run found nothing to archive.
    Nothing,
}

/// The mathematical value of an [`ActionPlan`].
pub enum PlanView {
    Archive { project_name: Seq<char>, path: Seq<char> },
    Nothing,
}

impl View for ActionPlan {
    type V = PlanView;

    open spec fn view(&self) -> PlanView {
        match *self {
            ActionPlan::Archive { project_name, path } => PlanView::Archive {
                project_name: project_name@,
                path: path@,
            },
            ActionPlan::Nothing => PlanView::Nothing,
        }
    }
}

impl DeepView for ActionPlan {
    type V = PlanView;

    open spec fn deep_view(&self) -> PlanView {
        self@
    }
}

impl PartialEq for ActionPlan {
    fn eq(&self, other: &ActionPlan) -> (r: bool) {
        match (self, other) {
            (
                ActionPlan::Archive { project_name: name, path },
                ActionPlan::Archive { project_name: other_name, path: other_path },
            ) => *name == *other_name && *path == *other_path,
            (ActionPlan::Nothing, ActionPlan::Nothing) => true,
            _ => false,
        }
    }
}

impl PartialEqSpecImpl for ActionPlan {
    open spec fn obeys_eq_spec() -> bool {
        true
    }

    open spec fn eq_spec(&self, other: &ActionPlan) -> bool {
        self@ == other@
    }
}

} // verus!
