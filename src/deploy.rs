//! Carrying out a deployment plan, one runtime call at a time. Volume and
//! network creation and image pulls may fail without stopping the
//! deployment (a volume or network may already exist; an image may already
//! be present); a service whose container cannot be created or started ends
//! it, and the containers already started stay.
use vstd::prelude::*;
use crate::compose::DeployPlan;

verus! {

/// What the caller is to do next; indices point into the plan.
#[derive(Debug, Clone, Copy, PartialEq, Eq, Structural)]
pub enum DeployAction {
    CreateVolume(usize),
    CreateNetwork(usize),
    /// Pull the image of this service.
    PullImage(usize),
    /// Create and start the container of this service.
    StartService(usize),
    /// Every service is running; `Deployment::created` lists them.
    Finished,
    /// This service could not be started; the deployment stops here.
    Failed(usize),
}

/// What the last action did.
#[derive(Debug)]
pub enum DeployEvent {
    /// A volume, network or pull step ended, well or not.
    StepDone(Result<(), String>),
    /// The service's container was started (its id), or why not.
    ServiceStarted(Result<String, String>),
}

/// A deployment in progress.
pub struct Deployment {
    pub plan: DeployPlan,
    /// Index of the step whose result is awaited, in the order volumes,
    /// networks, then for each service its pull and its start.
    pub at: usize,
    /// Ids of the containers started so far, in order.
    pub created: Vec<String>,
    /// The deployment finished or failed.
    pub over: bool,
    /// The error of the service that failed, if one did.
    pub error: Option<String>,
}

/// How many steps a plan takes.
pub open spec fn step_count(p: DeployPlan) -> int {
    (p.volumes@.len() + p.networks@.len() + 2 * p.services@.len()) as int
}

/// Step `k` of plan `p` is the start of a service's container.
pub open spec fn is_start_step(p: DeployPlan, k: int) -> bool {
    k >= p.volumes@.len() + p.networks@.len() && (k - p.volumes@.len() - p.networks@.len()) % 2
        == 1
}

/// The action for step `k` of plan `p` (past the last step: `Finished`).
pub open spec fn action_at(p: DeployPlan, k: int) -> DeployAction {
    let v = p.volumes@.len() as int;
    let n = p.networks@.len() as int;
    if k >= step_count(p) {
        DeployAction::Finished
    } else if k < v {
        DeployAction::CreateVolume(k as usize)
    } else if k < v + n {
        DeployAction::CreateNetwork((k - v) as usize)
    } else if (k - v - n) % 2 == 0 {
        DeployAction::PullImage(((k - v - n) / 2) as usize)
    } else {
        DeployAction::StartService(((k - v - n) / 2) as usize)
    }
}

impl Deployment {
    pub open spec fn wf(&self) -> bool {
        &&& self.at <= step_count(self.plan)
        &&& (!self.over ==> self.at < step_count(self.plan))
        &&& step_count(self.plan) < usize::MAX
    }

    /// The deployment of `plan` and its first action.
    pub fn new(plan: DeployPlan) -> (r: (Deployment, DeployAction))
        requires
            step_count(plan) < usize::MAX,
        ensures
            r.0.wf(),
            r.0.plan == plan,
            r.0.at == 0,
            r.0.created@.len() == 0,
            r.0.error.is_none(),
            r.1 == action_at(plan, 0),
            r.0.over == (step_count(plan) == 0),
    {
        let total = plan.volumes.len() + plan.networks.len() + 2 * plan.services.len();
        let d = Deployment { plan, at: 0, created: Vec::new(), over: total == 0, error: None };
        let a = d.action(0);
        (d, a)
    }

    fn action(&self, k: usize) -> (a: DeployAction)
        requires
            step_count(self.plan) < usize::MAX,
        ensures
            a == action_at(self.plan, k as int),
    {
        let v = self.plan.volumes.len();
        let n = self.plan.networks.len();
        let total = v + n + 2 * self.plan.services.len();
        if k >= total {
            DeployAction::Finished
        } else if k < v {
            DeployAction::CreateVolume(k)
        } else if k < v + n {
            DeployAction::CreateNetwork(k - v)
        } else if (k - v - n) % 2 == 0 {
            DeployAction::PullImage((k - v - n) / 2)
        } else {
            DeployAction::StartService((k - v - n) / 2)
        }
    }

    /// Feeds the result of the current step and returns the next action.
    pub fn step(&mut self, ev: DeployEvent) -> (a: DeployAction)
        requires
            old(self).wf(),
            !old(self).over,
        ensures
            final(self).wf(),
            final(self).plan == old(self).plan,
            is_start_step(old(self).plan, old(self).at as int) ==> match ev {
                DeployEvent::ServiceStarted(Err(e)) => {
                    &&& a == DeployAction::Failed(
                        ((old(self).at - old(self).plan.volumes@.len() - old(self).plan.networks@.len())
                            / 2) as usize,
                    )
                    &&& final(self).over
                    &&& final(self).error == Some(e)
                    &&& final(self).created@ == old(self).created@
                },
                DeployEvent::ServiceStarted(Ok(id)) => {
                    &&& final(self).created@ == old(self).created@.push(id)
                    &&& final(self).at == old(self).at + 1
                    &&& a == action_at(old(self).plan, old(self).at + 1)
                    &&& final(self).over == (a == DeployAction::Finished)
                },
                DeployEvent::StepDone(_) => {
                    &&& final(self).created@ == old(self).created@
                    &&& final(self).at == old(self).at + 1
                    &&& a == action_at(old(self).plan, old(self).at + 1)
                    &&& final(self).over == (a == DeployAction::Finished)
                },
            },
            !is_start_step(old(self).plan, old(self).at as int) ==> {
                &&& final(self).created@ == old(self).created@
                &&& final(self).at == old(self).at + 1
                &&& a == action_at(old(self).plan, old(self).at + 1)
                &&& final(self).over == (a == DeployAction::Finished)
            },
    {
        let v = self.plan.volumes.len();
        let n = self.plan.networks.len();
        let is_start = self.at >= v + n && (self.at - v - n) % 2 == 1;
        if is_start {
            match ev {
                DeployEvent::ServiceStarted(Err(e)) => {
                    self.over = true;
                    self.error = Some(e);
                    return DeployAction::Failed((self.at - v - n) / 2);
                },
                DeployEvent::ServiceStarted(Ok(id)) => {
                    self.created.push(id);
                },
                DeployEvent::StepDone(_) => {},
            }
        }
        self.at = self.at + 1;
        let a = self.action(self.at);
        self.over = a == DeployAction::Finished;
        a
    }
}

} // verus!
