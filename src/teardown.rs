//! Removing a compose project, one runtime call at a time. Each container
//! is stopped (a container already stopped is fine) and then removed; a
//! removal that fails ends the teardown. With volumes asked for, the
//! project's volumes and then its networks are removed, each at best effort.
use vstd::prelude::*;
use crate::compose::project_resources;
use crate::container::strs;
use crate::text::has_prefix;

verus! {

/// Where a teardown stands.
#[derive(Debug, Clone, Copy, PartialEq, Eq, Structural)]
pub enum TeardownPhase {
    Stopping,
    Removing,
    ListingVolumes,
    RemovingVolumes,
    ListingNetworks,
    RemovingNetworks,
    Done,
    Failed,
}

/// What the caller is to do next.
#[derive(Debug, Clone)]
pub enum TeardownAction {
    /// Stop this container; its result does not matter.
    Stop(String),
    /// Remove this container (with its anonymous volumes when asked).
    Remove(String),
    /// List every volume's name.
    ListVolumes,
    /// Remove these volumes, ignoring failures.
    RemoveVolumes(Vec<String>),
    /// List every network's name.
    ListNetworks,
    /// Remove these networks, ignoring failures.
    RemoveNetworks(Vec<String>),
    Finished,
    Fail(String),
}

/// What the last action did.
#[derive(Debug)]
pub enum TeardownEvent {
    /// A stop, or a batch of best-effort removals, ended.
    Done,
    /// A container removal, or why it failed.
    Removed(Result<(), String>),
    /// The names listed, or why the listing failed.
    Listed(Result<Vec<String>, String>),
}

/// A teardown in progress.
pub struct Teardown {
    pub project: String,
    pub ids: Vec<String>,
    pub remove_volumes: bool,
    pub phase: TeardownPhase,
    /// The container being stopped or removed.
    pub at: usize,
}

/// The names among `names` that belong to `project` (they start with `project_`).
pub open spec fn owned(names: Seq<Seq<char>>, project: Seq<char>) -> Seq<Seq<char>> {
    names.filter(|n: Seq<char>| has_prefix(n, project + "_"@))
}

impl Teardown {
    pub open spec fn wf(&self) -> bool {
        &&& (self.phase == TeardownPhase::Stopping || self.phase == TeardownPhase::Removing)
            ==> self.at < self.ids@.len()
        &&& self.at <= self.ids@.len()
    }

    /// Starts removing the containers `ids` of `project`.
    pub fn new(project: String, ids: Vec<String>, remove_volumes: bool) -> (r: (Teardown, TeardownAction))
        ensures
            r.0.wf(),
            r.0.project == project,
            r.0.ids == ids,
            r.0.remove_volumes == remove_volumes,
            r.0.at == 0,
            ids@.len() > 0 ==> r.0.phase == TeardownPhase::Stopping && (r.1 matches TeardownAction::Stop(i)
                && i@ == ids@[0]@),
            ids@.len() == 0 && remove_volumes ==> r.0.phase == TeardownPhase::ListingVolumes
                && r.1 is ListVolumes,
            ids@.len() == 0 && !remove_volumes ==> r.0.phase == TeardownPhase::Done && r.1 is Finished,
    {
        let (phase, action) = if ids.len() > 0 {
            (TeardownPhase::Stopping, TeardownAction::Stop(ids[0].clone()))
        } else if remove_volumes {
            (TeardownPhase::ListingVolumes, TeardownAction::ListVolumes)
        } else {
            (TeardownPhase::Done, TeardownAction::Finished)
        };
        (Teardown { project, ids, remove_volumes, phase, at: 0 }, action)
    }

    /// Feeds the result of the last action and returns the next one.
    pub fn step(&mut self, ev: TeardownEvent) -> (a: TeardownAction)
        requires
            old(self).wf(),
        ensures
            final(self).wf(),
            final(self).project == old(self).project,
            final(self).ids == old(self).ids,
            final(self).remove_volumes == old(self).remove_volumes,
            match old(self).phase {
                TeardownPhase::Stopping => final(self).phase == TeardownPhase::Removing && final(self).at == old(self).at && (a matches TeardownAction::Remove(i) && i@ == old(self).ids@[old(self).at as int]@),
                TeardownPhase::Removing => match ev {
                    TeardownEvent::Removed(Err(e)) => final(self).phase == TeardownPhase::Failed
                        && (a matches TeardownAction::Fail(x) && x == e),
                    _ => if old(self).at + 1 < old(self).ids@.len() {
                        final(self).phase == TeardownPhase::Stopping && final(self).at == old(self).at + 1 && (a matches TeardownAction::Stop(i) && i@ == old(self).ids@[old(self).at + 1]@)
                    } else if old(self).remove_volumes {
                        final(self).phase == TeardownPhase::ListingVolumes && a is ListVolumes
                    } else {
                        final(self).phase == TeardownPhase::Done && a is Finished
                    },
                },
                TeardownPhase::ListingVolumes => match ev {
                    TeardownEvent::Listed(Ok(names)) => final(self).phase
                        == TeardownPhase::RemovingVolumes && (a matches TeardownAction::RemoveVolumes(v)
                        && strs(v@) == owned(strs(names@), old(self).project@)),
                    TeardownEvent::Listed(Err(e)) => final(self).phase == TeardownPhase::Failed
                        && (a matches TeardownAction::Fail(x) && x == e),
                    _ => final(self).phase == TeardownPhase::ListingNetworks && a is ListNetworks,
                },
                TeardownPhase::RemovingVolumes => final(self).phase == TeardownPhase::ListingNetworks
                    && a is ListNetworks,
                TeardownPhase::ListingNetworks => match ev {
                    TeardownEvent::Listed(Ok(names)) => final(self).phase
                        == TeardownPhase::RemovingNetworks && (a matches TeardownAction::RemoveNetworks(v)
                        && strs(v@) == owned(strs(names@), old(self).project@)),
                    TeardownEvent::Listed(Err(e)) => final(self).phase == TeardownPhase::Failed
                        && (a matches TeardownAction::Fail(x) && x == e),
                    _ => final(self).phase == TeardownPhase::Done && a is Finished,
                },
                TeardownPhase::RemovingNetworks => final(self).phase == TeardownPhase::Done
                    && a is Finished,
                TeardownPhase::Done => final(self).phase == TeardownPhase::Done && a is Finished,
                TeardownPhase::Failed => final(self).phase == TeardownPhase::Failed && a is Fail,
            },
    {
        match self.phase {
            TeardownPhase::Stopping => {
                self.phase = TeardownPhase::Removing;
                TeardownAction::Remove(self.ids[self.at].clone())
            },
            TeardownPhase::Removing => match ev {
                TeardownEvent::Removed(Err(e)) => {
                    self.phase = TeardownPhase::Failed;
                    TeardownAction::Fail(e)
                },
                _ => {
                    if self.ids.len() - self.at > 1 {
                        self.at = self.at + 1;
                        self.phase = TeardownPhase::Stopping;
                        TeardownAction::Stop(self.ids[self.at].clone())
                    } else if self.remove_volumes {
                        self.phase = TeardownPhase::ListingVolumes;
                        TeardownAction::ListVolumes
                    } else {
                        self.phase = TeardownPhase::Done;
                        TeardownAction::Finished
                    }
                },
            },
            TeardownPhase::ListingVolumes => match ev {
                TeardownEvent::Listed(Ok(names)) => {
                    self.phase = TeardownPhase::RemovingVolumes;
                    TeardownAction::RemoveVolumes(project_resources(&names, self.project.as_str()))
                },
                TeardownEvent::Listed(Err(e)) => {
                    self.phase = TeardownPhase::Failed;
                    TeardownAction::Fail(e)
                },
                _ => {
                    self.phase = TeardownPhase::ListingNetworks;
                    TeardownAction::ListNetworks
                },
            },
            TeardownPhase::RemovingVolumes => {
                self.phase = TeardownPhase::ListingNetworks;
                TeardownAction::ListNetworks
            },
            TeardownPhase::ListingNetworks => match ev {
                TeardownEvent::Listed(Ok(names)) => {
                    self.phase = TeardownPhase::RemovingNetworks;
                    TeardownAction::RemoveNetworks(project_resources(&names, self.project.as_str()))
                },
                TeardownEvent::Listed(Err(e)) => {
                    self.phase = TeardownPhase::Failed;
                    TeardownAction::Fail(e)
                },
                _ => {
                    self.phase = TeardownPhase::Done;
                    TeardownAction::Finished
                },
            },
            TeardownPhase::RemovingNetworks => {
                self.phase = TeardownPhase::Done;
                TeardownAction::Finished
            },
            TeardownPhase::Done => TeardownAction::Finished,
            TeardownPhase::Failed => TeardownAction::Fail(String::new()),
        }
    }
}

} // verus!
