use vstd::prelude::*;

verus! {

use crate::errors::{InstantiateError, LoadError};
use crate::host::SceneHost;
use crate::loader::{lemma_poll_cases, LoadStep, Loader, LoaderV};
use crate::resources::{find_entry, ResourceSystem};

/// What one driver tick observed. Progress and error reports are surfaced
/// here, as the value the external driver reads once per frame.
#[derive(Clone, Copy, Debug, PartialEq, Eq, Structural)]
pub enum TickReport {
    /// No load was in flight: the tick was a no-op.
    Idle,
    /// The load advanced: `current_stage` of `total_stages` stages are done.
    Progress { current_stage: u32, total_stages: u32 },
    /// The load completed and the new scene is now the active scene; the
    /// previous one is queued for deferred destruction.
    Swapped,
    /// The load failed; the loader was released and the controller is idle.
    LoadFailed(LoadError),
    /// The load completed but the resource could not be instantiated; the
    /// active scene is untouched and the controller is idle.
    InstantiationFailed(InstantiateError),
}

/// The live handles left once the controller's in-flight handle, if any, is
/// released.
pub open spec fn minus_inflight(live: Set<u64>, c: SceneLoadControllerV) -> Set<u64> {
    match c.loading {
        None => live,
        Some(l) => live.remove(l.handle),
    }
}

/// A per-application-lifetime state machine that owns at most one in-flight
/// [`Loader`], is driven once per frame by [`SceneLoadController::tick`], and
/// performs the scene swap on completion. Idle when `loading` is `None`;
/// loading otherwise. Failures are transient: they are reported by the tick
/// that observes them and the controller is idle again on the same tick.
pub struct SceneLoadController {
    loading: Option<Loader>,
    requested_path: Option<String>,
}

/// The mathematical view of a [`SceneLoadController`].
pub struct SceneLoadControllerV {
    pub loading: Option<LoaderV>,
    pub requested_path: Option<Seq<char>>,
}

impl View for SceneLoadController {
    type V = SceneLoadControllerV;

    closed spec fn view(&self) -> SceneLoadControllerV {
        SceneLoadControllerV {
            loading: match self.loading {
                Some(ref l) => Some(l@),
                None => None,
            },
            requested_path: match self.requested_path {
                Some(ref p) => Some(p@),
                None => None,
            },
        }
    }
}

impl SceneLoadControllerV {
    /// The in-flight loader, if any, is well formed, not yet finished, and
    /// `requested_path` tracks exactly the in-flight load's path.
    pub open spec fn wf(self) -> bool {
        match self.loading {
            None => self.requested_path is None,
            Some(l) => l.wf() && !l.done && self.requested_path == Some(l.path),
        }
    }

    /// The native handles the controller holds: none while idle, exactly the
    /// in-flight loader's handle while loading.
    pub open spec fn handles(self) -> Set<u64> {
        match self.loading {
            None => Set::empty(),
            Some(l) => Set::empty().insert(l.handle),
        }
    }
}

impl SceneLoadController {
    /// The controller's in-flight handle, if any, is live in `sys`.
    pub open spec fn coupled(self, sys: ResourceSystem) -> bool {
        self@.loading matches Some(l) ==> sys@.live_handles.contains(l.handle)
    }

    /// The controller is the resource subsystem's only client: the subsystem's
    /// live handles are exactly the controller's own.
    pub open spec fn owns(self, sys: ResourceSystem) -> bool {
        sys@.live_handles == self@.handles()
    }

    /// A controller with no load in flight.
    pub fn new() -> (r: Self)
        ensures
            r@.wf(),
            r@.loading is None,
            r@.requested_path is None,
    {
        SceneLoadController { loading: None, requested_path: None }
    }

    /// Whether a load is in flight.
    pub fn is_loading(&self) -> (r: bool)
        ensures
            r == (self@.loading is Some),
    {
        self.loading.is_some()
    }

    /// The path of the in-flight load; `None` while idle.
    pub fn requested_path(&self) -> (r: &Option<String>)
        ensures
            r is Some <==> self@.requested_path is Some,
            r matches Some(p) ==> self@.requested_path == Some(p@),
    {
        &self.requested_path
    }

    /// Request that the packaged scene at `path` become the active scene.
    ///
    /// Last request wins: a load already in flight is superseded — its native
    /// handle is released before the new loader is constructed, and the new
    /// handle is distinct from every handle that was live before. The request
    /// succeeds if and only if the catalog resolves `path` to a packaged
    /// scene; on `NotFound` or `UnsupportedType` the error is surfaced
    /// immediately and the controller is idle. The scene host is not touched:
    /// nothing is attached or detached before a load completes.
    pub fn begin_load(&mut self, sys: &mut ResourceSystem, path: String) -> (r: Result<
        (),
        LoadError,
    >)
        requires
            old(self)@.wf(),
            old(self).coupled(*old(sys)),
            old(sys).wf(),
            old(sys)@.next_handle < u64::MAX,
        ensures
            final(self)@.wf(),
            final(self).coupled(*final(sys)),
            final(sys).wf(),
            final(sys)@.catalog == old(sys)@.catalog,
            r is Ok ==> final(sys)@.next_handle == old(sys)@.next_handle + 1,
            r is Err ==> final(sys)@.next_handle == old(sys)@.next_handle,
            r is Ok <==> (find_entry(old(sys)@.catalog, path@) matches Some(e)
                && e.kind is PackedScene),
            r == Err::<(), LoadError>(LoadError::NotFound) <==> find_entry(
                old(sys)@.catalog,
                path@,
            ) is None,
            r == Err::<(), LoadError>(LoadError::UnsupportedType) <==> (find_entry(
                old(sys)@.catalog,
                path@,
            ) matches Some(e) && !(e.kind is PackedScene)),
            r is Ok ==> (final(self)@.loading matches Some(l) && {
                &&& l.path == path@
                &&& l.current_stage == 0
                &&& !l.done
                &&& find_entry(old(sys)@.catalog, path@) matches Some(e)
                    && l.total_stages == e.total_stages
                    && l.fault == e.fault
                    && l.instantiable == e.instantiable
                &&& final(self)@.requested_path == Some(path@)
                &&& !old(sys)@.live_handles.contains(l.handle)
                &&& final(sys)@.live_handles == minus_inflight(
                    old(sys)@.live_handles,
                    old(self)@,
                ).insert(l.handle)
            }),
            r is Err ==> {
                &&& final(self)@.loading is None
                &&& final(self)@.requested_path is None
                &&& final(sys)@.live_handles == minus_inflight(old(sys)@.live_handles, old(self)@)
            },
            old(self)@.loading matches Some(prev) ==> !final(sys)@.live_handles.contains(
                prev.handle,
            ),
            old(self).owns(*old(sys)) ==> final(self).owns(*final(sys)),
    {
        let prev = self.loading.take();
        self.requested_path = None;
        let ghost prev_view = old(self)@.loading;
        match prev {
            Some(l) => {
                proof {
                    old(sys).lemma_live_below_next();
                }
                l.release(sys);
            },
            None => (),
        }
        let outcome = Loader::new(sys, &path);
        match outcome {
            Ok(l) => {
                proof {
                    match prev_view {
                        Some(pl) => {
                            assert(l@.handle != pl.handle);
                        },
                        None => {},
                    }
                    if old(self).owns(*old(sys)) {
                        assert(minus_inflight(old(sys)@.live_handles, old(self)@).insert(l@.handle)
                            =~= Set::<u64>::empty().insert(l@.handle));
                    }
                }
                self.loading = Some(l);
                self.requested_path = Some(path);
                Ok(())
            },
            Err(e) => {
                proof {
                    if old(self).owns(*old(sys)) {
                        assert(minus_inflight(old(sys)@.live_handles, old(self)@)
                            =~= Set::<u64>::empty());
                    }
                }
                Err(e)
            },
        }
    }

    /// Drive the in-flight load by one step; a no-op while idle. Called once
    /// per frame by the external driver; each call performs exactly one poll
    /// of the loader and applies at most one state transition.
    ///
    /// On completion the controller releases the loader, instantiates the
    /// loaded resource and — only if instantiation succeeded — swaps scenes:
    /// the old active scene is detached and queued for deferred destruction,
    /// and only then is the new scene attached, fully constructed. If
    /// instantiation fails the host is untouched: the swap is all or nothing.
    /// On a load failure the loader is released and the error reported. In
    /// every outcome the handle of a loader the controller lets go of is
    /// released exactly once.
    pub fn tick(&mut self, sys: &mut ResourceSystem, host: &mut SceneHost) -> (r: TickReport)
        requires
            old(self)@.wf(),
            old(self).coupled(*old(sys)),
            old(sys).wf(),
        ensures
            final(self)@.wf(),
            final(self).coupled(*final(sys)),
            final(sys).wf(),
            final(sys)@.catalog == old(sys)@.catalog,
            final(sys)@.next_handle == old(sys)@.next_handle,
            old(self)@.loading is None ==> {
                &&& r == TickReport::Idle
                &&& final(self)@ == old(self)@
                &&& *final(sys) == *old(sys)
                &&& *final(host) == *old(host)
            },
            old(self)@.loading matches Some(l) ==> l.advances_next() ==> {
                &&& r == TickReport::Progress {
                    current_stage: l.next_report_stage() as u32,
                    total_stages: l.total_stages as u32,
                }
                &&& final(self)@.loading == Some(l.advanced())
                &&& final(self)@.requested_path == old(self)@.requested_path
                &&& *final(sys) == *old(sys)
                &&& *final(host) == *old(host)
            },
            old(self)@.loading matches Some(l) ==> l.fails_next() ==> {
                &&& r == TickReport::LoadFailed(l.fault_error())
                &&& final(self)@.loading is None
                &&& final(self)@.requested_path is None
                &&& final(sys)@.live_handles == old(sys)@.live_handles.remove(l.handle)
                &&& *final(host) == *old(host)
            },
            old(self)@.loading matches Some(l) ==> l.completes_next() && l.instantiable ==> {
                &&& r == TickReport::Swapped
                &&& final(self)@.loading is None
                &&& final(self)@.requested_path is None
                &&& final(sys)@.live_handles == old(sys)@.live_handles.remove(l.handle)
                &&& final(host)@.active == Some(l.path)
                &&& (old(host)@.active matches Some(p) ==> final(host)@.pending_destroy == old(
                    host,
                )@.pending_destroy.push(p))
                &&& (old(host)@.active is None ==> final(host)@.pending_destroy == old(
                    host,
                )@.pending_destroy)
            },
            old(self)@.loading matches Some(l) ==> l.completes_next() && !l.instantiable ==> {
                &&& r == TickReport::InstantiationFailed(InstantiateError::MissingDependency)
                &&& final(self)@.loading is None
                &&& final(self)@.requested_path is None
                &&& final(sys)@.live_handles == old(sys)@.live_handles.remove(l.handle)
                &&& *final(host) == *old(host)
            },
            !(r is Swapped) ==> *final(host) == *old(host),
            r is Swapped ==> (old(self)@.loading matches Some(l) && l.completes_next()
                && l.instantiable && final(host)@.active == Some(l.path)),
            old(host)@.active is Some ==> final(host)@.active is Some,
            old(self).owns(*old(sys)) ==> final(self).owns(*final(sys)),
    {
        let inflight = self.loading.take();
        match inflight {
            None => TickReport::Idle,
            Some(mut l) => {
                let ghost l0 = l@;
                proof {
                    lemma_poll_cases(l0);
                }
                let step = l.poll();
                match step {
                    LoadStep::InProgress { current_stage, total_stages } => {
                        self.loading = Some(l);
                        TickReport::Progress { current_stage, total_stages }
                    },
                    LoadStep::Failed(e) => {
                        l.release(sys);
                        self.requested_path = None;
                        proof {
                            if old(self).owns(*old(sys)) {
                                assert(sys@.live_handles =~= Set::<u64>::empty());
                            }
                        }
                        TickReport::LoadFailed(e)
                    },
                    LoadStep::Complete(res) => {
                        l.release(sys);
                        self.requested_path = None;
                        proof {
                            if old(self).owns(*old(sys)) {
                                assert(sys@.live_handles =~= Set::<u64>::empty());
                            }
                        }
                        match res.instantiate() {
                            Ok(node) => {
                                host.detach_and_defer_destroy();
                                host.attach(node);
                                TickReport::Swapped
                            },
                            Err(e) => TickReport::InstantiationFailed(e),
                        }
                    },
                }
            },
        }
    }

    /// Tear the controller down, releasing the in-flight load's handle if
    /// any: the release-on-every-exit-path guarantee covers teardown too.
    pub fn shutdown(self, sys: &mut ResourceSystem)
        requires
            self@.wf(),
            self.coupled(*old(sys)),
            old(sys).wf(),
        ensures
            final(sys).wf(),
            final(sys)@.catalog == old(sys)@.catalog,
            final(sys)@.next_handle == old(sys)@.next_handle,
            final(sys)@.live_handles == minus_inflight(old(sys)@.live_handles, self@),
            self.owns(*old(sys)) ==> final(sys)@.live_handles == Set::<u64>::empty(),
    {
        let ghost c0 = self@;
        match self.loading {
            Some(l) => {
                l.release(sys);
                proof {
                    if old(sys)@.live_handles == c0.handles() {
                        assert(sys@.live_handles =~= Set::<u64>::empty());
                    }
                }
            },
            None => (),
        }
    }
}

/// At most one load is ever in flight: the controller never holds more than
/// one native handle, so while it is the resource subsystem's only client the
/// subsystem never has more than one live handle, however many `begin_load`
/// calls were made.
pub proof fn lemma_at_most_one_inflight(c: SceneLoadController, sys: ResourceSystem)
    requires
        c.owns(sys),
    ensures
        sys@.live_handles.finite(),
        sys@.live_handles.len() <= 1,
{
    broadcast use vstd::set::group_set_axioms;
    broadcast use vstd::set::axiom_set_empty_len;
    broadcast use vstd::set::axiom_set_insert_len;

}

/// Exact handle accounting: while the controller — as the subsystem's only
/// client — has a load in flight, the subsystem holds exactly that loader's
/// handle, and none otherwise. No handle is leaked and none is freed twice.
pub proof fn lemma_exact_handle_accounting(c: SceneLoadController, sys: ResourceSystem)
    requires
        c.owns(sys),
    ensures
        c@.loading matches Some(l) ==> (sys@.live_handles.len() == 1
            && sys@.live_handles.contains(l.handle)),
        c@.loading is None ==> sys@.live_handles.len() == 0,
        c.coupled(sys),
{
    broadcast use vstd::set::group_set_axioms;
    broadcast use vstd::set::axiom_set_empty_len;
    broadcast use vstd::set::axiom_set_insert_len;

}

} // verus!
