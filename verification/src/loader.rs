use vstd::prelude::*;

verus! {

use crate::errors::LoadError;
use crate::resources::{
    find_entry, LoadFault, LoadFaultV, ResourceKind, ResourceSystem, SceneResource,
};

/// What one poll of an in-flight load reports.
#[derive(Debug)]
pub enum LoadStep {
    /// The load is not complete yet: `current_stage` of `total_stages` stages
    /// are done. The caller must poll again on a later tick.
    InProgress { current_stage: u32, total_stages: u32 },
    /// The load finished; ownership of the fully loaded resource, exactly once.
    Complete(SceneResource),
    /// The load hit an unrecoverable error; the loader must be discarded
    /// (released) by the caller.
    Failed(LoadError),
}

/// Wraps one incremental resource load: the native load handle, the path it
/// was requested for, and how far the engine has advanced it. The load is
/// advanced only by explicit [`Loader::poll`] calls; the handle is given back
/// by [`Loader::release`], which consumes the loader, so a handle can never be
/// released twice.
pub struct Loader {
    handle: u64,
    path: String,
    current_stage: u32,
    total_stages: u32,
    fault: Option<LoadFault>,
    instantiable: bool,
    done: bool,
}

/// The mathematical view of a [`Loader`].
pub struct LoaderV {
    pub handle: u64,
    pub path: Seq<char>,
    pub current_stage: int,
    pub total_stages: int,
    pub fault: Option<LoadFaultV>,
    pub instantiable: bool,
    pub done: bool,
}

impl View for Loader {
    type V = LoaderV;

    closed spec fn view(&self) -> LoaderV {
        LoaderV {
            handle: self.handle,
            path: self.path@,
            current_stage: self.current_stage as int,
            total_stages: self.total_stages as int,
            fault: match self.fault {
                Some(f) => Some(f@),
                None => None,
            },
            instantiable: self.instantiable,
            done: self.done,
        }
    }
}

impl LoaderV {
    /// Stages completed never exceed the stage count, and both fit the
    /// engine's stage counter.
    pub open spec fn wf(self) -> bool {
        0 <= self.current_stage <= self.total_stages <= u32::MAX
    }

    /// The next poll runs into the scripted engine-side fault: there is still
    /// a stage to perform, and its work fails.
    pub open spec fn fails_next(self) -> bool {
        &&& self.current_stage < self.total_stages
        &&& self.fault matches Some(f) && f.at_stage == self.current_stage + 1
    }

    /// The next poll hands out the fully loaded resource: every stage is done.
    pub open spec fn completes_next(self) -> bool {
        self.current_stage == self.total_stages
    }

    /// The next poll completes one more stage and reports progress.
    pub open spec fn advances_next(self) -> bool {
        self.current_stage < self.total_stages && !self.fails_next()
    }

    /// The loader state after one advancing poll.
    pub open spec fn advanced(self) -> LoaderV {
        LoaderV { current_stage: self.current_stage + 1, ..self }
    }

    /// The `current_stage` the next progress report carries.
    pub open spec fn next_report_stage(self) -> int {
        self.current_stage + 1
    }

    /// The error the scripted fault carries.
    pub open spec fn fault_error(self) -> LoadError {
        match self.fault {
            Some(f) => f.error,
            None => LoadError::Io,
        }
    }
}

impl Loader {
    /// Request an interactive, incremental load of the packaged scene at
    /// `path`. Succeeds if and only if the catalog resolves `path` to a
    /// packaged scene; on success a fresh native load handle is allocated and
    /// recorded live in `sys`. Constructing performs no load work: the load is
    /// advanced only by explicit polls.
    pub fn new(sys: &mut ResourceSystem, path: &String) -> (r: Result<Loader, LoadError>)
        requires
            old(sys).wf(),
            old(sys)@.next_handle < u64::MAX,
        ensures
            final(sys).wf(),
            final(sys)@.catalog == old(sys)@.catalog,
            r is Ok <==> (find_entry(old(sys)@.catalog, path@) matches Some(e)
                && e.kind is PackedScene),
            r == Err::<Loader, LoadError>(LoadError::NotFound) <==> find_entry(
                old(sys)@.catalog,
                path@,
            ) is None,
            r == Err::<Loader, LoadError>(LoadError::UnsupportedType) <==> (find_entry(
                old(sys)@.catalog,
                path@,
            ) matches Some(e) && !(e.kind is PackedScene)),
            r is Err ==> final(sys)@ == old(sys)@,
            r matches Ok(l) ==> {
                &&& find_entry(old(sys)@.catalog, path@) matches Some(e)
                    && l@.total_stages == e.total_stages
                    && l@.fault == e.fault
                    && l@.instantiable == e.instantiable
                &&& l@.path == path@
                &&& l@.current_stage == 0
                &&& !l@.done
                &&& l@.wf()
                &&& l@.handle == old(sys)@.next_handle
                &&& !old(sys)@.live_handles.contains(l@.handle)
                &&& final(sys)@.live_handles == old(sys)@.live_handles.insert(l@.handle)
                &&& final(sys)@.next_handle == old(sys)@.next_handle + 1
            },
    {
        let found = sys.find_first(path);
        match found {
            None => Err(LoadError::NotFound),
            Some(i) => {
                let entry = sys.entry_at(i);
                let total_stages = entry.total_stages;
                let fault = entry.fault;
                let instantiable = entry.instantiable;
                match entry.kind {
                    ResourceKind::Other => Err(LoadError::UnsupportedType),
                    ResourceKind::PackedScene => {
                        let handle = sys.acquire_handle();
                        Ok(
                            Loader {
                                handle,
                                path: path.clone(),
                                current_stage: 0,
                                total_stages,
                                fault,
                                instantiable,
                                done: false,
                            },
                        )
                    },
                }
            },
        }
    }

    /// Advance the load by one unit of engine work. Requires that no terminal
    /// step (`Complete` or `Failed`) has been reported yet: polling past the
    /// end is a programming error, so the caller must discard the loader as
    /// soon as a terminal step comes back.
    pub fn poll(&mut self) -> (r: LoadStep)
        requires
            old(self)@.wf(),
            !old(self)@.done,
        ensures
            final(self)@.wf(),
            final(self)@.handle == old(self)@.handle,
            final(self)@.path == old(self)@.path,
            old(self)@.fails_next() ==> {
                &&& r == LoadStep::Failed(old(self)@.fault_error())
                &&& final(self)@ == LoaderV { done: true, ..old(self)@ }
            },
            old(self)@.completes_next() ==> {
                &&& r matches LoadStep::Complete(res) && res@.path == old(self)@.path
                    && res@.instantiable == old(self)@.instantiable
                &&& final(self)@ == LoaderV { done: true, ..old(self)@ }
            },
            old(self)@.advances_next() ==> {
                &&& r == LoadStep::InProgress {
                    current_stage: old(self)@.next_report_stage() as u32,
                    total_stages: old(self)@.total_stages as u32,
                }
                &&& final(self)@ == old(self)@.advanced()
            },
    {
        if self.current_stage == self.total_stages {
            self.done = true;
            let res = SceneResource::from_parts(self.path.clone(), self.instantiable);
            return LoadStep::Complete(res);
        }
        if let Some(f) = self.fault {
            if f.at_stage == self.current_stage + 1 {
                self.done = true;
                return LoadStep::Failed(f.error);
            }
        }
        self.current_stage = self.current_stage + 1;
        LoadStep::InProgress { current_stage: self.current_stage, total_stages: self.total_stages }
    }

    /// Give the native load handle back to the resource subsystem, consuming
    /// the loader. This is the release the design guarantees on every exit
    /// path — completion, failure, supersession and teardown — and taking the
    /// loader by value means no handle can ever be released twice.
    pub fn release(self, sys: &mut ResourceSystem)
        requires
            old(sys).wf(),
            old(sys)@.live_handles.contains(self@.handle),
        ensures
            final(sys).wf(),
            final(sys)@.catalog == old(sys)@.catalog,
            final(sys)@.next_handle == old(sys)@.next_handle,
            final(sys)@.live_handles == old(sys)@.live_handles.remove(self@.handle),
    {
        sys.release_handle(self.handle);
    }
}

/// Progress is monotonic: the stage a progress report carries grows by exactly
/// one on every advancing poll, so successive `InProgress` reports of a load
/// that never fails have strictly increasing — in particular non-decreasing —
/// `current_stage`, and the reported stage never exceeds `total_stages`.
pub proof fn lemma_progress_monotonic(l: LoaderV)
    requires
        l.wf(),
        l.advances_next(),
    ensures
        l.advanced().wf(),
        l.next_report_stage() <= l.total_stages,
        l.advanced().advances_next() ==> l.advanced().next_report_stage() > l.next_report_stage(),
{
}

/// A load completes only from full progress: if a poll reports `InProgress`
/// and the very next poll reports `Complete`, the progress report carried
/// `current_stage == total_stages`.
pub proof fn lemma_full_progress_before_complete(l: LoaderV)
    requires
        l.wf(),
        l.advances_next(),
        l.advanced().completes_next(),
    ensures
        l.next_report_stage() == l.total_stages,
{
}

/// Every poll of a well-formed, unfinished loader takes exactly one of the
/// three steps: it fails, completes, or advances.
pub proof fn lemma_poll_cases(l: LoaderV)
    requires
        l.wf(),
    ensures
        l.fails_next() || l.completes_next() || l.advances_next(),
        !(l.fails_next() && l.completes_next()),
        !(l.fails_next() && l.advances_next()),
        !(l.completes_next() && l.advances_next()),
{
}

} // verus!
