use vstd::prelude::*;

verus! {

use crate::errors::InstantiateError;

/// What kind of resource a catalog entry holds.
#[derive(Clone, Copy, Debug, PartialEq, Eq, Structural)]
pub enum ResourceKind {
    /// A packaged scene, the only kind the scene loader accepts.
    PackedScene,
    /// Any other resource kind (audio, texture, script, ...).
    Other,
}

/// An engine-side failure scripted into a resource description: the work for
/// stage `at_stage` (counted from 1) fails with `error` instead of completing.
#[derive(Clone, Copy, Debug)]
pub struct LoadFault {
    /// The first stage whose work fails, counted from 1.
    pub at_stage: u32,
    /// The error the failing poll reports.
    pub error: crate::errors::LoadError,
}

/// The mathematical view of a [`LoadFault`].
pub struct LoadFaultV {
    pub at_stage: int,
    pub error: crate::errors::LoadError,
}

impl View for LoadFault {
    type V = LoadFaultV;

    open spec fn view(&self) -> LoadFaultV {
        LoadFaultV { at_stage: self.at_stage as int, error: self.error }
    }
}

/// Describes one loadable resource known to the resource subsystem: where it
/// lives, what it is, how many stages its incremental load takes, whether the
/// load runs into an engine-side failure part way, and whether the loaded
/// resource can be turned into a live scene node.
#[derive(Debug)]
pub struct ResourceEntry {
    /// The path the resource is requested by.
    pub path: String,
    /// What kind of resource lives at the path.
    pub kind: ResourceKind,
    /// How many stages the incremental load takes; 0 completes on the first poll.
    pub total_stages: u32,
    /// The engine-side failure the load runs into, if any.
    pub fault: Option<LoadFault>,
    /// Whether the loaded resource can be instantiated into a scene node.
    pub instantiable: bool,
}

/// The mathematical view of a [`ResourceEntry`].
pub struct ResourceEntryV {
    pub path: Seq<char>,
    pub kind: ResourceKind,
    pub total_stages: int,
    pub fault: Option<LoadFaultV>,
    pub instantiable: bool,
}

impl View for ResourceEntry {
    type V = ResourceEntryV;

    open spec fn view(&self) -> ResourceEntryV {
        ResourceEntryV {
            path: self.path@,
            kind: self.kind,
            total_stages: self.total_stages as int,
            fault: match self.fault {
                Some(f) => Some(f@),
                None => None,
            },
            instantiable: self.instantiable,
        }
    }
}

/// The first entry of `catalog` registered under `path`, if any.
pub open spec fn find_entry(catalog: Seq<ResourceEntryV>, path: Seq<char>) -> Option<ResourceEntryV>
    decreases catalog.len(),
{
    if catalog.len() == 0 {
        None
    } else if catalog[0].path == path {
        Some(catalog[0])
    } else {
        find_entry(catalog.drop_first(), path)
    }
}

/// A fully loaded packaged scene, handed out by a completed load exactly once.
#[derive(Debug)]
pub struct SceneResource {
    pub(crate) path: String,
    pub(crate) instantiable: bool,
}

/// The mathematical view of a [`SceneResource`].
pub struct SceneResourceV {
    pub path: Seq<char>,
    pub instantiable: bool,
}

impl View for SceneResource {
    type V = SceneResourceV;

    closed spec fn view(&self) -> SceneResourceV {
        SceneResourceV { path: self.path@, instantiable: self.instantiable }
    }
}

impl SceneResource {
    /// Assemble the resource a completed load hands out.
    pub(crate) fn from_parts(path: String, instantiable: bool) -> (r: SceneResource)
        ensures
            r@.path == path@,
            r@.instantiable == instantiable,
    {
        SceneResource { path, instantiable }
    }

    /// Turn the fully loaded resource into a live scene node, consuming the
    /// resource. Fails exactly when the resource cannot be instantiated, in
    /// which case no node is produced, so nothing can be attached.
    pub fn instantiate(self) -> (r: Result<SceneNode, InstantiateError>)
        ensures
            self@.instantiable ==> (r matches Ok(n) && n@ == self@.path),
            !self@.instantiable ==> r == Err::<SceneNode, InstantiateError>(
                InstantiateError::MissingDependency,
            ),
    {
        if self.instantiable {
            Ok(SceneNode { path: self.path })
        } else {
            Err(InstantiateError::MissingDependency)
        }
    }
}

/// The root node of a loaded, instantiated unit of content. A value of this
/// type is only ever produced by a successful [`SceneResource::instantiate`],
/// so holding one is proof that its construction step succeeded.
#[derive(Debug)]
pub struct SceneNode {
    pub(crate) path: String,
}

impl View for SceneNode {
    type V = Seq<char>;

    closed spec fn view(&self) -> Seq<char> {
        self.path@
    }
}

impl SceneNode {
    /// The resource path this scene was instantiated from.
    pub fn path(&self) -> (r: &String)
        ensures
            r@ == self@,
    {
        &self.path
    }
}

/// A model of the engine's resource subsystem: the catalog of loadable
/// resources, and the accounting of the native load handles that interactive
/// loads allocate. Every handle a load acquires must be given back through
/// [`crate::loader::Loader::release`]; the live-handle set makes
/// release-on-every-exit-path an observable, provable property.
pub struct ResourceSystem {
    pub(crate) catalog: Vec<ResourceEntry>,
    pub(crate) live_handles: Vec<u64>,
    pub(crate) next_handle: u64,
}

/// The mathematical view of a [`ResourceSystem`].
pub struct ResourceSystemV {
    pub catalog: Seq<ResourceEntryV>,
    pub live_handles: Set<u64>,
    pub next_handle: u64,
}

impl View for ResourceSystem {
    type V = ResourceSystemV;

    closed spec fn view(&self) -> ResourceSystemV {
        ResourceSystemV {
            catalog: self.catalog@.map_values(|e: ResourceEntry| e@),
            live_handles: self.live_handles@.to_set(),
            next_handle: self.next_handle,
        }
    }
}

impl ResourceSystem {
    /// Internal consistency: the allocated handles are mutually distinct and
    /// all below the next handle to be issued.
    pub closed spec fn wf(self) -> bool {
        &&& self.live_handles@.no_duplicates()
        &&& forall|i: int|
            0 <= i < self.live_handles@.len() ==> self.live_handles@[i] < self.next_handle
    }

    /// The set of live handles is always finite.
    pub proof fn lemma_live_handles_finite(self)
        ensures
            self@.live_handles.finite(),
    {
        broadcast use vstd::seq_lib::seq_to_set_is_finite;

    }

    /// An empty resource subsystem: nothing registered, no handle allocated.
    pub fn new() -> (r: Self)
        ensures
            r.wf(),
            r@.catalog == Seq::<ResourceEntryV>::empty(),
            r@.live_handles == Set::<u64>::empty(),
            r@.next_handle == 0,
    {
        let r = ResourceSystem { catalog: Vec::new(), live_handles: Vec::new(), next_handle: 0 };
        proof {
            assert(r@.catalog =~= Seq::<ResourceEntryV>::empty());
            assert(r@.live_handles =~= Set::<u64>::empty());
        }
        r
    }

    /// Make a resource available: append `entry` to the catalog. Lookups
    /// return the first entry registered under a path.
    pub fn register(&mut self, entry: ResourceEntry)
        requires
            old(self).wf(),
        ensures
            final(self).wf(),
            final(self)@.catalog == old(self)@.catalog.push(entry@),
            final(self)@.live_handles == old(self)@.live_handles,
            final(self)@.next_handle == old(self)@.next_handle,
    {
        let ghost prev = self.catalog@;
        self.catalog.push(entry);
        proof {
            assert(self.catalog@.map_values(|e: ResourceEntry| e@) =~= prev.map_values(
                |e: ResourceEntry| e@,
            ).push(entry@));
        }
    }

    /// Whether the native load handle `h` is currently allocated.
    pub fn is_handle_live(&self, h: u64) -> (r: bool)
        ensures
            r == self@.live_handles.contains(h),
    {
        let mut i: usize = 0;
        while i < self.live_handles.len()
            invariant
                0 <= i <= self.live_handles@.len(),
                forall|j: int| 0 <= j < i ==> self.live_handles@[j] != h,
            decreases self.live_handles@.len() - i,
        {
            if self.live_handles[i] == h {
                return true;
            }
            i += 1;
        }
        proof {
            assert(!self.live_handles@.contains(h));
        }
        false
    }

    /// How many native load handles are currently allocated.
    pub fn live_handle_count(&self) -> (n: usize)
        requires
            self.wf(),
        ensures
            n == self@.live_handles.len(),
    {
        proof {
            self.live_handles@.unique_seq_to_set();
        }
        self.live_handles.len()
    }

    /// Every live handle lies below the next handle to be issued.
    pub proof fn lemma_live_below_next(self)
        requires
            self.wf(),
        ensures
            forall|h: u64| self@.live_handles.contains(h) ==> h < self@.next_handle,
    {
        assert forall|h: u64| self@.live_handles.contains(h) implies h < self@.next_handle by {
            assert(self.live_handles@.contains(h));
        }
    }

    /// The index of the first catalog entry registered under `path`, if any.
    pub(crate) fn find_first(&self, path: &String) -> (r: Option<usize>)
        ensures
            match r {
                Some(i) => 0 <= i < self@.catalog.len() && find_entry(self@.catalog, path@)
                    == Some(self@.catalog[i as int]),
                None => find_entry(self@.catalog, path@) is None,
            },
    {
        let ghost catalog = self@.catalog;
        proof {
            assert(catalog.skip(0) =~= catalog);
        }
        let mut i: usize = 0;
        let n = self.catalog.len();
        while i < n
            invariant
                n == catalog.len(),
                catalog == self@.catalog,
                0 <= i <= n,
                find_entry(catalog, path@) == find_entry(catalog.skip(i as int), path@),
            decreases n - i,
        {
            proof {
                assert(catalog.skip(i as int)[0] == catalog[i as int]);
            }
            if self.catalog[i].path == *path {
                return Some(i);
            }
            proof {
                assert(catalog.skip(i as int).drop_first() =~= catalog.skip(i as int + 1));
            }
            i += 1;
        }
        proof {
            assert(catalog.skip(n as int) =~= Seq::<ResourceEntryV>::empty());
        }
        None
    }

    /// Borrow the catalog entry at index `i`.
    pub(crate) fn entry_at(&self, i: usize) -> (r: &ResourceEntry)
        requires
            0 <= i < self@.catalog.len(),
        ensures
            r@ == self@.catalog[i as int],
    {
        &self.catalog[i]
    }

    /// Allocate a fresh native load handle and record it live.
    pub(crate) fn acquire_handle(&mut self) -> (h: u64)
        requires
            old(self).wf(),
            old(self)@.next_handle < u64::MAX,
        ensures
            final(self).wf(),
            final(self)@.catalog == old(self)@.catalog,
            h == old(self)@.next_handle,
            !old(self)@.live_handles.contains(h),
            final(self)@.live_handles == old(self)@.live_handles.insert(h),
            final(self)@.next_handle == old(self)@.next_handle + 1,
    {
        let h = self.next_handle;
        proof {
            assert(!self.live_handles@.contains(h));
        }
        self.next_handle = self.next_handle + 1;
        self.live_handles.push(h);
        proof {
            broadcast use vstd::prelude::Seq::lemma_push_to_set_commute;

            assert(self@.live_handles =~= old(self)@.live_handles.insert(h));
            let pushed = self.live_handles@;
            assert forall|p: int, q: int| 0 <= p < q < pushed.len() implies pushed[p]
                != pushed[q] by {
                if q == pushed.len() - 1 {
                    assert(pushed[p] == old(self).live_handles@[p]);
                    assert(old(self).live_handles@[p] < h);
                }
            }
        }
        h
    }

    /// Give the native load handle `h` back: remove it from the live set.
    pub(crate) fn release_handle(&mut self, h: u64)
        requires
            old(self).wf(),
            old(self)@.live_handles.contains(h),
        ensures
            final(self).wf(),
            final(self)@.catalog == old(self)@.catalog,
            final(self)@.next_handle == old(self)@.next_handle,
            final(self)@.live_handles == old(self)@.live_handles.remove(h),
    {
        let ghost prev = self.live_handles@;
        proof {
            assert(prev.contains(h));
        }
        let mut i: usize = 0;
        while i < self.live_handles.len()
            invariant
                *self == *old(self),
                prev == self.live_handles@,
                prev.no_duplicates(),
                forall|j: int| 0 <= j < prev.len() ==> prev[j] < old(self).next_handle,
                0 <= i <= prev.len(),
                forall|j: int| 0 <= j < i ==> prev[j] != h,
                prev.contains(h),
            decreases prev.len() - i,
        {
            if self.live_handles[i] == h {
                self.live_handles.remove(i);
                proof {
                    lemma_remove_at_index_to_set(prev, i as int, h);
                    assert(self@.live_handles =~= old(self)@.live_handles.remove(h));
                    assert forall|k: int|
                        0 <= k < self.live_handles@.len() implies self.live_handles@[k]
                        < self.next_handle by {
                        assert(prev.contains(self.live_handles@[k]));
                    }
                }
                return ;
            }
            i += 1;
        }
        proof {
            assert(false);
        }
    }
}

/// Removing the only occurrence of `h` from a duplicate-free sequence removes
/// exactly `h` from the set of its elements and keeps the rest distinct.
proof fn lemma_remove_at_index_to_set(s: Seq<u64>, i: int, h: u64)
    requires
        s.no_duplicates(),
        0 <= i < s.len(),
        s[i] == h,
    ensures
        s.remove(i).no_duplicates(),
        s.remove(i).to_set() =~= s.to_set().remove(h),
        forall|k: int| 0 <= k < s.remove(i).len() ==> s.contains(#[trigger] s.remove(i)[k]),
{
    s.remove_ensures(i);
    let t = s.remove(i);
    assert forall|k: int| 0 <= k < t.len() implies s.contains(#[trigger] t[k]) by {
        if k < i {
            assert(t[k] == s[k]);
        } else {
            assert(t[k] == s[k + 1]);
        }
    }
    assert forall|x: u64| t.to_set().contains(x) implies s.to_set().remove(h).contains(x) by {
        let k = choose|k: int| 0 <= k < t.len() && t[k] == x;
        if k < i {
            assert(s[k] == x);
        } else {
            assert(s[k + 1] == x);
            assert(k + 1 != i);
        }
        assert(x != h);
        assert(s.contains(x));
    }
    assert forall|x: u64| s.to_set().remove(h).contains(x) implies t.to_set().contains(x) by {
        let k = choose|k: int| 0 <= k < s.len() && s[k] == x;
        assert(k != i);
        if k < i {
            assert(t[k] == x);
        } else {
            assert(t[k - 1] == x);
        }
        assert(t.contains(x));
    }
    assert forall|p: int, q: int| 0 <= p < q < t.len() implies t[p] != t[q] by {
        if q < i {
            assert(t[p] == s[p] && t[q] == s[q]);
        } else if p >= i {
            assert(t[p] == s[p + 1] && t[q] == s[q + 1]);
        } else {
            assert(t[p] == s[p] && t[q] == s[q + 1]);
        }
    }
}

} // verus!
