use vstd::prelude::*;

verus! {

use crate::resources::SceneNode;

/// Owns the currently active scene and the attach/detach operations on it.
/// A detached scene is never destroyed synchronously mid-tick: it goes onto a
/// pending-destruction queue that the embedder drains between ticks, so nodes
/// still referenced by the current frame's processing are never freed under it.
pub struct SceneHost {
    active: Option<SceneNode>,
    pending_destroy: Vec<SceneNode>,
}

/// The mathematical view of a [`SceneHost`]: the active scene's path, and the
/// paths of the scenes queued for deferred destruction, oldest first.
pub struct SceneHostV {
    pub active: Option<Seq<char>>,
    pub pending_destroy: Seq<Seq<char>>,
}

impl View for SceneHost {
    type V = SceneHostV;

    closed spec fn view(&self) -> SceneHostV {
        SceneHostV {
            active: match self.active {
                Some(ref n) => Some(n@),
                None => None,
            },
            pending_destroy: self.pending_destroy@.map_values(|n: SceneNode| n@),
        }
    }
}

impl SceneHost {
    /// A host with no active scene and nothing pending destruction.
    pub fn new() -> (r: Self)
        ensures
            r@.active is None,
            r@.pending_destroy == Seq::<Seq<char>>::empty(),
    {
        let r = SceneHost { active: None, pending_destroy: Vec::new() };
        proof {
            assert(r@.pending_destroy =~= Seq::<Seq<char>>::empty());
        }
        r
    }

    /// The currently active scene, if any.
    pub fn current_scene(&self) -> (r: &Option<SceneNode>)
        ensures
            r is Some <==> self@.active is Some,
            r matches Some(n) ==> self@.active == Some(n@),
    {
        &self.active
    }

    /// Detach the active scene, if any, and queue it for deferred destruction.
    pub fn detach_and_defer_destroy(&mut self)
        ensures
            final(self)@.active is None,
            old(self)@.active matches Some(p) ==> final(self)@.pending_destroy == old(
                self,
            )@.pending_destroy.push(p),
            old(self)@.active is None ==> final(self)@.pending_destroy == old(
                self,
            )@.pending_destroy,
    {
        let ghost prev = self.pending_destroy@;
        let detached = self.active.take();
        match detached {
            Some(node) => {
                let ghost detached_path = node@;
                self.pending_destroy.push(node);
                proof {
                    assert(old(self)@.active == Some(detached_path));
                    assert(self@.pending_destroy =~= prev.map_values(|n: SceneNode| n@).push(
                        detached_path,
                    ));
                }
            },
            None => (),
        }
    }

    /// Attach a fully instantiated scene as the new active scene. The host
    /// must have no active scene: a swap detaches the old scene first.
    pub fn attach(&mut self, node: SceneNode)
        requires
            old(self)@.active is None,
        ensures
            final(self)@.active == Some(node@),
            final(self)@.pending_destroy == old(self)@.pending_destroy,
    {
        self.active = Some(node);
    }

    /// How many detached scenes await destruction.
    pub fn pending_destroy_count(&self) -> (n: usize)
        ensures
            n == self@.pending_destroy.len(),
    {
        self.pending_destroy.len()
    }

    /// Destroy every scene queued for deferred destruction, returning how many
    /// were destroyed. The embedder calls this between ticks, at a point where
    /// no frame processing can still reference the detached scenes; it is
    /// never called from inside a tick.
    pub fn sweep_pending(&mut self) -> (n: usize)
        ensures
            final(self)@.active == old(self)@.active,
            final(self)@.pending_destroy == Seq::<Seq<char>>::empty(),
            n == old(self)@.pending_destroy.len(),
    {
        let n = self.pending_destroy.len();
        self.pending_destroy.clear();
        proof {
            assert(self@.pending_destroy =~= Seq::<Seq<char>>::empty());
        }
        n
    }
}

} // verus!
