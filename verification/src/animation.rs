use vstd::prelude::*;

verus! {

/// Convenience surface for an engine animation player: play an animation with
/// the engine's default blend, speed and direction instead of spelling the
/// defaults out at every call site. The embedding layer implements it for its
/// engine's animation player node; the library attaches no contract to it,
/// since what playing an animation does is the engine's business.
pub trait AnimationPlayerExt {
    /// Play `animation_name` from the start with the default parameters.
    fn play_default(&mut self, animation_name: &str);
}

} // verus!
