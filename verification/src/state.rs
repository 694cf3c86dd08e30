use vstd::prelude::*;
use crate::run::SurfaceSize;

verus! {

/// The surface configuration after a resize request to `new_size`, and
/// whether the surface is reconfigured: a request with a zero side (a
/// minimized window) is ignored, any other one is taken as it is.
pub open spec fn resize_outcome(current: SurfaceSize, new_size: SurfaceSize) -> (SurfaceSize, bool) {
    if new_size.width > 0 && new_size.height > 0 {
        (new_size, true)
    } else {
        (current, false)
    }
}

/// Applies a window resize to the configured surface size. Returns whether
/// the surface must be reconfigured.
pub fn resize_surface(config: &mut SurfaceSize, new_size: SurfaceSize) -> (reconfigure: bool)
    ensures
        (*final(config), reconfigure) == resize_outcome(*old(config), new_size),
        reconfigure == (new_size.width > 0 && new_size.height > 0),
        reconfigure ==> *final(config) == new_size,
        !reconfigure ==> *final(config) == *old(config),
{
    if new_size.width > 0 && new_size.height > 0 {
        // each side is kept at one pixel at least
        config.width = if new_size.width >= 1 { new_size.width } else { 1 };
        config.height = if new_size.height >= 1 { new_size.height } else { 1 };
        true
    } else {
        false
    }
}

/// Every resize request with both sides positive is taken as it is, whether
/// the window grew or shrank; every request with a zero side leaves the
/// configuration unchanged and the surface alone.
pub proof fn lemma_resize_takes_every_visible_size(current: SurfaceSize, new_size: SurfaceSize)
    ensures
        new_size.width > 0 && new_size.height > 0 ==> resize_outcome(current, new_size) == (new_size, true),
        new_size.width == 0 || new_size.height == 0 ==> resize_outcome(current, new_size) == (current, false),
{
}

/// A resize never leaves a zero-sized surface configuration behind when the
/// configuration was not zero-sized before, and the surface is reconfigured
/// exactly with the size the window reported.
pub proof fn lemma_resize_never_zero(current: SurfaceSize, new_size: SurfaceSize)
    requires
        current.width > 0,
        current.height > 0,
    ensures
        resize_outcome(current, new_size).0.width > 0,
        resize_outcome(current, new_size).0.height > 0,
        resize_outcome(current, new_size).1 ==> resize_outcome(current, new_size).0 == new_size,
{
}

} // verus!
