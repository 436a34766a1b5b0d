//! Client side of a compositor session that presents shared-memory pixel
//! buffers: registry resolution, shell election and configuration, an
//! all-or-nothing buffer pool, and a redraw cycle driven by frame callbacks.
use vstd::prelude::*;

pub mod bytes;
pub mod naming;
pub mod pool;
pub mod redraw;
pub mod registry;
pub mod session;
pub mod window;

verus! {

/// How the process ends on a startup-fatal condition: the condition is
/// reported once, with its diagnostic, and the process exits with a failure
/// status; nothing is retried.
pub fn panic(error: crate::session::SetupError) -> (r: (i32, &'static str))
    ensures
        r.0 == 1,
        r.1@ == crate::session::diagnostic(error),
{
    (1, error.message())
}

} // verus!
