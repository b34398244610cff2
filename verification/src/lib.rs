//! Host-side core of an auto-splitting runtime: a timer state machine driven
//! by a sandboxed module, an insertion-ordered settings map exchanged with it
//! through an optimistic-concurrency protocol, tick scheduling, statistics,
//! and the module lifecycle decisions.

pub mod lifecycle;
pub mod logs;
pub mod schedule;
pub mod settings;
pub mod stats;
pub mod sync;
pub mod tick;
pub mod timer;
pub mod vars;
pub mod widgets;

use vstd::prelude::*;

verus! {

/// Whether the window manager applied a transparency effect to the host
/// window. On platforms without such an effect this is always `false`.
pub fn use_transparency() -> (r: bool)
    ensures
        !r,
{
    false
}


} // verus!
