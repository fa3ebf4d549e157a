//! Command-line options that drive the render loop: whether the script is
//! watched at all, and whether an empty window set ends the loop.

use vstd::prelude::*;

verus! {

/// The two flags of the viewer. `keep` is honoured only when the script is
/// watched: with `once` set, watching is off and `keep` is forced off too.
#[derive(Clone, Copy, Debug, PartialEq, Eq, Structural)]
pub struct Options {
    pub once: bool,
    pub keep: bool,
}

/// The loop ends exactly when no window is live and `keep` is not set.
pub open spec fn loop_exits(live: int, keep: bool) -> bool {
    live == 0 && !keep
}

impl Options {
    /// Interprets the raw command-line flags: `--keep` is ignored when
    /// `--once` is given.
    pub fn from_flags(once: bool, keep: bool) -> (r: Options)
        ensures
            r.once == once,
            r.keep == (!once && keep),
    {
        Options { once, keep: !once && keep }
    }

    /// Whether the script file is watched for changes after the first load.
    pub fn watches(&self) -> (r: bool)
        ensures
            r == !self.once,
    {
        !self.once
    }

    /// Whether the render loop terminates, given how many windows are live
    /// after this frame's closed windows were removed.
    pub fn should_exit(&self, live: usize) -> (r: bool)
        ensures
            r == loop_exits(live as int, self.keep),
    {
        live == 0 && !self.keep
    }
}

} // verus!
