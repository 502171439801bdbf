//! Booting the secondary CPU cores one after the other: the stack a core is
//! given (a new one, or the one a core that failed to boot left unused) and
//! the count of the cores that came online.

use vstd::prelude::*;

verus! {

/// Where the stack for the next core comes from.
#[derive(Debug, Clone, Copy, PartialEq, Eq, Structural)]
pub enum ApStackChoice {
    /// The stack that the last core, which did not boot, left unused
    Reuse,
    /// A newly allocated stack
    Allocate,
}

/// The state of booting the secondary cores.
#[derive(Debug, Clone, Copy, PartialEq, Eq, Structural)]
pub struct ApBringup {
    /// The number of secondary cores that came online
    pub online_secondary_cpus: u32,
    /// Whether a stack is left over from a core that did not boot
    pub spare_stack: bool,
}

/// The state after the boot attempts `results` (true for a core that came
/// online, false for one that did not, whose stack was taken back).
pub open spec fn bringup_after(results: Seq<bool>) -> ApBringup
    decreases results.len(),
{
    if results.len() == 0 {
        ApBringup { online_secondary_cpus: 0, spare_stack: false }
    } else {
        let prev = bringup_after(results.drop_last());
        if results.last() {
            ApBringup { online_secondary_cpus: (prev.online_secondary_cpus + 1) as u32, spare_stack: false }
        } else {
            ApBringup { spare_stack: true, ..prev }
        }
    }
}

/// The number of cores among `results` that came online.
pub open spec fn count_online(results: Seq<bool>) -> nat
    decreases results.len(),
{
    if results.len() == 0 {
        0
    } else {
        count_online(results.drop_last()) + if results.last() {
            1nat
        } else {
            0nat
        }
    }
}

impl ApBringup {
    /// No core booted yet, no stack left over.
    pub fn new() -> (r: ApBringup)
        ensures
            r == bringup_after(Seq::empty()),
    {
        ApBringup { online_secondary_cpus: 0, spare_stack: false }
    }

    /// Where the next core's stack comes from: the left-over one if there is
    /// one, else a new one.
    pub fn stack_for_next_cpu(&self) -> (r: ApStackChoice)
        ensures
            r == (if self.spare_stack {
                ApStackChoice::Reuse
            } else {
                ApStackChoice::Allocate
            }),
    {
        if self.spare_stack {
            ApStackChoice::Reuse
        } else {
            ApStackChoice::Allocate
        }
    }

    /// Records that the core came online: it keeps its stack.
    pub fn cpu_online(&mut self)
        requires
            old(self).online_secondary_cpus < u32::MAX,
        ensures
            *final(self) == (ApBringup {
                online_secondary_cpus: (old(self).online_secondary_cpus + 1) as u32,
                spare_stack: false,
            }),
    {
        self.online_secondary_cpus = self.online_secondary_cpus + 1;
        self.spare_stack = false;
    }

    /// Records that the core did not boot; its stack was taken back for the
    /// next core.
    pub fn cpu_failed(&mut self)
        ensures
            *final(self) == (ApBringup { spare_stack: true, ..*old(self) }),
    {
        self.spare_stack = true;
    }
}

/// After any boot attempts, the count of online cores is the number of
/// attempts that succeeded, and a stack is left over exactly when the last
/// attempt failed.
pub proof fn law_online_count(results: Seq<bool>)
    requires
        count_online(results) <= u32::MAX,
    ensures
        bringup_after(results).online_secondary_cpus == count_online(results),
        bringup_after(results).spare_stack == (results.len() > 0 && !results.last()),
    decreases results.len(),
{
    if results.len() > 0 {
        law_online_count(results.drop_last());
    }
}

} // verus!
