//! A machine: one hart, its memory, and the kernel that services its
//! system calls and breakpoints.
use crate::error::MachineError;
use crate::hart::Hart32;
use crate::memory::Memory;
use crate::semantics::{step_outcome, HartState, Outcome};
use vstd::prelude::*;

verus! {

/// What a step, or the kernel servicing a trap, reports.
#[derive(Clone, Copy, Debug, PartialEq, Eq, Structural)]
pub enum StepResult {
    /// Execution continues.
    Continue,
    /// The guest exited with this status.
    Exit(i32),
    /// The guest stopped at a breakpoint.
    Break,
}

/// The host side of `ECALL` and `EBREAK`. Both receive the hart and memory
/// and may change them; the syscall number is in `a7`, the arguments in
/// `a0..a5`, and the return value goes to `a0`.
pub trait Kernel {
    type Error;

    fn syscall(&mut self, hart: &mut Hart32, mem: &mut Memory) -> Result<StepResult, Self::Error>;

    fn ebreak(&mut self, hart: &mut Hart32, mem: &mut Memory) -> Result<StepResult, Self::Error>;
}

/// The hart state and memory after `n` steps from `s` and `m`, when each of
/// them retires an instruction without trapping to the kernel.
pub open spec fn run_states(s: HartState, m: Seq<u8>, n: nat) -> Option<(HartState, Seq<u8>)>
    decreases n,
{
    if n == 0 {
        Some((s, m))
    } else {
        match run_states(s, m, (n - 1) as nat) {
            Some(prev) => match step_outcome(prev.0, prev.1) {
                Outcome::Retired(s2, m2) => Some((s2, m2)),
                _ => None,
            },
            None => None,
        }
    }
}

/// `n` successive steps from `s` and `m` all retire without a trap.
pub open spec fn retires_n(s: HartState, m: Seq<u8>, n: nat) -> bool {
    run_states(s, m, n) is Some
}

/// If `n` steps retire, so do the first `k` of them.
pub proof fn lemma_retires_prefix(s: HartState, m: Seq<u8>, n: nat, k: nat)
    requires
        k <= n,
        retires_n(s, m, n),
    ensures
        retires_n(s, m, k),
    decreases n,
{
    if k < n {
        lemma_retires_prefix(s, m, (n - 1) as nat, k);
    }
}

/// A hart bound to its memory and kernel.
pub struct Machine<K: Kernel> {
    pub hart: Hart32,
    pub mem: Memory,
    pub kernel: K,
}

impl<K: Kernel> Machine<K> {
    /// A machine with a zeroed hart over `mem`.
    pub fn new(kernel: K, mem: Memory) -> (m: Machine<K>)
        ensures
            m.mem@ == mem@,
            m.hart@ == (HartState {
                regs: Seq::new(32, |i: int| 0u32),
                csrs: Seq::new(4096, |i: int| 0u32),
                pc: 0,
                inst_count: 0,
                amo_rsv: None,
            }),
    {
        Machine { hart: Hart32::new(), mem, kernel }
    }

    /// Steps until a step reports something other than `StepResult::Continue`
    /// or fails, for at most `max_steps` steps. Returns that report, or
    /// `None` when the budget, or the instruction counter, ran out first.
    pub fn run(&mut self, max_steps: u64) -> (r: Result<Option<StepResult>, MachineError<K::Error>>)
        ensures
            r is Ok && r->Ok_0 is Some ==> r->Ok_0->Some_0 != StepResult::Continue,
            old(self).hart@.inst_count + max_steps <= u64::MAX && retires_n(
                old(self).hart@,
                old(self).mem@,
                max_steps as nat,
            ) ==> {
                &&& r == Ok::<Option<StepResult>, MachineError<K::Error>>(None)
                &&& Some((final(self).hart@, final(self).mem@)) == run_states(
                    old(self).hart@,
                    old(self).mem@,
                    max_steps as nat,
                )
            },
            max_steps > 0 && old(self).hart@.inst_count < u64::MAX ==> match step_outcome(
                old(self).hart@,
                old(self).mem@,
            ) {
                Outcome::HartFault(e) => r == Err::<Option<StepResult>, MachineError<K::Error>>(
                    MachineError::Hart(e),
                ),
                Outcome::MemoryFault(e) => r == Err::<Option<StepResult>, MachineError<K::Error>>(
                    MachineError::Memory(e),
                ),
                _ => true,
            },
            r matches Err(MachineError::Hart(e)) ==> step_outcome(final(self).hart@, final(self).mem@)
                == Outcome::HartFault(e),
            r matches Err(MachineError::Memory(e)) ==> step_outcome(
                final(self).hart@,
                final(self).mem@,
            ) == Outcome::MemoryFault(e),
    {
        let ghost s0 = self.hart@;
        let ghost m0 = self.mem@;
        let ghost mut ok = true;
        let mut n: u64 = 0;
        while n < max_steps
            invariant
                n <= max_steps,
                ok ==> run_states(s0, m0, n as nat) == Some((self.hart@, self.mem@)),
                ok ==> self.hart@.inst_count == s0.inst_count + n,
                retires_n(s0, m0, max_steps as nat) ==> ok,
                n == 0 ==> self.hart@ == s0 && self.mem@ == m0,
                n > 0 ==> !(step_outcome(s0, m0) is HartFault) && !(step_outcome(s0, m0) is MemoryFault),
                s0 == old(self).hart@,
                m0 == old(self).mem@,
            decreases max_steps - n,
        {
            if self.hart.retired() == u64::MAX {
                return Ok(None);
            }
            let ghost before_h = self.hart@;
            let ghost before_m = self.mem@;
            proof {
                if retires_n(s0, m0, max_steps as nat) {
                    lemma_retires_prefix(s0, m0, max_steps as nat, (n + 1) as nat);
                }
            }
            match self.hart.step(&mut self.mem, &mut self.kernel) {
                Ok(StepResult::Continue) => {
                    proof {
                        if ok {
                            match step_outcome(before_h, before_m) {
                                Outcome::Retired(s2, m2) => {
                                    assert(run_states(s0, m0, (n + 1) as nat) == Some((s2, m2)));
                                },
                                _ => {
                                    ok = false;
                                },
                            }
                        }
                    }
                },
                Ok(res) => {
                    return Ok(Some(res));
                },
                Err(e) => {
                    return Err(e);
                },
            }
            n = n + 1;
        }
        Ok(None)
    }
}

} // verus!
