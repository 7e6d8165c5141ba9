use vstd::prelude::*;

verus! {

/// One more than the largest signal number.
pub const NSIG: usize = 64;

/// The signal number that stands for "ignore".
pub const SIG_IGN: i32 = 1;

/// A signal number outside `[1, NSIG)`.
#[derive(Clone, Copy, Debug, PartialEq, Eq, Structural)]
pub struct SignalRangeError;

/// Whether `signum` names a signal.
pub open spec fn in_range(signum: int) -> bool {
    1 <= signum < NSIG
}

/// Accepts a signal number in `[1, NSIG)`.
pub fn assert_in_range(signum: i32) -> (r: Result<(), SignalRangeError>)
    ensures
        r is Ok <==> in_range(signum as int),
{
    if 1 <= signum && signum < NSIG as i32 {
        Ok(())
    } else {
        Err(SignalRangeError)
    }
}

/// The pending-signal flags: one per signal number, and one that says some
/// flag may be set.
pub struct SignalState {
    any_triggered: bool,
    triggers: Vec<bool>,
}

impl SignalState {
    /// Whether some signal may be pending.
    pub closed spec fn any(&self) -> bool {
        self.any_triggered
    }

    /// The per-signal flags, indexed by signal number.
    pub closed spec fn flags(&self) -> Seq<bool> {
        self.triggers@
    }

    /// There is one flag per signal number.
    pub open spec fn wf(&self) -> bool {
        self.flags().len() == NSIG
    }

    /// No signal pending.
    pub fn new() -> (s: SignalState)
        ensures
            s.wf(),
            !s.any(),
            forall|i: int| 0 <= i < NSIG ==> !s.flags()[i],
    {
        let mut triggers: Vec<bool> = Vec::new();
        let mut i: usize = 0;
        while i < NSIG
            invariant
                0 <= i <= NSIG,
                triggers@.len() == i,
                forall|j: int| 0 <= j < i ==> !triggers@[j],
            decreases NSIG - i,
        {
            triggers.push(false);
            i = i + 1;
        }
        SignalState { any_triggered: false, triggers }
    }

    /// Notes that some signal may be pending.
    pub fn set_triggered(&mut self)
        ensures
            final(self).any(),
            final(self).flags() == old(self).flags(),
    {
        self.any_triggered = true;
    }

    /// Marks `signum` as pending.
    pub fn run_signal(&mut self, signum: usize)
        requires
            old(self).wf(),
            signum < NSIG,
        ensures
            final(self).wf(),
            final(self).any(),
            final(self).flags() == old(self).flags().update(signum as int, true),
    {
        self.triggers.set(signum, true);
        self.any_triggered = true;
    }

    /// The next pending signal at or after `from` (signal 0 is never
    /// reported), with its flag cleared; none when no flag is set there.
    pub fn take_triggered(&mut self, from: usize) -> (r: Option<usize>)
        requires
            old(self).wf(),
        ensures
            final(self).wf(),
            final(self).any() == old(self).any(),
            match r {
                Some(k) => {
                    &&& 1 <= k < NSIG
                    &&& from <= k
                    &&& old(self).flags()[k as int]
                    &&& forall|j: int|
                        from <= j < k && 1 <= j ==> !old(self).flags()[j]
                    &&& final(self).flags() == old(self).flags().update(k as int, false)
                },
                None => {
                    &&& forall|j: int| from <= j < NSIG && 1 <= j ==> !old(self).flags()[j]
                    &&& final(self).flags() == old(self).flags()
                },
            },
    {
        let mut k: usize = if from < 1 {
            1
        } else {
            from
        };
        while k < NSIG
            invariant
                self.wf(),
                *self == *old(self),
                1 <= k,
                from <= k,
                forall|j: int| from <= j < k && 1 <= j ==> !self.flags()[j],
            decreases NSIG - k,
        {
            if self.triggers[k] {
                self.triggers.set(k, false);
                return Some(k);
            }
            k = k + 1;
        }
        None
    }
}

/// Whether pending handlers must run now. With no handlers installed
/// nothing changes; otherwise the "some pending" flag is taken (cleared)
/// and returned.
pub fn check_signals(state: &mut SignalState, handlers_installed: bool) -> (run: bool)
    ensures
        !handlers_installed ==> !run && *final(state) == *old(state),
        handlers_installed ==> run == old(state).any() && !final(state).any(),
        final(state).flags() == old(state).flags(),
{
    if !handlers_installed {
        return false;
    }
    let was = state.any_triggered;
    state.any_triggered = false;
    was
}

/// Interrupts with `signum`: refused outside `[1, NSIG)`, ignored for the
/// "ignore" signal, and otherwise marked pending.
pub fn set_interrupt_ex(state: &mut SignalState, signum: i32) -> (r: Result<(), SignalRangeError>)
    requires
        old(state).wf(),
    ensures
        final(state).wf(),
        !in_range(signum as int) ==> r is Err && *final(state) == *old(state),
        signum == SIG_IGN ==> r is Ok && *final(state) == *old(state),
        in_range(signum as int) && signum != SIG_IGN ==> r is Ok && final(state).any()
            && final(state).flags() == old(state).flags().update(signum as int, true),
{
    match assert_in_range(signum) {
        Err(e) => Err(e),
        Ok(()) => {
            if signum != SIG_IGN {
                state.run_signal(signum as usize);
            }
            Ok(())
        },
    }
}

} // verus!
