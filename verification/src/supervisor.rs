//! A bridge that is rebuilt by its factory after an unexpected exit, a
//! bounded number of times, with a growing pause before each attempt.
use vstd::prelude::*;
use vstd::string::*;
use crate::text::{decimal, push_decimal};

verus! {

/// `2^k`.
pub open spec fn pow2(k: nat) -> nat
    decreases k,
{
    if k == 0 { 1 } else { 2 * pow2((k - 1) as nat) }
}

/// The pause before the restart that follows `count` earlier ones, in
/// milliseconds: 100 ms, doubling with each restart up to the eighth.
pub open spec fn backoff_ms(count: nat) -> nat {
    100 * pow2(if count < 7 { count } else { 7 })
}

/// The refusal once every allowed restart has been used.
pub open spec fn max_restarts_message(max: u32) -> Seq<char> {
    "max restarts ("@ + decimal(max as nat) + ") reached"@
}

/// Leave to rebuild a supervised bridge once.  Only `begin_restart` hands
/// one out, when it accepts a restart; `finish_restart` takes it back.
pub struct RestartPermit {
    delay_ms: u64,
}

impl RestartPermit {
    /// The pause to wait before rebuilding, in milliseconds.
    pub closed spec fn spec_delay_ms(self) -> u64 {
        self.delay_ms
    }

    /// The pause to wait before rebuilding, in milliseconds.
    pub fn delay_ms(&self) -> (ms: u64)
        ensures
            ms == self.spec_delay_ms(),
    {
        self.delay_ms
    }
}

/// Wraps a bridge and restarts the child on unexpected exit.
#[verifier::reject_recursive_types(T)]
pub struct SupervisedBridge<T, F>
where
    F: Fn() -> Result<T, String> + Send + 'static,
{
    factory: F,
    max_restarts: u32,
    restart_count: u32,
    inner: Option<T>,
    /// How many restarts this bridge has finished: a count it keeps itself,
    /// one for each `finish_restart`.  That each finish calls the factory
    /// exactly once is what the body of `finish_restart` does, not something
    /// this count proves.
    rebuilds: Ghost<nat>,
}

impl<T, F> SupervisedBridge<T, F>
where
    F: Fn() -> Result<T, String> + Send + 'static,
{
    /// A bridge is always held; never more restarts begun than allowed, and
    /// never more restarts finished than begun.
    #[verifier::type_invariant]
    spec fn supervision_bounds(self) -> bool {
        &&& self.inner is Some
        &&& self.rebuilds@ <= self.restart_count
        &&& self.restart_count <= self.max_restarts
    }

    /// The function that builds the bridge.
    pub closed spec fn spec_factory(self) -> F {
        self.factory
    }

    /// How many restarts are allowed.
    pub closed spec fn spec_max_restarts(self) -> u32 {
        self.max_restarts
    }

    /// How many restarts have been begun.
    pub closed spec fn spec_restart_count(self) -> u32 {
        self.restart_count
    }

    /// How many restarts have been finished.
    pub closed spec fn spec_rebuilds(self) -> nat {
        self.rebuilds@
    }

    /// The bridge currently held.
    pub closed spec fn spec_inner(self) -> T {
        self.inner->0
    }

    /// The bounds that hold of every supervised bridge: at most as many
    /// restarts finished as begun, and at most as many begun as allowed.
    pub open spec fn within_budget(self) -> bool {
        self.spec_rebuilds() <= self.spec_restart_count() <= self.spec_max_restarts()
    }

    /// Builds the bridge once with `factory`; its failure is handed back.
    pub fn new(factory: F, max_restarts: u32) -> (r: Result<Self, String>)
        requires
            factory.requires(()),
        ensures
            match r {
                Ok(s) => {
                    &&& s.spec_factory() == factory
                    &&& s.spec_max_restarts() == max_restarts
                    &&& s.spec_restart_count() == 0
                    &&& s.spec_rebuilds() == 0
                    &&& factory.ensures((), Ok::<T, String>(s.spec_inner()))
                },
                Err(e) => factory.ensures((), Err::<T, String>(e)),
            },
    {
        let inner = match factory() {
            Ok(b) => b,
            Err(e) => return Err(e),
        };
        Ok(SupervisedBridge { factory, max_restarts, restart_count: 0, inner: Some(inner), rebuilds: Ghost(0) })
    }

    /// How many restarts are allowed.
    pub fn max_restarts(&self) -> (n: u32)
        ensures
            n == self.spec_max_restarts(),
    {
        self.max_restarts
    }

    /// How many restarts have been begun.
    pub fn restart_count(&self) -> (n: u32)
        ensures
            n == self.spec_restart_count(),
            self.within_budget(),
    {
        proof {
            use_type_invariant(self);
        }
        self.restart_count
    }

    /// Decides a restart: once every allowed restart has been used it is
    /// refused and nothing changes; otherwise the count of restarts grows by
    /// one and leave to rebuild is handed back, with the pause to wait first.
    pub fn begin_restart(&mut self) -> (r: Result<RestartPermit, String>)
        ensures
            final(self).spec_factory() == old(self).spec_factory(),
            final(self).spec_max_restarts() == old(self).spec_max_restarts(),
            final(self).spec_inner() == old(self).spec_inner(),
            final(self).spec_rebuilds() == old(self).spec_rebuilds(),
            final(self).within_budget(),
            old(self).spec_restart_count() >= old(self).spec_max_restarts() ==> {
                &&& final(self).spec_restart_count() == old(self).spec_restart_count()
                &&& r matches Err(m) && m@ == max_restarts_message(old(self).spec_max_restarts())
            },
            old(self).spec_restart_count() < old(self).spec_max_restarts() ==> {
                &&& final(self).spec_restart_count() == old(self).spec_restart_count() + 1
                &&& r matches Ok(p) && p.spec_delay_ms() as nat == backoff_ms(old(self).spec_restart_count() as nat)
            },
    {
        proof {
            use_type_invariant(&*self);
        }
        if self.restart_count >= self.max_restarts {
            let mut m = "max restarts (".to_owned();
            push_decimal(&mut m, self.max_restarts as u64);
            m.append(") reached");
            return Err(m);
        }
        let steps: u32 = if self.restart_count < 7 { self.restart_count } else { 7 };
        let mut delay: u64 = 100;
        let mut i: u32 = 0;
        while i < steps
            invariant
                0 <= i <= steps <= 7,
                delay as nat == 100 * pow2(i as nat),
            decreases steps - i,
        {
            proof {
                lemma_pow2_bound(i as nat);
            }
            delay = delay * 2;
            i = i + 1;
        }
        self.restart_count = self.restart_count + 1;
        Ok(RestartPermit { delay_ms: delay })
    }

    /// Rebuilds the bridge with the factory, spending the leave that
    /// `begin_restart` gave: the restart counts as finished, the new bridge
    /// is held on success, and on failure the bridge held so far stays and
    /// the factory's error is handed back.  The result is one the factory
    /// can give; the contract does not show how many times the factory ran
    /// (the body calls it once).
    pub fn finish_restart(&mut self, permit: RestartPermit) -> (r: Result<(), String>)
        requires
            old(self).spec_factory().requires(()),
            old(self).spec_rebuilds() < old(self).spec_restart_count(),
        ensures
            final(self).spec_factory() == old(self).spec_factory(),
            final(self).spec_max_restarts() == old(self).spec_max_restarts(),
            final(self).spec_restart_count() == old(self).spec_restart_count(),
            final(self).spec_rebuilds() == old(self).spec_rebuilds() + 1,
            final(self).within_budget(),
            match r {
                Ok(()) => old(self).spec_factory().ensures((), Ok::<T, String>(final(self).spec_inner())),
                Err(e) => final(self).spec_inner() == old(self).spec_inner()
                    && old(self).spec_factory().ensures((), Err::<T, String>(e)),
            },
    {
        proof {
            use_type_invariant(&*self);
        }
        let _ = permit;
        let built = (self.factory)();
        let ghost next = self.rebuilds@ + 1;
        match built {
            Ok(b) => {
                self.inner = Some(b);
                self.rebuilds = Ghost(next);
                Ok(())
            },
            Err(e) => {
                self.rebuilds = Ghost(next);
                Err(e)
            },
        }
    }

    /// Restarts the bridge after an unexpected failure.  Once every allowed
    /// restart has been used it is refused with "max restarts (N) reached"
    /// and nothing changes; otherwise the restart is counted, `wait` is handed
    /// the pause to wait before rebuilding, and the bridge is rebuilt as
    /// `finish_restart` rebuilds it.
    pub fn restart<W: Fn(u64)>(&mut self, wait: W) -> (r: Result<(), String>)
        requires
            old(self).spec_factory().requires(()),
            forall|ms: u64| #[trigger] wait.requires((ms,)),
        ensures
            final(self).spec_factory() == old(self).spec_factory(),
            final(self).spec_max_restarts() == old(self).spec_max_restarts(),
            final(self).within_budget(),
            old(self).spec_restart_count() >= old(self).spec_max_restarts() ==> {
                &&& final(self).spec_restart_count() == old(self).spec_restart_count()
                &&& final(self).spec_rebuilds() == old(self).spec_rebuilds()
                &&& final(self).spec_inner() == old(self).spec_inner()
                &&& r matches Err(m) && m@ == max_restarts_message(old(self).spec_max_restarts())
            },
            old(self).spec_restart_count() < old(self).spec_max_restarts() ==> {
                &&& final(self).spec_restart_count() == old(self).spec_restart_count() + 1
                &&& final(self).spec_rebuilds() == old(self).spec_rebuilds() + 1
                &&& match r {
                    Ok(()) => old(self).spec_factory().ensures((), Ok::<T, String>(final(self).spec_inner())),
                    Err(e) => final(self).spec_inner() == old(self).spec_inner()
                        && old(self).spec_factory().ensures((), Err::<T, String>(e)),
                }
            },
    {
        proof {
            use_type_invariant(&*self);
        }
        let permit = match self.begin_restart() {
            Ok(p) => p,
            Err(m) => return Err(m),
        };
        wait(permit.delay_ms());
        self.finish_restart(permit)
    }

    /// The bridge currently held; there always is one.
    pub fn inner(&self) -> (r: Option<&T>)
        ensures
            r matches Some(b) && *b == self.spec_inner(),
    {
        proof {
            use_type_invariant(self);
        }
        match &self.inner {
            Some(b) => Some(b),
            None => None,
        }
    }

    /// The bridge currently held, for changing it; there always is one.
    pub fn inner_mut(&mut self) -> (r: Option<&mut T>)
        ensures
            r matches Some(b) && old(self).spec_inner() == *b
                && final(self).spec_inner() == *final(b)
                && final(self).spec_factory() == old(self).spec_factory()
                && final(self).spec_max_restarts() == old(self).spec_max_restarts()
                && final(self).spec_restart_count() == old(self).spec_restart_count()
                && final(self).spec_rebuilds() == old(self).spec_rebuilds(),
    {
        proof {
            use_type_invariant(&*self);
        }
        option_as_mut(&mut self.inner)
    }
}

fn option_as_mut<T>(o: &mut Option<T>) -> (r: Option<&mut T>)
    ensures
        match r {
            Some(b) => *old(o) == Some(*b) && *final(o) == Some(*final(b)),
            None => *old(o) is None && *final(o) == *old(o),
        },
    no_unwind
{
    match o {
        Some(b) => Some(b),
        None => None,
    }
}

proof fn lemma_pow2_bound(k: nat)
    requires
        k < 7,
    ensures
        100 * pow2(k) * 2 <= 12800,
        pow2(k + 1) == 2 * pow2(k),
{
    reveal_with_fuel(pow2, 8);
    assert(k == 0 || k == 1 || k == 2 || k == 3 || k == 4 || k == 5 || k == 6);
}

} // verus!
