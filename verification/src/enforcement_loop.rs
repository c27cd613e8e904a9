//! The enforcement loop's decisions: each polling round shows the engine the
//! locked processes found and collects what to do about each. Reading the
//! process list, sleeping and carrying out the actions happen outside.

use vstd::prelude::*;
use crate::clock::{instant_in_range, MAX_INSTANT_MS, MIN_INSTANT_MS};
use crate::enforcement::{law_decision_preserves, check_step, decision_ready, EnforcementAction, EnforcementEngine, EngineView};
use crate::ipc::IpcChannel;
use crate::process::{process_views, ProcessInfo, ProcessInfoView};
use crate::service_error::ServiceResult;

verus! {

/// The engine's state after a round over `ps` at clock reading `now`, and the
/// action decided for each process, in order.
pub open spec fn run_round(pre: EngineView, ps: Seq<ProcessInfoView>, now: int) -> (EngineView, Seq<EnforcementAction>)
    decreases ps.len(),
{
    if ps.len() == 0 {
        (pre, Seq::empty())
    } else {
        let (mid, actions) = run_round(pre, ps.drop_last(), now);
        let (post, action) = check_step(mid, ps.last(), now);
        (post, actions.push(action))
    }
}

/// A round over `ps` can be decided at `now`: `now` is a representable instant,
/// and each decision of the round can be made in the state that the decisions
/// before it leave (see [`decision_ready`]).
pub open spec fn round_ready(pre: EngineView, ps: Seq<ProcessInfoView>, now: int) -> bool {
    &&& instant_in_range(now)
    &&& forall|i: int| 0 <= i < ps.len() ==> #[trigger] decision_ready(run_round(pre, ps.take(i), now).0, ps[i], now)
}

/// Main enforcement loop state: the engine and the channel to the UI.
#[derive(Debug)]
pub struct EnforcementLoop {
    engine: EnforcementEngine,
    ipc: IpcChannel,
}

impl View for EnforcementLoop {
    type V = EngineView;

    closed spec fn view(&self) -> EngineView {
        self.engine@
    }
}

impl EnforcementLoop {
    /// Creates the loop for `engine`, opening the channel to the UI.
    pub fn new(engine: EnforcementEngine) -> (r: ServiceResult<Self>)
        ensures
            r matches Ok(l) && l@ == engine@,
    {
        let ghost view = engine@;
        let ipc = match IpcChannel::new() {
            Ok(c) => c,
            Err(e) => {
                return Err(e);
            },
        };
        Ok(EnforcementLoop { engine, ipc })
    }

    /// The enforcement engine.
    pub fn engine(&self) -> (e: &EnforcementEngine)
        ensures
            e@ == self@,
    {
        &self.engine
    }

    /// The loop's channel to the UI.
    pub closed spec fn channel(&self) -> IpcChannel {
        self.ipc
    }

    /// The channel to the UI.
    pub fn ipc(&self) -> (c: &IpcChannel)
        ensures
            *c == self.channel(),
    {
        &self.ipc
    }

    /// Whether a round over `process` alone can be decided at `now` (see [`round_ready`]).
    pub fn step_ready_at(&self, process: &ProcessInfo, now: i64) -> (b: bool)
        ensures
            b == round_ready(self@, seq![process@], now as int),
    {
        let ready = self.engine.decision_ready_at(process, now);
        proof {
            let ps = seq![process@];
            assert(ps.take(0) =~= Seq::<ProcessInfoView>::empty());
            assert(run_round(self@, ps.take(0), now as int).0 == self@);
            if round_ready(self@, ps, now as int) {
                assert(decision_ready(run_round(self@, ps.take(0), now as int).0, ps[0], now as int));
            }
        }
        MIN_INSTANT_MS <= now && now <= MAX_INSTANT_MS && ready
    }

    /// Decides, at clock reading `now`, what to do about each process in `found`, in order.
    pub fn decide_at(&mut self, found: &[ProcessInfo], now: i64) -> (actions: Vec<EnforcementAction>)
        requires
            round_ready(old(self)@, process_views(found@), now as int),
        ensures
            (final(self)@, actions@) == run_round(old(self)@, process_views(found@), now as int),
    {
        let ghost start = self@;
        let mut actions: Vec<EnforcementAction> = Vec::new();
        let mut i: usize = 0;
        while i < found.len()
            invariant
                i <= found@.len(),
                round_ready(start, process_views(found@), now as int),
                (self@, actions@) == run_round(start, process_views(found@.take(i as int)), now as int),
            decreases found.len() - i,
        {
            proof {
                let all = process_views(found@);
                assert(all.take(i as int) =~= process_views(found@.take(i as int)));
                assert(all[i as int] == found@[i as int]@);
                assert(decision_ready(run_round(start, all.take(i as int), now as int).0, all[i as int], now as int));
            }
            let r = self.engine.check_process_at(&found[i], now);
            proof {
                let ps = process_views(found@.take(i + 1));
                assert(ps.drop_last() =~= process_views(found@.take(i as int)));
                assert(ps.last() == found@[i as int]@);
            }
            match r {
                Ok(a) => actions.push(a),
                Err(_) => {},
            }
            i = i + 1;
        }
        assert(found@.take(found@.len() as int) =~= found@);
        actions
    }
}


/// A round after the lock has ended ignores every process and changes nothing.
pub proof fn law_round_after_lock_end(pre: EngineView, ps: Seq<ProcessInfoView>, now: int)
    requires
        !pre.lock.active_at(now),
    ensures
        run_round(pre, ps, now).0 == pre,
        run_round(pre, ps, now).1 == Seq::new(ps.len(), |i: int| EnforcementAction::Ignore),
    decreases ps.len(),
{
    if ps.len() > 0 {
        law_round_after_lock_end(pre, ps.drop_last(), now);
        assert(run_round(pre, ps, now).1 =~= Seq::new(ps.len(), |i: int| EnforcementAction::Ignore));
    }
}

/// Every process found is shown to the engine: a round decides one action per
/// process, in order, and each is the engine's decision for that process in the
/// state that the decisions before it leave.
pub proof fn law_round_decides_each(pre: EngineView, ps: Seq<ProcessInfoView>, now: int)
    ensures
        run_round(pre, ps, now).1.len() == ps.len(),
        forall|i: int|
            0 <= i < ps.len() ==> #[trigger] run_round(pre, ps, now).1[i] == check_step(
                run_round(pre, ps.take(i), now).0,
                ps[i],
                now,
            ).1,
    decreases ps.len(),
{
    if ps.len() > 0 {
        let rest = ps.drop_last();
        law_round_decides_each(pre, rest, now);
        assert forall|i: int| 0 <= i < ps.len() implies #[trigger] run_round(pre, ps, now).1[i] == check_step(
            run_round(pre, ps.take(i), now).0,
            ps[i],
            now,
        ).1 by {
            if i < ps.len() - 1 {
                assert(rest.take(i) =~= ps.take(i));
                assert(run_round(pre, rest, now).1[i] == check_step(run_round(pre, rest.take(i), now).0, rest[i], now).1);
            } else {
                assert(ps.take(i) =~= rest);
            }
        }
    }
}

/// A round never changes the lock being enforced.
pub proof fn law_round_keeps_lock(pre: EngineView, ps: Seq<ProcessInfoView>, now: int)
    ensures
        run_round(pre, ps, now).0.lock == pre.lock,
        run_round(pre, ps, now).1.len() == ps.len(),
    decreases ps.len(),
{
    if ps.len() > 0 {
        law_round_keeps_lock(pre, ps.drop_last(), now);
        law_decision_preserves(run_round(pre, ps.drop_last(), now).0, ps.last(), now);
    }
}

} // verus!
