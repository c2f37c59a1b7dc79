//! The credit economy: periodic accrual from processor workloads fed by
//! matched miners (each processor capped at 3 effective miners), and
//! periodic consumption proportional to the total workload count. All
//! credit arithmetic saturates: credits never go negative and never
//! overflow.

use vstd::prelude::*;
use crate::model::{UnitKind, Workload, WorkloadModel, ClusterSnapshot};
use crate::nav::{GameState, GameStateModel};

verus! {

/// Whether the workload is a miner whose target-address configuration
/// points at `addr`.
pub open spec fn targets(w: WorkloadModel, addr: Seq<char>) -> bool {
    w.kind is Miner && w.target_address == Some(addr)
}

/// How many miners of the sequence target the given address.
pub open spec fn count_targeting(ws: Seq<WorkloadModel>, addr: Seq<char>) -> nat
    decreases ws.len(),
{
    if ws.len() == 0 {
        0
    } else {
        count_targeting(ws.drop_last(), addr) + if targets(ws.last(), addr) {
            1nat
        } else {
            0nat
        }
    }
}

/// The distinct addresses of processors that have an assigned address, in
/// order of first appearance.
pub open spec fn processor_addrs(ws: Seq<WorkloadModel>) -> Seq<Seq<char>>
    decreases ws.len(),
{
    if ws.len() == 0 {
        Seq::empty()
    } else {
        let prev = processor_addrs(ws.drop_last());
        let w = ws.last();
        match w.address {
            Some(a) => if w.kind is Processor && !prev.contains(a) {
                prev.push(a)
            } else {
                prev
            },
            None => prev,
        }
    }
}

/// A processor's contribution is its number of targeting miners, capped at 3.
pub open spec fn capped(n: nat) -> nat {
    if n > 3 {
        3
    } else {
        n
    }
}

/// The total contribution of the given processor addresses.
pub open spec fn sum_contributions(ws: Seq<WorkloadModel>, addrs: Seq<Seq<char>>) -> nat
    decreases addrs.len(),
{
    if addrs.len() == 0 {
        0
    } else {
        sum_contributions(ws, addrs.drop_last()) + capped(count_targeting(ws, addrs.last()))
    }
}

/// The credits one accrual tick earns: over every distinct assigned
/// processor address, the number of miners targeting it, capped at 3.
pub open spec fn accrual(ws: Seq<WorkloadModel>) -> nat {
    sum_contributions(ws, processor_addrs(ws))
}

/// A natural number clipped to the machine's unsigned range.
pub open spec fn cap_usize(n: nat) -> nat {
    if n > usize::MAX {
        usize::MAX as nat
    } else {
        n
    }
}

/// No address contributes more than 3, however many miners target it: the
/// whole accrual is bounded by 3 credits per distinct processor address.
pub proof fn lemma_sum_contributions_capped(ws: Seq<WorkloadModel>, addrs: Seq<Seq<char>>)
    ensures
        sum_contributions(ws, addrs) <= 3 * addrs.len(),
    decreases addrs.len(),
{
    if addrs.len() > 0 {
        lemma_sum_contributions_capped(ws, addrs.drop_last());
    }
}

/// Per-processor accrual is capped: a snapshot never earns more than 3
/// credits per distinct processor address, regardless of how many miners
/// target each of them.
pub proof fn lemma_accrual_capped(ws: Seq<WorkloadModel>)
    ensures
        accrual(ws) <= 3 * processor_addrs(ws).len(),
{
    lemma_sum_contributions_capped(ws, processor_addrs(ws));
}

/// With a single distinct processor address, the whole accrual is exactly
/// that processor's miner count capped at 3: five miners targeting one
/// processor yield 3, not 5.
pub proof fn lemma_single_processor_accrual(ws: Seq<WorkloadModel>, addr: Seq<char>)
    requires
        processor_addrs(ws) == seq![addr],
    ensures
        accrual(ws) == capped(count_targeting(ws, addr)),
{
    let addrs = seq![addr];
    assert(addrs.drop_last() =~= Seq::<Seq<char>>::empty());
    assert(sum_contributions(ws, addrs.drop_last()) == 0);
}

proof fn lemma_count_targeting_take_step(ws: Seq<WorkloadModel>, addr: Seq<char>, i: int)
    requires
        0 <= i < ws.len(),
    ensures
        count_targeting(ws.take(i + 1), addr) == count_targeting(ws.take(i), addr) + if targets(
            ws[i],
            addr,
        ) {
            1nat
        } else {
            0nat
        },
{
    assert(ws.take(i + 1).drop_last() =~= ws.take(i));
    assert(ws.take(i + 1).last() == ws[i]);
}

proof fn lemma_processor_addrs_take_step(ws: Seq<WorkloadModel>, i: int)
    requires
        0 <= i < ws.len(),
    ensures
        processor_addrs(ws.take(i + 1)) == (match ws[i].address {
            Some(a) => if ws[i].kind is Processor && !processor_addrs(ws.take(i)).contains(a) {
                processor_addrs(ws.take(i)).push(a)
            } else {
                processor_addrs(ws.take(i))
            },
            None => processor_addrs(ws.take(i)),
        }),
{
    assert(ws.take(i + 1).drop_last() =~= ws.take(i));
    assert(ws.take(i + 1).last() == ws[i]);
}

proof fn lemma_sum_contributions_take_step(ws: Seq<WorkloadModel>, addrs: Seq<Seq<char>>, j: int)
    requires
        0 <= j < addrs.len(),
    ensures
        sum_contributions(ws, addrs.take(j + 1)) == sum_contributions(ws, addrs.take(j)) + capped(
            count_targeting(ws, addrs[j]),
        ),
{
    assert(addrs.take(j + 1).drop_last() =~= addrs.take(j));
    assert(addrs.take(j + 1).last() == addrs[j]);
}

/// Adds with saturation at the machine limit.
pub fn sat_add(a: usize, b: usize) -> (r: usize)
    ensures
        r == cap_usize((a + b) as nat),
{
    if a <= usize::MAX - b {
        a + b
    } else {
        usize::MAX
    }
}

/// Subtracts with saturation at zero.
pub fn sat_sub(a: usize, b: usize) -> (r: usize)
    ensures
        b <= a ==> r == a - b,
        b > a ==> r == 0,
{
    if a >= b {
        a - b
    } else {
        0
    }
}

/// Whether one of the collected addresses equals `addr`.
fn contains_addr(addrs: &Vec<String>, addr: &String) -> (r: bool)
    ensures
        r == addrs.deep_view().contains(addr@),
{
    let mut j: usize = 0;
    while j < addrs.len()
        invariant
            j <= addrs.len(),
            addrs.deep_view().len() == addrs.len(),
            forall|k: int| 0 <= k < j ==> addrs.deep_view()[k] != addr@,
        decreases addrs.len() - j,
    {
        if addrs[j].eq(addr) {
            assert(addrs.deep_view()[j as int] == addr@);
            return true;
        }
        j = j + 1;
    }
    assert(!addrs.deep_view().contains(addr@));
    false
}

/// How many miners of the listing target the given address.
fn count_miners_targeting(workloads: &Vec<Workload>, addr: &String) -> (n: usize)
    ensures
        n == count_targeting(workloads.deep_view(), addr@),
{
    let ghost ws = workloads.deep_view();
    let mut n: usize = 0;
    let mut i: usize = 0;
    while i < workloads.len()
        invariant
            i <= workloads.len(),
            ws == workloads.deep_view(),
            ws.len() == workloads.len(),
            n == count_targeting(ws.take(i as int), addr@),
            n <= i,
        decreases workloads.len() - i,
    {
        proof {
            lemma_count_targeting_take_step(ws, addr@, i as int);
        }
        let is_miner = match workloads[i].kind {
            UnitKind::Miner => true,
            _ => false,
        };
        if is_miner {
            match &workloads[i].target_address {
                Some(t) => {
                    if t.eq(addr) {
                        n = n + 1;
                    }
                },
                None => {},
            }
        }
        i = i + 1;
    }
    proof {
        assert(ws.take(workloads.len() as int) =~= ws);
    }
    n
}

/// The credits one accrual tick earns from the listing: every distinct
/// assigned processor address contributes its count of targeting miners,
/// capped at 3; the total saturates at the machine limit.
pub fn accrued_credits(workloads: &Vec<Workload>) -> (r: usize)
    ensures
        r == cap_usize(accrual(workloads.deep_view())),
{
    let ghost ws = workloads.deep_view();
    let mut addrs: Vec<String> = Vec::new();
    let mut i: usize = 0;
    while i < workloads.len()
        invariant
            i <= workloads.len(),
            ws == workloads.deep_view(),
            ws.len() == workloads.len(),
            addrs.deep_view() == processor_addrs(ws.take(i as int)),
        decreases workloads.len() - i,
    {
        proof {
            lemma_processor_addrs_take_step(ws, i as int);
        }
        let is_processor = match workloads[i].kind {
            UnitKind::Processor => true,
            _ => false,
        };
        if is_processor {
            match &workloads[i].address {
                Some(a) => {
                    if !contains_addr(&addrs, a) {
                        addrs.push(a.clone());
                    }
                },
                None => {},
            }
        }
        i = i + 1;
    }
    proof {
        assert(ws.take(workloads.len() as int) =~= ws);
    }
    let ghost aseq = addrs.deep_view();
    let mut total: usize = 0;
    let mut j: usize = 0;
    while j < addrs.len()
        invariant
            j <= addrs.len(),
            aseq == addrs.deep_view(),
            aseq.len() == addrs.len(),
            aseq == processor_addrs(ws),
            ws == workloads.deep_view(),
            total == cap_usize(sum_contributions(ws, aseq.take(j as int))),
        decreases addrs.len() - j,
    {
        proof {
            lemma_sum_contributions_take_step(ws, aseq, j as int);
        }
        let c = count_miners_targeting(workloads, &addrs[j]);
        let extra = if c > 3 {
            3
        } else {
            c
        };
        total = sat_add(total, extra);
        j = j + 1;
    }
    proof {
        assert(aseq.take(addrs.len() as int) =~= aseq);
    }
    total
}

/// One event of the economy, as the periodic routines apply them.
pub enum EconEvent {
    /// An accrual tick adding the given amount, saturating at the limit.
    Accrue { amount: nat },
    /// A consumption tick removing the given amount, saturating at zero.
    Consume { amount: nat },
}

/// The credits after one economy event, with both saturations applied.
pub open spec fn apply_event(credits: int, e: EconEvent) -> int {
    match e {
        EconEvent::Accrue { amount } => if credits + amount > usize::MAX {
            usize::MAX as int
        } else {
            credits + amount
        },
        EconEvent::Consume { amount } => if credits - amount < 0 {
            0
        } else {
            credits - amount
        },
    }
}

/// The credits after a whole sequence of economy events, applied in order.
pub open spec fn run_events(credits: int, es: Seq<EconEvent>) -> int
    decreases es.len(),
{
    if es.len() == 0 {
        credits
    } else {
        run_events(apply_event(credits, es[0]), es.subrange(1, es.len() as int))
    }
}

/// Credits never go negative and never overflow: any sequence of accrual
/// and consumption events keeps them within `[0, usize::MAX]`.
pub proof fn lemma_credits_in_range(credits: int, es: Seq<EconEvent>)
    requires
        0 <= credits <= usize::MAX,
    ensures
        0 <= run_events(credits, es) <= usize::MAX,
    decreases es.len(),
{
    if es.len() > 0 {
        lemma_credits_in_range(apply_event(credits, es[0]), es.subrange(1, es.len() as int));
    }
}

/// One accrual tick: adds the snapshot's accrual to the credits, saturating
/// at the machine limit; nothing else of the state changes.
pub fn earn_tick(snapshot: &ClusterSnapshot, state: &mut GameState)
    ensures
        final (state)@ == (GameStateModel {
            credits: cap_usize(old(state)@.credits + accrual(snapshot@.workloads)),
            ..old(state)@
        }),
        final (state)@.credits == apply_event(
            old(state)@.credits as int,
            EconEvent::Accrue { amount: accrual(snapshot@.workloads) },
        ),
{
    let earned = accrued_credits(&snapshot.workloads);
    state.credits = sat_add(state.credits, earned);
}

/// One consumption tick: subtracts the total workload count from the
/// credits, saturating at zero; nothing else of the state changes.
pub fn consume_tick(snapshot: &ClusterSnapshot, state: &mut GameState)
    ensures
        final (state)@ == (GameStateModel {
            credits: apply_event(
                old(state)@.credits as int,
                EconEvent::Consume { amount: snapshot@.workloads.len() },
            ) as nat,
            ..old(state)@
        }),
{
    let consumed = snapshot.workloads.len();
    state.credits = sat_sub(state.credits, consumed);
}

} // verus!
