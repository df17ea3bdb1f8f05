use vstd::prelude::*;

use crate::error::{FlowError, Invalid};
use crate::pin::valid_pin;
use crate::provider::verdict_of;
use crate::saga::{
    action_key, lemma_step, moves_money, price_source, rank, step_spec, Action,
    Event, Flow, Phase, Saga,
};

verus! {

/// Step `i` of a run: state `i` accepts event `i` and moves to state `i + 1`
/// asking for action `i`.
pub open spec fn run_step(ss: Seq<Saga>, evs: Seq<Event>, acts: Seq<Action>, i: int) -> bool {
    ss[i].expects(evs[i]) && step_spec(ss[i], evs[i], ss[i + 1], acts[i])
}

/// `ss` are the states and `acts` the actions of the saga `s0` fed `evs`.
pub open spec fn is_run(s0: Saga, evs: Seq<Event>, ss: Seq<Saga>, acts: Seq<Action>) -> bool {
    &&& ss.len() == evs.len() + 1
    &&& acts.len() == evs.len()
    &&& ss[0] == s0
    &&& forall|i: int| 0 <= i < evs.len() ==> #[trigger] run_step(ss, evs, acts, i)
}

/// A saga as its constructors leave it.
pub open spec fn new_saga(s0: Saga) -> bool {
    s0.fresh() && s0.inv()
}

/// The sum debited by the actions.
pub open spec fn debit_total(acts: Seq<Action>) -> int
    decreases acts.len(),
{
    if acts.len() == 0 {
        0
    } else {
        debit_total(acts.drop_last()) + match acts.last() {
            Action::Debit { amount } => amount as int,
            _ => 0,
        }
    }
}

/// The sum credited back by the actions.
pub open spec fn credit_total(acts: Seq<Action>) -> int
    decreases acts.len(),
{
    if acts.len() == 0 {
        0
    } else {
        credit_total(acts.drop_last()) + match acts.last() {
            Action::Credit { amount } => amount as int,
            _ => 0,
        }
    }
}

/// The number of debit actions.
pub open spec fn debit_count(acts: Seq<Action>) -> int
    decreases acts.len(),
{
    if acts.len() == 0 {
        0
    } else {
        debit_count(acts.drop_last()) + if acts.last() is Debit {
            1int
        } else {
            0int
        }
    }
}

/// The number of credit actions.
pub open spec fn credit_count(acts: Seq<Action>) -> int
    decreases acts.len(),
{
    if acts.len() == 0 {
        0
    } else {
        credit_count(acts.drop_last()) + if acts.last() is Credit {
            1int
        } else {
            0int
        }
    }
}

/// Along a run from a new saga, every state keeps the invariant, flow and
/// `ref_id`, and the saga's counters sum up the ledger actions issued so far.
pub proof fn lemma_run_prefix(s0: Saga, evs: Seq<Event>, ss: Seq<Saga>, acts: Seq<Action>, k: int)
    requires
        new_saga(s0),
        is_run(s0, evs, ss, acts),
        0 <= k <= evs.len(),
    ensures
        ss[k].inv(),
        ss[k].flow == s0.flow,
        ss[k].ref_id == s0.ref_id,
        ss[k].cfg == s0.cfg,
        debit_count(acts.take(k)) == ss[k].debits as int,
        credit_count(acts.take(k)) == ss[k].credits as int,
        debit_total(acts.take(k)) == if ss[k].debits == 1 {
            ss[k].price as int
        } else {
            0
        },
        credit_total(acts.take(k)) == if ss[k].credits == 1 {
            ss[k].debited as int
        } else {
            0
        },
        forall|i: int| 0 <= i < k ==> (#[trigger] action_key(acts[i]) is Some ==> action_key(acts[i])
            == Some(s0.ref_id@)),
    decreases k,
{
    if k == 0 {
        assert(acts.take(0) =~= Seq::<Action>::empty());
    } else {
        lemma_run_prefix(s0, evs, ss, acts, k - 1);
        assert(run_step(ss, evs, acts, k - 1));
        lemma_step(ss[k - 1], evs[k - 1], ss[k], acts[k - 1]);
        assert(acts.take(k).drop_last() =~= acts.take(k - 1));
        assert(acts.take(k).last() == acts[k - 1]);
    }
}

/// Once a money-moving run has an outcome, the outcome stays, and the
/// phases only move forward.
pub proof fn lemma_run_forward(
    s0: Saga,
    evs: Seq<Event>,
    ss: Seq<Saga>,
    acts: Seq<Action>,
    j: int,
    k: int,
)
    requires
        new_saga(s0),
        is_run(s0, evs, ss, acts),
        moves_money(s0.flow),
        0 <= j <= k <= evs.len(),
    ensures
        rank(ss[k].phase) >= rank(ss[j].phase) + (k - j),
        ss[j].outcome is Some ==> ss[k].outcome == ss[j].outcome,
        ss[j].debited != 0 ==> ss[k].debited == ss[j].debited,
    decreases k - j,
{
    if j < k {
        lemma_run_forward(s0, evs, ss, acts, j, k - 1);
        lemma_run_prefix(s0, evs, ss, acts, k - 1);
        assert(run_step(ss, evs, acts, k - 1));
        lemma_step(ss[k - 1], evs[k - 1], ss[k], acts[k - 1]);
    }
}

/// A prepaid purchase whose provider call (the purchase itself or its
/// confirming status query) fails, by a non-2xx status, a missing or
/// malformed reply, or an explicit `failed` / `gagal` status, credits back
/// exactly what it debited by the time it ends: the account balance ends
/// where it started, and one reversal was issued. The same holds of a
/// postpaid payment whose confirming status query fails.
pub proof fn law_failed_purchase_is_reversed(
    s0: Saga,
    evs: Seq<Event>,
    ss: Seq<Saga>,
    acts: Seq<Action>,
    i: int,
)
    requires
        new_saga(s0),
        is_run(s0, evs, ss, acts),
        0 <= i < evs.len(),
        s0.flow == Flow::Prepaid && ss[i].phase == Phase::AwaitSubmit || moves_money(s0.flow)
            && ss[i].phase == Phase::AwaitStatus,
        evs[i] matches Event::Replied(r) && verdict_of(r).failed(),
        ss[evs.len() as int].phase == Phase::Done,
    ensures
        debit_total(acts) == credit_total(acts),
        debit_count(acts) == 1,
        credit_count(acts) == 1,
{
    let n = evs.len() as int;
    lemma_run_prefix(s0, evs, ss, acts, i);
    assert(run_step(ss, evs, acts, i));
    lemma_step(ss[i], evs[i], ss[i + 1], acts[i]);
    lemma_run_forward(s0, evs, ss, acts, i + 1, n);
    lemma_run_prefix(s0, evs, ss, acts, n);
    assert(acts.take(n) =~= acts);
}

/// A prepaid purchase that ends in success has debited the product price
/// exactly once and issued no reversal.
pub proof fn law_successful_purchase_debits_once(
    s0: Saga,
    evs: Seq<Event>,
    ss: Seq<Saga>,
    acts: Seq<Action>,
)
    requires
        new_saga(s0),
        s0.flow == Flow::Prepaid,
        is_run(s0, evs, ss, acts),
        ss[evs.len() as int].phase == Phase::Done,
        ss[evs.len() as int].outcome matches Some(Ok(_)),
    ensures
        debit_count(acts) == 1,
        debit_total(acts) == ss[evs.len() as int].price,
        ss[evs.len() as int].price > 0,
        credit_count(acts) == 0,
        credit_total(acts) == 0,
{
    let n = evs.len() as int;
    lemma_run_prefix(s0, evs, ss, acts, n);
    assert(acts.take(n) =~= acts);
}

/// The price a run charges changes only where the flow reads it: the
/// catalog entry of a prepaid product, the recorded bill of a payment, or
/// an inquiry reply.
pub proof fn law_price_comes_from_its_source(
    s0: Saga,
    evs: Seq<Event>,
    ss: Seq<Saga>,
    acts: Seq<Action>,
    k: int,
)
    requires
        new_saga(s0),
        is_run(s0, evs, ss, acts),
        0 <= k < evs.len(),
        ss[k + 1].price != ss[k].price,
    ensures
        price_source(ss[k], evs[k], ss[k + 1]),
{
    lemma_run_prefix(s0, evs, ss, acts, k);
    assert(run_step(ss, evs, acts, k));
    lemma_step(ss[k], evs[k], ss[k + 1], acts[k]);
}

/// A postpaid payment charges the bill recorded at inquiry time: every
/// debit it issues carries the price of the stored transaction it loaded,
/// whatever amount the caller sent.
pub proof fn law_payment_charges_recorded_bill(
    s0: Saga,
    evs: Seq<Event>,
    ss: Seq<Saga>,
    acts: Seq<Action>,
    j: int,
    i: int,
)
    requires
        new_saga(s0),
        s0.flow == Flow::Pay,
        is_run(s0, evs, ss, acts),
        0 <= j <= i < evs.len(),
        ss[j].phase == Phase::AwaitStored,
        acts[i] is Debit,
    ensures
        evs[j] matches Event::Stored(Some(x)) && acts[i] == (Action::Debit { amount: x.price }),
{
    lemma_run_prefix(s0, evs, ss, acts, j);
    assert(run_step(ss, evs, acts, j));
    lemma_step(ss[j], evs[j], ss[j + 1], acts[j]);
    match evs[j] {
        Event::Stored(o) => {
            if o is None {
                if i > j {
                    assert(run_step(ss, evs, acts, j + 1));
                }
                assert(false);
            }
        },
        _ => {},
    }
    lemma_price_kept(s0, evs, ss, acts, j + 1, i + 1);
    lemma_run_prefix(s0, evs, ss, acts, i);
    assert(run_step(ss, evs, acts, i));
    lemma_step(ss[i], evs[i], ss[i + 1], acts[i]);
}

proof fn lemma_price_kept(s0: Saga, evs: Seq<Event>, ss: Seq<Saga>, acts: Seq<Action>, j: int, k: int)
    requires
        new_saga(s0),
        s0.flow == Flow::Pay,
        is_run(s0, evs, ss, acts),
        1 <= j <= k <= evs.len(),
        rank(ss[j].phase) > rank(Phase::AwaitStored),
    ensures
        ss[k].price == ss[j].price,
    decreases k - j,
{
    if j < k {
        lemma_price_kept(s0, evs, ss, acts, j, k - 1);
        lemma_run_forward(s0, evs, ss, acts, j, k - 1);
        lemma_run_prefix(s0, evs, ss, acts, k - 1);
        assert(run_step(ss, evs, acts, k - 1));
        lemma_step(ss[k - 1], evs[k - 1], ss[k], acts[k - 1]);
    }
}

/// Every record, provider call and lookup that a run makes is keyed by the
/// `ref_id` the saga was made with, so repeated interactions for one
/// `ref_id` land on one row of the ref_id-keyed store.
pub proof fn law_one_key_per_run(
    s0: Saga,
    evs: Seq<Event>,
    ss: Seq<Saga>,
    acts: Seq<Action>,
    i: int,
)
    requires
        new_saga(s0),
        is_run(s0, evs, ss, acts),
        0 <= i < evs.len(),
        action_key(acts[i]) is Some,
    ensures
        action_key(acts[i]) == Some(s0.ref_id@),
{
    lemma_run_prefix(s0, evs, ss, acts, evs.len() as int);
}

/// A purchase or payment whose PIN is not six ASCII digits ends at once
/// with a validation error: it asks nothing of the ledger or the provider.
pub proof fn law_malformed_pin_is_refused(
    s0: Saga,
    evs: Seq<Event>,
    ss: Seq<Saga>,
    acts: Seq<Action>,
)
    requires
        new_saga(s0),
        moves_money(s0.flow),
        !valid_pin(s0.pin@),
        is_run(s0, evs, ss, acts),
        evs.len() >= 1,
    ensures
        evs.len() == 1,
        acts[0] == Action::Finish,
        ss[1].outcome == Some(Err::<String, FlowError>(FlowError::Validation(Invalid::PinFormat))),
{
    assert(run_step(ss, evs, acts, 0));
    if evs.len() > 1 {
        assert(run_step(ss, evs, acts, 1));
    }
}

/// A purchase or payment with a well-formed PIN first asks the ledger to
/// check that PIN, and goes on only if the ledger accepts it: a mismatch
/// ends the run with an authorization error before any money moves.
pub proof fn law_ledger_decides_the_pin(
    s0: Saga,
    evs: Seq<Event>,
    ss: Seq<Saga>,
    acts: Seq<Action>,
)
    requires
        new_saga(s0),
        moves_money(s0.flow),
        valid_pin(s0.pin@),
        s0.flow == Flow::Pay ==> s0.ref_id@.len() > 0,
        is_run(s0, evs, ss, acts),
        evs.len() >= 2,
    ensures
        acts[0] == (Action::VerifyPin { pin: s0.pin }),
        evs[1] == Event::PinChecked(false) ==> acts[1] == Action::Finish && ss[2].outcome == Some(
            Err::<String, FlowError>(FlowError::Authorization),
        ) && ss[2].debits == 0,
        evs[1] == Event::PinChecked(true) ==> !(acts[1] is Finish) && !(acts[1] is Debit),
{
    assert(run_step(ss, evs, acts, 0));
    assert(run_step(ss, evs, acts, 1));
}

/// Two runs started for the same `ref_id` (a retried or repeated call)
/// key every record write, lookup and provider call alike, so they update
/// one row of the ref_id-keyed store and never create a second.
pub proof fn law_same_ref_id_same_row(
    s0: Saga,
    evs0: Seq<Event>,
    ss0: Seq<Saga>,
    acts0: Seq<Action>,
    s1: Saga,
    evs1: Seq<Event>,
    ss1: Seq<Saga>,
    acts1: Seq<Action>,
    i: int,
    j: int,
)
    requires
        new_saga(s0),
        new_saga(s1),
        s0.ref_id@ == s1.ref_id@,
        is_run(s0, evs0, ss0, acts0),
        is_run(s1, evs1, ss1, acts1),
        0 <= i < evs0.len(),
        0 <= j < evs1.len(),
        action_key(acts0[i]) is Some,
        action_key(acts1[j]) is Some,
    ensures
        action_key(acts0[i]) == action_key(acts1[j]),
{
    law_one_key_per_run(s0, evs0, ss0, acts0, i);
    law_one_key_per_run(s1, evs1, ss1, acts1, j);
}

} // verus!
