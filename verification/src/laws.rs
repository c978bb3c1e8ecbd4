//! The guarantees of the reseeding scheduler, stated and proved once and for
//! all: how often the entropy source is consulted over any run of draws, what
//! the boundary thresholds do, and that runs against a scripted source are
//! exactly reproducible.

use vstd::prelude::*;

use crate::core_gen::byte_in_stream;
use crate::core_gen::core_state_after;
use crate::core_gen::core_word;
use crate::core_gen::low32;
use crate::core_gen::words_for;
use crate::entropy::EntropySource;
use crate::entropy::EntropySourceFailure;
use crate::entropy::ScriptedEntropySource;
use crate::reseeding::GenModel;
use crate::reseeding::dec_or_zero;
use crate::reseeding::draw_fails;
use crate::reseeding::fill_draw;
use crate::reseeding::serves_from;
use crate::reseeding::u32_draw;
use crate::reseeding::u64_draw;
use crate::seed::SeedMaterial;
use crate::seed::seed_value;

verus! {

/// The scheduling state of a reseeding generator: everything the reseed
/// scheduler's behaviour depends on, with `entropy_calls` counting every
/// invocation of the entropy source, the one at construction included.
pub ghost struct SchedState {
    pub budget: nat,
    pub threshold: nat,
    pub entropy_calls: nat,
}

/// The scheduling state of a generator model.
pub open spec fn sched_of<E: EntropySource>(m: GenModel<E>) -> SchedState {
    SchedState { budget: m.budget, threshold: m.threshold, entropy_calls: m.source.calls() }
}

/// The scheduling state of a generator built fresh from one entropy
/// invocation: full budget, one call made.
pub open spec fn sched_fresh(threshold: nat) -> SchedState {
    SchedState { budget: threshold, threshold, entropy_calls: 1 }
}

/// What one successful counted draw does to the scheduling state: reseed if
/// the budget is exhausted, then take one unit of budget.
pub open spec fn sched_step(m: SchedState) -> SchedState {
    let refreshed = if m.budget == 0 {
        SchedState { budget: m.threshold, threshold: m.threshold, entropy_calls: m.entropy_calls + 1 }
    } else {
        m
    };
    SchedState {
        budget: dec_or_zero(refreshed.budget),
        threshold: refreshed.threshold,
        entropy_calls: refreshed.entropy_calls,
    }
}

/// The scheduling state after `n` successful counted draws.
pub open spec fn sched_run(m: SchedState, n: nat) -> SchedState
    decreases n,
{
    if n == 0 {
        m
    } else {
        sched_step(sched_run(m, (n - 1) as nat))
    }
}

/// Every successful counted draw steps the scheduling state by exactly
/// `sched_step`, no matter which draw operation it was and no matter how many
/// words it emitted.
pub proof fn lemma_draw_steps_schedule<E: EntropySource>(
    pre: GenModel<E>,
    post: GenModel<E>,
    sstate: u64,
    words: nat,
)
    requires
        serves_from(pre, post, sstate, words),
    ensures
        sched_of(post) == sched_step(sched_of(pre)),
{
}

/// A failed counted draw consumes one entropy invocation and changes nothing
/// else in the scheduling state.
pub proof fn lemma_failed_draw_schedule<E: EntropySource>(
    pre: GenModel<E>,
    post: GenModel<E>,
    e: EntropySourceFailure,
)
    requires
        draw_fails(pre, post, e),
    ensures
        sched_of(pre).budget == 0,
        sched_of(post).budget == 0,
        sched_of(post).threshold == pre.threshold,
        sched_of(post).entropy_calls == pre.source.calls() + 1,
{
}

/// The exact shape of the scheduling state over any run: after `n` draws the
/// counter and the budget are closed-form functions of `n` and the threshold.
proof fn lemma_sched_run_shape(t: nat, n: nat)
    requires
        t >= 1,
        n >= 1,
    ensures
        sched_run(sched_fresh(t), n).threshold == t,
        sched_run(sched_fresh(t), n).budget == t - 1 - ((n - 1) as int % (t as int)),
        sched_run(sched_fresh(t), n).entropy_calls == 1 + (n - 1) as int / (t as int),
    decreases n,
{
    let f = sched_fresh(t);
    assert(sched_run(f, n) == sched_step(sched_run(f, (n - 1) as nat)));
    if n == 1 {
        assert(sched_run(f, 0) == f);
        vstd::arithmetic::div_mod::lemma_fundamental_div_mod_converse(0, t as int, 0, 0);
    } else {
        lemma_sched_run_shape(t, (n - 1) as nat);
        let m = (n - 2) as int;
        let ti = t as int;
        vstd::arithmetic::div_mod::lemma_fundamental_div_mod(m, ti);
        let q = m / ti;
        let r = m % ti;
        if r < ti - 1 {
            vstd::arithmetic::div_mod::lemma_fundamental_div_mod_converse(m + 1, ti, q, r + 1);
        } else {
            assert((q + 1) * ti == q * ti + ti) by (nonlinear_arith);
            vstd::arithmetic::div_mod::lemma_fundamental_div_mod_converse(m + 1, ti, q + 1, 0);
        }
    }
}

/// Over any run of `n` successful draws against a generator built fresh from
/// one entropy invocation with threshold `t >= 1`, the entropy source is
/// invoked exactly `(n + t - 1) / t` times in all — the ceiling of `n / t`,
/// the invocation at construction included — independent of which draw
/// operations made up the run.
pub proof fn lemma_entropy_invocation_count(t: nat, n: nat)
    requires
        t >= 1,
    ensures
        n == 0 ==> sched_run(sched_fresh(t), n).entropy_calls == 1,
        n >= 1 ==> sched_run(sched_fresh(t), n).entropy_calls == (n + t - 1) as int / (t as int),
{
    if n >= 1 {
        lemma_sched_run_shape(t, n);
        let m = (n - 1) as int;
        let ti = t as int;
        vstd::arithmetic::div_mod::lemma_fundamental_div_mod(m, ti);
        assert((m / ti + 1) * ti == (m / ti) * ti + ti) by (nonlinear_arith);
        vstd::arithmetic::div_mod::lemma_fundamental_div_mod_converse(
            m + ti,
            ti,
            m / ti + 1,
            m % ti,
        );
    }
}

/// Boundary: with threshold 1, every draw after the first exhausts the budget
/// again, so `n` draws consume exactly `n` entropy invocations (construction
/// included) and the budget is always zero between draws.
pub proof fn lemma_threshold_one_reseeds_every_draw(n: nat)
    requires
        n >= 1,
    ensures
        sched_run(sched_fresh(1), n).entropy_calls == n,
        sched_run(sched_fresh(1), n).budget == 0,
{
    lemma_sched_run_shape(1, n);
    let m = (n - 1) as int;
    vstd::arithmetic::div_mod::lemma_fundamental_div_mod_converse(m, 1, m, 0);
}

/// Boundary: with a threshold at least as large as the whole run, the only
/// entropy invocation is the one at construction.
pub proof fn lemma_large_threshold_reseeds_once(t: nat, n: nat)
    requires
        1 <= n <= t,
    ensures
        sched_run(sched_fresh(t), n).entropy_calls == 1,
{
    lemma_sched_run_shape(t, n);
    vstd::arithmetic::div_mod::lemma_fundamental_div_mod_converse(
        (n - 1) as int,
        t as int,
        0,
        (n - 1) as int,
    );
}

/// A threshold of zero is a valid, wasteful configuration: the budget never
/// leaves zero and every draw costs one entropy invocation on top of the one
/// at construction.
pub proof fn lemma_threshold_zero_reseeds_every_draw(n: nat)
    ensures
        sched_run(sched_fresh(0), n).budget == 0,
        sched_run(sched_fresh(0), n).threshold == 0,
        sched_run(sched_fresh(0), n).entropy_calls == n + 1,
    decreases n,
{
    if n > 0 {
        lemma_threshold_zero_reseeds_every_draw((n - 1) as nat);
        assert(sched_run(sched_fresh(0), n) == sched_step(
            sched_run(sched_fresh(0), (n - 1) as nat),
        ));
    } else {
        assert(sched_run(sched_fresh(0), 0) == sched_fresh(0));
    }
}

/// The model of a generator bound to a scripted entropy source: plain values
/// only, so one draw is a *function* of it.
#[verifier::ext_equal]
pub ghost struct ScriptedModel {
    pub core: u64,
    pub budget: nat,
    pub threshold: nat,
    pub script: Seq<Seq<u8>>,
    pub handed_out: nat,
}

/// The scripted model of a generator model.
pub open spec fn scripted_model(m: GenModel<ScriptedEntropySource>) -> ScriptedModel {
    ScriptedModel {
        core: m.core,
        budget: m.budget,
        threshold: m.threshold,
        script: m.source@.script,
        handed_out: m.source@.handed_out,
    }
}

/// Whether a counted draw can succeed against the scripted model: either
/// budget remains or the script still holds a seed.
pub open spec fn scripted_can_serve(m: ScriptedModel) -> bool {
    m.budget > 0 || m.handed_out < m.script.len()
}

/// The core state a successful scripted draw serves from: the current one,
/// or one freshly seeded from the next scripted seed.
pub open spec fn scripted_serve_state(m: ScriptedModel) -> u64 {
    if m.budget > 0 {
        m.core
    } else {
        seed_value(m.script[m.handed_out as int])
    }
}

/// The scripted model after one successful draw that consumed `words` core
/// words.
pub open spec fn scripted_after_draw(m: ScriptedModel, words: nat) -> ScriptedModel {
    if m.budget > 0 {
        ScriptedModel { core: core_state_after(m.core, words), budget: (m.budget - 1) as nat, ..m }
    } else {
        ScriptedModel {
            core: core_state_after(scripted_serve_state(m), words),
            budget: dec_or_zero(m.threshold),
            handed_out: m.handed_out + 1,
            ..m
        }
    }
}

/// Determinism, the serving step: a successful counted draw against a
/// scripted source happens exactly when the model admits one, serves from
/// the core state the model determines, and leaves the model exactly as
/// `scripted_after_draw` says.
pub proof fn lemma_scripted_serve_deterministic(
    pre: GenModel<ScriptedEntropySource>,
    post: GenModel<ScriptedEntropySource>,
    sstate: u64,
    words: nat,
)
    requires
        serves_from(pre, post, sstate, words),
    ensures
        scripted_can_serve(scripted_model(pre)),
        sstate == scripted_serve_state(scripted_model(pre)),
        scripted_model(post) == scripted_after_draw(scripted_model(pre), words),
{
    if pre.budget > 0 {
        assert(scripted_model(post) =~= scripted_after_draw(scripted_model(pre), words));
    } else {
        let s = choose|s: SeedMaterial|
            #[trigger] ScriptedEntropySource::next_seed_rel(pre.source, post.source, Ok(s))
                && sstate == seed_value(s.bytes@);
        assert(s.bytes@ == pre.source@.script[pre.source@.handed_out as int]);
        assert(scripted_model(post) =~= scripted_after_draw(scripted_model(pre), words));
    }
}

/// Determinism, the failing step: a failed counted draw against a scripted
/// source happens exactly when the model admits none, and leaves the model
/// as it was.
pub proof fn lemma_scripted_failure_deterministic(
    pre: GenModel<ScriptedEntropySource>,
    post: GenModel<ScriptedEntropySource>,
    e: EntropySourceFailure,
)
    requires
        draw_fails(pre, post, e),
    ensures
        !scripted_can_serve(scripted_model(pre)),
        scripted_model(post) == scripted_model(pre),
        e == EntropySourceFailure,
{
    assert(scripted_model(post) =~= scripted_model(pre));
}

/// Determinism of `next_u32`: against a scripted source, whether the draw
/// succeeds, what it returns and the model it leaves behind are functions of
/// the model it started from alone — so a fixed script, threshold and seed
/// reproduce the same outputs on every run.
pub proof fn lemma_scripted_u32_deterministic(
    pre: GenModel<ScriptedEntropySource>,
    post: GenModel<ScriptedEntropySource>,
    r: Result<u32, EntropySourceFailure>,
)
    requires
        u32_draw(pre, post, r),
    ensures
        r is Ok <==> scripted_can_serve(scripted_model(pre)),
        r matches Ok(v) ==> v == low32(core_word(scripted_serve_state(scripted_model(pre)))),
        r is Ok ==> scripted_model(post) == scripted_after_draw(scripted_model(pre), 1),
        r is Err ==> scripted_model(post) == scripted_model(pre),
{
    match r {
        Ok(v) => {
            let ss = choose|sstate: u64|
                #[trigger] serves_from(pre, post, sstate, 1) && v == low32(core_word(sstate));
            lemma_scripted_serve_deterministic(pre, post, ss, 1);
        },
        Err(e) => {
            lemma_scripted_failure_deterministic(pre, post, e);
        },
    }
}

/// Determinism of `next_u64`, as for `next_u32`.
pub proof fn lemma_scripted_u64_deterministic(
    pre: GenModel<ScriptedEntropySource>,
    post: GenModel<ScriptedEntropySource>,
    r: Result<u64, EntropySourceFailure>,
)
    requires
        u64_draw(pre, post, r),
    ensures
        r is Ok <==> scripted_can_serve(scripted_model(pre)),
        r matches Ok(v) ==> v == core_word(scripted_serve_state(scripted_model(pre))),
        r is Ok ==> scripted_model(post) == scripted_after_draw(scripted_model(pre), 1),
        r is Err ==> scripted_model(post) == scripted_model(pre),
{
    match r {
        Ok(v) => {
            let ss = choose|sstate: u64|
                #[trigger] serves_from(pre, post, sstate, 1) && v == core_word(sstate);
            lemma_scripted_serve_deterministic(pre, post, ss, 1);
        },
        Err(e) => {
            lemma_scripted_failure_deterministic(pre, post, e);
        },
    }
}

/// Determinism of `fill_bytes`: against a scripted source, every byte the
/// draw wrote is a function of the model the draw started from and the
/// buffer's length.
pub proof fn lemma_scripted_fill_deterministic(
    pre: GenModel<ScriptedEntropySource>,
    post: GenModel<ScriptedEntropySource>,
    out: Seq<u8>,
    r: Result<(), EntropySourceFailure>,
)
    requires
        fill_draw(pre, post, out, r),
    ensures
        r is Ok <==> scripted_can_serve(scripted_model(pre)),
        r is Ok ==> forall|j: int|
            0 <= j < out.len() ==> out[j] == byte_in_stream(
                scripted_serve_state(scripted_model(pre)),
                j as nat,
            ),
        r is Ok ==> scripted_model(post) == scripted_after_draw(
            scripted_model(pre),
            words_for(out.len()),
        ),
        r is Err ==> scripted_model(post) == scripted_model(pre),
{
    match r {
        Ok(u) => {
            let ss = choose|sstate: u64|
                #[trigger] serves_from(pre, post, sstate, words_for(out.len())) && forall|j: int|
                    0 <= j < out.len() ==> out[j] == byte_in_stream(sstate, j as nat);
            lemma_scripted_serve_deterministic(pre, post, ss, words_for(out.len()));
        },
        Err(e) => {
            lemma_scripted_failure_deterministic(pre, post, e);
        },
    }
}

} // verus!
