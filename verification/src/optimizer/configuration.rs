//! The search space of the grid search: which engine, how many of it and
//! how much propellant each stage gets.
//!
//! A configuration names its choices by position: an engine by its index in
//! the problem's engine list, a propellant mass by its index in the grid
//! that the caller laid out for the stage.

use vstd::prelude::*;

use crate::engine::Engine;

verus! {

/// How many of the ranked engines a stage may choose from.
pub const ENGINE_LIMIT: usize = 3;

/// How many ranked alternatives the refinement tries beside the winner's
/// own engine.
pub const ALTERNATIVE_LIMIT: usize = 2;

/// One stage of a configuration.
#[derive(Debug, Clone, Copy, PartialEq, Eq, Structural)]
pub struct StageSpec {
    /// Index of the engine type in the problem's engine list.
    pub engine: usize,
    /// Number of engines, from 1.
    pub engine_count: u32,
    /// Index of the propellant mass in the stage's grid.
    pub propellant: usize,
}

/// The choices of one engine and one engine count: every grid point, in
/// order.
pub open spec fn grid_choices(engine: usize, engine_count: u32, grid: nat) -> Seq<StageSpec> {
    Seq::new(grid, |p: int| StageSpec { engine, engine_count, propellant: p as usize })
}

/// The choices of one engine: every count from 1 to `max_engines`, each
/// with every grid point.
pub open spec fn count_choices(engine: usize, max_engines: nat, grid: nat) -> Seq<StageSpec>
    decreases max_engines,
{
    if max_engines == 0 {
        Seq::empty()
    } else {
        count_choices(engine, (max_engines - 1) as nat, grid) + grid_choices(
            engine,
            max_engines as u32,
            grid,
        )
    }
}

/// The choices of one stage: every engine of `engines` in order, each with
/// every count and grid point.
pub open spec fn stage_choices(engines: Seq<usize>, max_engines: nat, grid: nat) -> Seq<StageSpec>
    decreases engines.len(),
{
    if engines.len() == 0 {
        Seq::empty()
    } else {
        stage_choices(engines.drop_last(), max_engines, grid) + count_choices(
            engines.last(),
            max_engines,
            grid,
        )
    }
}

/// Every tail with `head` put before it.
pub open spec fn prepend_all(head: StageSpec, tails: Seq<Seq<StageSpec>>) -> Seq<Seq<StageSpec>> {
    Seq::new(tails.len(), |t: int| seq![head] + tails[t])
}

/// Every head before every tail: the heads in order, each with the tails in
/// order.
pub open spec fn product(heads: Seq<StageSpec>, tails: Seq<Seq<StageSpec>>) -> Seq<Seq<StageSpec>>
    decreases heads.len(),
{
    if heads.len() == 0 {
        Seq::empty()
    } else {
        product(heads.drop_last(), tails) + prepend_all(heads.last(), tails)
    }
}

/// Every way to pick one choice for each stage from `from` on, in
/// lexicographic order of the picks.
pub open spec fn configurations(choices: Seq<Seq<StageSpec>>, from: int) -> Seq<Seq<StageSpec>>
    decreases choices.len() - from,
{
    if from >= choices.len() {
        seq![Seq::empty()]
    } else {
        product(choices[from], configurations(choices, from + 1))
    }
}

/// The number of configurations from stage `from` on: the product of the
/// stages' numbers of choices.
pub open spec fn configuration_count(choices: Seq<Seq<StageSpec>>, from: int) -> nat
    decreases choices.len() - from,
{
    if from >= choices.len() {
        1
    } else {
        choices[from].len() * configuration_count(choices, from + 1)
    }
}

/// The views of a list of vectors.
pub open spec fn views(v: Seq<Vec<StageSpec>>) -> Seq<Seq<StageSpec>> {
    Seq::new(v.len(), |i: int| v[i]@)
}

/// The leading engines of a ranking: at most [`ENGINE_LIMIT`] of them.
pub open spec fn leading(ranked: Seq<usize>) -> Seq<usize> {
    if ranked.len() <= ENGINE_LIMIT {
        ranked
    } else {
        ranked.take(ENGINE_LIMIT as int)
    }
}

/// What each stage of a coarse search may choose from: the first stage
/// from the leading engines of `first`, every other from those of `upper`.
pub open spec fn coarse_choices(
    stage_count: nat,
    first: Seq<usize>,
    upper: Seq<usize>,
    max_engines: nat,
    grid: nat,
) -> Seq<Seq<StageSpec>> {
    Seq::new(
        stage_count,
        |s: int|
            stage_choices(
                leading(
                    if s == 0 {
                        first
                    } else {
                        upper
                    },
                ),
                max_engines,
                grid,
            ),
    )
}

/// Whether an engine of `list` has the name of engine `candidate`.
pub open spec fn name_taken(engines: Seq<Engine>, list: Seq<usize>, candidate: usize) -> bool {
    exists|k: int|
        0 <= k < list.len() && engines[#[trigger] list[k] as int].name@
            == engines[candidate as int].name@
}

/// `base`, followed by those of the first `n` alternatives whose names
/// differ from all that stand before them.
pub open spec fn with_alternatives(
    engines: Seq<Engine>,
    base: usize,
    alternatives: Seq<usize>,
    n: nat,
) -> Seq<usize>
    decreases n,
{
    if n == 0 {
        seq![base]
    } else {
        let before = with_alternatives(engines, base, alternatives, (n - 1) as nat);
        let candidate = alternatives[n - 1];
        if name_taken(engines, before, candidate) {
            before
        } else {
            before.push(candidate)
        }
    }
}

/// The engines that the refinement tries at a stage: the winner's engine,
/// then at most [`ALTERNATIVE_LIMIT`] of the leading ranked engines with
/// other names.
pub open spec fn refined_engines(engines: Seq<Engine>, base: usize, ranked: Seq<usize>) -> Seq<
    usize,
> {
    with_alternatives(
        engines,
        base,
        ranked,
        if ranked.len() <= ALTERNATIVE_LIMIT {
            ranked.len()
        } else {
            ALTERNATIVE_LIMIT as nat
        },
    )
}

/// What each stage of the refinement may choose from.
pub open spec fn refined_choices(
    engines: Seq<Engine>,
    winner: Seq<StageSpec>,
    first: Seq<usize>,
    upper: Seq<usize>,
    max_engines: nat,
    grid: nat,
) -> Seq<Seq<StageSpec>> {
    Seq::new(
        winner.len(),
        |s: int|
            stage_choices(
                refined_engines(
                    engines,
                    winner[s].engine,
                    if s == 0 {
                        first
                    } else {
                        upper
                    },
                ),
                max_engines,
                grid,
            ),
    )
}

/// Whether every index of `list` is below `n`.
pub open spec fn all_below(list: Seq<usize>, n: nat) -> bool {
    forall|k: int| 0 <= k < list.len() ==> (#[trigger] list[k]) < n
}

/// Whether `configuration` is head `h` before tail `t`.
pub open spec fn joins(
    heads: Seq<StageSpec>,
    tails: Seq<Seq<StageSpec>>,
    configuration: Seq<StageSpec>,
    h: int,
    t: int,
) -> bool {
    0 <= h < heads.len() && 0 <= t < tails.len() && configuration == seq![heads[h]] + tails[t]
}

/// Whether `configuration` is some head before some tail.
pub open spec fn joined(
    heads: Seq<StageSpec>,
    tails: Seq<Seq<StageSpec>>,
    configuration: Seq<StageSpec>,
) -> bool {
    exists|h: int, t: int| #[trigger] joins(heads, tails, configuration, h, t)
}

/// A product has as many members as heads times tails.
pub proof fn lemma_product_len(heads: Seq<StageSpec>, tails: Seq<Seq<StageSpec>>)
    ensures
        product(heads, tails).len() == heads.len() * tails.len(),
    decreases heads.len(),
{
    if heads.len() > 0 {
        let init = heads.drop_last();
        lemma_product_len(init, tails);
        assert(init.len() * tails.len() + tails.len() == heads.len() * tails.len())
            by (nonlinear_arith)
            requires
                init.len() + 1 == heads.len(),
        ;
    } else {
        assert(heads.len() * tails.len() == 0) by (nonlinear_arith)
            requires
                heads.len() == 0,
        ;
    }
}

/// Every member of a product is a head before a tail.
pub proof fn lemma_product_members(heads: Seq<StageSpec>, tails: Seq<Seq<StageSpec>>)
    ensures
        forall|k: int|
            0 <= k < product(heads, tails).len() ==> joined(
                heads,
                tails,
                #[trigger] product(heads, tails)[k],
            ),
    decreases heads.len(),
{
    if heads.len() > 0 {
        let init = heads.drop_last();
        lemma_product_members(init, tails);
        let whole = product(heads, tails);
        assert forall|k: int| 0 <= k < whole.len() implies joined(
            heads,
            tails,
            #[trigger] whole[k],
        ) by {
            if k < product(init, tails).len() {
                assert(joined(init, tails, product(init, tails)[k]));
                let (h, t) = choose|h: int, t: int|
                    #[trigger] joins(init, tails, product(init, tails)[k], h, t);
                assert(whole[k] == product(init, tails)[k]);
                assert(joins(heads, tails, whole[k], h, t));
            } else {
                let t = k - product(init, tails).len();
                let h = heads.len() - 1;
                assert(whole[k] == prepend_all(heads.last(), tails)[t]);
                assert(joins(heads, tails, whole[k], h, t));
            }
        }
    }
}

/// There are as many configurations as the stages' numbers of choices
/// multiply to, and each picks one choice of each stage.
pub proof fn lemma_configurations(choices: Seq<Seq<StageSpec>>, from: int)
    requires
        0 <= from <= choices.len(),
    ensures
        configurations(choices, from).len() == configuration_count(choices, from),
        forall|k: int|
            0 <= k < configurations(choices, from).len() ==> {
                let c = #[trigger] configurations(choices, from)[k];
                &&& c.len() == choices.len() - from
                &&& forall|s: int| 0 <= s < c.len() ==> choices[from + s].contains(#[trigger] c[s])
            },
    decreases choices.len() - from,
{
    if from < choices.len() {
        let heads = choices[from];
        let tails = configurations(choices, from + 1);
        lemma_configurations(choices, from + 1);
        lemma_product_members(heads, tails);
        lemma_product_len(heads, tails);
        assert forall|k: int| 0 <= k < configurations(choices, from).len() implies ({
            let c = #[trigger] configurations(choices, from)[k];
            &&& c.len() == choices.len() - from
            &&& forall|s: int| 0 <= s < c.len() ==> choices[from + s].contains(#[trigger] c[s])
        }) by {
            let c = configurations(choices, from)[k];
            assert(c == product(heads, tails)[k]);
            assert(joined(heads, tails, c));
            let (h, t) = choose|h: int, t: int| #[trigger] joins(heads, tails, c, h, t);
            let tail = tails[t];
            assert(tail.len() == choices.len() - (from + 1));
            assert forall|s: int| 0 <= s < c.len() implies choices[from + s].contains(
                #[trigger] c[s],
            ) by {
                if s == 0 {
                    assert(c[0] == heads[h]);
                } else {
                    assert(c[s] == tail[s - 1]);
                    assert(choices[(from + 1) + (s - 1)].contains(tail[s - 1]));
                }
            }
        }
    }
}

/// A product holds every head before every tail.
pub proof fn lemma_product_holds(
    heads: Seq<StageSpec>,
    tails: Seq<Seq<StageSpec>>,
    head: StageSpec,
    tail: Seq<StageSpec>,
)
    requires
        heads.contains(head),
        tails.contains(tail),
    ensures
        product(heads, tails).contains(seq![head] + tail),
    decreases heads.len(),
{
    let init = heads.drop_last();
    let whole = product(heads, tails);
    if heads.last() == head {
        let t = choose|t: int| 0 <= t < tails.len() && tails[t] == tail;
        let added = prepend_all(heads.last(), tails);
        assert(added[t] == seq![head] + tail);
        assert(whole[product(init, tails).len() + t] == added[t]);
    } else {
        let h = choose|h: int| 0 <= h < heads.len() && heads[h] == head;
        assert(init[h] == head);
        lemma_product_holds(init, tails, head, tail);
        let k = choose|k: int|
            0 <= k < product(init, tails).len() && product(init, tails)[k] == seq![head] + tail;
        assert(whole[k] == product(init, tails)[k]);
    }
}

/// Every way to pick one choice of each stage is among the configurations.
pub proof fn lemma_configurations_complete(
    choices: Seq<Seq<StageSpec>>,
    from: int,
    picks: Seq<StageSpec>,
)
    requires
        0 <= from <= choices.len(),
        picks.len() == choices.len() - from,
        forall|s: int| 0 <= s < picks.len() ==> choices[from + s].contains(#[trigger] picks[s]),
    ensures
        configurations(choices, from).contains(picks),
    decreases choices.len() - from,
{
    if from >= choices.len() {
        assert(picks == Seq::<StageSpec>::empty());
        assert(configurations(choices, from)[0] == picks);
    } else {
        let tail = picks.drop_first();
        assert forall|s: int| 0 <= s < tail.len() implies choices[(from + 1) + s].contains(
            #[trigger] tail[s],
        ) by {
            assert(tail[s] == picks[s + 1]);
            assert(choices[from + (s + 1)].contains(picks[s + 1]));
        }
        lemma_configurations_complete(choices, from + 1, tail);
        assert(choices[from + 0].contains(picks[0]));
        lemma_product_holds(choices[from], configurations(choices, from + 1), picks[0], tail);
        assert(seq![picks[0]] + tail == picks);
    }
}

/// Lists what one stage may choose from: every engine of `engines` in
/// order, each with every count from 1 to `max_engines`, each of those with
/// every grid point from 0 to `grid - 1`.
pub fn list_stage_choices(engines: &Vec<usize>, max_engines: u32, grid: usize) -> (r: Vec<StageSpec>)
    ensures
        r@ == stage_choices(engines@, max_engines as nat, grid as nat),
{
    let mut out: Vec<StageSpec> = Vec::new();
    let mut e: usize = 0;
    assert(engines@.take(0) == Seq::<usize>::empty());
    while e < engines.len()
        invariant
            e <= engines@.len(),
            out@ == stage_choices(engines@.take(e as int), max_engines as nat, grid as nat),
        decreases engines@.len() - e,
    {
        let engine: usize = engines[e];
        let ghost done = out@;
        let mut count: u32 = 0;
        while count < max_engines
            invariant
                count <= max_engines,
                out@ == done + count_choices(engine, count as nat, grid as nat),
            decreases max_engines - count,
        {
            count = count + 1;
            let ghost counted = out@;
            let mut p: usize = 0;
            while p < grid
                invariant
                    p <= grid,
                    out@ == counted + grid_choices(engine, count, grid as nat).take(p as int),
                decreases grid - p,
            {
                out.push(StageSpec { engine, engine_count: count, propellant: p });
                p = p + 1;
            }
            assert(grid_choices(engine, count, grid as nat).take(grid as int) == grid_choices(
                engine,
                count,
                grid as nat,
            ));
        }
        proof {
            let head = engines@.take(e + 1);
            assert(head.last() == engine);
            assert(head.drop_last() == engines@.take(e as int));
        }
        e = e + 1;
    }
    assert(engines@.take(engines@.len() as int) == engines@);
    out
}

/// Lists every configuration of the stages from `current_stage` on: one
/// choice of each stage, in lexicographic order of the picks.
pub fn generate_recursive(choices: &Vec<Vec<StageSpec>>, current_stage: usize) -> (r: Vec<
    Vec<StageSpec>,
>)
    requires
        current_stage <= choices@.len(),
    ensures
        views(r@) == configurations(views(choices@), current_stage as int),
    decreases choices@.len() - current_stage,
{
    let mut out: Vec<Vec<StageSpec>> = Vec::new();
    if current_stage == choices.len() {
        out.push(Vec::new());
        assert(views(out@) == seq![Seq::<StageSpec>::empty()]);
        return out;
    }
    let tails: Vec<Vec<StageSpec>> = generate_recursive(choices, current_stage + 1);
    let heads: &Vec<StageSpec> = &choices[current_stage];
    let ghost tail_views = views(tails@);
    assert(views(choices@)[current_stage as int] == heads@);
    let mut h: usize = 0;
    assert(heads@.take(0) == Seq::<StageSpec>::empty());
    assert(views(out@) == Seq::<Seq<StageSpec>>::empty());
    while h < heads.len()
        invariant
            h <= heads@.len(),
            tail_views == views(tails@),
            views(out@) == product(heads@.take(h as int), tail_views),
        decreases heads@.len() - h,
    {
        let head: StageSpec = heads[h];
        let ghost done = views(out@);
        let mut t: usize = 0;
        assert(views(out@) == done + prepend_all(head, tail_views).take(0));
        while t < tails.len()
            invariant
                t <= tails@.len(),
                tail_views == views(tails@),
                views(out@) == done + prepend_all(head, tail_views).take(t as int),
            decreases tails@.len() - t,
        {
            let tail: &Vec<StageSpec> = &tails[t];
            let mut configuration: Vec<StageSpec> = Vec::new();
            configuration.push(head);
            let mut s: usize = 0;
            while s < tail.len()
                invariant
                    s <= tail@.len(),
                    configuration@ == seq![head] + tail@.take(s as int),
                decreases tail@.len() - s,
            {
                configuration.push(tail[s]);
                s = s + 1;
            }
            proof {
                assert(tail@.take(tail@.len() as int) == tail@);
                assert(tail_views[t as int] == tail@);
                assert(prepend_all(head, tail_views)[t as int] == configuration@);
            }
            let ghost before = views(out@);
            out.push(configuration);
            proof {
                assert(views(out@) == before.push(configuration@));
                assert(prepend_all(head, tail_views).take(t + 1) == prepend_all(
                    head,
                    tail_views,
                ).take(t as int).push(configuration@));
            }
            t = t + 1;
        }
        proof {
            assert(prepend_all(head, tail_views).take(tails@.len() as int) == prepend_all(
                head,
                tail_views,
            ));
            let upto = heads@.take(h + 1);
            assert(upto.last() == head);
            assert(upto.drop_last() == heads@.take(h as int));
        }
        h = h + 1;
    }
    assert(heads@.take(heads@.len() as int) == heads@);
    out
}

/// The leading engines of a ranking, at most [`ENGINE_LIMIT`].
pub fn leading_engines(ranked: &Vec<usize>) -> (r: Vec<usize>)
    ensures
        r@ == leading(ranked@),
{
    let mut out: Vec<usize> = Vec::new();
    let mut i: usize = 0;
    while i < ranked.len() && i < ENGINE_LIMIT
        invariant
            i <= ranked@.len(),
            i <= ENGINE_LIMIT,
            out@ == ranked@.take(i as int),
        decreases ranked@.len() - i,
    {
        out.push(ranked[i]);
        i = i + 1;
    }
    assert(ranked@.take(ranked@.len() as int) == ranked@);
    out
}

/// The engines that the refinement tries at a stage whose winner used
/// engine `base`: `base` itself, then the first [`ALTERNATIVE_LIMIT`]
/// engines of `ranked`, each only if no engine already listed has its name.
pub fn engines_to_try(engines: &Vec<Engine>, base: usize, ranked: &Vec<usize>) -> (r: Vec<usize>)
    requires
        base < engines@.len(),
        all_below(ranked@, engines@.len()),
    ensures
        r@ == refined_engines(engines@, base, ranked@),
        all_below(r@, engines@.len()),
{
    let mut out: Vec<usize> = Vec::new();
    out.push(base);
    let mut n: usize = 0;
    while n < ranked.len() && n < ALTERNATIVE_LIMIT
        invariant
            n <= ranked@.len(),
            n <= ALTERNATIVE_LIMIT,
            base < engines@.len(),
            all_below(ranked@, engines@.len()),
            all_below(out@, engines@.len()),
            out@ == with_alternatives(engines@, base, ranked@, n as nat),
        decreases ranked@.len() - n,
    {
        let candidate: usize = ranked[n];
        let mut taken: bool = false;
        let mut k: usize = 0;
        while k < out.len()
            invariant
                k <= out@.len(),
                candidate < engines@.len(),
                all_below(out@, engines@.len()),
                taken == name_taken(engines@, out@.take(k as int), candidate),
            decreases out@.len() - k,
        {
            let same: bool = engines[out[k]].name == engines[candidate].name;
            proof {
                let head = out@.take(k + 1);
                if same {
                    assert(head[k as int] == out@[k as int]);
                } else if name_taken(engines@, head, candidate) {
                    let w = choose|w: int|
                        0 <= w < head.len() && engines@[#[trigger] head[w] as int].name@
                            == engines@[candidate as int].name@;
                    assert(out@.take(k as int)[w] == head[w]);
                } else if name_taken(engines@, out@.take(k as int), candidate) {
                    let w = choose|w: int|
                        0 <= w < k && engines@[#[trigger] out@.take(k as int)[w] as int].name@
                            == engines@[candidate as int].name@;
                    assert(head[w] == out@.take(k as int)[w]);
                }
            }
            taken = taken || same;
            k = k + 1;
        }
        assert(out@.take(out@.len() as int) == out@);
        if !taken {
            out.push(candidate);
        }
        n = n + 1;
    }
    out
}

} // verus!
