//! Evaluation of a circuit, level by level.

use vstd::prelude::*;
use std::collections::HashMap;
use crate::backend::{apply, composed, GateBackend};
use crate::netlist::{
    level_view, CircuitDefinition, CircuitModel, GateInput, GateModel, GateSpec,
};
use crate::state::Error;
use crate::validate::lens;
use rayon::iter::{IntoParallelRefIterator, ParallelIterator};

verus! {

/// The wires that exist at some point of an evaluation.
pub struct Store<W> {
    /// Live temporaries, keyed by gate id.
    pub temps: Map<usize, W>,
    /// Filled output slots by index.
    pub outs: Map<usize, W>,
}

/// The store before the first level.
pub open spec fn empty_store<W>() -> Store<W> {
    Store { temps: Map::empty(), outs: Map::empty() }
}

/// The argument vectors as sequences of wires.
pub open spec fn words<W>(arguments: Seq<&Vec<W>>) -> Seq<Seq<W>> {
    Seq::new(arguments.len(), |i: int| arguments[i]@)
}

/// The lengths of the argument vectors.
pub open spec fn shape<W>(arguments: Seq<&Vec<W>>) -> Seq<nat> {
    Seq::new(arguments.len(), |i: int| arguments[i]@.len())
}

/// The filled slots of an output array.
pub open spec fn filled<W>(slots: Seq<Option<W>>) -> Map<usize, W> {
    Map::new(|o: usize| o < slots.len() && slots[o as int] is Some, |o: usize| slots[o as int]->0)
}

/// The wires held in a map of temporaries and an output array.
pub open spec fn store_of<W>(temps: Map<usize, W>, outs: Seq<Option<W>>) -> Store<W> {
    Store { temps, outs: filled(outs) }
}

/// The wire an input names, given the wires that stand for the two constants.
pub open spec fn operand_among<W>(
    input: GateInput,
    args: Seq<Seq<W>>,
    store: Store<W>,
    zero: W,
    one: W,
) -> W {
    match input {
        GateInput::Argument(slot, index) => args[slot as int][index as int],
        GateInput::Temporary(id) => store.temps[id],
        GateInput::Output(index) => store.outs[index],
        GateInput::Constant(value) => if value {
            one
        } else {
            zero
        },
    }
}

/// What a gate yields when its inputs are read from `store`, given the wires
/// that stand for the two constants. A gate with one input hands that input
/// to the backend twice.
pub open spec fn gate_value_among<B: GateBackend>(
    backend: &B,
    gate: GateModel,
    args: Seq<Seq<B::Wire>>,
    store: Store<B::Wire>,
    zero: B::Wire,
    one: B::Wire,
) -> B::Wire {
    composed(
        backend,
        gate.op,
        operand_among(gate.inputs[0], args, store, zero, one),
        operand_among(gate.inputs[gate.inputs.len() - 1], args, store, zero, one),
    )
}

/// What a gate yields when its inputs are read from `store`.
pub open spec fn gate_value<B: GateBackend>(
    backend: &B,
    gate: GateModel,
    args: Seq<Seq<B::Wire>>,
    store: Store<B::Wire>,
) -> B::Wire {
    gate_value_among(
        backend,
        gate,
        args,
        store,
        backend.constant_wire(false),
        backend.constant_wire(true),
    )
}

/// What each gate of `level` yields when all of them read `before`.
pub open spec fn level_values<B: GateBackend>(
    backend: &B,
    level: Seq<GateModel>,
    args: Seq<Seq<B::Wire>>,
    before: Store<B::Wire>,
) -> Seq<B::Wire> {
    Seq::new(level.len(), |g: int| gate_value(backend, level[g], args, before))
}

/// The store with the result of `gate` written to its place.
pub open spec fn commit<W>(store: Store<W>, gate: GateModel, value: W) -> Store<W> {
    if gate.is_output {
        Store { temps: store.temps, outs: store.outs.insert(gate.id, value) }
    } else {
        Store { temps: store.temps.insert(gate.id, value), outs: store.outs }
    }
}

/// The store after the results of the first `count` gates of `level` have
/// been written, in the order of the gates.
pub open spec fn commit_all<W>(
    store: Store<W>,
    level: Seq<GateModel>,
    values: Seq<W>,
    count: nat,
) -> Store<W>
    decreases count,
{
    if count == 0 {
        store
    } else {
        commit(
            commit_all(store, level, values, (count - 1) as nat),
            level[count - 1],
            values[count - 1],
        )
    }
}

/// The store without the temporaries listed in `ids`.
pub open spec fn pruned<W>(store: Store<W>, ids: Seq<usize>) -> Store<W> {
    Store { temps: store.temps.remove_keys(ids.to_set()), outs: store.outs }
}

/// The store after the first `levels` levels. With `pruning` the prune list
/// of each level is applied once the level is written.
pub open spec fn store_after<B: GateBackend>(
    backend: &B,
    circuit: CircuitModel,
    args: Seq<Seq<B::Wire>>,
    levels: nat,
    pruning: bool,
) -> Store<B::Wire>
    decreases levels,
{
    if levels == 0 {
        empty_store()
    } else {
        let before = store_after(backend, circuit, args, (levels - 1) as nat, pruning);
        let level = circuit.levels[levels - 1];
        let written = commit_all(
            before,
            level,
            level_values(backend, level, args, before),
            level.len(),
        );
        if pruning {
            pruned(written, circuit.prune_after_level[levels - 1])
        } else {
            written
        }
    }
}

/// The output wires of the circuit on `args`.
pub open spec fn circuit_outputs<B: GateBackend>(
    backend: &B,
    circuit: CircuitModel,
    args: Seq<Seq<B::Wire>>,
) -> Seq<B::Wire> {
    Seq::new(
        circuit.output_count as nat,
        |o: int| store_after(backend, circuit, args, circuit.levels.len(), true).outs[o as usize],
    )
}

/// `input` can be read from the wires at hand.
pub open spec fn readable<W>(
    input: GateInput,
    arguments: Seq<&Vec<W>>,
    temps: Map<usize, W>,
    outs: Seq<Option<W>>,
) -> bool {
    match input {
        GateInput::Argument(slot, index) => slot < arguments.len() && index
            < arguments[slot as int]@.len(),
        GateInput::Temporary(id) => temps.contains_key(id),
        GateInput::Output(index) => index < outs.len() && (outs[index as int] is Some),
        GateInput::Constant(_) => true,
    }
}

/// Every input of `gate` can be read, and there is at least one.
pub open spec fn gate_readable<W>(
    gate: GateModel,
    arguments: Seq<&Vec<W>>,
    temps: Map<usize, W>,
    outs: Seq<Option<W>>,
) -> bool {
    &&& gate.inputs.len() >= 1
    &&& forall|k: int|
        0 <= k < gate.inputs.len() ==> readable(#[trigger] gate.inputs[k], arguments, temps, outs)
}

fn operand_ref<'a, W>(
    input: &GateInput,
    arguments: &'a Vec<&'a Vec<W>>,
    temps: &'a HashMap<usize, W>,
    outs: &'a Vec<Option<W>>,
    zero: &'a W,
    one: &'a W,
) -> (r: &'a W)
    requires
        readable(*input, arguments@, temps@, outs@),
    ensures
        *r == operand_among(
            *input,
            words(arguments@),
            store_of(temps@, outs@),
            *zero,
            *one,
        ),
{
    match input {
        GateInput::Argument(slot, index) => {
            let word: &Vec<W> = arguments[*slot];
            &word[*index]
        },
        GateInput::Temporary(id) => {
            match temps.get(id) {
                Some(wire) => wire,
                None => zero,
            }
        },
        GateInput::Output(index) => {
            match &outs[*index] {
                Some(wire) => wire,
                None => zero,
            }
        },
        GateInput::Constant(value) => if *value {
            one
        } else {
            zero
        },
    }
}

/// Applies one gate to the wires its inputs name.
fn eval_gate<B: GateBackend>(
    backend: &B,
    gate: &GateSpec,
    arguments: &Vec<&Vec<B::Wire>>,
    temps: &HashMap<usize, B::Wire>,
    outs: &Vec<Option<B::Wire>>,
    zero: &B::Wire,
    one: &B::Wire,
) -> (r: B::Wire)
    requires
        gate_readable(gate@, arguments@, temps@, outs@),
    ensures
        backend.exact() ==> r == gate_value_among(
            backend,
            gate@,
            words(arguments@),
            store_of(temps@, outs@),
            *zero,
            *one,
        ),
{
    let last = gate.inputs.len() - 1;
    let a = operand_ref(&gate.inputs[0], arguments, temps, outs, zero, one);
    let b = operand_ref(&gate.inputs[last], arguments, temps, outs, zero, one);
    apply(backend, gate.op, a, b)
}

/// Evaluates the gates of one level, one after the other, against the wires
/// at hand.
fn eval_level<B: GateBackend>(
    backend: &B,
    level: &Vec<GateSpec>,
    arguments: &Vec<&Vec<B::Wire>>,
    temps: &HashMap<usize, B::Wire>,
    outs: &Vec<Option<B::Wire>>,
    zero: &B::Wire,
    one: &B::Wire,
) -> (results: Vec<B::Wire>)
    requires
        forall|g: int|
            0 <= g < level@.len() ==> gate_readable(
                (#[trigger] level@[g])@,
                arguments@,
                temps@,
                outs@,
            ),
    ensures
        results@.len() == level@.len(),
        backend.exact() ==> forall|g: int|
            0 <= g < level@.len() ==> #[trigger] results@[g] == gate_value_among(
                backend,
                level@[g]@,
                words(arguments@),
                store_of(temps@, outs@),
                *zero,
                *one,
            ),
{
    let mut results: Vec<B::Wire> = Vec::new();
    let mut g: usize = 0;
    while g < level.len()
        invariant
            g <= level@.len(),
            results@.len() == g,
            forall|h: int|
                0 <= h < level@.len() ==> gate_readable(
                    (#[trigger] level@[h])@,
                    arguments@,
                    temps@,
                    outs@,
                ),
            backend.exact() ==> forall|h: int|
                0 <= h < g ==> #[trigger] results@[h] == gate_value_among(
                    backend,
                    level@[h]@,
                    words(arguments@),
                    store_of(temps@, outs@),
                    *zero,
                    *one,
                ),
        decreases level@.len() - g,
    {
        let value = eval_gate(backend, &level[g], arguments, temps, outs, zero, one);
        results.push(value);
        g += 1;
    }
    results
}

/// Evaluates the gates of one level on the workers of the current rayon pool.
///
/// Trusted: `par_iter().map(..).collect()` of rayon, which hands each gate to
/// `eval_gate` once and collects the results in the order of the gates.
#[verifier::external_body]
fn eval_level_parallel<B: GateBackend>(
    backend: &B,
    level: &Vec<GateSpec>,
    arguments: &Vec<&Vec<B::Wire>>,
    temps: &HashMap<usize, B::Wire>,
    outs: &Vec<Option<B::Wire>>,
    zero: &B::Wire,
    one: &B::Wire,
) -> (results: Vec<B::Wire>)
    requires
        forall|g: int|
            0 <= g < level@.len() ==> gate_readable(
                (#[trigger] level@[g])@,
                arguments@,
                temps@,
                outs@,
            ),
    ensures
        results@.len() == level@.len(),
        backend.exact() ==> forall|g: int|
            0 <= g < level@.len() ==> #[trigger] results@[g] == gate_value_among(
                backend,
                level@[g]@,
                words(arguments@),
                store_of(temps@, outs@),
                *zero,
                *one,
            ),
{
    level.par_iter().map(|gate| eval_gate(backend, gate, arguments, temps, outs, zero, one)).collect()
}

/// Writes the results of a level to their places, in the order of its gates.
fn commit_results<W>(
    level: &Vec<GateSpec>,
    results: Vec<W>,
    temps: &mut HashMap<usize, W>,
    outs: &mut Vec<Option<W>>,
)
    requires
        results@.len() == level@.len(),
        forall|g: int|
            0 <= g < level@.len() && (#[trigger] level@[g]).is_output ==> level@[g].id < old(outs)@.len(),
    ensures
        final(outs)@.len() == old(outs)@.len(),
        store_of(final(temps)@, final(outs)@) == commit_all(
            store_of(old(temps)@, old(outs)@),
            level_view(level@),
            results@,
            level@.len(),
        ),
        forall|t: usize| old(temps)@.contains_key(t) ==> final(temps)@.contains_key(t),
        forall|o: int|
            0 <= o < old(outs)@.len() && old(outs)@[o] is Some ==> (#[trigger] final(outs)@[o] is Some),
        forall|g: int|
            0 <= g < level@.len() && !(#[trigger] level@[g]).is_output ==> final(temps)@.contains_key(level@[g].id),
        forall|g: int|
            0 <= g < level@.len() && (#[trigger] level@[g]).is_output ==> (final(outs)@[level@[g].id as int] is Some),
{
    let ghost start = store_of(temps@, outs@);
    let ghost values = results@;
    let count = level.len();
    let mut g: usize = 0;
    for value in it: results
        invariant
            g == it.index(),
            count == level@.len(),
            it.seq() == values,
            values.len() == level@.len(),
            outs@.len() == old(outs)@.len(),
            forall|h: int|
                0 <= h < level@.len() && (#[trigger] level@[h]).is_output ==> level@[h].id
                    < outs@.len(),
            store_of(temps@, outs@) == commit_all(
                start,
                level_view(level@),
                values,
                g as nat,
            ),
            forall|t: usize| old(temps)@.contains_key(t) ==> temps@.contains_key(t),
            forall|o: int|
                0 <= o < old(outs)@.len() && old(outs)@[o] is Some ==> (#[trigger] outs@[o] is Some),
            forall|h: int|
                0 <= h < g && !(#[trigger] level@[h]).is_output ==> temps@.contains_key(
                    level@[h].id,
                ),
            forall|h: int|
                0 <= h < g && (#[trigger] level@[h]).is_output ==> (outs@[level@[h].id as int] is Some),
    {
        let gate = &level[g];
        let ghost prior = store_of(temps@, outs@);
        if gate.is_output {
            let ghost slots = outs@;
            outs.set(gate.id, Some(value));
            assert(filled(outs@) =~= filled(slots).insert(gate.id, value));
        } else {
            temps.insert(gate.id, value);
        }
        assert(store_of(temps@, outs@) == commit(prior, level_view(level@)[g as int], value));
        g += 1;
    }
}

/// Drops the listed temporaries.
fn prune<W>(temps: &mut HashMap<usize, W>, ids: &Vec<usize>)
    ensures
        final(temps)@ == old(temps)@.remove_keys(ids@.to_set()),
{
    let mut k: usize = 0;
    assert(ids@.take(0).to_set() =~= Set::<usize>::empty());
    assert(temps@ =~= temps@.remove_keys(Set::<usize>::empty()));
    while k < ids.len()
        invariant
            k <= ids@.len(),
            temps@ == old(temps)@.remove_keys(ids@.take(k as int).to_set()),
        decreases ids@.len() - k,
    {
        let ghost before = temps@;
        temps.remove(&ids[k]);
        proof {
            let done = ids@.take(k as int);
            let next = ids@.take(k + 1);
            assert(next =~= done.push(ids@[k as int]));
            assert forall|x: usize| next.to_set().contains(x) <==> (done.to_set().contains(x) || x
                == ids@[k as int]) by {
                if next.to_set().contains(x) {
                    let j = choose|j: int| 0 <= j < next.len() && next[j] == x;
                    if j < k {
                        assert(done[j] == x);
                    }
                }
                if done.to_set().contains(x) {
                    let j = choose|j: int| 0 <= j < done.len() && done[j] == x;
                    assert(next[j] == x);
                }
                if x == ids@[k as int] {
                    assert(next[k as int] == x);
                }
            }
            assert(temps@ =~= old(temps)@.remove_keys(next.to_set()));
        }
        k += 1;
    }
    assert(ids@.take(ids@.len() as int) =~= ids@);
}

/// The wires at hand cover everything the gates of level `level` may read.
pub open spec fn supplies<W>(
    circuit: CircuitModel,
    level: int,
    temps: Map<usize, W>,
    outs: Seq<Option<W>>,
) -> bool {
    &&& outs.len() == circuit.output_count
    &&& forall|t: usize| #[trigger] circuit.temp_live(level, t) ==> temps.contains_key(t)
    &&& forall|o: usize| #[trigger]
        circuit.output_ready(level, o) ==> o < outs.len() && (outs[o as int] is Some)
}

proof fn lemma_level_readable<W>(
    circuit: CircuitModel,
    arguments: Seq<&Vec<W>>,
    level: int,
    temps: Map<usize, W>,
    outs: Seq<Option<W>>,
)
    requires
        circuit.well_formed(shape(arguments)),
        0 <= level < circuit.levels.len(),
        supplies(circuit, level, temps, outs),
    ensures
        forall|g: int|
            0 <= g < circuit.levels[level].len() ==> gate_readable(
                #[trigger] circuit.levels[level][g],
                arguments,
                temps,
                outs,
            ),
        forall|g: int|
            0 <= g < circuit.levels[level].len() && (
            #[trigger] circuit.levels[level][g]).is_output ==> circuit.levels[level][g].id
                < outs.len(),
{
    assert forall|g: int| 0 <= g < circuit.levels[level].len() implies gate_readable(
        #[trigger] circuit.levels[level][g],
        arguments,
        temps,
        outs,
    ) by {
        let gate = circuit.levels[level][g];
        assert(circuit.gate_ok(level, gate, shape(arguments)));
        assert forall|k: int| 0 <= k < gate.inputs.len() implies readable(
            #[trigger] gate.inputs[k],
            arguments,
            temps,
            outs,
        ) by {
            assert(circuit.input_ok(level, gate.inputs[k], shape(arguments)));
        }
    }
    assert forall|g: int|
        0 <= g < circuit.levels[level].len() && (
        #[trigger] circuit.levels[level][g]).is_output implies circuit.levels[level][g].id
        < outs.len() by {
        assert(circuit.gate_ok(level, circuit.levels[level][g], shape(arguments)));
    }
}

proof fn lemma_supplies_next<W>(
    circuit: CircuitModel,
    level: int,
    temps: Map<usize, W>,
    outs: Seq<Option<W>>,
    written_temps: Map<usize, W>,
    written_outs: Seq<Option<W>>,
)
    requires
        0 <= level < circuit.levels.len(),
        circuit.prune_after_level.len() == circuit.levels.len(),
        supplies(circuit, level, temps, outs),
        written_outs.len() == outs.len(),
        forall|t: usize| temps.contains_key(t) ==> written_temps.contains_key(t),
        forall|o: int| 0 <= o < outs.len() && outs[o] is Some ==> (#[trigger] written_outs[o] is Some),
        forall|g: int|
            0 <= g < circuit.levels[level].len() && !(
            #[trigger] circuit.levels[level][g]).is_output ==> written_temps.contains_key(
                circuit.levels[level][g].id,
            ),
        forall|g: int|
            0 <= g < circuit.levels[level].len() && (
            #[trigger] circuit.levels[level][g]).is_output ==> circuit.levels[level][g].id
                < outs.len() && (written_outs[circuit.levels[level][g].id as int] is Some),
    ensures
        supplies(
            circuit,
            level + 1,
            written_temps.remove_keys(circuit.prune_after_level[level].to_set()),
            written_outs,
        ),
{
    let kept = written_temps.remove_keys(circuit.prune_after_level[level].to_set());
    assert forall|t: usize| #[trigger] circuit.temp_live(level + 1, t) implies kept.contains_key(
        t,
    ) by {
        let l = choose|l: int| 0 <= l < level + 1 && #[trigger] circuit.makes_temp(l, t);
        assert(!circuit.pruned_at(level, t));
        if l < level {
            assert(circuit.temp_made_before(level, t));
            if circuit.temp_dropped_before(level, t) {
                let d = choose|d: int| 0 <= d < level && #[trigger] circuit.pruned_at(d, t);
                assert(circuit.pruned_at(d, t));
            }
            assert(circuit.temp_live(level, t));
        } else {
            let g = choose|g: int|
                0 <= g < circuit.levels[level].len() && !(
                #[trigger] circuit.levels[level][g]).is_output && circuit.levels[level][g].id
                    == t;
            assert(written_temps.contains_key(circuit.levels[level][g].id));
        }
    }
    assert forall|o: usize| #[trigger] circuit.output_ready(level + 1, o) implies o
        < written_outs.len() && (written_outs[o as int] is Some) by {
        let l = choose|l: int| 0 <= l < level + 1 && #[trigger] circuit.makes_output(l, o);
        if l < level {
            assert(circuit.output_ready(level, o));
        } else {
            let g = choose|g: int|
                0 <= g < circuit.levels[level].len() && (
                #[trigger] circuit.levels[level][g]).is_output && circuit.levels[level][g].id
                    == o;
            assert(written_outs[circuit.levels[level][g].id as int] is Some);
        }
    }
}

/// Runs every level in order and hands out the filled output array. With
/// `parallel` the gates of a level are spread over the current rayon pool.
fn run_levels<B: GateBackend>(
    backend: &B,
    circuit: &CircuitDefinition,
    arguments: &Vec<&Vec<B::Wire>>,
    parallel: bool,
) -> (out: Vec<B::Wire>)
    requires
        circuit@.well_formed(shape(arguments@)),
    ensures
        out@.len() == circuit.output_count,
        backend.exact() ==> out@ == circuit_outputs(backend, circuit@, words(arguments@)),
{
    let zero = backend.constant(false);
    let one = backend.constant(true);
    let mut temps: HashMap<usize, B::Wire> = HashMap::new();
    let mut outs: Vec<Option<B::Wire>> = Vec::new();
    let mut o: usize = 0;
    while o < circuit.output_count
        invariant
            o <= circuit.output_count,
            outs@.len() == o,
            forall|i: int| 0 <= i < o ==> (#[trigger] outs@[i] is None),
        decreases circuit.output_count - o,
    {
        outs.push(None);
        o += 1;
    }
    assert(filled(outs@) =~= Map::<usize, B::Wire>::empty());
    let ghost args = words(arguments@);
    let mut level: usize = 0;
    while level < circuit.levels.len()
        invariant
            level <= circuit.levels@.len(),
            circuit@.well_formed(shape(arguments@)),
            supplies(circuit@, level as int, temps@, outs@),
            args == words(arguments@),
            backend.exact() ==> zero == backend.constant_wire(false) && one
                == backend.constant_wire(true),
            backend.exact() ==> store_of(temps@, outs@) == store_after(
                backend,
                circuit@,
                args,
                level as nat,
                true,
            ),
        decreases circuit.levels@.len() - level,
    {
        let gates = &circuit.levels[level];
        let ghost before_temps = temps@;
        let ghost before_outs = outs@;
        let ghost before = store_of(temps@, outs@);
        proof {
            lemma_level_readable(circuit@, arguments@, level as int, temps@, outs@);
            assert(circuit@.levels[level as int] == level_view(gates@));
            assert forall|g: int| 0 <= g < gates@.len() implies gate_readable(
                (#[trigger] gates@[g])@,
                arguments@,
                temps@,
                outs@,
            ) by {
                assert(circuit@.levels[level as int][g] == gates@[g]@);
            }
            assert forall|g: int|
                0 <= g < gates@.len() && (#[trigger] gates@[g]).is_output implies gates@[g].id
                < outs@.len() by {
                assert(circuit@.levels[level as int][g] == gates@[g]@);
            }
        }
        let results = if parallel {
            eval_level_parallel(backend, gates, arguments, &temps, &outs, &zero, &one)
        } else {
            eval_level(backend, gates, arguments, &temps, &outs, &zero, &one)
        };
        proof {
            if backend.exact() {
                assert(results@ =~= level_values(backend, level_view(gates@), args, before));
            }
        }
        commit_results(gates, results, &mut temps, &mut outs);
        let ghost written_temps = temps@;
        prune(&mut temps, &circuit.prune_after_level[level]);
        proof {
            assert(circuit@.prune_after_level[level as int]
                == circuit.prune_after_level@[level as int]@);
            assert forall|g: int| 0 <= g < gates@.len() implies circuit@.levels[level as int][g]
                == (#[trigger] gates@[g])@ by {}
            lemma_supplies_next(
                circuit@,
                level as int,
                before_temps,
                before_outs,
                written_temps,
                outs@,
            );
        }
        level += 1;
    }
    let ghost last = outs@;
    proof {
        assert forall|i: int| 0 <= i < last.len() implies (#[trigger] last[i] is Some) by {
            assert(circuit@.output_ready(circuit@.levels.len() as int, i as usize));
        }
    }
    let mut out: Vec<B::Wire> = Vec::new();
    for slot in it: outs
        invariant
            it.seq() == last,
            out@.len() == it.index(),
            forall|i: int| 0 <= i < last.len() ==> (#[trigger] last[i] is Some),
            forall|i: int| 0 <= i < out@.len() ==> #[trigger] out@[i] == last[i]->0,
    {
        match slot {
            Some(wire) => {
                out.push(wire);
            },
            None => {
            },
        }
    }
    proof {
        if backend.exact() {
            assert(out@ =~= circuit_outputs(backend, circuit@, args));
        }
    }
    out
}

/// Runs the circuit inside a pool of worker threads on each of which the
/// backend was bound before it took its first gate.
///
/// Trusted: `ThreadPoolBuilder::build_scoped` and `ThreadPool::install` of
/// rayon. The pool runs `run_levels` once and hands back what it returned;
/// `None` stands for a pool that could not be built.
#[verifier::external_body]
fn run_in_pool<B: GateBackend>(
    backend: &B,
    circuit: &CircuitDefinition,
    arguments: &Vec<&Vec<B::Wire>>,
) -> (r: Option<Vec<B::Wire>>)
    requires
        circuit@.well_formed(shape(arguments@)),
    ensures
        r matches Some(out) ==> out@.len() == circuit.output_count && (backend.exact() ==> out@
            == circuit_outputs(backend, circuit@, words(arguments@))),
{
    rayon::ThreadPoolBuilder::new()
        .build_scoped(
            |thread| {
                backend.bind_worker();
                thread.run()
            },
            |pool| pool.install(|| run_levels(backend, circuit, arguments, true)),
        )
        .ok()
}

/// Evaluates `circuit` over `arguments`, the gates of each level in
/// parallel, and returns its output wires in slot order.
///
/// The levels are taken strictly in order. Every gate of a level reads the
/// wires as they stood before the level; the results are written once all
/// gates of the level are done, and the temporaries on the level's prune
/// list are dropped after that. Where no worker pool can be had the calling
/// thread does the work alone.
pub fn evaluate<B: GateBackend>(
    backend: &B,
    circuit: &CircuitDefinition,
    arguments: &Vec<&Vec<B::Wire>>,
) -> (out: Vec<B::Wire>)
    requires
        circuit@.well_formed(shape(arguments@)),
    ensures
        out@.len() == circuit.output_count,
        backend.exact() ==> out@ == circuit_outputs(backend, circuit@, words(arguments@)),
{
    match run_in_pool(backend, circuit, arguments) {
        Some(out) => out,
        None => evaluate_serial(backend, circuit, arguments),
    }
}

/// Evaluates `circuit` over `arguments` on the calling thread alone.
pub fn evaluate_serial<B: GateBackend>(
    backend: &B,
    circuit: &CircuitDefinition,
    arguments: &Vec<&Vec<B::Wire>>,
) -> (out: Vec<B::Wire>)
    requires
        circuit@.well_formed(shape(arguments@)),
    ensures
        out@.len() == circuit.output_count,
        backend.exact() ==> out@ == circuit_outputs(backend, circuit@, words(arguments@)),
{
    backend.bind_worker();
    run_levels(backend, circuit, arguments, false)
}

/// Evaluates `circuit` over `arguments` if the circuit is well formed for
/// arguments of these lengths, and reports a malformed circuit otherwise.
pub fn try_evaluate<B: GateBackend>(
    backend: &B,
    circuit: &CircuitDefinition,
    arguments: &Vec<&Vec<B::Wire>>,
) -> (r: Result<Vec<B::Wire>, Error>)
    ensures
        r is Ok <==> circuit@.well_formed(shape(arguments@)),
        r matches Ok(out) ==> out@.len() == circuit.output_count && (backend.exact() ==> out@
            == circuit_outputs(backend, circuit@, words(arguments@))),
        r matches Err(e) ==> e == Error::MalformedCircuit,
{
    let mut arg_lens: Vec<usize> = Vec::new();
    let mut slot: usize = 0;
    while slot < arguments.len()
        invariant
            slot <= arguments@.len(),
            arg_lens@.len() == slot,
            forall|i: int| 0 <= i < slot ==> #[trigger] arg_lens@[i] == arguments@[i]@.len(),
        decreases arguments@.len() - slot,
    {
        let word: &Vec<B::Wire> = arguments[slot];
        arg_lens.push(word.len());
        slot += 1;
    }
    assert(lens(arg_lens@) =~= shape(arguments@));
    if circuit.is_well_formed(&arg_lens) {
        Ok(evaluate(backend, circuit, arguments))
    } else {
        Err(Error::MalformedCircuit)
    }
}

/// Two runs of an exact backend over one circuit and the same argument wires
/// end in the same output wires, whichever way the gates of a level were
/// spread over workers.
pub proof fn lemma_evaluation_deterministic<B: GateBackend>(
    backend: &B,
    circuit: CircuitModel,
    args: Seq<Seq<B::Wire>>,
    first: Seq<B::Wire>,
    second: Seq<B::Wire>,
)
    requires
        backend.exact(),
        first == circuit_outputs(backend, circuit, args),
        second == circuit_outputs(backend, circuit, args),
    ensures
        first == second,
{
}

} // verus!
