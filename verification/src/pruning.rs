//! Pruning changes what an evaluation keeps in memory, never what it yields.

use vstd::prelude::*;
use crate::backend::GateBackend;
use crate::engine::{
    circuit_outputs, commit, commit_all, gate_value, level_values, operand_among, pruned,
    store_after, Store,
};
use crate::netlist::{CircuitModel, GateInput, GateModel};

verus! {

/// The output wires of the circuit on `args` when no temporary is ever
/// dropped.
pub open spec fn circuit_outputs_unpruned<B: GateBackend>(
    backend: &B,
    circuit: CircuitModel,
    args: Seq<Seq<B::Wire>>,
) -> Seq<B::Wire> {
    Seq::new(
        circuit.output_count as nat,
        |o: int| store_after(backend, circuit, args, circuit.levels.len(), false).outs[o as usize],
    )
}

/// A well-formed circuit never reads a temporary after the level whose prune
/// list names it.
pub proof fn lemma_pruned_never_read(
    circuit: CircuitModel,
    arg_lens: Seq<nat>,
    pruning_level: int,
    level: int,
    g: int,
    k: int,
    id: usize,
)
    requires
        circuit.well_formed(arg_lens),
        0 <= pruning_level < level < circuit.levels.len(),
        0 <= g < circuit.levels[level].len(),
        0 <= k < circuit.levels[level][g].inputs.len(),
        circuit.levels[level][g].inputs[k] == GateInput::Temporary(id),
    ensures
        !circuit.prune_after_level[pruning_level].contains(id),
{
    let gate = circuit.levels[level][g];
    assert(circuit.gate_ok(level, gate, arg_lens));
    assert(circuit.input_ok(level, gate.inputs[k], arg_lens));
    assert(circuit.temp_live(level, id));
    if circuit.pruned_at(pruning_level, id) {
        assert(circuit.temp_dropped_before(level, id));
    }
}

/// Two stores hold the same wire under the temporary `id`.
spec fn same_temp<W>(a: Store<W>, b: Store<W>, id: usize) -> bool {
    a.temps.contains_key(id) && b.temps.contains_key(id) && a.temps[id] == b.temps[id]
}

/// Writing the same results to two stores with the same outputs leaves the
/// outputs the same, and leaves a temporary the same if it was the same
/// before or one of the written gates makes it.
proof fn lemma_commit_all_agrees<W>(
    a: Store<W>,
    b: Store<W>,
    level: Seq<GateModel>,
    values: Seq<W>,
    count: nat,
)
    requires
        a.outs == b.outs,
        count <= level.len(),
    ensures
        commit_all(a, level, values, count).outs == commit_all(b, level, values, count).outs,
        forall|t: usize|
            same_temp(a, b, t) ==> #[trigger] same_temp(
                commit_all(a, level, values, count),
                commit_all(b, level, values, count),
                t,
            ),
        forall|h: int|
            0 <= h < count && !(#[trigger] level[h]).is_output ==> same_temp(
                commit_all(a, level, values, count),
                commit_all(b, level, values, count),
                level[h].id,
            ),
    decreases count,
{
    if count > 0 {
        let prev = (count - 1) as nat;
        lemma_commit_all_agrees(a, b, level, values, prev);
        let pa = commit_all(a, level, values, prev);
        let pb = commit_all(b, level, values, prev);
        let gate = level[count - 1];
        let value = values[count - 1];
        assert(commit_all(a, level, values, count) == commit(pa, gate, value));
        assert(commit_all(b, level, values, count) == commit(pb, gate, value));
        assert forall|t: usize| same_temp(a, b, t) implies #[trigger] same_temp(
            commit_all(a, level, values, count),
            commit_all(b, level, values, count),
            t,
        ) by {
            assert(same_temp(pa, pb, t));
        }
        assert forall|h: int| 0 <= h < count && !(#[trigger] level[h]).is_output implies same_temp(
            commit_all(a, level, values, count),
            commit_all(b, level, values, count),
            level[h].id,
        ) by {
            if h < count - 1 {
                assert(same_temp(pa, pb, level[h].id));
            }
        }
    }
}

/// The pruned and the unpruned run agree on everything a later level may
/// read.
spec fn runs_agree<B: GateBackend>(
    backend: &B,
    circuit: CircuitModel,
    args: Seq<Seq<B::Wire>>,
    levels: nat,
) -> bool {
    let kept = store_after(backend, circuit, args, levels, true);
    let full = store_after(backend, circuit, args, levels, false);
    &&& kept.outs == full.outs
    &&& forall|t: usize| #[trigger] circuit.temp_live(levels as int, t) ==> same_temp(kept, full, t)
}

proof fn lemma_runs_agree<B: GateBackend>(
    backend: &B,
    circuit: CircuitModel,
    args: Seq<Seq<B::Wire>>,
    arg_lens: Seq<nat>,
    levels: nat,
)
    requires
        circuit.well_formed(arg_lens),
        levels <= circuit.levels.len(),
    ensures
        runs_agree(backend, circuit, args, levels),
    decreases levels,
{
    if levels == 0 {
        assert forall|t: usize| #[trigger]
            circuit.temp_live(0, t) implies same_temp(
            store_after(backend, circuit, args, 0, true),
            store_after(backend, circuit, args, 0, false),
            t,
        ) by {
            assert(!circuit.temp_made_before(0, t));
        }
    } else {
        let n = (levels - 1) as nat;
        lemma_runs_agree(backend, circuit, args, arg_lens, n);
        let kept = store_after(backend, circuit, args, n, true);
        let full = store_after(backend, circuit, args, n, false);
        let level = circuit.levels[n as int];
        let kept_values = level_values(backend, level, args, kept);
        let full_values = level_values(backend, level, args, full);
        assert(kept_values =~= full_values) by {
            assert forall|g: int| 0 <= g < level.len() implies kept_values[g] == full_values[g] by {
                let gate = level[g];
                assert(circuit.gate_ok(n as int, circuit.levels[n as int][g], arg_lens));
                let zero = backend.constant_wire(false);
                let one = backend.constant_wire(true);
                assert forall|k: int| 0 <= k < gate.inputs.len() implies operand_among(
                    gate.inputs[k],
                    args,
                    kept,
                    zero,
                    one,
                ) == operand_among(gate.inputs[k], args, full, zero, one) by {
                    assert(circuit.input_ok(n as int, gate.inputs[k], arg_lens));
                    match gate.inputs[k] {
                        GateInput::Temporary(id) => {
                            assert(circuit.temp_live(n as int, id));
                            assert(same_temp(kept, full, id));
                        },
                        _ => {},
                    }
                }
                assert(gate.inputs.len() >= 1);
                assert(gate_value(backend, gate, args, kept) == gate_value(
                    backend,
                    gate,
                    args,
                    full,
                ));
            }
        }
        lemma_commit_all_agrees(kept, full, level, kept_values, level.len());
        let kept_written = commit_all(kept, level, kept_values, level.len());
        let full_written = commit_all(full, level, kept_values, level.len());
        let ids = circuit.prune_after_level[n as int];
        let kept_next = pruned(kept_written, ids);
        assert(store_after(backend, circuit, args, levels, true) == kept_next);
        assert(store_after(backend, circuit, args, levels, false) == full_written);
        assert forall|t: usize| #[trigger]
            circuit.temp_live(levels as int, t) implies same_temp(kept_next, full_written, t) by {
            assert(!circuit.pruned_at(n as int, t)) by {
                if circuit.pruned_at(n as int, t) {
                    assert(circuit.temp_dropped_before(levels as int, t));
                }
            }
            assert(!ids.to_set().contains(t));
            let l = choose|l: int| 0 <= l < levels && #[trigger] circuit.makes_temp(l, t);
            if l < n {
                assert(circuit.temp_made_before(n as int, t));
                if circuit.temp_dropped_before(n as int, t) {
                    let d = choose|d: int| 0 <= d < n && #[trigger] circuit.pruned_at(d, t);
                    assert(circuit.pruned_at(d, t));
                    assert(circuit.temp_dropped_before(levels as int, t));
                }
                assert(circuit.temp_live(n as int, t));
                assert(same_temp(kept, full, t));
                assert(same_temp(kept_written, full_written, t));
            } else {
                let g = choose|g: int|
                    0 <= g < circuit.levels[n as int].len() && !(
                    #[trigger] circuit.levels[n as int][g]).is_output
                        && circuit.levels[n as int][g].id == t;
                assert(!level[g].is_output);
                assert(same_temp(kept_written, full_written, level[g].id));
            }
        }
    }
}

/// Evaluating a well-formed circuit without ever dropping a temporary yields
/// the same output wires as evaluating it with its prune lists applied.
pub proof fn lemma_pruning_keeps_outputs<B: GateBackend>(
    backend: &B,
    circuit: CircuitModel,
    args: Seq<Seq<B::Wire>>,
    arg_lens: Seq<nat>,
)
    requires
        circuit.well_formed(arg_lens),
    ensures
        circuit_outputs(backend, circuit, args) == circuit_outputs_unpruned(backend, circuit, args),
{
    lemma_runs_agree(backend, circuit, args, arg_lens, circuit.levels.len());
    assert(circuit_outputs(backend, circuit, args) =~= circuit_outputs_unpruned(
        backend,
        circuit,
        args,
    ));
}

} // verus!
