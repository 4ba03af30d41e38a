//! Schedules: a way to show once and for all that a given circuit is well
//! formed, and what it computes.
//!
//! A schedule says of every wire of a circuit which gate makes it and, of a
//! temporary, from which level on it may be dropped. Whether a schedule fits
//! a circuit is a matter of looking at one gate at a time. A circuit with a
//! schedule that fits is well formed, and an assignment of values to its
//! wires that satisfies every gate is what the engine computes.

use vstd::prelude::*;
use crate::backend::{composed, GateBackend};
use crate::engine::{
    circuit_outputs, commit, commit_all, gate_value, level_values, operand_among, pruned,
    store_after, Store,
};
use crate::netlist::{CircuitModel, GateInput, GateModel};

verus! {

/// Where the wires of a circuit are made.
pub struct Schedule {
    /// The level whose gate makes the temporary.
    pub made: spec_fn(usize) -> int,
    /// The place of that gate in its level.
    pub slot: spec_fn(usize) -> int,
    /// The first level whose prune list may name the temporary.
    pub dropped: spec_fn(usize) -> int,
    /// The level whose gate fills the output slot.
    pub written: spec_fn(usize) -> int,
    /// The place of that gate in its level.
    pub out_slot: spec_fn(usize) -> int,
}

impl CircuitModel {
    /// What the schedule names as the maker of temporary `id` is there and
    /// makes it.
    pub open spec fn temp_placed(self, id: usize, s: Schedule) -> bool {
        let l = (s.made)(id);
        let g = (s.slot)(id);
        &&& 0 <= l < self.levels.len()
        &&& 0 <= g < self.levels[l].len()
        &&& !self.levels[l][g].is_output
        &&& self.levels[l][g].id == id
    }

    /// What the schedule names as the maker of output slot `index` is there and
    /// fills it.
    pub open spec fn output_placed(self, index: usize, s: Schedule) -> bool {
        let l = (s.written)(index);
        let g = (s.out_slot)(index);
        &&& 0 <= l < self.levels.len()
        &&& 0 <= g < self.levels[l].len()
        &&& self.levels[l][g].is_output
        &&& self.levels[l][g].id == index
    }

    /// By the schedule, `input` names a wire that a gate of level `level`
    /// can read.
    pub open spec fn input_scheduled(
        self,
        level: int,
        input: GateInput,
        arg_lens: Seq<nat>,
        s: Schedule,
    ) -> bool {
        match input {
            GateInput::Argument(slot, index) => slot < arg_lens.len() && index < arg_lens[slot as int],
            GateInput::Temporary(id) => self.temp_placed(id, s) && (s.made)(id) < level <= (s.dropped)(
                id,
            ),
            GateInput::Output(index) => self.output_placed(index, s) && (s.written)(index) < level,
            GateInput::Constant(_) => true,
        }
    }

    /// Gate `g` of level `level` has the operands its operation needs, reads
    /// what the schedule lets it read and, if it fills an output slot, is
    /// what the schedule names for the slot.
    pub open spec fn gate_scheduled(self, level: int, g: int, arg_lens: Seq<nat>, s: Schedule) -> bool {
        let gate = self.levels[level][g];
        &&& gate.inputs.len() == gate.op.arity()
        &&& forall|k: int|
            0 <= k < gate.inputs.len() ==> self.input_scheduled(
                level,
                #[trigger] gate.inputs[k],
                arg_lens,
                s,
            )
        &&& gate.is_output ==> gate.id < self.output_count && (s.written)(gate.id) == level && (
        s.out_slot)(gate.id) == g
    }

    /// Every gate of level `level` is scheduled, and the prune list of the
    /// level names no temporary before the schedule allows it.
    pub open spec fn level_scheduled(self, level: int, arg_lens: Seq<nat>, s: Schedule) -> bool {
        &&& forall|g: int|
            0 <= g < self.levels[level].len() ==> #[trigger] self.gate_scheduled(level, g, arg_lens, s)
        &&& forall|i: int|
            0 <= i < self.prune_after_level[level].len() ==> (s.dropped)(
                #[trigger] self.prune_after_level[level][i],
            ) <= level
    }

    /// The schedule fits the circuit on arguments of the lengths `arg_lens`.
    pub open spec fn scheduled(self, arg_lens: Seq<nat>, s: Schedule) -> bool {
        &&& self.prune_after_level.len() == self.levels.len()
        &&& forall|l: int|
            0 <= l < self.levels.len() ==> #[trigger] self.level_scheduled(l, arg_lens, s)
        &&& forall|o: usize| o < self.output_count ==> #[trigger] self.output_placed(o, s)
    }

    /// A circuit with a schedule that fits is well formed.
    pub proof fn lemma_scheduled_well_formed(self, arg_lens: Seq<nat>, s: Schedule)
        requires
            self.scheduled(arg_lens, s),
        ensures
            self.well_formed(arg_lens),
    {
        assert forall|l: int, g: int|
            0 <= l < self.levels.len() && 0 <= g < self.levels[l].len() implies self.gate_ok(
            l,
            #[trigger] self.levels[l][g],
            arg_lens,
        ) by {
            let gate = self.levels[l][g];
            assert(self.level_scheduled(l, arg_lens, s));
            assert(self.gate_scheduled(l, g, arg_lens, s));
            assert forall|k: int| 0 <= k < gate.inputs.len() implies self.input_ok(
                l,
                #[trigger] gate.inputs[k],
                arg_lens,
            ) by {
                assert(self.input_scheduled(l, gate.inputs[k], arg_lens, s));
                match gate.inputs[k] {
                    GateInput::Temporary(id) => {
                        self.lemma_scheduled_live(arg_lens, s, l, id);
                    },
                    GateInput::Output(index) => {
                        let made = (s.written)(index);
                        assert(self.levels[made][(s.out_slot)(index)].is_output);
                        assert(self.makes_output(made, index));
                    },
                    _ => {},
                }
            }
            if gate.is_output {
                if self.output_ready(l, gate.id) {
                    let earlier = choose|e: int| 0 <= e < l && #[trigger] self.makes_output(e, gate.id);
                    let h = choose|h: int|
                        0 <= h < self.levels[earlier].len() && (
                        #[trigger] self.levels[earlier][h]).is_output && self.levels[earlier][h].id
                            == gate.id;
                    assert(self.level_scheduled(earlier, arg_lens, s));
                    assert(self.gate_scheduled(earlier, h, arg_lens, s));
                }
            }
        }
        assert forall|l: int| 0 <= l < self.levels.len() implies #[trigger] self.outputs_distinct_in(
            l,
        ) by {
            assert(self.level_scheduled(l, arg_lens, s));
            assert forall|g: int, h: int|
                0 <= g < h < self.levels[l].len() && (#[trigger] self.levels[l][g]).is_output && (
                #[trigger] self.levels[l][h]).is_output implies self.levels[l][g].id
                != self.levels[l][h].id by {
                assert(self.gate_scheduled(l, g, arg_lens, s));
                assert(self.gate_scheduled(l, h, arg_lens, s));
            }
        }
        assert forall|o: usize| o < self.output_count implies #[trigger] self.output_ready(
            self.levels.len() as int,
            o,
        ) by {
            assert(self.output_placed(o, s));
            let made = (s.written)(o);
            assert(self.levels[made][(s.out_slot)(o)].is_output);
            assert(self.makes_output(made, o));
        }
    }

    /// A temporary that the schedule lets a gate of level `level` read is
    /// live at that level.
    proof fn lemma_scheduled_live(self, arg_lens: Seq<nat>, s: Schedule, level: int, id: usize)
        requires
            self.scheduled(arg_lens, s),
            0 <= level < self.levels.len(),
            self.temp_placed(id, s),
            (s.made)(id) < level <= (s.dropped)(id),
        ensures
            self.temp_live(level, id),
    {
        let made = (s.made)(id);
        assert(!self.levels[made][(s.slot)(id)].is_output);
        assert(self.makes_temp(made, id));
        if self.temp_dropped_before(level, id) {
            let earlier = choose|e: int| 0 <= e < level && #[trigger] self.pruned_at(e, id);
            let list = self.prune_after_level[earlier];
            let i = choose|i: int| 0 <= i < list.len() && list[i] == id;
            assert(self.level_scheduled(earlier, arg_lens, s));
            assert((s.dropped)(list[i]) <= earlier);
        }
    }
}

/// The value that an assignment gives to the wire `input` names.
pub open spec fn assigned<B: GateBackend>(
    backend: &B,
    input: GateInput,
    args: Seq<Seq<B::Wire>>,
    temps: spec_fn(usize) -> B::Wire,
    outs: spec_fn(usize) -> B::Wire,
) -> B::Wire {
    match input {
        GateInput::Argument(slot, index) => args[slot as int][index as int],
        GateInput::Temporary(id) => temps(id),
        GateInput::Output(index) => outs(index),
        GateInput::Constant(value) => backend.constant_wire(value),
    }
}

/// The value that an assignment gives to the wire that `gate` makes.
pub open spec fn assigned_to<W>(
    gate: GateModel,
    temps: spec_fn(usize) -> W,
    outs: spec_fn(usize) -> W,
) -> W {
    if gate.is_output {
        outs(gate.id)
    } else {
        temps(gate.id)
    }
}

/// The assignment satisfies `gate`: the wire it makes has the value that
/// its operation yields on the values of its inputs.
pub open spec fn satisfies<B: GateBackend>(
    backend: &B,
    gate: GateModel,
    args: Seq<Seq<B::Wire>>,
    temps: spec_fn(usize) -> B::Wire,
    outs: spec_fn(usize) -> B::Wire,
) -> bool {
    assigned_to(gate, temps, outs) == composed(
        backend,
        gate.op,
        assigned(backend, gate.inputs[0], args, temps, outs),
        assigned(backend, gate.inputs[gate.inputs.len() - 1], args, temps, outs),
    )
}

/// The assignment satisfies every gate of level `level`.
pub open spec fn level_satisfied<B: GateBackend>(
    backend: &B,
    circuit: CircuitModel,
    args: Seq<Seq<B::Wire>>,
    level: int,
    temps: spec_fn(usize) -> B::Wire,
    outs: spec_fn(usize) -> B::Wire,
) -> bool {
    forall|g: int|
        0 <= g < circuit.levels[level].len() ==> satisfies(
            backend,
            #[trigger] circuit.levels[level][g],
            args,
            temps,
            outs,
        )
}

/// The store holds the temporary `id` with its assigned value.
spec fn holds_temp<W>(store: Store<W>, id: usize, temps: spec_fn(usize) -> W) -> bool {
    store.temps.dom().contains(id) && store.temps[id] == temps(id)
}

/// The store holds output `index` with its assigned value.
spec fn holds_out<W>(store: Store<W>, index: usize, outs: spec_fn(usize) -> W) -> bool {
    store.outs[index] == outs(index)
}

/// The store holds, with its assigned value, every wire that by the
/// schedule is there when level `level` begins.
spec fn agrees<W>(
    store: Store<W>,
    circuit: CircuitModel,
    s: Schedule,
    level: int,
    temps: spec_fn(usize) -> W,
    outs: spec_fn(usize) -> W,
) -> bool {
    &&& forall|t: usize|
        circuit.temp_placed(t, s) && (s.made)(t) < level <= (s.dropped)(t) ==> #[trigger] holds_temp(
            store,
            t,
            temps,
        )
    &&& forall|o: usize|
        circuit.output_placed(o, s) && (s.written)(o) < level ==> #[trigger] holds_out(
            store,
            o,
            outs,
        )
}

/// Writing assigned values keeps the assigned values that were there and
/// adds those of the gates written.
proof fn lemma_commit_assigned<W>(
    before: Store<W>,
    level: Seq<GateModel>,
    values: Seq<W>,
    count: nat,
    temps: spec_fn(usize) -> W,
    outs: spec_fn(usize) -> W,
)
    requires
        count <= level.len(),
        values.len() == level.len(),
        forall|g: int| 0 <= g < level.len() ==> #[trigger] values[g] == assigned_to(level[g], temps, outs),
    ensures
        forall|t: usize|
            holds_temp(before, t, temps) ==> #[trigger] holds_temp(
                commit_all(before, level, values, count),
                t,
                temps,
            ),
        forall|o: usize|
            holds_out(before, o, outs) ==> #[trigger] holds_out(
                commit_all(before, level, values, count),
                o,
                outs,
            ),
        forall|g: int|
            0 <= g < count && !(#[trigger] level[g]).is_output ==> holds_temp(
                commit_all(before, level, values, count),
                level[g].id,
                temps,
            ),
        forall|g: int|
            0 <= g < count && (#[trigger] level[g]).is_output ==> holds_out(
                commit_all(before, level, values, count),
                level[g].id,
                outs,
            ),
    decreases count,
{
    if count > 0 {
        let earlier = commit_all(before, level, values, (count - 1) as nat);
        let gate = level[count - 1];
        let after = commit(earlier, gate, values[count - 1]);
        lemma_commit_assigned(before, level, values, (count - 1) as nat, temps, outs);
        assert(after == commit_all(before, level, values, count));
        assert(values[count - 1] == assigned_to(gate, temps, outs));
        assert forall|t: usize| holds_temp(before, t, temps) implies #[trigger] holds_temp(
            after,
            t,
            temps,
        ) by {
            assert(holds_temp(earlier, t, temps));
        }
        assert forall|o: usize| holds_out(before, o, outs) implies #[trigger] holds_out(
            after,
            o,
            outs,
        ) by {
            assert(holds_out(earlier, o, outs));
        }
        assert forall|g: int| 0 <= g < count && !(#[trigger] level[g]).is_output implies holds_temp(
            after,
            level[g].id,
            temps,
        ) by {
            if g < count - 1 {
                assert(holds_temp(earlier, level[g].id, temps));
            }
        }
        assert forall|g: int| 0 <= g < count && (#[trigger] level[g]).is_output implies holds_out(
            after,
            level[g].id,
            outs,
        ) by {
            if g < count - 1 {
                assert(holds_out(earlier, level[g].id, outs));
            }
        }
    }
}

/// After any number of levels the store agrees with an assignment that
/// satisfies every gate.
proof fn lemma_store_agrees<B: GateBackend>(
    backend: &B,
    circuit: CircuitModel,
    args: Seq<Seq<B::Wire>>,
    arg_lens: Seq<nat>,
    s: Schedule,
    temps: spec_fn(usize) -> B::Wire,
    outs: spec_fn(usize) -> B::Wire,
    done: nat,
)
    requires
        circuit.scheduled(arg_lens, s),
        forall|l: int|
            0 <= l < circuit.levels.len() ==> #[trigger] level_satisfied(
                backend,
                circuit,
                args,
                l,
                temps,
                outs,
            ),
        done <= circuit.levels.len(),
    ensures
        agrees(store_after(backend, circuit, args, done, true), circuit, s, done as int, temps, outs),
    decreases done,
{
    if done > 0 {
        let k = (done - 1) as int;
        lemma_store_agrees(backend, circuit, args, arg_lens, s, temps, outs, (done - 1) as nat);
        let before = store_after(backend, circuit, args, (done - 1) as nat, true);
        let level = circuit.levels[k];
        let values = level_values(backend, level, args, before);
        let written = commit_all(before, level, values, level.len());
        let list = circuit.prune_after_level[k];
        let after = pruned(written, list);
        assert(after == store_after(backend, circuit, args, done, true));
        assert(circuit.level_scheduled(k, arg_lens, s));
        assert(level_satisfied(backend, circuit, args, k, temps, outs));
        assert forall|g: int| 0 <= g < level.len() implies #[trigger] values[g] == assigned_to(
            level[g],
            temps,
            outs,
        ) by {
            let gate = level[g];
            assert(circuit.gate_scheduled(k, g, arg_lens, s));
            assert(satisfies(backend, gate, args, temps, outs));
            let last = gate.inputs.len() - 1;
            assert(circuit.input_scheduled(k, gate.inputs[0], arg_lens, s));
            assert(circuit.input_scheduled(k, gate.inputs[last], arg_lens, s));
            lemma_reads_assigned(backend, circuit, args, arg_lens, s, temps, outs, k, before, gate.inputs[0]);
            lemma_reads_assigned(
                backend,
                circuit,
                args,
                arg_lens,
                s,
                temps,
                outs,
                k,
                before,
                gate.inputs[last],
            );
            assert(values[g] == gate_value(backend, gate, args, before));
        }
        lemma_commit_assigned(before, level, values, level.len(), temps, outs);
        assert forall|t: usize|
            circuit.temp_placed(t, s) && (s.made)(t) < done <= (s.dropped)(t) implies #[trigger] holds_temp(
            after,
            t,
            temps,
        ) by {
            if (s.made)(t) < k {
                assert(holds_temp(before, t, temps));
            } else {
                assert(!level[(s.slot)(t)].is_output);
            }
            assert(holds_temp(written, t, temps));
            if list.contains(t) {
                let i = choose|i: int| 0 <= i < list.len() && list[i] == t;
                assert((s.dropped)(list[i]) <= k);
            }
            assert(!list.to_set().contains(t));
        }
        assert forall|o: usize|
            circuit.output_placed(o, s) && (s.written)(o) < done implies #[trigger] holds_out(
            after,
            o,
            outs,
        ) by {
            if (s.written)(o) < k {
                assert(holds_out(before, o, outs));
            } else {
                assert(level[(s.out_slot)(o)].is_output);
            }
            assert(holds_out(written, o, outs));
        }
    }
}

/// A gate that is scheduled for level `level` reads from the store the
/// value that the assignment gives to its input.
proof fn lemma_reads_assigned<B: GateBackend>(
    backend: &B,
    circuit: CircuitModel,
    args: Seq<Seq<B::Wire>>,
    arg_lens: Seq<nat>,
    s: Schedule,
    temps: spec_fn(usize) -> B::Wire,
    outs: spec_fn(usize) -> B::Wire,
    level: int,
    store: Store<B::Wire>,
    input: GateInput,
)
    requires
        agrees(store, circuit, s, level, temps, outs),
        circuit.input_scheduled(level, input, arg_lens, s),
    ensures
        operand_among(
            input,
            args,
            store,
            backend.constant_wire(false),
            backend.constant_wire(true),
        ) == assigned(backend, input, args, temps, outs),
{
    match input {
        GateInput::Temporary(id) => {
            assert(holds_temp(store, id, temps));
        },
        GateInput::Output(index) => {
            assert(holds_out(store, index, outs));
        },
        _ => {},
    }
}

/// The word of the values that an assignment gives to the output slots.
pub open spec fn assigned_outputs<W>(count: usize, outs: spec_fn(usize) -> W) -> Seq<W> {
    Seq::new(count as nat, |o: int| outs(o as usize))
}

/// What the engine computes on a circuit with a schedule that fits is the
/// one assignment of values to the wires that satisfies every gate: the
/// output wires are the values that such an assignment gives to the output
/// slots.
pub proof fn lemma_assignment_is_computed<B: GateBackend>(
    backend: &B,
    circuit: CircuitModel,
    args: Seq<Seq<B::Wire>>,
    arg_lens: Seq<nat>,
    s: Schedule,
    temps: spec_fn(usize) -> B::Wire,
    outs: spec_fn(usize) -> B::Wire,
)
    requires
        circuit.scheduled(arg_lens, s),
        forall|l: int|
            0 <= l < circuit.levels.len() ==> #[trigger] level_satisfied(
                backend,
                circuit,
                args,
                l,
                temps,
                outs,
            ),
    ensures
        circuit_outputs(backend, circuit, args) == assigned_outputs(circuit.output_count, outs),
{
    let done = circuit.levels.len();
    let store = store_after(backend, circuit, args, done, true);
    lemma_store_agrees(backend, circuit, args, arg_lens, s, temps, outs, done);
    assert forall|o: int| 0 <= o < circuit.output_count implies #[trigger] circuit_outputs(
        backend,
        circuit,
        args,
    )[o] == assigned_outputs(circuit.output_count, outs)[o] by {
        assert(circuit.output_placed(o as usize, s));
        assert(holds_out(store, o as usize, outs));
    }
    assert(circuit_outputs(backend, circuit, args) =~= assigned_outputs(circuit.output_count, outs));
}

} // verus!
