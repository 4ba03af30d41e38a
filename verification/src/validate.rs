//! A decision procedure for the well-formedness of a circuit.

use vstd::prelude::*;
use std::collections::HashSet;
use crate::netlist::{CircuitDefinition, CircuitModel, GateInput, GateOp, GateSpec};

verus! {

/// Lengths as natural numbers.
pub open spec fn lens(arg_lens: Seq<usize>) -> Seq<nat> {
    Seq::new(arg_lens.len(), |i: int| arg_lens[i] as nat)
}

/// `id` is one of the first `count` entries of `ids`.
spec fn listed_among(ids: Seq<usize>, count: int, id: usize) -> bool {
    exists|j: int| 0 <= j < count && #[trigger] ids[j] == id
}

impl CircuitModel {
    /// The flags say which output slots the levels before `level` filled, the
    /// sets which temporaries they made and which they listed for removal.
    pub closed spec fn summarises(
        self,
        level: int,
        made: Set<usize>,
        dropped: Set<usize>,
        written: Seq<bool>,
    ) -> bool {
        &&& self.made_by(level, made)
        &&& self.dropped_by(level, dropped)
        &&& self.written_by(level, written)
    }

    spec fn made_by(self, level: int, made: Set<usize>) -> bool {
        forall|t: usize|
            #![trigger made.contains(t)]
            #![trigger self.temp_made_before(level, t)]
            made.contains(t) <==> self.temp_made_before(level, t)
    }

    spec fn dropped_by(self, level: int, dropped: Set<usize>) -> bool {
        forall|t: usize|
            #![trigger dropped.contains(t)]
            #![trigger self.temp_dropped_before(level, t)]
            dropped.contains(t) <==> self.temp_dropped_before(level, t)
    }

    spec fn written_by(self, level: int, written: Seq<bool>) -> bool {
        &&& written.len() == self.output_count
        &&& forall|o: usize| #[trigger]
            self.output_ready(level, o) <==> o < written.len() && written[o as int]
    }

    /// One of the first `count` gates of level `level` makes temporary `id`.
    spec fn makes_temp_among(self, level: int, count: int, id: usize) -> bool {
        exists|g: int|
            0 <= g < count && !(#[trigger] self.levels[level][g]).is_output
                && self.levels[level][g].id == id
    }

    /// One of the first `count` gates of level `level` fills output `index`.
    spec fn makes_output_among(self, level: int, count: int, index: usize) -> bool {
        exists|g: int|
            0 <= g < count && (#[trigger] self.levels[level][g]).is_output
                && self.levels[level][g].id == index
    }

    /// The output gates of level `level` fill slots inside the output array
    /// that no earlier level filled.
    spec fn fills_fresh_slots(self, level: int, count: int) -> bool {
        forall|g: int|
            0 <= g < count && (#[trigger] self.levels[level][g]).is_output
                ==> self.levels[level][g].id < self.output_count && !self.output_ready(
                level,
                self.levels[level][g].id,
            )
    }

    /// No two of the first `count` gates of level `level` fill the same slot.
    spec fn distinct_among(self, level: int, count: int) -> bool {
        forall|g: int, h: int|
            0 <= g < h < count && (#[trigger] self.levels[level][g]).is_output && (
            #[trigger] self.levels[level][h]).is_output ==> self.levels[level][g].id
                != self.levels[level][h].id
    }

    /// Every gate of level `level` has its operands and reads existing wires.
    spec fn reads_ok(self, level: int, arg_lens: Seq<nat>) -> bool {
        forall|g: int|
            0 <= g < self.levels[level].len() ==> {
                let gate = #[trigger] self.levels[level][g];
                &&& gate.inputs.len() == gate.op.arity()
                &&& forall|k: int|
                    0 <= k < gate.inputs.len() ==> self.input_ok(
                        level,
                        #[trigger] gate.inputs[k],
                        arg_lens,
                    )
            }
    }

    proof fn lemma_temp_among_step(self, level: int, count: int, id: usize)
        requires
            0 <= count,
        ensures
            self.makes_temp_among(level, count + 1, id) <==> self.makes_temp_among(
                level,
                count,
                id,
            ) || (!self.levels[level][count].is_output && self.levels[level][count].id == id),
    {
        if self.makes_temp_among(level, count + 1, id) {
            let h = choose|h: int|
                0 <= h < count + 1 && !(#[trigger] self.levels[level][h]).is_output
                    && self.levels[level][h].id == id;
            if h < count {
                assert(self.makes_temp_among(level, count, id));
            }
        }
        if self.makes_temp_among(level, count, id) {
            let h = choose|h: int|
                0 <= h < count && !(#[trigger] self.levels[level][h]).is_output
                    && self.levels[level][h].id == id;
            assert(self.makes_temp_among(level, count + 1, id));
        }
        if !self.levels[level][count].is_output && self.levels[level][count].id == id {
            assert(self.makes_temp_among(level, count + 1, id));
        }
    }

    proof fn lemma_output_among_step(self, level: int, count: int, index: usize)
        requires
            0 <= count,
        ensures
            self.makes_output_among(level, count + 1, index) <==> self.makes_output_among(
                level,
                count,
                index,
            ) || (self.levels[level][count].is_output && self.levels[level][count].id == index),
    {
        if self.makes_output_among(level, count + 1, index) {
            let h = choose|h: int|
                0 <= h < count + 1 && (#[trigger] self.levels[level][h]).is_output
                    && self.levels[level][h].id == index;
            if h < count {
                assert(self.makes_output_among(level, count, index));
            }
        }
        if self.makes_output_among(level, count, index) {
            let h = choose|h: int|
                0 <= h < count && (#[trigger] self.levels[level][h]).is_output
                    && self.levels[level][h].id == index;
            assert(self.makes_output_among(level, count + 1, index));
        }
        if self.levels[level][count].is_output && self.levels[level][count].id == index {
            assert(self.makes_output_among(level, count + 1, index));
        }
    }

    proof fn lemma_level_noted(self, level: int, made: Set<usize>, written: Seq<bool>)
        requires
            0 <= level < self.levels.len(),
            written.len() == self.output_count,
            self.fills_fresh_slots(level, self.levels[level].len() as int),
            forall|t: usize|
                #![trigger made.contains(t)]
                made.contains(t) <==> self.temp_made_before(level, t) || self.makes_temp_among(
                    level,
                    self.levels[level].len() as int,
                    t,
                ),
            forall|o: usize|
                #![trigger written[o as int]]
                o < written.len() ==> (written[o as int] <==> self.output_ready(level, o)
                    || self.makes_output_among(level, self.levels[level].len() as int, o)),
            forall|o: usize| #[trigger] self.output_ready(level, o) ==> o < written.len(),
        ensures
            self.made_by(level + 1, made),
            self.written_by(level + 1, written),
    {
        let count = self.levels[level].len() as int;
        assert forall|t: usize| made.contains(t) <==> #[trigger] self.temp_made_before(
            level + 1,
            t,
        ) by {
            assert(self.makes_temp(level, t) <==> self.makes_temp_among(level, count, t));
            assert(made.contains(t) <==> self.temp_made_before(level, t)
                || self.makes_temp_among(level, count, t));
            if self.temp_made_before(level + 1, t) {
                let l = choose|l: int| 0 <= l < level + 1 && #[trigger] self.makes_temp(l, t);
                if l < level {
                    assert(self.temp_made_before(level, t));
                }
            }
            if self.temp_made_before(level, t) {
                let l = choose|l: int| 0 <= l < level && #[trigger] self.makes_temp(l, t);
                assert(self.makes_temp(l, t));
            }
            if self.makes_temp(level, t) {
                assert(self.temp_made_before(level + 1, t));
            }
        }
        assert forall|o: usize| #[trigger]
            self.output_ready(level + 1, o) <==> o < written.len() && written[o as int] by {
            assert(self.makes_output(level, o) <==> self.makes_output_among(level, count, o));
            assert(o < written.len() ==> (written[o as int] <==> self.output_ready(level, o)
                || self.makes_output_among(level, count, o)));
            if self.output_ready(level + 1, o) {
                let l = choose|l: int| 0 <= l < level + 1 && #[trigger] self.makes_output(l, o);
                if l < level {
                    assert(self.output_ready(level, o));
                } else {
                    let g = choose|g: int|
                        0 <= g < count && (#[trigger] self.levels[level][g]).is_output
                            && self.levels[level][g].id == o;
                    assert(o < self.output_count);
                }
            }
            if self.output_ready(level, o) {
                let l = choose|l: int| 0 <= l < level && #[trigger] self.makes_output(l, o);
                assert(self.makes_output(l, o));
            }
            if self.makes_output(level, o) {
                assert(self.output_ready(level + 1, o));
            }
        }
    }

    /// Everything that well-formedness asks of the gates of level `level`.
    spec fn level_ok(self, level: int, arg_lens: Seq<nat>) -> bool {
        &&& self.reads_ok(level, arg_lens)
        &&& self.fills_fresh_slots(level, self.levels[level].len() as int)
        &&& self.outputs_distinct_in(level)
    }

    proof fn lemma_well_formed_by_levels(self, arg_lens: Seq<nat>)
        ensures
            self.well_formed(arg_lens) <==> {
                &&& self.prune_after_level.len() == self.levels.len()
                &&& forall|l: int| 0 <= l < self.levels.len() ==> #[trigger] self.level_ok(l, arg_lens)
                &&& forall|o: usize|
                    o < self.output_count ==> #[trigger] self.output_ready(
                        self.levels.len() as int,
                        o,
                    )
            },
    {
        if self.well_formed(arg_lens) {
            assert forall|l: int| 0 <= l < self.levels.len() implies #[trigger] self.level_ok(
                l,
                arg_lens,
            ) by {
                assert(self.outputs_distinct_in(l));
                assert forall|g: int| 0 <= g < self.levels[l].len() implies {
                    let gate = #[trigger] self.levels[l][g];
                    &&& gate.inputs.len() == gate.op.arity()
                    &&& forall|k: int|
                        0 <= k < gate.inputs.len() ==> self.input_ok(
                            l,
                            #[trigger] gate.inputs[k],
                            arg_lens,
                        )
                } by {
                    assert(self.gate_ok(l, self.levels[l][g], arg_lens));
                }
                assert forall|g: int|
                    0 <= g < self.levels[l].len() && (
                    #[trigger] self.levels[l][g]).is_output implies self.levels[l][g].id
                    < self.output_count && !self.output_ready(l, self.levels[l][g].id) by {
                    assert(self.gate_ok(l, self.levels[l][g], arg_lens));
                }
            }
        }
        if (forall|l: int| 0 <= l < self.levels.len() ==> #[trigger] self.level_ok(l, arg_lens)) {
            assert forall|l: int, g: int|
                0 <= l < self.levels.len() && 0 <= g < self.levels[l].len() implies self.gate_ok(
                l,
                #[trigger] self.levels[l][g],
                arg_lens,
            ) by {
                assert(self.level_ok(l, arg_lens));
                let gate = self.levels[l][g];
                assert(gate.inputs.len() == gate.op.arity());
            }
            assert forall|l: int| 0 <= l < self.levels.len() implies #[trigger]
                self.outputs_distinct_in(l) by {
                assert(self.level_ok(l, arg_lens));
            }
        }
    }
}

impl CircuitDefinition {
    fn input_in_order(
        &self,
        level: usize,
        input: &GateInput,
        arg_lens: &Vec<usize>,
        made: &HashSet<usize>,
        dropped: &HashSet<usize>,
        written: &Vec<bool>,
    ) -> (ok: bool)
        requires
            self@.summarises(level as int, made@, dropped@, written@),
        ensures
            ok == self@.input_ok(level as int, *input, lens(arg_lens@)),
    {
        match input {
            GateInput::Argument(slot, index) => *slot < arg_lens.len() && *index < arg_lens[*slot],
            GateInput::Temporary(id) => {
                assert(made@.contains(*id) <==> self@.temp_made_before(level as int, *id));
                assert(dropped@.contains(*id) <==> self@.temp_dropped_before(level as int, *id));
                made.contains(id) && !dropped.contains(id)
            },
            GateInput::Output(index) => {
                assert(self@.output_ready(level as int, *index) <==> *index < written@.len()
                    && written@[*index as int]);
                *index < written.len() && written[*index]
            },
            GateInput::Constant(_) => true,
        }
    }

    /// Whether `gate` has the operands its operation needs and reads only
    /// wires that exist at level `level`.
    fn reads_in_order(
        &self,
        level: usize,
        gate: &GateSpec,
        arg_lens: &Vec<usize>,
        made: &HashSet<usize>,
        dropped: &HashSet<usize>,
        written: &Vec<bool>,
    ) -> (ok: bool)
        requires
            self@.summarises(level as int, made@, dropped@, written@),
        ensures
            ok == (gate.inputs@.len() == gate.op.arity() && forall|k: int|
                0 <= k < gate.inputs@.len() ==> self@.input_ok(
                    level as int,
                    #[trigger] gate.inputs@[k],
                    lens(arg_lens@),
                )),
    {
        let wanted: usize = match gate.op {
            GateOp::Not => 1,
            _ => 2,
        };
        if gate.inputs.len() != wanted {
            return false;
        }
        let mut k: usize = 0;
        while k < gate.inputs.len()
            invariant
                k <= gate.inputs@.len(),
                self@.summarises(level as int, made@, dropped@, written@),
                forall|j: int|
                    0 <= j < k ==> self@.input_ok(
                        level as int,
                        #[trigger] gate.inputs@[j],
                        lens(arg_lens@),
                    ),
            decreases gate.inputs@.len() - k,
        {
            if !self.input_in_order(level, &gate.inputs[k], arg_lens, made, dropped, written) {
                return false;
            }
            k += 1;
        }
        true
    }

    /// Pass over the reads of a level.
    fn level_reads_in_order(
        &self,
        level: usize,
        arg_lens: &Vec<usize>,
        made: &HashSet<usize>,
        dropped: &HashSet<usize>,
        written: &Vec<bool>,
    ) -> (ok: bool)
        requires
            level < self.levels@.len(),
            self@.summarises(level as int, made@, dropped@, written@),
        ensures
            ok == self@.reads_ok(level as int, lens(arg_lens@)),
    {
        let gates = &self.levels[level];
        let mut g: usize = 0;
        while g < gates.len()
            invariant
                level < self.levels@.len(),
                gates == &self.levels@[level as int],
                g <= gates@.len(),
                self@.summarises(level as int, made@, dropped@, written@),
                forall|h: int|
                    0 <= h < g ==> {
                        let gate = #[trigger] self@.levels[level as int][h];
                        &&& gate.inputs.len() == gate.op.arity()
                        &&& forall|k: int|
                            0 <= k < gate.inputs.len() ==> self@.input_ok(
                                level as int,
                                #[trigger] gate.inputs[k],
                                lens(arg_lens@),
                            )
                    },
            decreases gates@.len() - g,
        {
            if !self.reads_in_order(level, &gates[g], arg_lens, made, dropped, written) {
                assert(self@.levels[level as int][g as int] == gates@[g as int]@);
                return false;
            }
            g += 1;
        }
        true
    }

    /// Pass over the writes of a level: notes the temporaries it makes and
    /// the slots it fills, and stops at a slot that is filled twice or lies
    /// outside the output array.
    fn note_writes(&self, level: usize, made: &mut HashSet<usize>, written: &mut Vec<bool>) -> (ok:
        bool)
        requires
            level < self.levels@.len(),
            self@.made_by(level as int, old(made)@),
            self@.written_by(level as int, old(written)@),
        ensures
            ok == (self@.fills_fresh_slots(level as int, self@.levels[level as int].len() as int)
                && self@.outputs_distinct_in(level as int)),
            ok ==> self@.made_by(level + 1, final(made)@) && self@.written_by(
                level + 1,
                final(written)@,
            ),
    {
        let gates = &self.levels[level];
        let count = gates.len();
        let ghost lv = level as int;
        let mut g: usize = 0;
        proof {
            assert forall|t: usize|
                #![trigger made@.contains(t)]
                #![trigger self@.makes_temp_among(lv, 0, t)]
                made@.contains(t) <==> self@.temp_made_before(lv, t) || self@.makes_temp_among(
                    lv,
                    0,
                    t,
                ) by {
                assert(made@.contains(t) <==> self@.temp_made_before(lv, t));
            }
            assert forall|o: usize|
                #![trigger written@[o as int]]
                #![trigger self@.makes_output_among(lv, 0, o)]
                o < written@.len() implies (written@[o as int] <==> self@.output_ready(lv, o)
                    || self@.makes_output_among(lv, 0, o)) by {
                assert(self@.output_ready(lv, o) <==> o < written@.len() && written@[o as int]);
            }
        }
        while g < count
            invariant
                lv == level as int,
                level < self.levels@.len(),
                gates == &self.levels@[lv],
                count == gates@.len(),
                g <= count,
                written@.len() == self.output_count,
                self@.written_by(lv, old(written)@),
                forall|t: usize|
                    #![trigger made@.contains(t)]
                    #![trigger self@.makes_temp_among(lv, g as int, t)]
                    made@.contains(t) <==> self@.temp_made_before(lv, t) || self@.makes_temp_among(
                        lv,
                        g as int,
                        t,
                    ),
                forall|o: usize|
                    #![trigger written@[o as int]]
                    #![trigger self@.makes_output_among(lv, g as int, o)]
                    o < written@.len() ==> (written@[o as int] <==> self@.output_ready(lv, o)
                        || self@.makes_output_among(lv, g as int, o)),
                self@.fills_fresh_slots(lv, g as int),
                self@.distinct_among(lv, g as int),
            decreases count - g,
        {
            let gate = &gates[g];
            let id = gate.id;
            let ghost n = g as int;
            let ghost made0 = made@;
            let ghost written0 = written@;
            assert(self@.levels[lv][n] == gate@);
            if gate.is_output {
                if id >= self.output_count {
                    assert(!self@.fills_fresh_slots(lv, count as int));
                    return false;
                }
                if written[id] {
                    proof {
                        if self@.output_ready(lv, id) {
                            assert(!self@.fills_fresh_slots(lv, count as int));
                        } else {
                            assert(self@.makes_output_among(lv, n, id));
                            let h = choose|h: int|
                                0 <= h < n && (#[trigger] self@.levels[lv][h]).is_output
                                    && self@.levels[lv][h].id == id;
                            assert(self@.levels[lv][h].is_output);
                            assert(self@.levels[lv][n].is_output);
                            assert(!self@.outputs_distinct_in(lv));
                        }
                    }
                    return false;
                }
                proof {
                    assert(!self@.makes_output_among(lv, n, id));
                    assert(!self@.output_ready(lv, id));
                }
                written.set(id, true);
            } else {
                made.insert(id);
                assert(made@ == made0.insert(id));
            }
            g += 1;
            proof {
                assert(g as int == n + 1);
                assert forall|t: usize|
                    #![trigger made@.contains(t)]
                    #![trigger self@.makes_temp_among(lv, g as int, t)]
                    made@.contains(t) <==> self@.temp_made_before(lv, t) || self@.makes_temp_among(
                        lv,
                        g as int,
                        t,
                    ) by {
                    self@.lemma_temp_among_step(lv, n, t);
                    assert(made0.contains(t) <==> self@.temp_made_before(lv, t)
                        || self@.makes_temp_among(lv, n, t));
                }
                assert forall|o: usize|
                    #![trigger written@[o as int]]
                    #![trigger self@.makes_output_among(lv, g as int, o)]
                    o < written@.len() implies (written@[o as int] <==> self@.output_ready(lv, o)
                        || self@.makes_output_among(lv, g as int, o)) by {
                    self@.lemma_output_among_step(lv, n, o);
                    assert(written0[o as int] <==> self@.output_ready(lv, o)
                        || self@.makes_output_among(lv, n, o));
                }
                assert(self@.fills_fresh_slots(lv, g as int)) by {
                    assert forall|h: int|
                        0 <= h < g as int && (
                        #[trigger] self@.levels[lv][h]).is_output implies self@.levels[lv][h].id
                        < self.output_count && !self@.output_ready(lv, self@.levels[lv][h].id) by {
                        if h < n {
                            assert(self@.fills_fresh_slots(lv, n));
                        }
                    }
                }
                assert(self@.distinct_among(lv, g as int)) by {
                    assert forall|a: int, b: int|
                        0 <= a < b < g as int && (#[trigger] self@.levels[lv][a]).is_output && (
                        #[trigger] self@.levels[lv][b]).is_output implies self@.levels[lv][a].id
                        != self@.levels[lv][b].id by {
                        if b == n {
                            if self@.levels[lv][a].id == id {
                                assert(self@.makes_output_among(lv, n, id));
                            }
                        } else {
                            assert(self@.distinct_among(lv, n));
                        }
                    }
                }
            }
        }
        proof {
            assert(g as int == self@.levels[lv].len() as int);
            assert forall|o: usize| #[trigger] self@.output_ready(lv, o) implies o
                < written@.len() by {
                assert(self@.output_ready(lv, o) <==> o < old(written)@.len() && old(
                    written,
                )@[o as int]);
            }
            self@.lemma_level_noted(lv, made@, written@);
        }
        true
    }

    /// Notes the temporaries that level `level` lists for removal.
    fn note_pruned(&self, level: usize, dropped: &mut HashSet<usize>)
        requires
            level < self.prune_after_level@.len(),
            self@.dropped_by(level as int, old(dropped)@),
        ensures
            self@.dropped_by(level + 1, final(dropped)@),
    {
        let ids = &self.prune_after_level[level];
        let mut k: usize = 0;
        proof {
            assert forall|t: usize|
                #![trigger dropped@.contains(t)]
                #![trigger listed_among(ids@, 0, t)]
                dropped@.contains(t) <==> self@.temp_dropped_before(level as int, t)
                    || listed_among(ids@, 0, t) by {
                assert(dropped@.contains(t) <==> self@.temp_dropped_before(level as int, t));
            }
        }
        while k < ids.len()
            invariant
                level < self.prune_after_level@.len(),
                ids == &self.prune_after_level@[level as int],
                k <= ids@.len(),
                forall|t: usize|
                    #![trigger dropped@.contains(t)]
                    #![trigger listed_among(ids@, k as int, t)]
                    dropped@.contains(t) <==> self@.temp_dropped_before(level as int, t)
                        || listed_among(ids@, k as int, t),
            decreases ids@.len() - k,
        {
            let ghost before = dropped@;
            let ghost n = k as int;
            dropped.insert(ids[k]);
            assert(dropped@ == before.insert(ids@[n]));
            k += 1;
            proof {
                assert forall|t: usize|
                    #![trigger dropped@.contains(t)]
                    #![trigger listed_among(ids@, k as int, t)]
                    dropped@.contains(t) <==> self@.temp_dropped_before(level as int, t)
                        || listed_among(ids@, k as int, t) by {
                    assert(before.contains(t) <==> self@.temp_dropped_before(level as int, t)
                        || listed_among(ids@, n, t));
                    if listed_among(ids@, n, t) {
                        let j = choose|j: int| 0 <= j < n && #[trigger] ids@[j] == t;
                        assert(0 <= j < k && ids@[j] == t);
                    }
                    if listed_among(ids@, k as int, t) {
                        let j = choose|j: int| 0 <= j < k && #[trigger] ids@[j] == t;
                        if j < n {
                            assert(listed_among(ids@, n, t));
                        }
                    }
                    if t == ids@[n] {
                        assert(0 <= n < k && ids@[n] == t);
                    }
                }
            }
        }
        proof {
            assert forall|t: usize| dropped@.contains(t) <==> #[trigger] self@.temp_dropped_before(
                level + 1,
                t,
            ) by {
                if self@.temp_dropped_before(level + 1, t) {
                    let l = choose|l: int| 0 <= l < level + 1 && #[trigger] self@.pruned_at(l, t);
                    if l < level {
                        assert(self@.temp_dropped_before(level as int, t));
                    } else {
                        assert(ids@.contains(t));
                        let j = choose|j: int| 0 <= j < ids@.len() && ids@[j] == t;
                        assert(0 <= j < k && ids@[j] == t);
                        assert(listed_among(ids@, k as int, t));
                    }
                }
                if self@.temp_dropped_before(level as int, t) {
                    let l = choose|l: int| 0 <= l < level && #[trigger] self@.pruned_at(l, t);
                    assert(self@.pruned_at(l, t));
                }
                if listed_among(ids@, k as int, t) {
                    let j = choose|j: int| 0 <= j < k && #[trigger] ids@[j] == t;
                    assert(ids@.contains(t));
                    assert(self@.pruned_at(level as int, t));
                }
            }
        }
    }

    /// Decides whether the circuit can be evaluated over argument vectors of
    /// the lengths `arg_lens`.
    pub fn is_well_formed(&self, arg_lens: &Vec<usize>) -> (ok: bool)
        ensures
            ok == self@.well_formed(lens(arg_lens@)),
    {
        proof {
            self@.lemma_well_formed_by_levels(lens(arg_lens@));
        }
        if self.prune_after_level.len() != self.levels.len() {
            return false;
        }
        let mut made: HashSet<usize> = HashSet::new();
        let mut dropped: HashSet<usize> = HashSet::new();
        let mut written: Vec<bool> = Vec::new();
        let mut o: usize = 0;
        while o < self.output_count
            invariant
                o <= self.output_count,
                written@.len() == o,
                forall|i: int| 0 <= i < o ==> !#[trigger] written@[i],
            decreases self.output_count - o,
        {
            written.push(false);
            o += 1;
        }
        let mut level: usize = 0;
        while level < self.levels.len()
            invariant
                self.prune_after_level@.len() == self.levels@.len(),
                level <= self.levels@.len(),
                self@.summarises(level as int, made@, dropped@, written@),
                forall|l: int| 0 <= l < level ==> #[trigger] self@.level_ok(l, lens(arg_lens@)),
            decreases self.levels@.len() - level,
        {
            if !self.level_reads_in_order(level, arg_lens, &made, &dropped, &written) {
                assert(!self@.level_ok(level as int, lens(arg_lens@)));
                return false;
            }
            if !self.note_writes(level, &mut made, &mut written) {
                assert(!self@.level_ok(level as int, lens(arg_lens@)));
                return false;
            }
            self.note_pruned(level, &mut dropped);
            assert(self@.level_ok(level as int, lens(arg_lens@)));
            level += 1;
        }
        let mut o: usize = 0;
        while o < self.output_count
            invariant
                o <= self.output_count,
                written@.len() == self.output_count,
                level == self.levels@.len(),
                self@.summarises(level as int, made@, dropped@, written@),
                forall|i: usize| i < o ==> #[trigger] self@.output_ready(level as int, i),
            decreases self.output_count - o,
        {
            assert(self@.output_ready(level as int, o) <==> o < written@.len() && written@[o as int]);
            if !written[o] {
                return false;
            }
            o += 1;
        }
        true
    }
}

} // verus!
