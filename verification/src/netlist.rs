//! The static description of a boolean circuit: gates grouped in levels.

use vstd::prelude::*;

verus! {

/// Where a gate takes one of its operands from.
#[derive(Clone, Copy, Debug)]
pub enum GateInput {
    /// Bit `index` of argument vector `slot`.
    Argument(usize, usize),
    /// The temporary made by the non-output gate with this id.
    Temporary(usize),
    /// The output slot with this index, filled by an earlier level.
    Output(usize),
    /// A constant bit.
    Constant(bool),
}

/// The boolean operation a gate applies.
#[derive(Clone, Copy, Debug)]
pub enum GateOp {
    And,
    Nand,
    Or,
    Nor,
    Xor,
    Xnor,
    Not,
}

impl GateOp {
    /// Number of operands the operation takes.
    pub open spec fn arity(self) -> nat {
        match self {
            GateOp::Not => 1,
            _ => 2,
        }
    }

    /// The operation on plain bits. `Not` looks at its first operand only.
    pub open spec fn on_bits(self, a: bool, b: bool) -> bool {
        match self {
            GateOp::And => a && b,
            GateOp::Nand => !(a && b),
            GateOp::Or => a || b,
            GateOp::Nor => !(a || b),
            GateOp::Xor => a != b,
            GateOp::Xnor => a == b,
            GateOp::Not => !a,
        }
    }

    /// Computes [`GateOp::on_bits`].
    pub fn apply_to_bits(self, a: bool, b: bool) -> (r: bool)
        ensures
            r == self.on_bits(a, b),
    {
        match self {
            GateOp::And => a && b,
            GateOp::Nand => !(a && b),
            GateOp::Or => a || b,
            GateOp::Nor => !(a || b),
            GateOp::Xor => a != b,
            GateOp::Xnor => a == b,
            GateOp::Not => !a,
        }
    }
}

/// One gate of a circuit.
#[derive(Debug)]
pub struct GateSpec {
    /// Output slot the result goes to when `is_output`, else the key of the
    /// temporary it becomes.
    pub id: usize,
    pub is_output: bool,
    pub op: GateOp,
    /// One operand for `Not`, two for every other operation.
    pub inputs: Vec<GateInput>,
}

/// The mathematical content of a [`GateSpec`].
pub struct GateModel {
    pub id: usize,
    pub is_output: bool,
    pub op: GateOp,
    pub inputs: Seq<GateInput>,
}

impl View for GateSpec {
    type V = GateModel;

    open spec fn view(&self) -> GateModel {
        GateModel { id: self.id, is_output: self.is_output, op: self.op, inputs: self.inputs@ }
    }
}

/// A whole circuit: levels in evaluation order, the temporaries that may be
/// dropped after each level, and the number of output wires.
#[derive(Debug)]
pub struct CircuitDefinition {
    pub levels: Vec<Vec<GateSpec>>,
    pub prune_after_level: Vec<Vec<usize>>,
    pub output_count: usize,
}

/// The mathematical content of a [`CircuitDefinition`].
pub struct CircuitModel {
    pub levels: Seq<Seq<GateModel>>,
    pub prune_after_level: Seq<Seq<usize>>,
    pub output_count: usize,
}

/// The gates of a level as mathematical values.
pub open spec fn level_view(gates: Seq<GateSpec>) -> Seq<GateModel> {
    Seq::new(gates.len(), |g: int| gates[g]@)
}

impl View for CircuitDefinition {
    type V = CircuitModel;

    open spec fn view(&self) -> CircuitModel {
        CircuitModel {
            levels: Seq::new(self.levels@.len(), |l: int| level_view(self.levels@[l]@)),
            prune_after_level: Seq::new(
                self.prune_after_level@.len(),
                |l: int| self.prune_after_level@[l]@,
            ),
            output_count: self.output_count,
        }
    }
}


impl CircuitModel {
    /// Some gate of level `level` makes the temporary `id`.
    pub open spec fn makes_temp(self, level: int, id: usize) -> bool {
        exists|g: int|
            0 <= g < self.levels[level].len() && !(#[trigger] self.levels[level][g]).is_output
                && self.levels[level][g].id == id
    }

    /// Some gate of level `level` fills output slot `index`.
    pub open spec fn makes_output(self, level: int, index: usize) -> bool {
        exists|g: int|
            0 <= g < self.levels[level].len() && (#[trigger] self.levels[level][g]).is_output
                && self.levels[level][g].id == index
    }

    /// The temporary `id` is listed for removal after level `level`.
    pub open spec fn pruned_at(self, level: int, id: usize) -> bool {
        self.prune_after_level[level].contains(id)
    }

    /// A level before `level` makes the temporary `id`.
    pub open spec fn temp_made_before(self, level: int, id: usize) -> bool {
        exists|l: int| 0 <= l < level && #[trigger] self.makes_temp(l, id)
    }

    /// A level before `level` lists the temporary `id` for removal.
    pub open spec fn temp_dropped_before(self, level: int, id: usize) -> bool {
        exists|l: int| 0 <= l < level && #[trigger] self.pruned_at(l, id)
    }

    /// The temporary `id` can be read by the gates of level `level`: an
    /// earlier level made it and no earlier level lists it for removal.
    pub open spec fn temp_live(self, level: int, id: usize) -> bool {
        self.temp_made_before(level, id) && !self.temp_dropped_before(level, id)
    }

    /// Output slot `index` has been filled by a level before `level`.
    pub open spec fn output_ready(self, level: int, index: usize) -> bool {
        exists|l: int| 0 <= l < level && #[trigger] self.makes_output(l, index)
    }

    /// `input` names a wire that exists when level `level` is evaluated over
    /// argument vectors of the lengths `arg_lens`.
    pub open spec fn input_ok(self, level: int, input: GateInput, arg_lens: Seq<nat>) -> bool {
        match input {
            GateInput::Argument(slot, index) => slot < arg_lens.len() && index < arg_lens[slot as int],
            GateInput::Temporary(id) => self.temp_live(level, id),
            GateInput::Output(index) => self.output_ready(level, index),
            GateInput::Constant(_) => true,
        }
    }

    /// `gate`, standing in level `level`, has the operands its operation
    /// needs, reads only wires that exist, and, if it is an output gate,
    /// fills a slot inside the output array that no earlier level filled.
    pub open spec fn gate_ok(self, level: int, gate: GateModel, arg_lens: Seq<nat>) -> bool {
        &&& gate.inputs.len() == gate.op.arity()
        &&& forall|k: int|
            0 <= k < gate.inputs.len() ==> self.input_ok(level, #[trigger] gate.inputs[k], arg_lens)
        &&& gate.is_output ==> gate.id < self.output_count && !self.output_ready(level, gate.id)
    }

    /// No two gates of level `level` fill the same output slot.
    pub open spec fn outputs_distinct_in(self, level: int) -> bool {
        forall|g: int, h: int|
            0 <= g < h < self.levels[level].len() && (#[trigger] self.levels[level][g]).is_output && (
            #[trigger] self.levels[level][h]).is_output ==> self.levels[level][g].id
                != self.levels[level][h].id
    }

    /// The circuit can be evaluated over argument vectors of the lengths
    /// `arg_lens`: there is one prune list per level, every gate is in order,
    /// and every output slot is filled exactly once.
    pub open spec fn well_formed(self, arg_lens: Seq<nat>) -> bool {
        &&& self.prune_after_level.len() == self.levels.len()
        &&& forall|l: int, g: int|
            0 <= l < self.levels.len() && 0 <= g < self.levels[l].len() ==> self.gate_ok(
                l,
                #[trigger] self.levels[l][g],
                arg_lens,
            )
        &&& forall|l: int| 0 <= l < self.levels.len() ==> #[trigger] self.outputs_distinct_in(l)
        &&& forall|o: usize|
            o < self.output_count ==> #[trigger] self.output_ready(self.levels.len() as int, o)
    }
}

} // verus!
