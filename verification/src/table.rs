//! Circuits as tables of numbers.
//!
//! A table is a sequence of words. The first four say how many output wires
//! the circuit has, how many levels, how many gate rows follow and how many
//! prune rows follow those. A gate row has ten words: the level of a gate,
//! its id, whether it is an output gate (0 or 1), its operation, and two
//! inputs of three words each. A prune row has two words: a level and the id
//! of a temporary that may be dropped after it.
//!
//! An input is a kind and two numbers: kind 0 is bit `y` of argument `x`,
//! kind 1 the temporary `x`, kind 2 the output slot `x`, kind 3 the
//! constant `x`, which is 0 or 1. The second input of a gate may have kind
//! 4: such a gate has one input only. Numbers that are not used are 0.
//!
//! The gates of a level stand in the circuit in the order of their rows.

use vstd::prelude::*;
use crate::netlist::{
    level_view, CircuitDefinition, CircuitModel, GateInput, GateModel, GateOp, GateSpec,
};

verus! {

/// Number of words before the rows.
pub const HEADER_WORDS: usize = 4;

/// Number of words in a gate row.
pub const GATE_ROW_WORDS: usize = 10;

/// Number of words in a prune row.
pub const PRUNE_ROW_WORDS: usize = 2;

/// The operation a code stands for.
pub open spec fn op_of(code: u64) -> Option<GateOp> {
    if code == 0 {
        Some(GateOp::And)
    } else if code == 1 {
        Some(GateOp::Nand)
    } else if code == 2 {
        Some(GateOp::Or)
    } else if code == 3 {
        Some(GateOp::Nor)
    } else if code == 4 {
        Some(GateOp::Xor)
    } else if code == 5 {
        Some(GateOp::Xnor)
    } else if code == 6 {
        Some(GateOp::Not)
    } else {
        None
    }
}

/// The input that a kind and two numbers stand for.
pub open spec fn input_of(kind: u64, x: u64, y: u64) -> Option<GateInput> {
    if kind == 0 && x <= usize::MAX && y <= usize::MAX {
        Some(GateInput::Argument(x as usize, y as usize))
    } else if kind == 1 && x <= usize::MAX && y == 0 {
        Some(GateInput::Temporary(x as usize))
    } else if kind == 2 && x <= usize::MAX && y == 0 {
        Some(GateInput::Output(x as usize))
    } else if kind == 3 && x <= 1 && y == 0 {
        Some(GateInput::Constant(x == 1))
    } else {
        None
    }
}

/// What the ten words from `at` on stand for: a gate and its level.
pub open spec fn gate_of(words: Seq<u64>, at: int) -> Option<(u64, GateModel)> {
    let first = input_of(words[at + 4], words[at + 5], words[at + 6]);
    let second = input_of(words[at + 7], words[at + 8], words[at + 9]);
    let single = words[at + 7] == 4 && words[at + 8] == 0 && words[at + 9] == 0;
    if words[at + 1] <= usize::MAX && words[at + 2] <= 1 && op_of(words[at + 3]) is Some
        && first is Some && (second is Some || single) {
        Some(
            (
                words[at],
                GateModel {
                    id: words[at + 1] as usize,
                    is_output: words[at + 2] == 1,
                    op: op_of(words[at + 3])->0,
                    inputs: if single {
                        seq![first->0]
                    } else {
                        seq![first->0, second->0]
                    },
                },
            ),
        )
    } else {
        None
    }
}

/// Where gate row `row` begins.
pub open spec fn gate_row(row: int) -> int {
    HEADER_WORDS + GATE_ROW_WORDS * row
}

/// Where prune row `row` begins in a table with `gate_rows` gate rows.
pub open spec fn prune_row(gate_rows: int, row: int) -> int {
    HEADER_WORDS + GATE_ROW_WORDS * gate_rows + PRUNE_ROW_WORDS * row
}

/// The gates of level `level` among the first `rows` gate rows, in the
/// order of the rows.
pub open spec fn level_gates(words: Seq<u64>, rows: nat, level: int) -> Seq<GateModel>
    decreases rows,
{
    if rows == 0 {
        Seq::empty()
    } else {
        let earlier = level_gates(words, (rows - 1) as nat, level);
        match gate_of(words, gate_row(rows - 1)) {
            Some((at_level, gate)) => if at_level == level {
                earlier.push(gate)
            } else {
                earlier
            },
            None => earlier,
        }
    }
}

/// The temporaries listed for level `level` among the first `rows` prune
/// rows, in the order of the rows.
pub open spec fn level_prunes(words: Seq<u64>, gate_rows: int, rows: nat, level: int) -> Seq<
    usize,
>
    decreases rows,
{
    if rows == 0 {
        Seq::empty()
    } else {
        let earlier = level_prunes(words, gate_rows, (rows - 1) as nat, level);
        let at = prune_row(gate_rows, rows - 1);
        if words[at] == level {
            earlier.push(words[at + 1] as usize)
        } else {
            earlier
        }
    }
}

/// The header is there, its numbers can be held, the table has the length
/// the header asks for, and there are no more levels than words.
pub open spec fn header_ok(words: Seq<u64>) -> bool {
    &&& words.len() >= HEADER_WORDS
    &&& words[0] <= usize::MAX
    &&& words[1] <= words.len()
    &&& words.len() == HEADER_WORDS + GATE_ROW_WORDS * words[2] + PRUNE_ROW_WORDS * words[3]
}

/// Gate row `row` stands for a gate of one of the levels.
pub open spec fn gate_row_ok(words: Seq<u64>, row: int) -> bool {
    gate_of(words, gate_row(row)) matches Some((level, _)) && level < words[1]
}

/// Prune row `row` names a level and a temporary.
pub open spec fn prune_row_ok(words: Seq<u64>, row: int) -> bool {
    let at = prune_row(words[2] as int, row);
    words[at] < words[1] && words[at + 1] <= usize::MAX
}

/// The table stands for a circuit.
pub open spec fn table_ok(words: Seq<u64>) -> bool {
    &&& header_ok(words)
    &&& forall|row: int| 0 <= row < words[2] ==> #[trigger] gate_row_ok(words, row)
    &&& forall|row: int| 0 <= row < words[3] ==> #[trigger] prune_row_ok(words, row)
}

/// The circuit the table stands for.
pub open spec fn netlist_of(words: Seq<u64>) -> Option<CircuitModel> {
    if table_ok(words) {
        Some(
            CircuitModel {
                levels: Seq::new(words[1] as nat, |l: int| level_gates(words, words[2] as nat, l)),
                prune_after_level: Seq::new(
                    words[1] as nat,
                    |l: int| level_prunes(words, words[2] as int, words[3] as nat, l),
                ),
                output_count: words[0] as usize,
            },
        )
    } else {
        None
    }
}

fn decode_op(code: u64) -> (r: Option<GateOp>)
    ensures
        r == op_of(code),
{
    if code == 0 {
        Some(GateOp::And)
    } else if code == 1 {
        Some(GateOp::Nand)
    } else if code == 2 {
        Some(GateOp::Or)
    } else if code == 3 {
        Some(GateOp::Nor)
    } else if code == 4 {
        Some(GateOp::Xor)
    } else if code == 5 {
        Some(GateOp::Xnor)
    } else if code == 6 {
        Some(GateOp::Not)
    } else {
        None
    }
}

fn decode_input(kind: u64, x: u64, y: u64) -> (r: Option<GateInput>)
    ensures
        r == input_of(kind, x, y),
{
    if kind == 0 && x <= usize::MAX as u64 && y <= usize::MAX as u64 {
        Some(GateInput::Argument(x as usize, y as usize))
    } else if kind == 1 && x <= usize::MAX as u64 && y == 0 {
        Some(GateInput::Temporary(x as usize))
    } else if kind == 2 && x <= usize::MAX as u64 && y == 0 {
        Some(GateInput::Output(x as usize))
    } else if kind == 3 && x <= 1 && y == 0 {
        Some(GateInput::Constant(x == 1))
    } else {
        None
    }
}

fn decode_gate(words: &[u64], at: usize) -> (r: Option<(u64, GateSpec)>)
    requires
        at + GATE_ROW_WORDS <= words@.len(),
    ensures
        r is Some <==> gate_of(words@, at as int) is Some,
        r matches Some((level, gate)) ==> (level, gate@) == gate_of(words@, at as int)->0,
{
    let len = words.len();
    if words[at + 1] > usize::MAX as u64 || words[at + 2] > 1 {
        return None;
    }
    let op = match decode_op(words[at + 3]) {
        Some(op) => op,
        None => {
            return None;
        },
    };
    let first = match decode_input(words[at + 4], words[at + 5], words[at + 6]) {
        Some(input) => input,
        None => {
            return None;
        },
    };
    let mut inputs: Vec<GateInput> = Vec::new();
    inputs.push(first);
    if words[at + 7] == 4 && words[at + 8] == 0 && words[at + 9] == 0 {
        assert(inputs@ =~= seq![first]);
    } else {
        match decode_input(words[at + 7], words[at + 8], words[at + 9]) {
            Some(second) => {
                inputs.push(second);
                assert(inputs@ =~= seq![first, second]);
            },
            None => {
                return None;
            },
        }
    }
    Some(
        (
            words[at],
            GateSpec { id: words[at + 1] as usize, is_output: words[at + 2] == 1, op, inputs },
        ),
    )
}

/// Checks the header of a table and reads it: the numbers of output
/// wires, levels, gate rows and prune rows.
fn read_header(words: &[u64]) -> (r: Option<(usize, usize, usize, usize)>)
    ensures
        r is Some <==> header_ok(words@),
        r matches Some((outputs, levels, gate_rows, prune_rows)) ==> outputs == words@[0] && levels
            == words@[1] && gate_rows == words@[2] && prune_rows == words@[3],
{
    let len = words.len();
    if len < HEADER_WORDS {
        return None;
    }
    if words[0] > usize::MAX as u64 || words[1] > len as u64 {
        return None;
    }
    let room = len - HEADER_WORDS;
    if words[2] > (room / GATE_ROW_WORDS) as u64 {
        return None;
    }
    let gate_rows = words[2] as usize;
    let rest = room - GATE_ROW_WORDS * gate_rows;
    if rest % PRUNE_ROW_WORDS != 0 || words[3] != (rest / PRUNE_ROW_WORDS) as u64 {
        return None;
    }
    Some((words[0] as usize, words[1] as usize, gate_rows, words[3] as usize))
}

impl CircuitDefinition {
    /// Reads a circuit from a table of numbers. There is no circuit if the
    /// table is not of the right form.
    pub fn from_words(words: &[u64]) -> (r: Option<CircuitDefinition>)
        ensures
            r is Some <==> netlist_of(words@) is Some,
            r matches Some(circuit) ==> circuit@ == netlist_of(words@)->0,
    {
        let (output_count, level_count, gate_rows, prune_rows) = match read_header(words) {
            Some(header) => header,
            None => {
                return None;
            },
        };
        let len = words.len();
        let mut levels: Vec<Vec<GateSpec>> = Vec::new();
        let mut prunes: Vec<Vec<usize>> = Vec::new();
        let mut l: usize = 0;
        while l < level_count
            invariant
                l <= level_count,
                levels@.len() == l,
                prunes@.len() == l,
                forall|k: int| 0 <= k < l ==> (#[trigger] levels@[k])@.len() == 0,
                forall|k: int| 0 <= k < l ==> (#[trigger] prunes@[k])@.len() == 0,
            decreases level_count - l,
        {
            levels.push(Vec::new());
            prunes.push(Vec::new());
            l += 1;
        }
        let mut row: usize = 0;
        while row < gate_rows
            invariant
                header_ok(words@),
                len == words@.len(),
                level_count == words@[1],
                gate_rows == words@[2],
                row <= gate_rows,
                levels@.len() == level_count,
                forall|r: int| 0 <= r < row ==> #[trigger] gate_row_ok(words@, r),
                forall|k: int|
                    0 <= k < level_count ==> level_view((#[trigger] levels@[k])@) == level_gates(
                        words@,
                        row as nat,
                        k,
                    ),
            decreases gate_rows - row,
        {
            let at = HEADER_WORDS + GATE_ROW_WORDS * row;
            let (level, gate) = match decode_gate(words, at) {
                Some(found) => found,
                None => {
                    assert(!gate_row_ok(words@, row as int));
                    return None;
                },
            };
            if level >= level_count as u64 {
                assert(!gate_row_ok(words@, row as int));
                return None;
            }
            let ghost before = levels@;
            let ghost model = gate@;
            levels[level as usize].push(gate);
            proof {
                assert(gate_row_ok(words@, row as int));
                assert forall|k: int| 0 <= k < level_count implies level_view(
                    (#[trigger] levels@[k])@,
                ) == level_gates(words@, (row + 1) as nat, k) by {
                    assert(level_view(before[k]@) == level_gates(words@, row as nat, k));
                    if k == level {
                        assert(levels@[k]@ == before[k]@.push(gate));
                        assert(level_view(levels@[k]@) =~= level_view(before[k]@).push(model));
                    } else {
                        assert(levels@[k] == before[k]);
                    }
                }
            }
            row += 1;
        }
        let mut row: usize = 0;
        while row < prune_rows
            invariant
                header_ok(words@),
                len == words@.len(),
                level_count == words@[1],
                gate_rows == words@[2],
                prune_rows == words@[3],
                row <= prune_rows,
                prunes@.len() == level_count,
                forall|r: int| 0 <= r < row ==> #[trigger] prune_row_ok(words@, r),
                forall|k: int|
                    0 <= k < level_count ==> (#[trigger] prunes@[k])@ == level_prunes(
                        words@,
                        gate_rows as int,
                        row as nat,
                        k,
                    ),
            decreases prune_rows - row,
        {
            let at = HEADER_WORDS + GATE_ROW_WORDS * gate_rows + PRUNE_ROW_WORDS * row;
            let level = words[at];
            let id = words[at + 1];
            if level >= level_count as u64 || id > usize::MAX as u64 {
                assert(!prune_row_ok(words@, row as int));
                return None;
            }
            let ghost before = prunes@;
            prunes[level as usize].push(id as usize);
            proof {
                assert(prune_row_ok(words@, row as int));
                assert forall|k: int| 0 <= k < level_count implies (#[trigger] prunes@[k])@
                    == level_prunes(words@, gate_rows as int, (row + 1) as nat, k) by {
                    assert(before[k]@ == level_prunes(words@, gate_rows as int, row as nat, k));
                    if k == level {
                        assert(prunes@[k]@ == before[k]@.push(id as usize));
                    } else {
                        assert(prunes@[k] == before[k]);
                    }
                }
            }
            row += 1;
        }
        let circuit = CircuitDefinition { levels, prune_after_level: prunes, output_count };
        proof {
            let model = netlist_of(words@)->0;
            assert(circuit@.levels =~= model.levels);
            assert(circuit@.prune_after_level =~= model.prune_after_level);
        }
        Some(circuit)
    }
}

} // verus!
