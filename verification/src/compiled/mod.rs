//! Netlists that come with the library.

use vstd::prelude::*;
use crate::backend::GateBackend;
use crate::engine::{circuit_outputs, shape, try_evaluate, words};
use crate::pruning::{circuit_outputs_unpruned, lemma_pruning_keeps_outputs};
use crate::netlist::{CircuitDefinition, GateInput, GateModel, GateOp, GateSpec};
use crate::state::Error;

pub mod karma_add;
pub mod karma_sub;

verus! {

/// The sixteen bits of `v`, least significant first.
pub open spec fn bits_of_u16(v: u16) -> Seq<bool> {
    Seq::new(16, |i: int| (v >> (i as u16)) & 1 == 1)
}

/// The thirty-two bits of `v`, least significant first.
pub open spec fn bits_of_u32(v: u32) -> Seq<bool> {
    Seq::new(32, |i: int| (v >> (i as u32)) & 1 == 1)
}

/// `x + y` modulo two to the sixteenth.
pub open spec fn sum16(x: u16, y: u16) -> u16 {
    ((x + y) % 0x1_0000) as u16
}

/// `x - y` modulo two to the thirty-second.
pub open spec fn difference32(x: u32, y: u32) -> u32 {
    ((x + 0x1_0000_0000 - y) % 0x1_0000_0000) as u32
}

/// The first wires of `word` are `bits`.
pub open spec fn begins_with<W>(word: Seq<W>, bits: Seq<W>) -> bool {
    word.len() >= bits.len() && word.subrange(0, bits.len() as int) == bits
}

/// A gate of one input.
pub open spec fn g1(id: usize, is_output: bool, op: GateOp, a: GateInput) -> GateModel {
    GateModel { id, is_output, op, inputs: seq![a] }
}

/// A gate of two inputs.
pub open spec fn g2(id: usize, is_output: bool, op: GateOp, a: GateInput, b: GateInput) -> GateModel {
    GateModel { id, is_output, op, inputs: seq![a, b] }
}

/// Makes a gate of one input.
pub fn gate1(id: usize, is_output: bool, op: GateOp, a: GateInput) -> (r: GateSpec)
    ensures
        r@ == g1(id, is_output, op, a),
{
    let inputs = vec![a];
    assert(inputs@ =~= seq![a]);
    GateSpec { id, is_output, op, inputs }
}

/// Makes a gate of two inputs.
pub fn gate2(id: usize, is_output: bool, op: GateOp, a: GateInput, b: GateInput) -> (r: GateSpec)
    ensures
        r@ == g2(id, is_output, op, a, b),
{
    let inputs = vec![a, b];
    assert(inputs@ =~= seq![a, b]);
    GateSpec { id, is_output, op, inputs }
}

/// Runs a circuit of two arguments on the words `a` and `b`.
fn run_on_words<B: GateBackend>(
    backend: &B,
    circuit: &CircuitDefinition,
    a: &Vec<B::Wire>,
    b: &Vec<B::Wire>,
) -> (r: Result<Vec<B::Wire>, Error>)
    ensures
        r is Ok <==> circuit@.well_formed(seq![a@.len(), b@.len()]),
        r matches Err(e) ==> e == Error::MalformedCircuit,
        r matches Ok(word) ==> word@.len() == circuit.output_count && (backend.exact() ==> word@
            == circuit_outputs(backend, circuit@, seq![a@, b@])),
{
    let arguments: Vec<&Vec<B::Wire>> = vec![a, b];
    assert(shape(arguments@) =~= seq![a@.len(), b@.len()]);
    assert(words(arguments@) =~= seq![a@, b@]);
    try_evaluate(backend, circuit, &arguments)
}

/// The sum of the words `a` and `b`, bit for bit through the adder
/// netlist: sixteen wires, least significant first, the carry out of the
/// top bit dropped. The netlist reads the sixteen low bits of each word;
/// a shorter word is answered with `MalformedCircuit`. That the wires are
/// the bits of the sum is shown for plain bits by
/// [`karma_add::lemma_karma_add_sums`].
pub fn karma_add<B: GateBackend>(backend: &B, a: &Vec<B::Wire>, b: &Vec<B::Wire>) -> (r: Result<
    Vec<B::Wire>,
    Error,
>)
    ensures
        r is Ok <==> a@.len() >= 16 && b@.len() >= 16,
        r matches Err(e) ==> e == Error::MalformedCircuit,
        r matches Ok(word) ==> word@.len() == 16 && (backend.exact() ==> word@ == circuit_outputs(
            backend,
            karma_add::karma_add_netlist(),
            seq![a@, b@],
        )),
{
    proof {
        let arg_lens = seq![a@.len(), b@.len()];
        if a@.len() >= 16 && b@.len() >= 16 {
            karma_add::lemma_karma_add_well_formed(arg_lens);
        }
        if karma_add::karma_add_netlist().well_formed(arg_lens) {
            karma_add::lemma_karma_add_needs_bits(arg_lens);
        }
    }
    let circuit = karma_add::karma_add_circuit();
    run_on_words(backend, &circuit, a, b)
}

/// The difference `a - b` of the words `a` and `b`, bit for bit through
/// the subtractor netlist: thirty-two wires, least significant first, the
/// borrow out of the top bit dropped. The netlist reads the thirty-two low
/// bits of each word; a shorter word is answered with `MalformedCircuit`.
/// That the wires are the bits of the difference is shown for plain bits by
/// [`karma_sub::lemma_karma_sub_subtracts`].
pub fn karma_sub<B: GateBackend>(backend: &B, a: &Vec<B::Wire>, b: &Vec<B::Wire>) -> (r: Result<
    Vec<B::Wire>,
    Error,
>)
    ensures
        r is Ok <==> a@.len() >= 32 && b@.len() >= 32,
        r matches Err(e) ==> e == Error::MalformedCircuit,
        r matches Ok(word) ==> word@.len() == 32 && (backend.exact() ==> word@ == circuit_outputs(
            backend,
            karma_sub::karma_sub_netlist(),
            seq![a@, b@],
        )),
{
    proof {
        let arg_lens = seq![a@.len(), b@.len()];
        if a@.len() >= 32 && b@.len() >= 32 {
            karma_sub::lemma_karma_sub_well_formed(arg_lens);
        }
        if karma_sub::karma_sub_netlist().well_formed(arg_lens) {
            karma_sub::lemma_karma_sub_needs_bits(arg_lens);
        }
    }
    let circuit = karma_sub::karma_sub_circuit();
    run_on_words(backend, &circuit, a, b)
}

/// The prune lists of the adder change nothing about its result: on words
/// of at least sixteen bits the output wires are those of a run that never
/// drops a temporary.
pub proof fn lemma_karma_add_pruning<B: GateBackend>(backend: &B, a: Seq<B::Wire>, b: Seq<B::Wire>)
    requires
        a.len() >= 16,
        b.len() >= 16,
    ensures
        circuit_outputs(backend, karma_add::karma_add_netlist(), seq![a, b])
            == circuit_outputs_unpruned(backend, karma_add::karma_add_netlist(), seq![a, b]),
{
    let arg_lens = seq![a.len(), b.len()];
    karma_add::lemma_karma_add_well_formed(arg_lens);
    lemma_pruning_keeps_outputs(backend, karma_add::karma_add_netlist(), seq![a, b], arg_lens);
}

/// The prune lists of the subtractor change nothing about its result: on
/// words of at least thirty-two bits the output wires are those of a run
/// that never drops a temporary.
pub proof fn lemma_karma_sub_pruning<B: GateBackend>(backend: &B, a: Seq<B::Wire>, b: Seq<B::Wire>)
    requires
        a.len() >= 32,
        b.len() >= 32,
    ensures
        circuit_outputs(backend, karma_sub::karma_sub_netlist(), seq![a, b])
            == circuit_outputs_unpruned(backend, karma_sub::karma_sub_netlist(), seq![a, b]),
{
    let arg_lens = seq![a.len(), b.len()];
    karma_sub::lemma_karma_sub_well_formed(arg_lens);
    lemma_pruning_keeps_outputs(backend, karma_sub::karma_sub_netlist(), seq![a, b], arg_lens);
}

} // verus!
