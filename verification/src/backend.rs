//! The capability through which the engine touches wires.

use vstd::prelude::*;
use crate::netlist::GateOp;

verus! {

/// Four primitive gates on wires of some representation, and what it takes
/// to hand wires around.
///
/// A backend is *exact* when every result is the value of the matching spec
/// function on the operands. Of a backend that is not exact nothing is known
/// about the wires it hands back.
pub trait GateBackend: Sync {
    type Wire: Send + Sync;

    /// Whether results are pinned down by the spec functions below.
    spec fn exact(&self) -> bool;

    /// The wire that the conjunction of `a` and `b` is.
    spec fn and_wire(&self, a: Self::Wire, b: Self::Wire) -> Self::Wire;

    /// The wire that the disjunction of `a` and `b` is.
    spec fn or_wire(&self, a: Self::Wire, b: Self::Wire) -> Self::Wire;

    /// The wire that the exclusive disjunction of `a` and `b` is.
    spec fn xor_wire(&self, a: Self::Wire, b: Self::Wire) -> Self::Wire;

    /// The wire that the negation of `a` is.
    spec fn not_wire(&self, a: Self::Wire) -> Self::Wire;

    /// The wire that stands for a constant bit.
    spec fn constant_wire(&self, value: bool) -> Self::Wire;

    /// The conjunction of two wires.
    fn and_gate(&self, a: &Self::Wire, b: &Self::Wire) -> (r: Self::Wire)
        ensures
            self.exact() ==> r == self.and_wire(*a, *b),
    ;

    /// The disjunction of two wires.
    fn or_gate(&self, a: &Self::Wire, b: &Self::Wire) -> (r: Self::Wire)
        ensures
            self.exact() ==> r == self.or_wire(*a, *b),
    ;

    /// The exclusive disjunction of two wires.
    fn xor_gate(&self, a: &Self::Wire, b: &Self::Wire) -> (r: Self::Wire)
        ensures
            self.exact() ==> r == self.xor_wire(*a, *b),
    ;

    /// The negation of a wire.
    fn not_gate(&self, a: &Self::Wire) -> (r: Self::Wire)
        ensures
            self.exact() ==> r == self.not_wire(*a),
    ;

    /// A wire that stands for a constant bit.
    fn constant(&self, value: bool) -> (r: Self::Wire)
        ensures
            self.exact() ==> r == self.constant_wire(value),
    ;

    /// A second wire that stands for the same bit as `wire`.
    fn duplicate(&self, wire: &Self::Wire) -> (r: Self::Wire)
        ensures
            self.exact() ==> r == *wire,
    ;

    /// Prepares the calling thread for the gates. The engine calls this once
    /// on every worker before the worker takes its first gate.
    fn bind_worker(&self);
}

/// The wire that `op` yields on `a` and `b`: one of the four primitive
/// gates, or the negation of one. `Not` passes over `b`.
pub open spec fn composed<B: GateBackend>(backend: &B, op: GateOp, a: B::Wire, b: B::Wire) -> B::Wire {
    match op {
        GateOp::And => backend.and_wire(a, b),
        GateOp::Nand => backend.not_wire(backend.and_wire(a, b)),
        GateOp::Or => backend.or_wire(a, b),
        GateOp::Nor => backend.not_wire(backend.or_wire(a, b)),
        GateOp::Xor => backend.xor_wire(a, b),
        GateOp::Xnor => backend.not_wire(backend.xor_wire(a, b)),
        GateOp::Not => backend.not_wire(a),
    }
}

/// Applies `op` to two wires through the primitive gates of the backend.
pub fn apply<B: GateBackend>(backend: &B, op: GateOp, a: &B::Wire, b: &B::Wire) -> (r: B::Wire)
    ensures
        backend.exact() ==> r == composed(backend, op, *a, *b),
{
    match op {
        GateOp::And => backend.and_gate(a, b),
        GateOp::Nand => {
            let both = backend.and_gate(a, b);
            backend.not_gate(&both)
        },
        GateOp::Or => backend.or_gate(a, b),
        GateOp::Nor => {
            let either = backend.or_gate(a, b);
            backend.not_gate(&either)
        },
        GateOp::Xor => backend.xor_gate(a, b),
        GateOp::Xnor => {
            let differ = backend.xor_gate(a, b);
            backend.not_gate(&differ)
        },
        GateOp::Not => backend.not_gate(a),
    }
}

/// Wires are plain bits and gates are the boolean operations themselves.
#[derive(Clone, Copy, Debug)]
pub struct PlainBackend;

impl GateBackend for PlainBackend {
    type Wire = bool;

    open spec fn exact(&self) -> bool {
        true
    }

    open spec fn and_wire(&self, a: bool, b: bool) -> bool {
        a && b
    }

    open spec fn or_wire(&self, a: bool, b: bool) -> bool {
        a || b
    }

    open spec fn xor_wire(&self, a: bool, b: bool) -> bool {
        a != b
    }

    open spec fn not_wire(&self, a: bool) -> bool {
        !a
    }

    open spec fn constant_wire(&self, value: bool) -> bool {
        value
    }

    fn and_gate(&self, a: &bool, b: &bool) -> (r: bool) {
        *a && *b
    }

    fn or_gate(&self, a: &bool, b: &bool) -> (r: bool) {
        *a || *b
    }

    fn xor_gate(&self, a: &bool, b: &bool) -> (r: bool) {
        *a != *b
    }

    fn not_gate(&self, a: &bool) -> (r: bool) {
        !*a
    }

    fn constant(&self, value: bool) -> (r: bool) {
        value
    }

    fn duplicate(&self, wire: &bool) -> (r: bool) {
        *wire
    }

    fn bind_worker(&self) {
    }
}

/// On plain bits every operation has its truth table.
pub proof fn lemma_plain_gates(op: GateOp, a: bool, b: bool)
    ensures
        composed(&PlainBackend, op, a, b) == op.on_bits(a, b),
{
}

} // verus!
