//! The netlist of a sixteen-bit adder.

use vstd::prelude::*;
use crate::backend::PlainBackend;
use crate::compiled::{
    begins_with, bits_of_u16, g2, gate2, sum16,
};
use crate::engine::circuit_outputs;
use crate::netlist::{
    level_view, CircuitDefinition, CircuitModel, GateInput, GateModel, GateOp, GateSpec,
};
use crate::schedule::{assigned_outputs, lemma_assignment_is_computed, level_satisfied, Schedule};

verus! {

/// The gates of level 0.
pub open spec fn level_0() -> Seq<GateModel> {
    seq![
        g2(27, false, GateOp::And, GateInput::Argument(0, 0), GateInput::Argument(1, 0)),
        g2(28, false, GateOp::Xor, GateInput::Argument(0, 1), GateInput::Argument(1, 1)),
    ]
}

/// The gates of level 1.
pub open spec fn level_1() -> Seq<GateModel> {
    seq![
        g2(26, false, GateOp::Nand, GateInput::Argument(0, 1), GateInput::Argument(1, 1)),
        g2(29, false, GateOp::Nand, GateInput::Temporary(27), GateInput::Temporary(28)),
    ]
}

/// The gates of level 2.
pub open spec fn level_2() -> Seq<GateModel> {
    seq![
        g2(30, false, GateOp::Nand, GateInput::Temporary(26), GateInput::Temporary(29)),
        g2(31, false, GateOp::Xor, GateInput::Argument(0, 2), GateInput::Argument(1, 2)),
    ]
}

/// The gates of level 3.
pub open spec fn level_3() -> Seq<GateModel> {
    seq![
        g2(25, false, GateOp::Nand, GateInput::Argument(0, 2), GateInput::Argument(1, 2)),
        g2(32, false, GateOp::Nand, GateInput::Temporary(30), GateInput::Temporary(31)),
    ]
}

/// The gates of level 4.
pub open spec fn level_4() -> Seq<GateModel> {
    seq![
        g2(33, false, GateOp::Nand, GateInput::Temporary(25), GateInput::Temporary(32)),
        g2(34, false, GateOp::Xor, GateInput::Argument(0, 3), GateInput::Argument(1, 3)),
    ]
}

/// The gates of level 5.
pub open spec fn level_5() -> Seq<GateModel> {
    seq![
        g2(24, false, GateOp::Nand, GateInput::Argument(0, 3), GateInput::Argument(1, 3)),
        g2(35, false, GateOp::Nand, GateInput::Temporary(33), GateInput::Temporary(34)),
    ]
}

/// The gates of level 6.
pub open spec fn level_6() -> Seq<GateModel> {
    seq![
        g2(36, false, GateOp::Nand, GateInput::Temporary(24), GateInput::Temporary(35)),
        g2(37, false, GateOp::Xor, GateInput::Argument(0, 4), GateInput::Argument(1, 4)),
    ]
}

/// The gates of level 7.
pub open spec fn level_7() -> Seq<GateModel> {
    seq![
        g2(23, false, GateOp::Nand, GateInput::Argument(0, 4), GateInput::Argument(1, 4)),
        g2(38, false, GateOp::Nand, GateInput::Temporary(36), GateInput::Temporary(37)),
    ]
}

/// The gates of level 8.
pub open spec fn level_8() -> Seq<GateModel> {
    seq![
        g2(39, false, GateOp::Nand, GateInput::Temporary(23), GateInput::Temporary(38)),
        g2(40, false, GateOp::Xor, GateInput::Argument(0, 5), GateInput::Argument(1, 5)),
    ]
}

/// The gates of level 9.
pub open spec fn level_9() -> Seq<GateModel> {
    seq![
        g2(22, false, GateOp::Nand, GateInput::Argument(0, 5), GateInput::Argument(1, 5)),
        g2(41, false, GateOp::Nand, GateInput::Temporary(39), GateInput::Temporary(40)),
    ]
}

/// The gates of level 10.
pub open spec fn level_10() -> Seq<GateModel> {
    seq![
        g2(21, false, GateOp::Xor, GateInput::Argument(0, 6), GateInput::Argument(1, 6)),
        g2(42, false, GateOp::Nand, GateInput::Temporary(22), GateInput::Temporary(41)),
    ]
}

/// The gates of level 11.
pub open spec fn level_11() -> Seq<GateModel> {
    seq![
        g2(20, false, GateOp::Nand, GateInput::Argument(0, 6), GateInput::Argument(1, 6)),
        g2(43, false, GateOp::Nand, GateInput::Temporary(21), GateInput::Temporary(42)),
    ]
}

/// The gates of level 12.
pub open spec fn level_12() -> Seq<GateModel> {
    seq![
        g2(19, false, GateOp::Or, GateInput::Argument(0, 7), GateInput::Argument(1, 7)),
        g2(44, false, GateOp::Nand, GateInput::Temporary(20), GateInput::Temporary(43)),
    ]
}

/// The gates of level 13.
pub open spec fn level_13() -> Seq<GateModel> {
    seq![
        g2(18, false, GateOp::Nand, GateInput::Argument(0, 7), GateInput::Argument(1, 7)),
        g2(45, false, GateOp::Nand, GateInput::Temporary(19), GateInput::Temporary(44)),
    ]
}

/// The gates of level 14.
pub open spec fn level_14() -> Seq<GateModel> {
    seq![
        g2(17, false, GateOp::Xor, GateInput::Argument(0, 8), GateInput::Argument(1, 8)),
        g2(46, false, GateOp::Nand, GateInput::Temporary(18), GateInput::Temporary(45)),
    ]
}

/// The gates of level 15.
pub open spec fn level_15() -> Seq<GateModel> {
    seq![
        g2(16, false, GateOp::Nand, GateInput::Argument(0, 8), GateInput::Argument(1, 8)),
        g2(47, false, GateOp::Nand, GateInput::Temporary(17), GateInput::Temporary(46)),
    ]
}

/// The gates of level 16.
pub open spec fn level_16() -> Seq<GateModel> {
    seq![
        g2(48, false, GateOp::Nand, GateInput::Temporary(16), GateInput::Temporary(47)),
        g2(49, false, GateOp::Xor, GateInput::Argument(0, 9), GateInput::Argument(1, 9)),
    ]
}

/// The gates of level 17.
pub open spec fn level_17() -> Seq<GateModel> {
    seq![
        g2(15, false, GateOp::Nand, GateInput::Argument(0, 9), GateInput::Argument(1, 9)),
        g2(50, false, GateOp::Nand, GateInput::Temporary(48), GateInput::Temporary(49)),
    ]
}

/// The gates of level 18.
pub open spec fn level_18() -> Seq<GateModel> {
    seq![
        g2(14, false, GateOp::Xor, GateInput::Argument(0, 10), GateInput::Argument(1, 10)),
        g2(51, false, GateOp::Nand, GateInput::Temporary(15), GateInput::Temporary(50)),
    ]
}

/// The gates of level 19.
pub open spec fn level_19() -> Seq<GateModel> {
    seq![
        g2(13, false, GateOp::Nand, GateInput::Argument(0, 10), GateInput::Argument(1, 10)),
        g2(52, false, GateOp::Nand, GateInput::Temporary(14), GateInput::Temporary(51)),
    ]
}

/// The gates of level 20.
pub open spec fn level_20() -> Seq<GateModel> {
    seq![
        g2(12, false, GateOp::Or, GateInput::Argument(0, 11), GateInput::Argument(1, 11)),
        g2(53, false, GateOp::Nand, GateInput::Temporary(13), GateInput::Temporary(52)),
    ]
}

/// The gates of level 21.
pub open spec fn level_21() -> Seq<GateModel> {
    seq![
        g2(11, false, GateOp::Nand, GateInput::Argument(0, 11), GateInput::Argument(1, 11)),
        g2(54, false, GateOp::Nand, GateInput::Temporary(12), GateInput::Temporary(53)),
    ]
}

/// The gates of level 22.
pub open spec fn level_22() -> Seq<GateModel> {
    seq![
        g2(10, false, GateOp::Xor, GateInput::Argument(0, 12), GateInput::Argument(1, 12)),
        g2(55, false, GateOp::Nand, GateInput::Temporary(11), GateInput::Temporary(54)),
    ]
}

/// The gates of level 23.
pub open spec fn level_23() -> Seq<GateModel> {
    seq![
        g2(9, false, GateOp::Nand, GateInput::Argument(0, 12), GateInput::Argument(1, 12)),
        g2(56, false, GateOp::Nand, GateInput::Temporary(10), GateInput::Temporary(55)),
    ]
}

/// The gates of level 24.
pub open spec fn level_24() -> Seq<GateModel> {
    seq![
        g2(57, false, GateOp::Nand, GateInput::Temporary(9), GateInput::Temporary(56)),
        g2(59, false, GateOp::Xor, GateInput::Argument(0, 13), GateInput::Argument(1, 13)),
    ]
}

/// The gates of level 25.
pub open spec fn level_25() -> Seq<GateModel> {
    seq![
        g2(58, false, GateOp::Nand, GateInput::Argument(0, 13), GateInput::Argument(1, 13)),
        g2(0, false, GateOp::Nand, GateInput::Temporary(57), GateInput::Temporary(59)),
    ]
}

/// The gates of level 26.
pub open spec fn level_26() -> Seq<GateModel> {
    seq![
        g2(1, false, GateOp::Nand, GateInput::Temporary(58), GateInput::Temporary(0)),
        g2(3, false, GateOp::Xor, GateInput::Argument(0, 14), GateInput::Argument(1, 14)),
    ]
}

/// The gates of level 27.
pub open spec fn level_27() -> Seq<GateModel> {
    seq![
        g2(2, false, GateOp::Nand, GateInput::Argument(0, 14), GateInput::Argument(1, 14)),
        g2(4, false, GateOp::Nand, GateInput::Temporary(1), GateInput::Temporary(3)),
    ]
}

/// The gates of level 28.
pub open spec fn level_28() -> Seq<GateModel> {
    seq![
        g2(5, false, GateOp::Nand, GateInput::Temporary(2), GateInput::Temporary(4)),
        g2(6, false, GateOp::Xnor, GateInput::Argument(0, 15), GateInput::Argument(1, 15)),
        g2(7, false, GateOp::Xnor, GateInput::Argument(0, 7), GateInput::Argument(1, 7)),
        g2(8, false, GateOp::Xnor, GateInput::Argument(0, 11), GateInput::Argument(1, 11)),
    ]
}

/// The gates of level 29.
pub open spec fn level_29() -> Seq<GateModel> {
    seq![
        g2(13, true, GateOp::Xor, GateInput::Temporary(57), GateInput::Temporary(59)),
        g2(14, true, GateOp::Xor, GateInput::Temporary(1), GateInput::Temporary(3)),
        g2(15, true, GateOp::Xnor, GateInput::Temporary(5), GateInput::Temporary(6)),
        g2(0, true, GateOp::Xor, GateInput::Argument(0, 0), GateInput::Argument(1, 0)),
        g2(1, true, GateOp::Xor, GateInput::Temporary(27), GateInput::Temporary(28)),
        g2(2, true, GateOp::Xor, GateInput::Temporary(30), GateInput::Temporary(31)),
        g2(3, true, GateOp::Xor, GateInput::Temporary(33), GateInput::Temporary(34)),
        g2(4, true, GateOp::Xor, GateInput::Temporary(36), GateInput::Temporary(37)),
        g2(5, true, GateOp::Xor, GateInput::Temporary(39), GateInput::Temporary(40)),
        g2(6, true, GateOp::Xor, GateInput::Temporary(21), GateInput::Temporary(42)),
        g2(7, true, GateOp::Xnor, GateInput::Temporary(44), GateInput::Temporary(7)),
        g2(8, true, GateOp::Xor, GateInput::Temporary(17), GateInput::Temporary(46)),
        g2(9, true, GateOp::Xor, GateInput::Temporary(48), GateInput::Temporary(49)),
        g2(10, true, GateOp::Xor, GateInput::Temporary(14), GateInput::Temporary(51)),
        g2(11, true, GateOp::Xnor, GateInput::Temporary(53), GateInput::Temporary(8)),
        g2(12, true, GateOp::Xor, GateInput::Temporary(10), GateInput::Temporary(55)),
    ]
}

/// The temporaries that no level after level 2 reads.
pub open spec fn prune_2() -> Seq<usize> {
    seq![26, 29]
}

/// The temporaries that no level after level 4 reads.
pub open spec fn prune_4() -> Seq<usize> {
    seq![25, 32]
}

/// The temporaries that no level after level 6 reads.
pub open spec fn prune_6() -> Seq<usize> {
    seq![24, 35]
}

/// The temporaries that no level after level 8 reads.
pub open spec fn prune_8() -> Seq<usize> {
    seq![23, 38]
}

/// The temporaries that no level after level 10 reads.
pub open spec fn prune_10() -> Seq<usize> {
    seq![22, 41]
}

/// The temporaries that no level after level 12 reads.
pub open spec fn prune_12() -> Seq<usize> {
    seq![43, 20]
}

/// The temporaries that no level after level 13 reads.
pub open spec fn prune_13() -> Seq<usize> {
    seq![19]
}

/// The temporaries that no level after level 14 reads.
pub open spec fn prune_14() -> Seq<usize> {
    seq![45, 18]
}

/// The temporaries that no level after level 16 reads.
pub open spec fn prune_16() -> Seq<usize> {
    seq![16, 47]
}

/// The temporaries that no level after level 18 reads.
pub open spec fn prune_18() -> Seq<usize> {
    seq![50, 15]
}

/// The temporaries that no level after level 20 reads.
pub open spec fn prune_20() -> Seq<usize> {
    seq![13, 52]
}

/// The temporaries that no level after level 21 reads.
pub open spec fn prune_21() -> Seq<usize> {
    seq![12]
}

/// The temporaries that no level after level 22 reads.
pub open spec fn prune_22() -> Seq<usize> {
    seq![54, 11]
}

/// The temporaries that no level after level 24 reads.
pub open spec fn prune_24() -> Seq<usize> {
    seq![9, 56]
}

/// The temporaries that no level after level 26 reads.
pub open spec fn prune_26() -> Seq<usize> {
    seq![0, 58]
}

/// The temporaries that no level after level 28 reads.
pub open spec fn prune_28() -> Seq<usize> {
    seq![2, 4]
}

/// The temporaries that no level after level 29 reads.
pub open spec fn prune_29() -> Seq<usize> {
    seq![36, 5, 57, 39, 46, 53, 30, 37, 44, 6, 51, 33, 40, 55, 31, 7, 14, 27, 34, 3, 10, 17, 48, 49, 1, 8, 21, 28, 59, 42]
}

/// The gates of level `l`.
pub open spec fn level_at(l: int) -> Seq<GateModel> {
    if l == 0 {
        level_0()
    } else if l == 1 {
        level_1()
    } else if l == 2 {
        level_2()
    } else if l == 3 {
        level_3()
    } else if l == 4 {
        level_4()
    } else if l == 5 {
        level_5()
    } else if l == 6 {
        level_6()
    } else if l == 7 {
        level_7()
    } else if l == 8 {
        level_8()
    } else if l == 9 {
        level_9()
    } else if l == 10 {
        level_10()
    } else if l == 11 {
        level_11()
    } else if l == 12 {
        level_12()
    } else if l == 13 {
        level_13()
    } else if l == 14 {
        level_14()
    } else if l == 15 {
        level_15()
    } else if l == 16 {
        level_16()
    } else if l == 17 {
        level_17()
    } else if l == 18 {
        level_18()
    } else if l == 19 {
        level_19()
    } else if l == 20 {
        level_20()
    } else if l == 21 {
        level_21()
    } else if l == 22 {
        level_22()
    } else if l == 23 {
        level_23()
    } else if l == 24 {
        level_24()
    } else if l == 25 {
        level_25()
    } else if l == 26 {
        level_26()
    } else if l == 27 {
        level_27()
    } else if l == 28 {
        level_28()
    } else if l == 29 {
        level_29()
    } else {
        Seq::empty()
    }
}

/// The temporaries that may be dropped after level `l`.
pub open spec fn prune_at(l: int) -> Seq<usize> {
    if l == 2 {
        prune_2()
    } else if l == 4 {
        prune_4()
    } else if l == 6 {
        prune_6()
    } else if l == 8 {
        prune_8()
    } else if l == 10 {
        prune_10()
    } else if l == 12 {
        prune_12()
    } else if l == 13 {
        prune_13()
    } else if l == 14 {
        prune_14()
    } else if l == 16 {
        prune_16()
    } else if l == 18 {
        prune_18()
    } else if l == 20 {
        prune_20()
    } else if l == 21 {
        prune_21()
    } else if l == 22 {
        prune_22()
    } else if l == 24 {
        prune_24()
    } else if l == 26 {
        prune_26()
    } else if l == 28 {
        prune_28()
    } else if l == 29 {
        prune_29()
    } else {
        Seq::empty()
    }
}

/// The netlist: 30 levels that fill 16 output slots.
pub open spec fn karma_add_netlist() -> CircuitModel {
    CircuitModel {
        levels: Seq::new(30, |l: int| level_at(l)),
        prune_after_level: Seq::new(30, |l: int| prune_at(l)),
        output_count: 16,
    }
}

/// The first `count` levels and prune lists of the netlist are in place.
spec fn built(levels: Seq<Vec<GateSpec>>, prunes: Seq<Vec<usize>>, count: int) -> bool {
    &&& levels.len() == count
    &&& prunes.len() == count
    &&& forall|l: int| 0 <= l < count ==> level_view((#[trigger] levels[l])@) == level_at(l)
    &&& forall|l: int| 0 <= l < count ==> (#[trigger] prunes[l])@ == prune_at(l)
}

/// Appends level 0 and its prune list.
fn build_level_0(levels: &mut Vec<Vec<GateSpec>>, prunes: &mut Vec<Vec<usize>>)
    requires
        built(old(levels)@, old(prunes)@, 0),
    ensures
        built(final(levels)@, final(prunes)@, 1),
{
    let gates = vec![
        gate2(27, false, GateOp::And, GateInput::Argument(0, 0), GateInput::Argument(1, 0)),
        gate2(28, false, GateOp::Xor, GateInput::Argument(0, 1), GateInput::Argument(1, 1)),
    ];
    assert(level_view(gates@) =~= level_0());
    let dropped: Vec<usize> = Vec::new();
    assert(dropped@ =~= Seq::<usize>::empty());
    levels.push(gates);
    prunes.push(dropped);
}

/// Appends level 1 and its prune list.
fn build_level_1(levels: &mut Vec<Vec<GateSpec>>, prunes: &mut Vec<Vec<usize>>)
    requires
        built(old(levels)@, old(prunes)@, 1),
    ensures
        built(final(levels)@, final(prunes)@, 2),
{
    let gates = vec![
        gate2(26, false, GateOp::Nand, GateInput::Argument(0, 1), GateInput::Argument(1, 1)),
        gate2(29, false, GateOp::Nand, GateInput::Temporary(27), GateInput::Temporary(28)),
    ];
    assert(level_view(gates@) =~= level_1());
    let dropped: Vec<usize> = Vec::new();
    assert(dropped@ =~= Seq::<usize>::empty());
    levels.push(gates);
    prunes.push(dropped);
}

/// Appends level 2 and its prune list.
fn build_level_2(levels: &mut Vec<Vec<GateSpec>>, prunes: &mut Vec<Vec<usize>>)
    requires
        built(old(levels)@, old(prunes)@, 2),
    ensures
        built(final(levels)@, final(prunes)@, 3),
{
    let gates = vec![
        gate2(30, false, GateOp::Nand, GateInput::Temporary(26), GateInput::Temporary(29)),
        gate2(31, false, GateOp::Xor, GateInput::Argument(0, 2), GateInput::Argument(1, 2)),
    ];
    assert(level_view(gates@) =~= level_2());
    let dropped: Vec<usize> = vec![26, 29];
    assert(dropped@ =~= prune_2());
    levels.push(gates);
    prunes.push(dropped);
}

/// Appends level 3 and its prune list.
fn build_level_3(levels: &mut Vec<Vec<GateSpec>>, prunes: &mut Vec<Vec<usize>>)
    requires
        built(old(levels)@, old(prunes)@, 3),
    ensures
        built(final(levels)@, final(prunes)@, 4),
{
    let gates = vec![
        gate2(25, false, GateOp::Nand, GateInput::Argument(0, 2), GateInput::Argument(1, 2)),
        gate2(32, false, GateOp::Nand, GateInput::Temporary(30), GateInput::Temporary(31)),
    ];
    assert(level_view(gates@) =~= level_3());
    let dropped: Vec<usize> = Vec::new();
    assert(dropped@ =~= Seq::<usize>::empty());
    levels.push(gates);
    prunes.push(dropped);
}

/// Appends level 4 and its prune list.
fn build_level_4(levels: &mut Vec<Vec<GateSpec>>, prunes: &mut Vec<Vec<usize>>)
    requires
        built(old(levels)@, old(prunes)@, 4),
    ensures
        built(final(levels)@, final(prunes)@, 5),
{
    let gates = vec![
        gate2(33, false, GateOp::Nand, GateInput::Temporary(25), GateInput::Temporary(32)),
        gate2(34, false, GateOp::Xor, GateInput::Argument(0, 3), GateInput::Argument(1, 3)),
    ];
    assert(level_view(gates@) =~= level_4());
    let dropped: Vec<usize> = vec![25, 32];
    assert(dropped@ =~= prune_4());
    levels.push(gates);
    prunes.push(dropped);
}

/// Appends level 5 and its prune list.
fn build_level_5(levels: &mut Vec<Vec<GateSpec>>, prunes: &mut Vec<Vec<usize>>)
    requires
        built(old(levels)@, old(prunes)@, 5),
    ensures
        built(final(levels)@, final(prunes)@, 6),
{
    let gates = vec![
        gate2(24, false, GateOp::Nand, GateInput::Argument(0, 3), GateInput::Argument(1, 3)),
        gate2(35, false, GateOp::Nand, GateInput::Temporary(33), GateInput::Temporary(34)),
    ];
    assert(level_view(gates@) =~= level_5());
    let dropped: Vec<usize> = Vec::new();
    assert(dropped@ =~= Seq::<usize>::empty());
    levels.push(gates);
    prunes.push(dropped);
}

/// Appends level 6 and its prune list.
fn build_level_6(levels: &mut Vec<Vec<GateSpec>>, prunes: &mut Vec<Vec<usize>>)
    requires
        built(old(levels)@, old(prunes)@, 6),
    ensures
        built(final(levels)@, final(prunes)@, 7),
{
    let gates = vec![
        gate2(36, false, GateOp::Nand, GateInput::Temporary(24), GateInput::Temporary(35)),
        gate2(37, false, GateOp::Xor, GateInput::Argument(0, 4), GateInput::Argument(1, 4)),
    ];
    assert(level_view(gates@) =~= level_6());
    let dropped: Vec<usize> = vec![24, 35];
    assert(dropped@ =~= prune_6());
    levels.push(gates);
    prunes.push(dropped);
}

/// Appends level 7 and its prune list.
fn build_level_7(levels: &mut Vec<Vec<GateSpec>>, prunes: &mut Vec<Vec<usize>>)
    requires
        built(old(levels)@, old(prunes)@, 7),
    ensures
        built(final(levels)@, final(prunes)@, 8),
{
    let gates = vec![
        gate2(23, false, GateOp::Nand, GateInput::Argument(0, 4), GateInput::Argument(1, 4)),
        gate2(38, false, GateOp::Nand, GateInput::Temporary(36), GateInput::Temporary(37)),
    ];
    assert(level_view(gates@) =~= level_7());
    let dropped: Vec<usize> = Vec::new();
    assert(dropped@ =~= Seq::<usize>::empty());
    levels.push(gates);
    prunes.push(dropped);
}

/// Appends level 8 and its prune list.
fn build_level_8(levels: &mut Vec<Vec<GateSpec>>, prunes: &mut Vec<Vec<usize>>)
    requires
        built(old(levels)@, old(prunes)@, 8),
    ensures
        built(final(levels)@, final(prunes)@, 9),
{
    let gates = vec![
        gate2(39, false, GateOp::Nand, GateInput::Temporary(23), GateInput::Temporary(38)),
        gate2(40, false, GateOp::Xor, GateInput::Argument(0, 5), GateInput::Argument(1, 5)),
    ];
    assert(level_view(gates@) =~= level_8());
    let dropped: Vec<usize> = vec![23, 38];
    assert(dropped@ =~= prune_8());
    levels.push(gates);
    prunes.push(dropped);
}

/// Appends level 9 and its prune list.
fn build_level_9(levels: &mut Vec<Vec<GateSpec>>, prunes: &mut Vec<Vec<usize>>)
    requires
        built(old(levels)@, old(prunes)@, 9),
    ensures
        built(final(levels)@, final(prunes)@, 10),
{
    let gates = vec![
        gate2(22, false, GateOp::Nand, GateInput::Argument(0, 5), GateInput::Argument(1, 5)),
        gate2(41, false, GateOp::Nand, GateInput::Temporary(39), GateInput::Temporary(40)),
    ];
    assert(level_view(gates@) =~= level_9());
    let dropped: Vec<usize> = Vec::new();
    assert(dropped@ =~= Seq::<usize>::empty());
    levels.push(gates);
    prunes.push(dropped);
}

/// Appends level 10 and its prune list.
fn build_level_10(levels: &mut Vec<Vec<GateSpec>>, prunes: &mut Vec<Vec<usize>>)
    requires
        built(old(levels)@, old(prunes)@, 10),
    ensures
        built(final(levels)@, final(prunes)@, 11),
{
    let gates = vec![
        gate2(21, false, GateOp::Xor, GateInput::Argument(0, 6), GateInput::Argument(1, 6)),
        gate2(42, false, GateOp::Nand, GateInput::Temporary(22), GateInput::Temporary(41)),
    ];
    assert(level_view(gates@) =~= level_10());
    let dropped: Vec<usize> = vec![22, 41];
    assert(dropped@ =~= prune_10());
    levels.push(gates);
    prunes.push(dropped);
}

/// Appends level 11 and its prune list.
fn build_level_11(levels: &mut Vec<Vec<GateSpec>>, prunes: &mut Vec<Vec<usize>>)
    requires
        built(old(levels)@, old(prunes)@, 11),
    ensures
        built(final(levels)@, final(prunes)@, 12),
{
    let gates = vec![
        gate2(20, false, GateOp::Nand, GateInput::Argument(0, 6), GateInput::Argument(1, 6)),
        gate2(43, false, GateOp::Nand, GateInput::Temporary(21), GateInput::Temporary(42)),
    ];
    assert(level_view(gates@) =~= level_11());
    let dropped: Vec<usize> = Vec::new();
    assert(dropped@ =~= Seq::<usize>::empty());
    levels.push(gates);
    prunes.push(dropped);
}

/// Appends level 12 and its prune list.
fn build_level_12(levels: &mut Vec<Vec<GateSpec>>, prunes: &mut Vec<Vec<usize>>)
    requires
        built(old(levels)@, old(prunes)@, 12),
    ensures
        built(final(levels)@, final(prunes)@, 13),
{
    let gates = vec![
        gate2(19, false, GateOp::Or, GateInput::Argument(0, 7), GateInput::Argument(1, 7)),
        gate2(44, false, GateOp::Nand, GateInput::Temporary(20), GateInput::Temporary(43)),
    ];
    assert(level_view(gates@) =~= level_12());
    let dropped: Vec<usize> = vec![43, 20];
    assert(dropped@ =~= prune_12());
    levels.push(gates);
    prunes.push(dropped);
}

/// Appends level 13 and its prune list.
fn build_level_13(levels: &mut Vec<Vec<GateSpec>>, prunes: &mut Vec<Vec<usize>>)
    requires
        built(old(levels)@, old(prunes)@, 13),
    ensures
        built(final(levels)@, final(prunes)@, 14),
{
    let gates = vec![
        gate2(18, false, GateOp::Nand, GateInput::Argument(0, 7), GateInput::Argument(1, 7)),
        gate2(45, false, GateOp::Nand, GateInput::Temporary(19), GateInput::Temporary(44)),
    ];
    assert(level_view(gates@) =~= level_13());
    let dropped: Vec<usize> = vec![19];
    assert(dropped@ =~= prune_13());
    levels.push(gates);
    prunes.push(dropped);
}

/// Appends level 14 and its prune list.
fn build_level_14(levels: &mut Vec<Vec<GateSpec>>, prunes: &mut Vec<Vec<usize>>)
    requires
        built(old(levels)@, old(prunes)@, 14),
    ensures
        built(final(levels)@, final(prunes)@, 15),
{
    let gates = vec![
        gate2(17, false, GateOp::Xor, GateInput::Argument(0, 8), GateInput::Argument(1, 8)),
        gate2(46, false, GateOp::Nand, GateInput::Temporary(18), GateInput::Temporary(45)),
    ];
    assert(level_view(gates@) =~= level_14());
    let dropped: Vec<usize> = vec![45, 18];
    assert(dropped@ =~= prune_14());
    levels.push(gates);
    prunes.push(dropped);
}

/// Appends level 15 and its prune list.
fn build_level_15(levels: &mut Vec<Vec<GateSpec>>, prunes: &mut Vec<Vec<usize>>)
    requires
        built(old(levels)@, old(prunes)@, 15),
    ensures
        built(final(levels)@, final(prunes)@, 16),
{
    let gates = vec![
        gate2(16, false, GateOp::Nand, GateInput::Argument(0, 8), GateInput::Argument(1, 8)),
        gate2(47, false, GateOp::Nand, GateInput::Temporary(17), GateInput::Temporary(46)),
    ];
    assert(level_view(gates@) =~= level_15());
    let dropped: Vec<usize> = Vec::new();
    assert(dropped@ =~= Seq::<usize>::empty());
    levels.push(gates);
    prunes.push(dropped);
}

/// Appends level 16 and its prune list.
fn build_level_16(levels: &mut Vec<Vec<GateSpec>>, prunes: &mut Vec<Vec<usize>>)
    requires
        built(old(levels)@, old(prunes)@, 16),
    ensures
        built(final(levels)@, final(prunes)@, 17),
{
    let gates = vec![
        gate2(48, false, GateOp::Nand, GateInput::Temporary(16), GateInput::Temporary(47)),
        gate2(49, false, GateOp::Xor, GateInput::Argument(0, 9), GateInput::Argument(1, 9)),
    ];
    assert(level_view(gates@) =~= level_16());
    let dropped: Vec<usize> = vec![16, 47];
    assert(dropped@ =~= prune_16());
    levels.push(gates);
    prunes.push(dropped);
}

/// Appends level 17 and its prune list.
fn build_level_17(levels: &mut Vec<Vec<GateSpec>>, prunes: &mut Vec<Vec<usize>>)
    requires
        built(old(levels)@, old(prunes)@, 17),
    ensures
        built(final(levels)@, final(prunes)@, 18),
{
    let gates = vec![
        gate2(15, false, GateOp::Nand, GateInput::Argument(0, 9), GateInput::Argument(1, 9)),
        gate2(50, false, GateOp::Nand, GateInput::Temporary(48), GateInput::Temporary(49)),
    ];
    assert(level_view(gates@) =~= level_17());
    let dropped: Vec<usize> = Vec::new();
    assert(dropped@ =~= Seq::<usize>::empty());
    levels.push(gates);
    prunes.push(dropped);
}

/// Appends level 18 and its prune list.
fn build_level_18(levels: &mut Vec<Vec<GateSpec>>, prunes: &mut Vec<Vec<usize>>)
    requires
        built(old(levels)@, old(prunes)@, 18),
    ensures
        built(final(levels)@, final(prunes)@, 19),
{
    let gates = vec![
        gate2(14, false, GateOp::Xor, GateInput::Argument(0, 10), GateInput::Argument(1, 10)),
        gate2(51, false, GateOp::Nand, GateInput::Temporary(15), GateInput::Temporary(50)),
    ];
    assert(level_view(gates@) =~= level_18());
    let dropped: Vec<usize> = vec![50, 15];
    assert(dropped@ =~= prune_18());
    levels.push(gates);
    prunes.push(dropped);
}

/// Appends level 19 and its prune list.
fn build_level_19(levels: &mut Vec<Vec<GateSpec>>, prunes: &mut Vec<Vec<usize>>)
    requires
        built(old(levels)@, old(prunes)@, 19),
    ensures
        built(final(levels)@, final(prunes)@, 20),
{
    let gates = vec![
        gate2(13, false, GateOp::Nand, GateInput::Argument(0, 10), GateInput::Argument(1, 10)),
        gate2(52, false, GateOp::Nand, GateInput::Temporary(14), GateInput::Temporary(51)),
    ];
    assert(level_view(gates@) =~= level_19());
    let dropped: Vec<usize> = Vec::new();
    assert(dropped@ =~= Seq::<usize>::empty());
    levels.push(gates);
    prunes.push(dropped);
}

/// Appends level 20 and its prune list.
fn build_level_20(levels: &mut Vec<Vec<GateSpec>>, prunes: &mut Vec<Vec<usize>>)
    requires
        built(old(levels)@, old(prunes)@, 20),
    ensures
        built(final(levels)@, final(prunes)@, 21),
{
    let gates = vec![
        gate2(12, false, GateOp::Or, GateInput::Argument(0, 11), GateInput::Argument(1, 11)),
        gate2(53, false, GateOp::Nand, GateInput::Temporary(13), GateInput::Temporary(52)),
    ];
    assert(level_view(gates@) =~= level_20());
    let dropped: Vec<usize> = vec![13, 52];
    assert(dropped@ =~= prune_20());
    levels.push(gates);
    prunes.push(dropped);
}

/// Appends level 21 and its prune list.
fn build_level_21(levels: &mut Vec<Vec<GateSpec>>, prunes: &mut Vec<Vec<usize>>)
    requires
        built(old(levels)@, old(prunes)@, 21),
    ensures
        built(final(levels)@, final(prunes)@, 22),
{
    let gates = vec![
        gate2(11, false, GateOp::Nand, GateInput::Argument(0, 11), GateInput::Argument(1, 11)),
        gate2(54, false, GateOp::Nand, GateInput::Temporary(12), GateInput::Temporary(53)),
    ];
    assert(level_view(gates@) =~= level_21());
    let dropped: Vec<usize> = vec![12];
    assert(dropped@ =~= prune_21());
    levels.push(gates);
    prunes.push(dropped);
}

/// Appends level 22 and its prune list.
fn build_level_22(levels: &mut Vec<Vec<GateSpec>>, prunes: &mut Vec<Vec<usize>>)
    requires
        built(old(levels)@, old(prunes)@, 22),
    ensures
        built(final(levels)@, final(prunes)@, 23),
{
    let gates = vec![
        gate2(10, false, GateOp::Xor, GateInput::Argument(0, 12), GateInput::Argument(1, 12)),
        gate2(55, false, GateOp::Nand, GateInput::Temporary(11), GateInput::Temporary(54)),
    ];
    assert(level_view(gates@) =~= level_22());
    let dropped: Vec<usize> = vec![54, 11];
    assert(dropped@ =~= prune_22());
    levels.push(gates);
    prunes.push(dropped);
}

/// Appends level 23 and its prune list.
fn build_level_23(levels: &mut Vec<Vec<GateSpec>>, prunes: &mut Vec<Vec<usize>>)
    requires
        built(old(levels)@, old(prunes)@, 23),
    ensures
        built(final(levels)@, final(prunes)@, 24),
{
    let gates = vec![
        gate2(9, false, GateOp::Nand, GateInput::Argument(0, 12), GateInput::Argument(1, 12)),
        gate2(56, false, GateOp::Nand, GateInput::Temporary(10), GateInput::Temporary(55)),
    ];
    assert(level_view(gates@) =~= level_23());
    let dropped: Vec<usize> = Vec::new();
    assert(dropped@ =~= Seq::<usize>::empty());
    levels.push(gates);
    prunes.push(dropped);
}

/// Appends level 24 and its prune list.
fn build_level_24(levels: &mut Vec<Vec<GateSpec>>, prunes: &mut Vec<Vec<usize>>)
    requires
        built(old(levels)@, old(prunes)@, 24),
    ensures
        built(final(levels)@, final(prunes)@, 25),
{
    let gates = vec![
        gate2(57, false, GateOp::Nand, GateInput::Temporary(9), GateInput::Temporary(56)),
        gate2(59, false, GateOp::Xor, GateInput::Argument(0, 13), GateInput::Argument(1, 13)),
    ];
    assert(level_view(gates@) =~= level_24());
    let dropped: Vec<usize> = vec![9, 56];
    assert(dropped@ =~= prune_24());
    levels.push(gates);
    prunes.push(dropped);
}

/// Appends level 25 and its prune list.
fn build_level_25(levels: &mut Vec<Vec<GateSpec>>, prunes: &mut Vec<Vec<usize>>)
    requires
        built(old(levels)@, old(prunes)@, 25),
    ensures
        built(final(levels)@, final(prunes)@, 26),
{
    let gates = vec![
        gate2(58, false, GateOp::Nand, GateInput::Argument(0, 13), GateInput::Argument(1, 13)),
        gate2(0, false, GateOp::Nand, GateInput::Temporary(57), GateInput::Temporary(59)),
    ];
    assert(level_view(gates@) =~= level_25());
    let dropped: Vec<usize> = Vec::new();
    assert(dropped@ =~= Seq::<usize>::empty());
    levels.push(gates);
    prunes.push(dropped);
}

/// Appends level 26 and its prune list.
fn build_level_26(levels: &mut Vec<Vec<GateSpec>>, prunes: &mut Vec<Vec<usize>>)
    requires
        built(old(levels)@, old(prunes)@, 26),
    ensures
        built(final(levels)@, final(prunes)@, 27),
{
    let gates = vec![
        gate2(1, false, GateOp::Nand, GateInput::Temporary(58), GateInput::Temporary(0)),
        gate2(3, false, GateOp::Xor, GateInput::Argument(0, 14), GateInput::Argument(1, 14)),
    ];
    assert(level_view(gates@) =~= level_26());
    let dropped: Vec<usize> = vec![0, 58];
    assert(dropped@ =~= prune_26());
    levels.push(gates);
    prunes.push(dropped);
}

/// Appends level 27 and its prune list.
fn build_level_27(levels: &mut Vec<Vec<GateSpec>>, prunes: &mut Vec<Vec<usize>>)
    requires
        built(old(levels)@, old(prunes)@, 27),
    ensures
        built(final(levels)@, final(prunes)@, 28),
{
    let gates = vec![
        gate2(2, false, GateOp::Nand, GateInput::Argument(0, 14), GateInput::Argument(1, 14)),
        gate2(4, false, GateOp::Nand, GateInput::Temporary(1), GateInput::Temporary(3)),
    ];
    assert(level_view(gates@) =~= level_27());
    let dropped: Vec<usize> = Vec::new();
    assert(dropped@ =~= Seq::<usize>::empty());
    levels.push(gates);
    prunes.push(dropped);
}

/// Appends level 28 and its prune list.
fn build_level_28(levels: &mut Vec<Vec<GateSpec>>, prunes: &mut Vec<Vec<usize>>)
    requires
        built(old(levels)@, old(prunes)@, 28),
    ensures
        built(final(levels)@, final(prunes)@, 29),
{
    let gates = vec![
        gate2(5, false, GateOp::Nand, GateInput::Temporary(2), GateInput::Temporary(4)),
        gate2(6, false, GateOp::Xnor, GateInput::Argument(0, 15), GateInput::Argument(1, 15)),
        gate2(7, false, GateOp::Xnor, GateInput::Argument(0, 7), GateInput::Argument(1, 7)),
        gate2(8, false, GateOp::Xnor, GateInput::Argument(0, 11), GateInput::Argument(1, 11)),
    ];
    assert(level_view(gates@) =~= level_28());
    let dropped: Vec<usize> = vec![2, 4];
    assert(dropped@ =~= prune_28());
    levels.push(gates);
    prunes.push(dropped);
}

/// Appends level 29 and its prune list.
fn build_level_29(levels: &mut Vec<Vec<GateSpec>>, prunes: &mut Vec<Vec<usize>>)
    requires
        built(old(levels)@, old(prunes)@, 29),
    ensures
        built(final(levels)@, final(prunes)@, 30),
{
    let gates = vec![
        gate2(13, true, GateOp::Xor, GateInput::Temporary(57), GateInput::Temporary(59)),
        gate2(14, true, GateOp::Xor, GateInput::Temporary(1), GateInput::Temporary(3)),
        gate2(15, true, GateOp::Xnor, GateInput::Temporary(5), GateInput::Temporary(6)),
        gate2(0, true, GateOp::Xor, GateInput::Argument(0, 0), GateInput::Argument(1, 0)),
        gate2(1, true, GateOp::Xor, GateInput::Temporary(27), GateInput::Temporary(28)),
        gate2(2, true, GateOp::Xor, GateInput::Temporary(30), GateInput::Temporary(31)),
        gate2(3, true, GateOp::Xor, GateInput::Temporary(33), GateInput::Temporary(34)),
        gate2(4, true, GateOp::Xor, GateInput::Temporary(36), GateInput::Temporary(37)),
        gate2(5, true, GateOp::Xor, GateInput::Temporary(39), GateInput::Temporary(40)),
        gate2(6, true, GateOp::Xor, GateInput::Temporary(21), GateInput::Temporary(42)),
        gate2(7, true, GateOp::Xnor, GateInput::Temporary(44), GateInput::Temporary(7)),
        gate2(8, true, GateOp::Xor, GateInput::Temporary(17), GateInput::Temporary(46)),
        gate2(9, true, GateOp::Xor, GateInput::Temporary(48), GateInput::Temporary(49)),
        gate2(10, true, GateOp::Xor, GateInput::Temporary(14), GateInput::Temporary(51)),
        gate2(11, true, GateOp::Xnor, GateInput::Temporary(53), GateInput::Temporary(8)),
        gate2(12, true, GateOp::Xor, GateInput::Temporary(10), GateInput::Temporary(55)),
    ];
    assert(level_view(gates@) =~= level_29());
    let dropped: Vec<usize> = vec![36, 5, 57, 39, 46, 53, 30, 37, 44, 6, 51, 33, 40, 55, 31, 7, 14, 27, 34, 3, 10, 17, 48, 49, 1, 8, 21, 28, 59, 42];
    assert(dropped@ =~= prune_29());
    levels.push(gates);
    prunes.push(dropped);
}

/// Builds the adder: a circuit of two arguments of sixteen bits each.
pub fn karma_add_circuit() -> (circuit: CircuitDefinition)
    ensures
        circuit@ == karma_add_netlist(),
{
    let mut levels: Vec<Vec<GateSpec>> = Vec::new();
    let mut prunes: Vec<Vec<usize>> = Vec::new();
    build_level_0(&mut levels, &mut prunes);
    build_level_1(&mut levels, &mut prunes);
    build_level_2(&mut levels, &mut prunes);
    build_level_3(&mut levels, &mut prunes);
    build_level_4(&mut levels, &mut prunes);
    build_level_5(&mut levels, &mut prunes);
    build_level_6(&mut levels, &mut prunes);
    build_level_7(&mut levels, &mut prunes);
    build_level_8(&mut levels, &mut prunes);
    build_level_9(&mut levels, &mut prunes);
    build_level_10(&mut levels, &mut prunes);
    build_level_11(&mut levels, &mut prunes);
    build_level_12(&mut levels, &mut prunes);
    build_level_13(&mut levels, &mut prunes);
    build_level_14(&mut levels, &mut prunes);
    build_level_15(&mut levels, &mut prunes);
    build_level_16(&mut levels, &mut prunes);
    build_level_17(&mut levels, &mut prunes);
    build_level_18(&mut levels, &mut prunes);
    build_level_19(&mut levels, &mut prunes);
    build_level_20(&mut levels, &mut prunes);
    build_level_21(&mut levels, &mut prunes);
    build_level_22(&mut levels, &mut prunes);
    build_level_23(&mut levels, &mut prunes);
    build_level_24(&mut levels, &mut prunes);
    build_level_25(&mut levels, &mut prunes);
    build_level_26(&mut levels, &mut prunes);
    build_level_27(&mut levels, &mut prunes);
    build_level_28(&mut levels, &mut prunes);
    build_level_29(&mut levels, &mut prunes);
    let circuit = CircuitDefinition { levels, prune_after_level: prunes, output_count: 16 };
    assert(circuit@.levels =~= karma_add_netlist().levels);
    assert(circuit@.prune_after_level =~= karma_add_netlist().prune_after_level);
    circuit
}

/// The level that makes temporary `t`.
pub open spec fn made_at(t: usize) -> int {
    if t == 0 {
        25
    } else if t == 1 {
        26
    } else if t == 2 {
        27
    } else if t == 3 {
        26
    } else if t == 4 {
        27
    } else if t == 5 {
        28
    } else if t == 6 {
        28
    } else if t == 7 {
        28
    } else if t == 8 {
        28
    } else if t == 9 {
        23
    } else if t == 10 {
        22
    } else if t == 11 {
        21
    } else if t == 12 {
        20
    } else if t == 13 {
        19
    } else if t == 14 {
        18
    } else if t == 15 {
        17
    } else if t == 16 {
        15
    } else if t == 17 {
        14
    } else if t == 18 {
        13
    } else if t == 19 {
        12
    } else if t == 20 {
        11
    } else if t == 21 {
        10
    } else if t == 22 {
        9
    } else if t == 23 {
        7
    } else if t == 24 {
        5
    } else if t == 25 {
        3
    } else if t == 26 {
        1
    } else if t == 27 {
        0
    } else if t == 28 {
        0
    } else if t == 29 {
        1
    } else if t == 30 {
        2
    } else if t == 31 {
        2
    } else if t == 32 {
        3
    } else if t == 33 {
        4
    } else if t == 34 {
        4
    } else if t == 35 {
        5
    } else if t == 36 {
        6
    } else if t == 37 {
        6
    } else if t == 38 {
        7
    } else if t == 39 {
        8
    } else if t == 40 {
        8
    } else if t == 41 {
        9
    } else if t == 42 {
        10
    } else if t == 43 {
        11
    } else if t == 44 {
        12
    } else if t == 45 {
        13
    } else if t == 46 {
        14
    } else if t == 47 {
        15
    } else if t == 48 {
        16
    } else if t == 49 {
        16
    } else if t == 50 {
        17
    } else if t == 51 {
        18
    } else if t == 52 {
        19
    } else if t == 53 {
        20
    } else if t == 54 {
        21
    } else if t == 55 {
        22
    } else if t == 56 {
        23
    } else if t == 57 {
        24
    } else if t == 58 {
        25
    } else if t == 59 {
        24
    } else {
        0
    }
}

/// The place in its level of what makes temporary `t`.
pub open spec fn slot_of(t: usize) -> int {
    if t == 0 {
        1
    } else if t == 1 {
        0
    } else if t == 2 {
        0
    } else if t == 3 {
        1
    } else if t == 4 {
        1
    } else if t == 5 {
        0
    } else if t == 6 {
        1
    } else if t == 7 {
        2
    } else if t == 8 {
        3
    } else if t == 9 {
        0
    } else if t == 10 {
        0
    } else if t == 11 {
        0
    } else if t == 12 {
        0
    } else if t == 13 {
        0
    } else if t == 14 {
        0
    } else if t == 15 {
        0
    } else if t == 16 {
        0
    } else if t == 17 {
        0
    } else if t == 18 {
        0
    } else if t == 19 {
        0
    } else if t == 20 {
        0
    } else if t == 21 {
        0
    } else if t == 22 {
        0
    } else if t == 23 {
        0
    } else if t == 24 {
        0
    } else if t == 25 {
        0
    } else if t == 26 {
        0
    } else if t == 27 {
        0
    } else if t == 28 {
        1
    } else if t == 29 {
        1
    } else if t == 30 {
        0
    } else if t == 31 {
        1
    } else if t == 32 {
        1
    } else if t == 33 {
        0
    } else if t == 34 {
        1
    } else if t == 35 {
        1
    } else if t == 36 {
        0
    } else if t == 37 {
        1
    } else if t == 38 {
        1
    } else if t == 39 {
        0
    } else if t == 40 {
        1
    } else if t == 41 {
        1
    } else if t == 42 {
        1
    } else if t == 43 {
        1
    } else if t == 44 {
        1
    } else if t == 45 {
        1
    } else if t == 46 {
        1
    } else if t == 47 {
        1
    } else if t == 48 {
        0
    } else if t == 49 {
        1
    } else if t == 50 {
        1
    } else if t == 51 {
        1
    } else if t == 52 {
        1
    } else if t == 53 {
        1
    } else if t == 54 {
        1
    } else if t == 55 {
        1
    } else if t == 56 {
        1
    } else if t == 57 {
        0
    } else if t == 58 {
        0
    } else if t == 59 {
        1
    } else {
        0
    }
}

/// The level after which temporary `t` may be dropped.
pub open spec fn dropped_at(t: usize) -> int {
    if t == 0 {
        26
    } else if t == 1 {
        29
    } else if t == 2 {
        28
    } else if t == 3 {
        29
    } else if t == 4 {
        28
    } else if t == 5 {
        29
    } else if t == 6 {
        29
    } else if t == 7 {
        29
    } else if t == 8 {
        29
    } else if t == 9 {
        24
    } else if t == 10 {
        29
    } else if t == 11 {
        22
    } else if t == 12 {
        21
    } else if t == 13 {
        20
    } else if t == 14 {
        29
    } else if t == 15 {
        18
    } else if t == 16 {
        16
    } else if t == 17 {
        29
    } else if t == 18 {
        14
    } else if t == 19 {
        13
    } else if t == 20 {
        12
    } else if t == 21 {
        29
    } else if t == 22 {
        10
    } else if t == 23 {
        8
    } else if t == 24 {
        6
    } else if t == 25 {
        4
    } else if t == 26 {
        2
    } else if t == 27 {
        29
    } else if t == 28 {
        29
    } else if t == 29 {
        2
    } else if t == 30 {
        29
    } else if t == 31 {
        29
    } else if t == 32 {
        4
    } else if t == 33 {
        29
    } else if t == 34 {
        29
    } else if t == 35 {
        6
    } else if t == 36 {
        29
    } else if t == 37 {
        29
    } else if t == 38 {
        8
    } else if t == 39 {
        29
    } else if t == 40 {
        29
    } else if t == 41 {
        10
    } else if t == 42 {
        29
    } else if t == 43 {
        12
    } else if t == 44 {
        29
    } else if t == 45 {
        14
    } else if t == 46 {
        29
    } else if t == 47 {
        16
    } else if t == 48 {
        29
    } else if t == 49 {
        29
    } else if t == 50 {
        18
    } else if t == 51 {
        29
    } else if t == 52 {
        20
    } else if t == 53 {
        29
    } else if t == 54 {
        22
    } else if t == 55 {
        29
    } else if t == 56 {
        24
    } else if t == 57 {
        29
    } else if t == 58 {
        26
    } else if t == 59 {
        29
    } else {
        30
    }
}

/// The level that fills output slot `o`.
pub open spec fn written_at(o: usize) -> int {
    if o == 0 {
        29
    } else if o == 1 {
        29
    } else if o == 2 {
        29
    } else if o == 3 {
        29
    } else if o == 4 {
        29
    } else if o == 5 {
        29
    } else if o == 6 {
        29
    } else if o == 7 {
        29
    } else if o == 8 {
        29
    } else if o == 9 {
        29
    } else if o == 10 {
        29
    } else if o == 11 {
        29
    } else if o == 12 {
        29
    } else if o == 13 {
        29
    } else if o == 14 {
        29
    } else if o == 15 {
        29
    } else {
        0
    }
}

/// The place in its level of what fills output slot `o`.
pub open spec fn out_slot_of(o: usize) -> int {
    if o == 0 {
        3
    } else if o == 1 {
        4
    } else if o == 2 {
        5
    } else if o == 3 {
        6
    } else if o == 4 {
        7
    } else if o == 5 {
        8
    } else if o == 6 {
        9
    } else if o == 7 {
        10
    } else if o == 8 {
        11
    } else if o == 9 {
        12
    } else if o == 10 {
        13
    } else if o == 11 {
        14
    } else if o == 12 {
        15
    } else if o == 13 {
        0
    } else if o == 14 {
        1
    } else if o == 15 {
        2
    } else {
        0
    }
}

/// Where the wires of the netlist are made.
pub open spec fn schedule() -> Schedule {
    Schedule {
        made: |t: usize| made_at(t),
        slot: |t: usize| slot_of(t),
        dropped: |t: usize| dropped_at(t),
        written: |o: usize| written_at(o),
        out_slot: |o: usize| out_slot_of(o),
    }
}

/// Level 0 keeps to the schedule.
proof fn level_0_scheduled(arg_lens: Seq<nat>)
    requires
        fits(arg_lens),
    ensures
        karma_add_netlist().level_scheduled(0, arg_lens, schedule()),
{
    assert(karma_add_netlist().levels[0] == level_0());
    assert(karma_add_netlist().prune_after_level[0] == Seq::<usize>::empty());
}

/// Level 1 keeps to the schedule.
proof fn level_1_scheduled(arg_lens: Seq<nat>)
    requires
        fits(arg_lens),
    ensures
        karma_add_netlist().level_scheduled(1, arg_lens, schedule()),
{
    assert(karma_add_netlist().levels[1] == level_1());
    assert(karma_add_netlist().prune_after_level[1] == Seq::<usize>::empty());
    assert(karma_add_netlist().levels[0] == level_0());
}

/// Level 2 keeps to the schedule.
proof fn level_2_scheduled(arg_lens: Seq<nat>)
    requires
        fits(arg_lens),
    ensures
        karma_add_netlist().level_scheduled(2, arg_lens, schedule()),
{
    assert(karma_add_netlist().levels[2] == level_2());
    assert(karma_add_netlist().prune_after_level[2] == prune_2());
    assert(karma_add_netlist().levels[1] == level_1());
}

/// Level 3 keeps to the schedule.
proof fn level_3_scheduled(arg_lens: Seq<nat>)
    requires
        fits(arg_lens),
    ensures
        karma_add_netlist().level_scheduled(3, arg_lens, schedule()),
{
    assert(karma_add_netlist().levels[3] == level_3());
    assert(karma_add_netlist().prune_after_level[3] == Seq::<usize>::empty());
    assert(karma_add_netlist().levels[2] == level_2());
}

/// Level 4 keeps to the schedule.
proof fn level_4_scheduled(arg_lens: Seq<nat>)
    requires
        fits(arg_lens),
    ensures
        karma_add_netlist().level_scheduled(4, arg_lens, schedule()),
{
    assert(karma_add_netlist().levels[4] == level_4());
    assert(karma_add_netlist().prune_after_level[4] == prune_4());
    assert(karma_add_netlist().levels[3] == level_3());
}

/// Level 5 keeps to the schedule.
proof fn level_5_scheduled(arg_lens: Seq<nat>)
    requires
        fits(arg_lens),
    ensures
        karma_add_netlist().level_scheduled(5, arg_lens, schedule()),
{
    assert(karma_add_netlist().levels[5] == level_5());
    assert(karma_add_netlist().prune_after_level[5] == Seq::<usize>::empty());
    assert(karma_add_netlist().levels[4] == level_4());
}

/// Level 6 keeps to the schedule.
proof fn level_6_scheduled(arg_lens: Seq<nat>)
    requires
        fits(arg_lens),
    ensures
        karma_add_netlist().level_scheduled(6, arg_lens, schedule()),
{
    assert(karma_add_netlist().levels[6] == level_6());
    assert(karma_add_netlist().prune_after_level[6] == prune_6());
    assert(karma_add_netlist().levels[5] == level_5());
}

/// Level 7 keeps to the schedule.
proof fn level_7_scheduled(arg_lens: Seq<nat>)
    requires
        fits(arg_lens),
    ensures
        karma_add_netlist().level_scheduled(7, arg_lens, schedule()),
{
    assert(karma_add_netlist().levels[7] == level_7());
    assert(karma_add_netlist().prune_after_level[7] == Seq::<usize>::empty());
    assert(karma_add_netlist().levels[6] == level_6());
}

/// Level 8 keeps to the schedule.
proof fn level_8_scheduled(arg_lens: Seq<nat>)
    requires
        fits(arg_lens),
    ensures
        karma_add_netlist().level_scheduled(8, arg_lens, schedule()),
{
    assert(karma_add_netlist().levels[8] == level_8());
    assert(karma_add_netlist().prune_after_level[8] == prune_8());
    assert(karma_add_netlist().levels[7] == level_7());
}

/// Level 9 keeps to the schedule.
proof fn level_9_scheduled(arg_lens: Seq<nat>)
    requires
        fits(arg_lens),
    ensures
        karma_add_netlist().level_scheduled(9, arg_lens, schedule()),
{
    assert(karma_add_netlist().levels[9] == level_9());
    assert(karma_add_netlist().prune_after_level[9] == Seq::<usize>::empty());
    assert(karma_add_netlist().levels[8] == level_8());
}

/// Level 10 keeps to the schedule.
proof fn level_10_scheduled(arg_lens: Seq<nat>)
    requires
        fits(arg_lens),
    ensures
        karma_add_netlist().level_scheduled(10, arg_lens, schedule()),
{
    assert(karma_add_netlist().levels[10] == level_10());
    assert(karma_add_netlist().prune_after_level[10] == prune_10());
    assert(karma_add_netlist().levels[9] == level_9());
}

/// Level 11 keeps to the schedule.
proof fn level_11_scheduled(arg_lens: Seq<nat>)
    requires
        fits(arg_lens),
    ensures
        karma_add_netlist().level_scheduled(11, arg_lens, schedule()),
{
    assert(karma_add_netlist().levels[11] == level_11());
    assert(karma_add_netlist().prune_after_level[11] == Seq::<usize>::empty());
    assert(karma_add_netlist().levels[10] == level_10());
}

/// Level 12 keeps to the schedule.
proof fn level_12_scheduled(arg_lens: Seq<nat>)
    requires
        fits(arg_lens),
    ensures
        karma_add_netlist().level_scheduled(12, arg_lens, schedule()),
{
    assert(karma_add_netlist().levels[12] == level_12());
    assert(karma_add_netlist().prune_after_level[12] == prune_12());
    assert(karma_add_netlist().levels[11] == level_11());
}

/// Level 13 keeps to the schedule.
proof fn level_13_scheduled(arg_lens: Seq<nat>)
    requires
        fits(arg_lens),
    ensures
        karma_add_netlist().level_scheduled(13, arg_lens, schedule()),
{
    assert(karma_add_netlist().levels[13] == level_13());
    assert(karma_add_netlist().prune_after_level[13] == prune_13());
    assert(karma_add_netlist().levels[12] == level_12());
}

/// Level 14 keeps to the schedule.
proof fn level_14_scheduled(arg_lens: Seq<nat>)
    requires
        fits(arg_lens),
    ensures
        karma_add_netlist().level_scheduled(14, arg_lens, schedule()),
{
    assert(karma_add_netlist().levels[14] == level_14());
    assert(karma_add_netlist().prune_after_level[14] == prune_14());
    assert(karma_add_netlist().levels[13] == level_13());
}

/// Level 15 keeps to the schedule.
proof fn level_15_scheduled(arg_lens: Seq<nat>)
    requires
        fits(arg_lens),
    ensures
        karma_add_netlist().level_scheduled(15, arg_lens, schedule()),
{
    assert(karma_add_netlist().levels[15] == level_15());
    assert(karma_add_netlist().prune_after_level[15] == Seq::<usize>::empty());
    assert(karma_add_netlist().levels[14] == level_14());
}

/// Level 16 keeps to the schedule.
proof fn level_16_scheduled(arg_lens: Seq<nat>)
    requires
        fits(arg_lens),
    ensures
        karma_add_netlist().level_scheduled(16, arg_lens, schedule()),
{
    assert(karma_add_netlist().levels[16] == level_16());
    assert(karma_add_netlist().prune_after_level[16] == prune_16());
    assert(karma_add_netlist().levels[15] == level_15());
}

/// Level 17 keeps to the schedule.
proof fn level_17_scheduled(arg_lens: Seq<nat>)
    requires
        fits(arg_lens),
    ensures
        karma_add_netlist().level_scheduled(17, arg_lens, schedule()),
{
    assert(karma_add_netlist().levels[17] == level_17());
    assert(karma_add_netlist().prune_after_level[17] == Seq::<usize>::empty());
    assert(karma_add_netlist().levels[16] == level_16());
}

/// Level 18 keeps to the schedule.
proof fn level_18_scheduled(arg_lens: Seq<nat>)
    requires
        fits(arg_lens),
    ensures
        karma_add_netlist().level_scheduled(18, arg_lens, schedule()),
{
    assert(karma_add_netlist().levels[18] == level_18());
    assert(karma_add_netlist().prune_after_level[18] == prune_18());
    assert(karma_add_netlist().levels[17] == level_17());
}

/// Level 19 keeps to the schedule.
proof fn level_19_scheduled(arg_lens: Seq<nat>)
    requires
        fits(arg_lens),
    ensures
        karma_add_netlist().level_scheduled(19, arg_lens, schedule()),
{
    assert(karma_add_netlist().levels[19] == level_19());
    assert(karma_add_netlist().prune_after_level[19] == Seq::<usize>::empty());
    assert(karma_add_netlist().levels[18] == level_18());
}

/// Level 20 keeps to the schedule.
proof fn level_20_scheduled(arg_lens: Seq<nat>)
    requires
        fits(arg_lens),
    ensures
        karma_add_netlist().level_scheduled(20, arg_lens, schedule()),
{
    assert(karma_add_netlist().levels[20] == level_20());
    assert(karma_add_netlist().prune_after_level[20] == prune_20());
    assert(karma_add_netlist().levels[19] == level_19());
}

/// Level 21 keeps to the schedule.
proof fn level_21_scheduled(arg_lens: Seq<nat>)
    requires
        fits(arg_lens),
    ensures
        karma_add_netlist().level_scheduled(21, arg_lens, schedule()),
{
    assert(karma_add_netlist().levels[21] == level_21());
    assert(karma_add_netlist().prune_after_level[21] == prune_21());
    assert(karma_add_netlist().levels[20] == level_20());
}

/// Level 22 keeps to the schedule.
proof fn level_22_scheduled(arg_lens: Seq<nat>)
    requires
        fits(arg_lens),
    ensures
        karma_add_netlist().level_scheduled(22, arg_lens, schedule()),
{
    assert(karma_add_netlist().levels[22] == level_22());
    assert(karma_add_netlist().prune_after_level[22] == prune_22());
    assert(karma_add_netlist().levels[21] == level_21());
}

/// Level 23 keeps to the schedule.
proof fn level_23_scheduled(arg_lens: Seq<nat>)
    requires
        fits(arg_lens),
    ensures
        karma_add_netlist().level_scheduled(23, arg_lens, schedule()),
{
    assert(karma_add_netlist().levels[23] == level_23());
    assert(karma_add_netlist().prune_after_level[23] == Seq::<usize>::empty());
    assert(karma_add_netlist().levels[22] == level_22());
}

/// Level 24 keeps to the schedule.
proof fn level_24_scheduled(arg_lens: Seq<nat>)
    requires
        fits(arg_lens),
    ensures
        karma_add_netlist().level_scheduled(24, arg_lens, schedule()),
{
    assert(karma_add_netlist().levels[24] == level_24());
    assert(karma_add_netlist().prune_after_level[24] == prune_24());
    assert(karma_add_netlist().levels[23] == level_23());
}

/// Level 25 keeps to the schedule.
proof fn level_25_scheduled(arg_lens: Seq<nat>)
    requires
        fits(arg_lens),
    ensures
        karma_add_netlist().level_scheduled(25, arg_lens, schedule()),
{
    assert(karma_add_netlist().levels[25] == level_25());
    assert(karma_add_netlist().prune_after_level[25] == Seq::<usize>::empty());
    assert(karma_add_netlist().levels[24] == level_24());
}

/// Level 26 keeps to the schedule.
proof fn level_26_scheduled(arg_lens: Seq<nat>)
    requires
        fits(arg_lens),
    ensures
        karma_add_netlist().level_scheduled(26, arg_lens, schedule()),
{
    assert(karma_add_netlist().levels[26] == level_26());
    assert(karma_add_netlist().prune_after_level[26] == prune_26());
    assert(karma_add_netlist().levels[25] == level_25());
}

/// Level 27 keeps to the schedule.
proof fn level_27_scheduled(arg_lens: Seq<nat>)
    requires
        fits(arg_lens),
    ensures
        karma_add_netlist().level_scheduled(27, arg_lens, schedule()),
{
    assert(karma_add_netlist().levels[27] == level_27());
    assert(karma_add_netlist().prune_after_level[27] == Seq::<usize>::empty());
    assert(karma_add_netlist().levels[26] == level_26());
}

/// Level 28 keeps to the schedule.
proof fn level_28_scheduled(arg_lens: Seq<nat>)
    requires
        fits(arg_lens),
    ensures
        karma_add_netlist().level_scheduled(28, arg_lens, schedule()),
{
    assert(karma_add_netlist().levels[28] == level_28());
    assert(karma_add_netlist().prune_after_level[28] == prune_28());
    assert(karma_add_netlist().levels[27] == level_27());
}

/// Level 29 keeps to the schedule.
proof fn level_29_scheduled(arg_lens: Seq<nat>)
    requires
        fits(arg_lens),
    ensures
        karma_add_netlist().level_scheduled(29, arg_lens, schedule()),
{
    assert(karma_add_netlist().levels[29] == level_29());
    assert(karma_add_netlist().prune_after_level[29] == prune_29());
    assert(karma_add_netlist().levels[0] == level_0());
    assert(karma_add_netlist().levels[2] == level_2());
    assert(karma_add_netlist().levels[4] == level_4());
    assert(karma_add_netlist().levels[6] == level_6());
    assert(karma_add_netlist().levels[8] == level_8());
    assert(karma_add_netlist().levels[10] == level_10());
    assert(karma_add_netlist().levels[12] == level_12());
    assert(karma_add_netlist().levels[14] == level_14());
    assert(karma_add_netlist().levels[16] == level_16());
    assert(karma_add_netlist().levels[18] == level_18());
    assert(karma_add_netlist().levels[20] == level_20());
    assert(karma_add_netlist().levels[22] == level_22());
    assert(karma_add_netlist().levels[24] == level_24());
    assert(karma_add_netlist().levels[26] == level_26());
    assert(karma_add_netlist().levels[28] == level_28());
}

/// Words of at least sixteen bits each.
pub open spec fn fits(arg_lens: Seq<nat>) -> bool {
    arg_lens.len() == 2 && arg_lens[0] >= 16 && arg_lens[1] >= 16
}

/// The schedule fits the netlist on two words of at least sixteen bits
/// each.
pub proof fn lemma_karma_add_scheduled(arg_lens: Seq<nat>)
    requires
        fits(arg_lens),
    ensures
        karma_add_netlist().scheduled(arg_lens, schedule()),
{
    let netlist = karma_add_netlist();
    assert forall|l: int| 0 <= l < netlist.levels.len() implies #[trigger] netlist.level_scheduled(
        l,
        arg_lens,
        schedule(),
    ) by {
        if l == 0 {
            level_0_scheduled(arg_lens);
        } else if l == 1 {
            level_1_scheduled(arg_lens);
        } else if l == 2 {
            level_2_scheduled(arg_lens);
        } else if l == 3 {
            level_3_scheduled(arg_lens);
        } else if l == 4 {
            level_4_scheduled(arg_lens);
        } else if l == 5 {
            level_5_scheduled(arg_lens);
        } else if l == 6 {
            level_6_scheduled(arg_lens);
        } else if l == 7 {
            level_7_scheduled(arg_lens);
        } else if l == 8 {
            level_8_scheduled(arg_lens);
        } else if l == 9 {
            level_9_scheduled(arg_lens);
        } else if l == 10 {
            level_10_scheduled(arg_lens);
        } else if l == 11 {
            level_11_scheduled(arg_lens);
        } else if l == 12 {
            level_12_scheduled(arg_lens);
        } else if l == 13 {
            level_13_scheduled(arg_lens);
        } else if l == 14 {
            level_14_scheduled(arg_lens);
        } else if l == 15 {
            level_15_scheduled(arg_lens);
        } else if l == 16 {
            level_16_scheduled(arg_lens);
        } else if l == 17 {
            level_17_scheduled(arg_lens);
        } else if l == 18 {
            level_18_scheduled(arg_lens);
        } else if l == 19 {
            level_19_scheduled(arg_lens);
        } else if l == 20 {
            level_20_scheduled(arg_lens);
        } else if l == 21 {
            level_21_scheduled(arg_lens);
        } else if l == 22 {
            level_22_scheduled(arg_lens);
        } else if l == 23 {
            level_23_scheduled(arg_lens);
        } else if l == 24 {
            level_24_scheduled(arg_lens);
        } else if l == 25 {
            level_25_scheduled(arg_lens);
        } else if l == 26 {
            level_26_scheduled(arg_lens);
        } else if l == 27 {
            level_27_scheduled(arg_lens);
        } else if l == 28 {
            level_28_scheduled(arg_lens);
        } else if l == 29 {
            level_29_scheduled(arg_lens);
        }
    }
    assert forall|o: usize| o < netlist.output_count implies #[trigger] netlist.output_placed(
        o,
        schedule(),
    ) by {
        assert(netlist.levels[29] == level_29());
    }
}

/// The netlist is well formed for two words of at least sixteen bits each.
pub proof fn lemma_karma_add_well_formed(arg_lens: Seq<nat>)
    requires
        fits(arg_lens),
    ensures
        karma_add_netlist().well_formed(arg_lens),
{
    lemma_karma_add_scheduled(arg_lens);
    karma_add_netlist().lemma_scheduled_well_formed(arg_lens, schedule());
}

/// The netlist reads the top bit of both words: it is well formed only
/// for two words of at least sixteen bits each.
pub proof fn lemma_karma_add_needs_bits(arg_lens: Seq<nat>)
    requires
        arg_lens.len() == 2,
        karma_add_netlist().well_formed(arg_lens),
    ensures
        fits(arg_lens),
{
    let netlist = karma_add_netlist();
    assert(netlist.levels[28] == level_28());
    assert(netlist.gate_ok(28, netlist.levels[28][1], arg_lens));
    assert(netlist.input_ok(28, netlist.levels[28][1].inputs[0], arg_lens));
    assert(netlist.input_ok(28, netlist.levels[28][1].inputs[1], arg_lens));
}

/// The bit on temporary 27.
#[verifier::opaque]
spec fn w27(a: Seq<bool>, b: Seq<bool>) -> bool {
    (a[0] && b[0])
}

/// The bit on temporary 28.
#[verifier::opaque]
spec fn w28(a: Seq<bool>, b: Seq<bool>) -> bool {
    (a[1] != b[1])
}

/// The bit on temporary 26.
#[verifier::opaque]
spec fn w26(a: Seq<bool>, b: Seq<bool>) -> bool {
    !(a[1] && b[1])
}

/// The bit on temporary 29.
#[verifier::opaque]
spec fn w29(a: Seq<bool>, b: Seq<bool>) -> bool {
    !(w27(a, b) && w28(a, b))
}

/// The bit on temporary 30.
#[verifier::opaque]
spec fn w30(a: Seq<bool>, b: Seq<bool>) -> bool {
    !(w26(a, b) && w29(a, b))
}

/// The bit on temporary 31.
#[verifier::opaque]
spec fn w31(a: Seq<bool>, b: Seq<bool>) -> bool {
    (a[2] != b[2])
}

/// The bit on temporary 25.
#[verifier::opaque]
spec fn w25(a: Seq<bool>, b: Seq<bool>) -> bool {
    !(a[2] && b[2])
}

/// The bit on temporary 32.
#[verifier::opaque]
spec fn w32(a: Seq<bool>, b: Seq<bool>) -> bool {
    !(w30(a, b) && w31(a, b))
}

/// The bit on temporary 33.
#[verifier::opaque]
spec fn w33(a: Seq<bool>, b: Seq<bool>) -> bool {
    !(w25(a, b) && w32(a, b))
}

/// The bit on temporary 34.
#[verifier::opaque]
spec fn w34(a: Seq<bool>, b: Seq<bool>) -> bool {
    (a[3] != b[3])
}

/// The bit on temporary 24.
#[verifier::opaque]
spec fn w24(a: Seq<bool>, b: Seq<bool>) -> bool {
    !(a[3] && b[3])
}

/// The bit on temporary 35.
#[verifier::opaque]
spec fn w35(a: Seq<bool>, b: Seq<bool>) -> bool {
    !(w33(a, b) && w34(a, b))
}

/// The bit on temporary 36.
#[verifier::opaque]
spec fn w36(a: Seq<bool>, b: Seq<bool>) -> bool {
    !(w24(a, b) && w35(a, b))
}

/// The bit on temporary 37.
#[verifier::opaque]
spec fn w37(a: Seq<bool>, b: Seq<bool>) -> bool {
    (a[4] != b[4])
}

/// The bit on temporary 23.
#[verifier::opaque]
spec fn w23(a: Seq<bool>, b: Seq<bool>) -> bool {
    !(a[4] && b[4])
}

/// The bit on temporary 38.
#[verifier::opaque]
spec fn w38(a: Seq<bool>, b: Seq<bool>) -> bool {
    !(w36(a, b) && w37(a, b))
}

/// The bit on temporary 39.
#[verifier::opaque]
spec fn w39(a: Seq<bool>, b: Seq<bool>) -> bool {
    !(w23(a, b) && w38(a, b))
}

/// The bit on temporary 40.
#[verifier::opaque]
spec fn w40(a: Seq<bool>, b: Seq<bool>) -> bool {
    (a[5] != b[5])
}

/// The bit on temporary 22.
#[verifier::opaque]
spec fn w22(a: Seq<bool>, b: Seq<bool>) -> bool {
    !(a[5] && b[5])
}

/// The bit on temporary 41.
#[verifier::opaque]
spec fn w41(a: Seq<bool>, b: Seq<bool>) -> bool {
    !(w39(a, b) && w40(a, b))
}

/// The bit on temporary 21.
#[verifier::opaque]
spec fn w21(a: Seq<bool>, b: Seq<bool>) -> bool {
    (a[6] != b[6])
}

/// The bit on temporary 42.
#[verifier::opaque]
spec fn w42(a: Seq<bool>, b: Seq<bool>) -> bool {
    !(w22(a, b) && w41(a, b))
}

/// The bit on temporary 20.
#[verifier::opaque]
spec fn w20(a: Seq<bool>, b: Seq<bool>) -> bool {
    !(a[6] && b[6])
}

/// The bit on temporary 43.
#[verifier::opaque]
spec fn w43(a: Seq<bool>, b: Seq<bool>) -> bool {
    !(w21(a, b) && w42(a, b))
}

/// The bit on temporary 19.
#[verifier::opaque]
spec fn w19(a: Seq<bool>, b: Seq<bool>) -> bool {
    (a[7] || b[7])
}

/// The bit on temporary 44.
#[verifier::opaque]
spec fn w44(a: Seq<bool>, b: Seq<bool>) -> bool {
    !(w20(a, b) && w43(a, b))
}

/// The bit on temporary 18.
#[verifier::opaque]
spec fn w18(a: Seq<bool>, b: Seq<bool>) -> bool {
    !(a[7] && b[7])
}

/// The bit on temporary 45.
#[verifier::opaque]
spec fn w45(a: Seq<bool>, b: Seq<bool>) -> bool {
    !(w19(a, b) && w44(a, b))
}

/// The bit on temporary 17.
#[verifier::opaque]
spec fn w17(a: Seq<bool>, b: Seq<bool>) -> bool {
    (a[8] != b[8])
}

/// The bit on temporary 46.
#[verifier::opaque]
spec fn w46(a: Seq<bool>, b: Seq<bool>) -> bool {
    !(w18(a, b) && w45(a, b))
}

/// The bit on temporary 16.
#[verifier::opaque]
spec fn w16(a: Seq<bool>, b: Seq<bool>) -> bool {
    !(a[8] && b[8])
}

/// The bit on temporary 47.
#[verifier::opaque]
spec fn w47(a: Seq<bool>, b: Seq<bool>) -> bool {
    !(w17(a, b) && w46(a, b))
}

/// The bit on temporary 48.
#[verifier::opaque]
spec fn w48(a: Seq<bool>, b: Seq<bool>) -> bool {
    !(w16(a, b) && w47(a, b))
}

/// The bit on temporary 49.
#[verifier::opaque]
spec fn w49(a: Seq<bool>, b: Seq<bool>) -> bool {
    (a[9] != b[9])
}

/// The bit on temporary 15.
#[verifier::opaque]
spec fn w15(a: Seq<bool>, b: Seq<bool>) -> bool {
    !(a[9] && b[9])
}

/// The bit on temporary 50.
#[verifier::opaque]
spec fn w50(a: Seq<bool>, b: Seq<bool>) -> bool {
    !(w48(a, b) && w49(a, b))
}

/// The bit on temporary 14.
#[verifier::opaque]
spec fn w14(a: Seq<bool>, b: Seq<bool>) -> bool {
    (a[10] != b[10])
}

/// The bit on temporary 51.
#[verifier::opaque]
spec fn w51(a: Seq<bool>, b: Seq<bool>) -> bool {
    !(w15(a, b) && w50(a, b))
}

/// The bit on temporary 13.
#[verifier::opaque]
spec fn w13(a: Seq<bool>, b: Seq<bool>) -> bool {
    !(a[10] && b[10])
}

/// The bit on temporary 52.
#[verifier::opaque]
spec fn w52(a: Seq<bool>, b: Seq<bool>) -> bool {
    !(w14(a, b) && w51(a, b))
}

/// The bit on temporary 12.
#[verifier::opaque]
spec fn w12(a: Seq<bool>, b: Seq<bool>) -> bool {
    (a[11] || b[11])
}

/// The bit on temporary 53.
#[verifier::opaque]
spec fn w53(a: Seq<bool>, b: Seq<bool>) -> bool {
    !(w13(a, b) && w52(a, b))
}

/// The bit on temporary 11.
#[verifier::opaque]
spec fn w11(a: Seq<bool>, b: Seq<bool>) -> bool {
    !(a[11] && b[11])
}

/// The bit on temporary 54.
#[verifier::opaque]
spec fn w54(a: Seq<bool>, b: Seq<bool>) -> bool {
    !(w12(a, b) && w53(a, b))
}

/// The bit on temporary 10.
#[verifier::opaque]
spec fn w10(a: Seq<bool>, b: Seq<bool>) -> bool {
    (a[12] != b[12])
}

/// The bit on temporary 55.
#[verifier::opaque]
spec fn w55(a: Seq<bool>, b: Seq<bool>) -> bool {
    !(w11(a, b) && w54(a, b))
}

/// The bit on temporary 9.
#[verifier::opaque]
spec fn w9(a: Seq<bool>, b: Seq<bool>) -> bool {
    !(a[12] && b[12])
}

/// The bit on temporary 56.
#[verifier::opaque]
spec fn w56(a: Seq<bool>, b: Seq<bool>) -> bool {
    !(w10(a, b) && w55(a, b))
}

/// The bit on temporary 57.
#[verifier::opaque]
spec fn w57(a: Seq<bool>, b: Seq<bool>) -> bool {
    !(w9(a, b) && w56(a, b))
}

/// The bit on temporary 59.
#[verifier::opaque]
spec fn w59(a: Seq<bool>, b: Seq<bool>) -> bool {
    (a[13] != b[13])
}

/// The bit on temporary 58.
#[verifier::opaque]
spec fn w58(a: Seq<bool>, b: Seq<bool>) -> bool {
    !(a[13] && b[13])
}

/// The bit on temporary 0.
#[verifier::opaque]
spec fn w0(a: Seq<bool>, b: Seq<bool>) -> bool {
    !(w57(a, b) && w59(a, b))
}

/// The bit on temporary 1.
#[verifier::opaque]
spec fn w1(a: Seq<bool>, b: Seq<bool>) -> bool {
    !(w58(a, b) && w0(a, b))
}

/// The bit on temporary 3.
#[verifier::opaque]
spec fn w3(a: Seq<bool>, b: Seq<bool>) -> bool {
    (a[14] != b[14])
}

/// The bit on temporary 2.
#[verifier::opaque]
spec fn w2(a: Seq<bool>, b: Seq<bool>) -> bool {
    !(a[14] && b[14])
}

/// The bit on temporary 4.
#[verifier::opaque]
spec fn w4(a: Seq<bool>, b: Seq<bool>) -> bool {
    !(w1(a, b) && w3(a, b))
}

/// The bit on temporary 5.
#[verifier::opaque]
spec fn w5(a: Seq<bool>, b: Seq<bool>) -> bool {
    !(w2(a, b) && w4(a, b))
}

/// The bit on temporary 6.
#[verifier::opaque]
spec fn w6(a: Seq<bool>, b: Seq<bool>) -> bool {
    (a[15] == b[15])
}

/// The bit on temporary 7.
#[verifier::opaque]
spec fn w7(a: Seq<bool>, b: Seq<bool>) -> bool {
    (a[7] == b[7])
}

/// The bit on temporary 8.
#[verifier::opaque]
spec fn w8(a: Seq<bool>, b: Seq<bool>) -> bool {
    (a[11] == b[11])
}

/// The bit on output slot 13.
#[verifier::opaque]
spec fn o13(a: Seq<bool>, b: Seq<bool>) -> bool {
    (w57(a, b) != w59(a, b))
}

/// The bit on output slot 14.
#[verifier::opaque]
spec fn o14(a: Seq<bool>, b: Seq<bool>) -> bool {
    (w1(a, b) != w3(a, b))
}

/// The bit on output slot 15.
#[verifier::opaque]
spec fn o15(a: Seq<bool>, b: Seq<bool>) -> bool {
    (w5(a, b) == w6(a, b))
}

/// The bit on output slot 0.
#[verifier::opaque]
spec fn o0(a: Seq<bool>, b: Seq<bool>) -> bool {
    (a[0] != b[0])
}

/// The bit on output slot 1.
#[verifier::opaque]
spec fn o1(a: Seq<bool>, b: Seq<bool>) -> bool {
    (w27(a, b) != w28(a, b))
}

/// The bit on output slot 2.
#[verifier::opaque]
spec fn o2(a: Seq<bool>, b: Seq<bool>) -> bool {
    (w30(a, b) != w31(a, b))
}

/// The bit on output slot 3.
#[verifier::opaque]
spec fn o3(a: Seq<bool>, b: Seq<bool>) -> bool {
    (w33(a, b) != w34(a, b))
}

/// The bit on output slot 4.
#[verifier::opaque]
spec fn o4(a: Seq<bool>, b: Seq<bool>) -> bool {
    (w36(a, b) != w37(a, b))
}

/// The bit on output slot 5.
#[verifier::opaque]
spec fn o5(a: Seq<bool>, b: Seq<bool>) -> bool {
    (w39(a, b) != w40(a, b))
}

/// The bit on output slot 6.
#[verifier::opaque]
spec fn o6(a: Seq<bool>, b: Seq<bool>) -> bool {
    (w21(a, b) != w42(a, b))
}

/// The bit on output slot 7.
#[verifier::opaque]
spec fn o7(a: Seq<bool>, b: Seq<bool>) -> bool {
    (w44(a, b) == w7(a, b))
}

/// The bit on output slot 8.
#[verifier::opaque]
spec fn o8(a: Seq<bool>, b: Seq<bool>) -> bool {
    (w17(a, b) != w46(a, b))
}

/// The bit on output slot 9.
#[verifier::opaque]
spec fn o9(a: Seq<bool>, b: Seq<bool>) -> bool {
    (w48(a, b) != w49(a, b))
}

/// The bit on output slot 10.
#[verifier::opaque]
spec fn o10(a: Seq<bool>, b: Seq<bool>) -> bool {
    (w14(a, b) != w51(a, b))
}

/// The bit on output slot 11.
#[verifier::opaque]
spec fn o11(a: Seq<bool>, b: Seq<bool>) -> bool {
    (w53(a, b) == w8(a, b))
}

/// The bit on output slot 12.
#[verifier::opaque]
spec fn o12(a: Seq<bool>, b: Seq<bool>) -> bool {
    (w10(a, b) != w55(a, b))
}

/// The bit on temporary `t` when the words are `a` and `b`.
spec fn temp_value(a: Seq<bool>, b: Seq<bool>, t: usize) -> bool {
    if t == 0 {
        w0(a, b)
    } else if t == 1 {
        w1(a, b)
    } else if t == 2 {
        w2(a, b)
    } else if t == 3 {
        w3(a, b)
    } else if t == 4 {
        w4(a, b)
    } else if t == 5 {
        w5(a, b)
    } else if t == 6 {
        w6(a, b)
    } else if t == 7 {
        w7(a, b)
    } else if t == 8 {
        w8(a, b)
    } else if t == 9 {
        w9(a, b)
    } else if t == 10 {
        w10(a, b)
    } else if t == 11 {
        w11(a, b)
    } else if t == 12 {
        w12(a, b)
    } else if t == 13 {
        w13(a, b)
    } else if t == 14 {
        w14(a, b)
    } else if t == 15 {
        w15(a, b)
    } else if t == 16 {
        w16(a, b)
    } else if t == 17 {
        w17(a, b)
    } else if t == 18 {
        w18(a, b)
    } else if t == 19 {
        w19(a, b)
    } else if t == 20 {
        w20(a, b)
    } else if t == 21 {
        w21(a, b)
    } else if t == 22 {
        w22(a, b)
    } else if t == 23 {
        w23(a, b)
    } else if t == 24 {
        w24(a, b)
    } else if t == 25 {
        w25(a, b)
    } else if t == 26 {
        w26(a, b)
    } else if t == 27 {
        w27(a, b)
    } else if t == 28 {
        w28(a, b)
    } else if t == 29 {
        w29(a, b)
    } else if t == 30 {
        w30(a, b)
    } else if t == 31 {
        w31(a, b)
    } else if t == 32 {
        w32(a, b)
    } else if t == 33 {
        w33(a, b)
    } else if t == 34 {
        w34(a, b)
    } else if t == 35 {
        w35(a, b)
    } else if t == 36 {
        w36(a, b)
    } else if t == 37 {
        w37(a, b)
    } else if t == 38 {
        w38(a, b)
    } else if t == 39 {
        w39(a, b)
    } else if t == 40 {
        w40(a, b)
    } else if t == 41 {
        w41(a, b)
    } else if t == 42 {
        w42(a, b)
    } else if t == 43 {
        w43(a, b)
    } else if t == 44 {
        w44(a, b)
    } else if t == 45 {
        w45(a, b)
    } else if t == 46 {
        w46(a, b)
    } else if t == 47 {
        w47(a, b)
    } else if t == 48 {
        w48(a, b)
    } else if t == 49 {
        w49(a, b)
    } else if t == 50 {
        w50(a, b)
    } else if t == 51 {
        w51(a, b)
    } else if t == 52 {
        w52(a, b)
    } else if t == 53 {
        w53(a, b)
    } else if t == 54 {
        w54(a, b)
    } else if t == 55 {
        w55(a, b)
    } else if t == 56 {
        w56(a, b)
    } else if t == 57 {
        w57(a, b)
    } else if t == 58 {
        w58(a, b)
    } else if t == 59 {
        w59(a, b)
    } else {
        false
    }
}

/// The bit on output slot `o` when the words are `a` and `b`.
spec fn out_value(a: Seq<bool>, b: Seq<bool>, o: usize) -> bool {
    if o == 0 {
        o0(a, b)
    } else if o == 1 {
        o1(a, b)
    } else if o == 2 {
        o2(a, b)
    } else if o == 3 {
        o3(a, b)
    } else if o == 4 {
        o4(a, b)
    } else if o == 5 {
        o5(a, b)
    } else if o == 6 {
        o6(a, b)
    } else if o == 7 {
        o7(a, b)
    } else if o == 8 {
        o8(a, b)
    } else if o == 9 {
        o9(a, b)
    } else if o == 10 {
        o10(a, b)
    } else if o == 11 {
        o11(a, b)
    } else if o == 12 {
        o12(a, b)
    } else if o == 13 {
        o13(a, b)
    } else if o == 14 {
        o14(a, b)
    } else if o == 15 {
        o15(a, b)
    } else {
        false
    }
}

/// The bits on the temporaries when the words are `a` and `b`.
spec fn temp_values(a: Seq<bool>, b: Seq<bool>) -> spec_fn(usize) -> bool {
    |t: usize| temp_value(a, b, t)
}

/// The bits on the output slots when the words are `a` and `b`.
spec fn out_values(a: Seq<bool>, b: Seq<bool>) -> spec_fn(usize) -> bool {
    |o: usize| out_value(a, b, o)
}

/// The bits on the wires are what the gates of level 0 yield.
proof fn level_0_satisfied(a: Seq<bool>, b: Seq<bool>)
    ensures
        level_satisfied(
            &PlainBackend,
            karma_add_netlist(),
            seq![a, b],
            0,
            temp_values(a, b),
            out_values(a, b),
        ),
{
    reveal(w27);
    reveal(w28);
    assert(karma_add_netlist().levels[0] == level_0());
}

/// The bits on the wires are what the gates of level 1 yield.
proof fn level_1_satisfied(a: Seq<bool>, b: Seq<bool>)
    ensures
        level_satisfied(
            &PlainBackend,
            karma_add_netlist(),
            seq![a, b],
            1,
            temp_values(a, b),
            out_values(a, b),
        ),
{
    reveal(w26);
    reveal(w29);
    assert(karma_add_netlist().levels[1] == level_1());
}

/// The bits on the wires are what the gates of level 2 yield.
proof fn level_2_satisfied(a: Seq<bool>, b: Seq<bool>)
    ensures
        level_satisfied(
            &PlainBackend,
            karma_add_netlist(),
            seq![a, b],
            2,
            temp_values(a, b),
            out_values(a, b),
        ),
{
    reveal(w30);
    reveal(w31);
    assert(karma_add_netlist().levels[2] == level_2());
}

/// The bits on the wires are what the gates of level 3 yield.
proof fn level_3_satisfied(a: Seq<bool>, b: Seq<bool>)
    ensures
        level_satisfied(
            &PlainBackend,
            karma_add_netlist(),
            seq![a, b],
            3,
            temp_values(a, b),
            out_values(a, b),
        ),
{
    reveal(w25);
    reveal(w32);
    assert(karma_add_netlist().levels[3] == level_3());
}

/// The bits on the wires are what the gates of level 4 yield.
proof fn level_4_satisfied(a: Seq<bool>, b: Seq<bool>)
    ensures
        level_satisfied(
            &PlainBackend,
            karma_add_netlist(),
            seq![a, b],
            4,
            temp_values(a, b),
            out_values(a, b),
        ),
{
    reveal(w33);
    reveal(w34);
    assert(karma_add_netlist().levels[4] == level_4());
}

/// The bits on the wires are what the gates of level 5 yield.
proof fn level_5_satisfied(a: Seq<bool>, b: Seq<bool>)
    ensures
        level_satisfied(
            &PlainBackend,
            karma_add_netlist(),
            seq![a, b],
            5,
            temp_values(a, b),
            out_values(a, b),
        ),
{
    reveal(w24);
    reveal(w35);
    assert(karma_add_netlist().levels[5] == level_5());
}

/// The bits on the wires are what the gates of level 6 yield.
proof fn level_6_satisfied(a: Seq<bool>, b: Seq<bool>)
    ensures
        level_satisfied(
            &PlainBackend,
            karma_add_netlist(),
            seq![a, b],
            6,
            temp_values(a, b),
            out_values(a, b),
        ),
{
    reveal(w36);
    reveal(w37);
    assert(karma_add_netlist().levels[6] == level_6());
}

/// The bits on the wires are what the gates of level 7 yield.
proof fn level_7_satisfied(a: Seq<bool>, b: Seq<bool>)
    ensures
        level_satisfied(
            &PlainBackend,
            karma_add_netlist(),
            seq![a, b],
            7,
            temp_values(a, b),
            out_values(a, b),
        ),
{
    reveal(w23);
    reveal(w38);
    assert(karma_add_netlist().levels[7] == level_7());
}

/// The bits on the wires are what the gates of level 8 yield.
proof fn level_8_satisfied(a: Seq<bool>, b: Seq<bool>)
    ensures
        level_satisfied(
            &PlainBackend,
            karma_add_netlist(),
            seq![a, b],
            8,
            temp_values(a, b),
            out_values(a, b),
        ),
{
    reveal(w39);
    reveal(w40);
    assert(karma_add_netlist().levels[8] == level_8());
}

/// The bits on the wires are what the gates of level 9 yield.
proof fn level_9_satisfied(a: Seq<bool>, b: Seq<bool>)
    ensures
        level_satisfied(
            &PlainBackend,
            karma_add_netlist(),
            seq![a, b],
            9,
            temp_values(a, b),
            out_values(a, b),
        ),
{
    reveal(w22);
    reveal(w41);
    assert(karma_add_netlist().levels[9] == level_9());
}

/// The bits on the wires are what the gates of level 10 yield.
proof fn level_10_satisfied(a: Seq<bool>, b: Seq<bool>)
    ensures
        level_satisfied(
            &PlainBackend,
            karma_add_netlist(),
            seq![a, b],
            10,
            temp_values(a, b),
            out_values(a, b),
        ),
{
    reveal(w21);
    reveal(w42);
    assert(karma_add_netlist().levels[10] == level_10());
}

/// The bits on the wires are what the gates of level 11 yield.
proof fn level_11_satisfied(a: Seq<bool>, b: Seq<bool>)
    ensures
        level_satisfied(
            &PlainBackend,
            karma_add_netlist(),
            seq![a, b],
            11,
            temp_values(a, b),
            out_values(a, b),
        ),
{
    reveal(w20);
    reveal(w43);
    assert(karma_add_netlist().levels[11] == level_11());
}

/// The bits on the wires are what the gates of level 12 yield.
proof fn level_12_satisfied(a: Seq<bool>, b: Seq<bool>)
    ensures
        level_satisfied(
            &PlainBackend,
            karma_add_netlist(),
            seq![a, b],
            12,
            temp_values(a, b),
            out_values(a, b),
        ),
{
    reveal(w19);
    reveal(w44);
    assert(karma_add_netlist().levels[12] == level_12());
}

/// The bits on the wires are what the gates of level 13 yield.
proof fn level_13_satisfied(a: Seq<bool>, b: Seq<bool>)
    ensures
        level_satisfied(
            &PlainBackend,
            karma_add_netlist(),
            seq![a, b],
            13,
            temp_values(a, b),
            out_values(a, b),
        ),
{
    reveal(w18);
    reveal(w45);
    assert(karma_add_netlist().levels[13] == level_13());
}

/// The bits on the wires are what the gates of level 14 yield.
proof fn level_14_satisfied(a: Seq<bool>, b: Seq<bool>)
    ensures
        level_satisfied(
            &PlainBackend,
            karma_add_netlist(),
            seq![a, b],
            14,
            temp_values(a, b),
            out_values(a, b),
        ),
{
    reveal(w17);
    reveal(w46);
    assert(karma_add_netlist().levels[14] == level_14());
}

/// The bits on the wires are what the gates of level 15 yield.
proof fn level_15_satisfied(a: Seq<bool>, b: Seq<bool>)
    ensures
        level_satisfied(
            &PlainBackend,
            karma_add_netlist(),
            seq![a, b],
            15,
            temp_values(a, b),
            out_values(a, b),
        ),
{
    reveal(w16);
    reveal(w47);
    assert(karma_add_netlist().levels[15] == level_15());
}

/// The bits on the wires are what the gates of level 16 yield.
proof fn level_16_satisfied(a: Seq<bool>, b: Seq<bool>)
    ensures
        level_satisfied(
            &PlainBackend,
            karma_add_netlist(),
            seq![a, b],
            16,
            temp_values(a, b),
            out_values(a, b),
        ),
{
    reveal(w48);
    reveal(w49);
    assert(karma_add_netlist().levels[16] == level_16());
}

/// The bits on the wires are what the gates of level 17 yield.
proof fn level_17_satisfied(a: Seq<bool>, b: Seq<bool>)
    ensures
        level_satisfied(
            &PlainBackend,
            karma_add_netlist(),
            seq![a, b],
            17,
            temp_values(a, b),
            out_values(a, b),
        ),
{
    reveal(w15);
    reveal(w50);
    assert(karma_add_netlist().levels[17] == level_17());
}

/// The bits on the wires are what the gates of level 18 yield.
proof fn level_18_satisfied(a: Seq<bool>, b: Seq<bool>)
    ensures
        level_satisfied(
            &PlainBackend,
            karma_add_netlist(),
            seq![a, b],
            18,
            temp_values(a, b),
            out_values(a, b),
        ),
{
    reveal(w14);
    reveal(w51);
    assert(karma_add_netlist().levels[18] == level_18());
}

/// The bits on the wires are what the gates of level 19 yield.
proof fn level_19_satisfied(a: Seq<bool>, b: Seq<bool>)
    ensures
        level_satisfied(
            &PlainBackend,
            karma_add_netlist(),
            seq![a, b],
            19,
            temp_values(a, b),
            out_values(a, b),
        ),
{
    reveal(w13);
    reveal(w52);
    assert(karma_add_netlist().levels[19] == level_19());
}

/// The bits on the wires are what the gates of level 20 yield.
proof fn level_20_satisfied(a: Seq<bool>, b: Seq<bool>)
    ensures
        level_satisfied(
            &PlainBackend,
            karma_add_netlist(),
            seq![a, b],
            20,
            temp_values(a, b),
            out_values(a, b),
        ),
{
    reveal(w12);
    reveal(w53);
    assert(karma_add_netlist().levels[20] == level_20());
}

/// The bits on the wires are what the gates of level 21 yield.
proof fn level_21_satisfied(a: Seq<bool>, b: Seq<bool>)
    ensures
        level_satisfied(
            &PlainBackend,
            karma_add_netlist(),
            seq![a, b],
            21,
            temp_values(a, b),
            out_values(a, b),
        ),
{
    reveal(w11);
    reveal(w54);
    assert(karma_add_netlist().levels[21] == level_21());
}

/// The bits on the wires are what the gates of level 22 yield.
proof fn level_22_satisfied(a: Seq<bool>, b: Seq<bool>)
    ensures
        level_satisfied(
            &PlainBackend,
            karma_add_netlist(),
            seq![a, b],
            22,
            temp_values(a, b),
            out_values(a, b),
        ),
{
    reveal(w10);
    reveal(w55);
    assert(karma_add_netlist().levels[22] == level_22());
}

/// The bits on the wires are what the gates of level 23 yield.
proof fn level_23_satisfied(a: Seq<bool>, b: Seq<bool>)
    ensures
        level_satisfied(
            &PlainBackend,
            karma_add_netlist(),
            seq![a, b],
            23,
            temp_values(a, b),
            out_values(a, b),
        ),
{
    reveal(w9);
    reveal(w56);
    assert(karma_add_netlist().levels[23] == level_23());
}

/// The bits on the wires are what the gates of level 24 yield.
proof fn level_24_satisfied(a: Seq<bool>, b: Seq<bool>)
    ensures
        level_satisfied(
            &PlainBackend,
            karma_add_netlist(),
            seq![a, b],
            24,
            temp_values(a, b),
            out_values(a, b),
        ),
{
    reveal(w57);
    reveal(w59);
    assert(karma_add_netlist().levels[24] == level_24());
}

/// The bits on the wires are what the gates of level 25 yield.
proof fn level_25_satisfied(a: Seq<bool>, b: Seq<bool>)
    ensures
        level_satisfied(
            &PlainBackend,
            karma_add_netlist(),
            seq![a, b],
            25,
            temp_values(a, b),
            out_values(a, b),
        ),
{
    reveal(w58);
    reveal(w0);
    assert(karma_add_netlist().levels[25] == level_25());
}

/// The bits on the wires are what the gates of level 26 yield.
proof fn level_26_satisfied(a: Seq<bool>, b: Seq<bool>)
    ensures
        level_satisfied(
            &PlainBackend,
            karma_add_netlist(),
            seq![a, b],
            26,
            temp_values(a, b),
            out_values(a, b),
        ),
{
    reveal(w1);
    reveal(w3);
    assert(karma_add_netlist().levels[26] == level_26());
}

/// The bits on the wires are what the gates of level 27 yield.
proof fn level_27_satisfied(a: Seq<bool>, b: Seq<bool>)
    ensures
        level_satisfied(
            &PlainBackend,
            karma_add_netlist(),
            seq![a, b],
            27,
            temp_values(a, b),
            out_values(a, b),
        ),
{
    reveal(w2);
    reveal(w4);
    assert(karma_add_netlist().levels[27] == level_27());
}

/// The bits on the wires are what the gates of level 28 yield.
proof fn level_28_satisfied(a: Seq<bool>, b: Seq<bool>)
    ensures
        level_satisfied(
            &PlainBackend,
            karma_add_netlist(),
            seq![a, b],
            28,
            temp_values(a, b),
            out_values(a, b),
        ),
{
    reveal(w5);
    reveal(w6);
    reveal(w7);
    reveal(w8);
    assert(karma_add_netlist().levels[28] == level_28());
}

/// The bits on the wires are what the gates of level 29 yield.
proof fn level_29_satisfied(a: Seq<bool>, b: Seq<bool>)
    ensures
        level_satisfied(
            &PlainBackend,
            karma_add_netlist(),
            seq![a, b],
            29,
            temp_values(a, b),
            out_values(a, b),
        ),
{
    reveal(o13);
    reveal(o14);
    reveal(o15);
    reveal(o0);
    reveal(o1);
    reveal(o2);
    reveal(o3);
    reveal(o4);
    reveal(o5);
    reveal(o6);
    reveal(o7);
    reveal(o8);
    reveal(o9);
    reveal(o10);
    reveal(o11);
    reveal(o12);
    assert(karma_add_netlist().levels[29] == level_29());
}

/// The output wires of the netlist on the words `a` and `b` are the bits
/// that follow from the gates one by one.
proof fn lemma_outputs(a: Seq<bool>, b: Seq<bool>)
    ensures
        circuit_outputs(&PlainBackend, karma_add_netlist(), seq![a, b]) == assigned_outputs(
            16,
            out_values(a, b),
        ),
{
    let netlist = karma_add_netlist();
    let arg_lens = seq![16nat, 16nat];
    let args = seq![a, b];
    lemma_karma_add_scheduled(arg_lens);
    assert forall|l: int| 0 <= l < netlist.levels.len() implies #[trigger] level_satisfied(
        &PlainBackend,
        netlist,
        args,
        l,
        temp_values(a, b),
        out_values(a, b),
    ) by {
        if l == 0 {
            level_0_satisfied(a, b);
        } else if l == 1 {
            level_1_satisfied(a, b);
        } else if l == 2 {
            level_2_satisfied(a, b);
        } else if l == 3 {
            level_3_satisfied(a, b);
        } else if l == 4 {
            level_4_satisfied(a, b);
        } else if l == 5 {
            level_5_satisfied(a, b);
        } else if l == 6 {
            level_6_satisfied(a, b);
        } else if l == 7 {
            level_7_satisfied(a, b);
        } else if l == 8 {
            level_8_satisfied(a, b);
        } else if l == 9 {
            level_9_satisfied(a, b);
        } else if l == 10 {
            level_10_satisfied(a, b);
        } else if l == 11 {
            level_11_satisfied(a, b);
        } else if l == 12 {
            level_12_satisfied(a, b);
        } else if l == 13 {
            level_13_satisfied(a, b);
        } else if l == 14 {
            level_14_satisfied(a, b);
        } else if l == 15 {
            level_15_satisfied(a, b);
        } else if l == 16 {
            level_16_satisfied(a, b);
        } else if l == 17 {
            level_17_satisfied(a, b);
        } else if l == 18 {
            level_18_satisfied(a, b);
        } else if l == 19 {
            level_19_satisfied(a, b);
        } else if l == 20 {
            level_20_satisfied(a, b);
        } else if l == 21 {
            level_21_satisfied(a, b);
        } else if l == 22 {
            level_22_satisfied(a, b);
        } else if l == 23 {
            level_23_satisfied(a, b);
        } else if l == 24 {
            level_24_satisfied(a, b);
        } else if l == 25 {
            level_25_satisfied(a, b);
        } else if l == 26 {
            level_26_satisfied(a, b);
        } else if l == 27 {
            level_27_satisfied(a, b);
        } else if l == 28 {
            level_28_satisfied(a, b);
        } else if l == 29 {
            level_29_satisfied(a, b);
        }
    }
    lemma_assignment_is_computed(
        &PlainBackend,
        netlist,
        args,
        arg_lens,
        schedule(),
        temp_values(a, b),
        out_values(a, b),
    );
}

/// Bit `i` of `v`.
spec fn bit(v: u16, i: u16) -> bool {
    (v >> i) & 1 == 1
}

/// The low `i` bits of `x` and `y` add up to a carry into bit `i`.
#[verifier::opaque]
spec fn carry(x: u16, y: u16, i: u16) -> bool {
    (x & (((1u16 << i) - 1) as u16)) + (y & (((1u16 << i) - 1) as u16)) > (((1u16 << i) - 1) as u16)
}

/// How bit `i` of the sum and the carry into the next bit come from the
/// bits `i` of `x` and `y` and the carry into bit `i`.
proof fn lemma_step(x: u16, y: u16, z: u16, i: u16)
    by (bit_vector)
    requires
        i < 16,
        z == (x + y) % 0x1_0000,
    ensures
        ((z >> i) & 1 == 1) == ((((x >> i) & 1 == 1) != ((y >> i) & 1 == 1))
            != ((x & (((1u16 << i) - 1) as u16)) + (y & (((1u16 << i) - 1) as u16)) > (((1u16 << i) - 1) as u16))),
        i == 0 ==> !((x & (((1u16 << i) - 1) as u16)) + (y & (((1u16 << i) - 1) as u16)) > (((1u16 << i) - 1) as u16)),
        i < 15 ==> ((x & (((1u16 << ((i + 1) as u16)) - 1) as u16)) + (y & (((1u16 << ((i + 1) as u16)) - 1) as u16)) > (((1u16 << ((i + 1) as u16)) - 1) as u16))
            == ((((x >> i) & 1 == 1) && ((y >> i) & 1 == 1)) || (((x & (((1u16 << i) - 1) as u16)) + (y & (((1u16 << i) - 1) as u16)) > (((1u16 << i) - 1) as u16)) && (((x >> i) & 1 == 1) != ((y >> i) & 1 == 1)))),
{
}

/// Bit 0 of the sum, and the carry out of it.
proof fn lemma_bit_0(a: Seq<bool>, b: Seq<bool>, x: u16, y: u16, z: u16)
    requires
        z == sum16(x, y),
        a[0] == bit(x, 0),
        b[0] == bit(y, 0),
    ensures
        o0(a, b) == bit(z, 0),
        w27(a, b) == carry(x, y, 1),
{
    reveal(carry);
    reveal(o0);
    reveal(w27);
    lemma_step(x, y, z, 0);
}

/// Bit 1 of the sum, and the carry out of it.
proof fn lemma_bit_1(a: Seq<bool>, b: Seq<bool>, x: u16, y: u16, z: u16)
    requires
        z == sum16(x, y),
        a[1] == bit(x, 1),
        b[1] == bit(y, 1),
        w27(a, b) == carry(x, y, 1),
    ensures
        o1(a, b) == bit(z, 1),
        w30(a, b) == carry(x, y, 2),
{
    reveal(carry);
    reveal(o1);
    reveal(w28);
    reveal(w30);
    reveal(w26);
    reveal(w29);
    lemma_step(x, y, z, 1);
}

/// Bit 2 of the sum, and the carry out of it.
proof fn lemma_bit_2(a: Seq<bool>, b: Seq<bool>, x: u16, y: u16, z: u16)
    requires
        z == sum16(x, y),
        a[2] == bit(x, 2),
        b[2] == bit(y, 2),
        w30(a, b) == carry(x, y, 2),
    ensures
        o2(a, b) == bit(z, 2),
        w33(a, b) == carry(x, y, 3),
{
    reveal(carry);
    reveal(o2);
    reveal(w31);
    reveal(w33);
    reveal(w25);
    reveal(w32);
    lemma_step(x, y, z, 2);
}

/// Bit 3 of the sum, and the carry out of it.
proof fn lemma_bit_3(a: Seq<bool>, b: Seq<bool>, x: u16, y: u16, z: u16)
    requires
        z == sum16(x, y),
        a[3] == bit(x, 3),
        b[3] == bit(y, 3),
        w33(a, b) == carry(x, y, 3),
    ensures
        o3(a, b) == bit(z, 3),
        w36(a, b) == carry(x, y, 4),
{
    reveal(carry);
    reveal(o3);
    reveal(w34);
    reveal(w36);
    reveal(w24);
    reveal(w35);
    lemma_step(x, y, z, 3);
}

/// Bit 4 of the sum, and the carry out of it.
proof fn lemma_bit_4(a: Seq<bool>, b: Seq<bool>, x: u16, y: u16, z: u16)
    requires
        z == sum16(x, y),
        a[4] == bit(x, 4),
        b[4] == bit(y, 4),
        w36(a, b) == carry(x, y, 4),
    ensures
        o4(a, b) == bit(z, 4),
        w39(a, b) == carry(x, y, 5),
{
    reveal(carry);
    reveal(o4);
    reveal(w37);
    reveal(w39);
    reveal(w23);
    reveal(w38);
    lemma_step(x, y, z, 4);
}

/// Bit 5 of the sum, and the carry out of it.
proof fn lemma_bit_5(a: Seq<bool>, b: Seq<bool>, x: u16, y: u16, z: u16)
    requires
        z == sum16(x, y),
        a[5] == bit(x, 5),
        b[5] == bit(y, 5),
        w39(a, b) == carry(x, y, 5),
    ensures
        o5(a, b) == bit(z, 5),
        w42(a, b) == carry(x, y, 6),
{
    reveal(carry);
    reveal(o5);
    reveal(w40);
    reveal(w42);
    reveal(w22);
    reveal(w41);
    lemma_step(x, y, z, 5);
}

/// Bit 6 of the sum, and the carry out of it.
proof fn lemma_bit_6(a: Seq<bool>, b: Seq<bool>, x: u16, y: u16, z: u16)
    requires
        z == sum16(x, y),
        a[6] == bit(x, 6),
        b[6] == bit(y, 6),
        w42(a, b) == carry(x, y, 6),
    ensures
        o6(a, b) == bit(z, 6),
        w44(a, b) == carry(x, y, 7),
{
    reveal(carry);
    reveal(o6);
    reveal(w21);
    reveal(w44);
    reveal(w20);
    reveal(w43);
    lemma_step(x, y, z, 6);
}

/// Bit 7 of the sum, and the carry out of it.
proof fn lemma_bit_7(a: Seq<bool>, b: Seq<bool>, x: u16, y: u16, z: u16)
    requires
        z == sum16(x, y),
        a[7] == bit(x, 7),
        b[7] == bit(y, 7),
        w44(a, b) == carry(x, y, 7),
    ensures
        o7(a, b) == bit(z, 7),
        w46(a, b) == carry(x, y, 8),
{
    reveal(carry);
    reveal(o7);
    reveal(w7);
    reveal(w46);
    reveal(w18);
    reveal(w45);
    reveal(w19);
    lemma_step(x, y, z, 7);
}

/// Bit 8 of the sum, and the carry out of it.
proof fn lemma_bit_8(a: Seq<bool>, b: Seq<bool>, x: u16, y: u16, z: u16)
    requires
        z == sum16(x, y),
        a[8] == bit(x, 8),
        b[8] == bit(y, 8),
        w46(a, b) == carry(x, y, 8),
    ensures
        o8(a, b) == bit(z, 8),
        w48(a, b) == carry(x, y, 9),
{
    reveal(carry);
    reveal(o8);
    reveal(w17);
    reveal(w48);
    reveal(w16);
    reveal(w47);
    lemma_step(x, y, z, 8);
}

/// Bit 9 of the sum, and the carry out of it.
proof fn lemma_bit_9(a: Seq<bool>, b: Seq<bool>, x: u16, y: u16, z: u16)
    requires
        z == sum16(x, y),
        a[9] == bit(x, 9),
        b[9] == bit(y, 9),
        w48(a, b) == carry(x, y, 9),
    ensures
        o9(a, b) == bit(z, 9),
        w51(a, b) == carry(x, y, 10),
{
    reveal(carry);
    reveal(o9);
    reveal(w49);
    reveal(w51);
    reveal(w15);
    reveal(w50);
    lemma_step(x, y, z, 9);
}

/// Bit 10 of the sum, and the carry out of it.
proof fn lemma_bit_10(a: Seq<bool>, b: Seq<bool>, x: u16, y: u16, z: u16)
    requires
        z == sum16(x, y),
        a[10] == bit(x, 10),
        b[10] == bit(y, 10),
        w51(a, b) == carry(x, y, 10),
    ensures
        o10(a, b) == bit(z, 10),
        w53(a, b) == carry(x, y, 11),
{
    reveal(carry);
    reveal(o10);
    reveal(w14);
    reveal(w53);
    reveal(w13);
    reveal(w52);
    lemma_step(x, y, z, 10);
}

/// Bit 11 of the sum, and the carry out of it.
proof fn lemma_bit_11(a: Seq<bool>, b: Seq<bool>, x: u16, y: u16, z: u16)
    requires
        z == sum16(x, y),
        a[11] == bit(x, 11),
        b[11] == bit(y, 11),
        w53(a, b) == carry(x, y, 11),
    ensures
        o11(a, b) == bit(z, 11),
        w55(a, b) == carry(x, y, 12),
{
    reveal(carry);
    reveal(o11);
    reveal(w8);
    reveal(w55);
    reveal(w11);
    reveal(w54);
    reveal(w12);
    lemma_step(x, y, z, 11);
}

/// Bit 12 of the sum, and the carry out of it.
proof fn lemma_bit_12(a: Seq<bool>, b: Seq<bool>, x: u16, y: u16, z: u16)
    requires
        z == sum16(x, y),
        a[12] == bit(x, 12),
        b[12] == bit(y, 12),
        w55(a, b) == carry(x, y, 12),
    ensures
        o12(a, b) == bit(z, 12),
        w57(a, b) == carry(x, y, 13),
{
    reveal(carry);
    reveal(o12);
    reveal(w10);
    reveal(w57);
    reveal(w9);
    reveal(w56);
    lemma_step(x, y, z, 12);
}

/// Bit 13 of the sum, and the carry out of it.
proof fn lemma_bit_13(a: Seq<bool>, b: Seq<bool>, x: u16, y: u16, z: u16)
    requires
        z == sum16(x, y),
        a[13] == bit(x, 13),
        b[13] == bit(y, 13),
        w57(a, b) == carry(x, y, 13),
    ensures
        o13(a, b) == bit(z, 13),
        w1(a, b) == carry(x, y, 14),
{
    reveal(carry);
    reveal(o13);
    reveal(w59);
    reveal(w1);
    reveal(w58);
    reveal(w0);
    lemma_step(x, y, z, 13);
}

/// Bit 14 of the sum, and the carry out of it.
proof fn lemma_bit_14(a: Seq<bool>, b: Seq<bool>, x: u16, y: u16, z: u16)
    requires
        z == sum16(x, y),
        a[14] == bit(x, 14),
        b[14] == bit(y, 14),
        w1(a, b) == carry(x, y, 14),
    ensures
        o14(a, b) == bit(z, 14),
        w5(a, b) == carry(x, y, 15),
{
    reveal(carry);
    reveal(o14);
    reveal(w3);
    reveal(w5);
    reveal(w2);
    reveal(w4);
    lemma_step(x, y, z, 14);
}

/// Bit 15 of the sum, and the carry out of it.
proof fn lemma_bit_15(a: Seq<bool>, b: Seq<bool>, x: u16, y: u16, z: u16)
    requires
        z == sum16(x, y),
        a[15] == bit(x, 15),
        b[15] == bit(y, 15),
        w5(a, b) == carry(x, y, 15),
    ensures
        o15(a, b) == bit(z, 15),
{
    reveal(carry);
    reveal(o15);
    reveal(w6);
    lemma_step(x, y, z, 15);
}

/// Bits 0 to 7 of the sum.
proof fn lemma_bits_from_0(a: Seq<bool>, b: Seq<bool>, x: u16, y: u16, z: u16)
    requires
        z == sum16(x, y),
        forall|i: int| 0 <= i < 16 ==> #[trigger] a[i] == bit(x, i as u16),
        forall|i: int| 0 <= i < 16 ==> #[trigger] b[i] == bit(y, i as u16),
    ensures
        o0(a, b) == bit(z, 0),
        o1(a, b) == bit(z, 1),
        o2(a, b) == bit(z, 2),
        o3(a, b) == bit(z, 3),
        o4(a, b) == bit(z, 4),
        o5(a, b) == bit(z, 5),
        o6(a, b) == bit(z, 6),
        o7(a, b) == bit(z, 7),
        w46(a, b) == carry(x, y, 8),
{
    assert(a[0] == bit(x, 0));
    assert(b[0] == bit(y, 0));
    lemma_bit_0(a, b, x, y, z);
    assert(a[1] == bit(x, 1));
    assert(b[1] == bit(y, 1));
    lemma_bit_1(a, b, x, y, z);
    assert(a[2] == bit(x, 2));
    assert(b[2] == bit(y, 2));
    lemma_bit_2(a, b, x, y, z);
    assert(a[3] == bit(x, 3));
    assert(b[3] == bit(y, 3));
    lemma_bit_3(a, b, x, y, z);
    assert(a[4] == bit(x, 4));
    assert(b[4] == bit(y, 4));
    lemma_bit_4(a, b, x, y, z);
    assert(a[5] == bit(x, 5));
    assert(b[5] == bit(y, 5));
    lemma_bit_5(a, b, x, y, z);
    assert(a[6] == bit(x, 6));
    assert(b[6] == bit(y, 6));
    lemma_bit_6(a, b, x, y, z);
    assert(a[7] == bit(x, 7));
    assert(b[7] == bit(y, 7));
    lemma_bit_7(a, b, x, y, z);
}

/// Bits 8 to 15 of the sum.
proof fn lemma_bits_from_8(a: Seq<bool>, b: Seq<bool>, x: u16, y: u16, z: u16)
    requires
        z == sum16(x, y),
        forall|i: int| 0 <= i < 16 ==> #[trigger] a[i] == bit(x, i as u16),
        forall|i: int| 0 <= i < 16 ==> #[trigger] b[i] == bit(y, i as u16),
        w46(a, b) == carry(x, y, 8),
    ensures
        o8(a, b) == bit(z, 8),
        o9(a, b) == bit(z, 9),
        o10(a, b) == bit(z, 10),
        o11(a, b) == bit(z, 11),
        o12(a, b) == bit(z, 12),
        o13(a, b) == bit(z, 13),
        o14(a, b) == bit(z, 14),
        o15(a, b) == bit(z, 15),
{
    assert(a[8] == bit(x, 8));
    assert(b[8] == bit(y, 8));
    lemma_bit_8(a, b, x, y, z);
    assert(a[9] == bit(x, 9));
    assert(b[9] == bit(y, 9));
    lemma_bit_9(a, b, x, y, z);
    assert(a[10] == bit(x, 10));
    assert(b[10] == bit(y, 10));
    lemma_bit_10(a, b, x, y, z);
    assert(a[11] == bit(x, 11));
    assert(b[11] == bit(y, 11));
    lemma_bit_11(a, b, x, y, z);
    assert(a[12] == bit(x, 12));
    assert(b[12] == bit(y, 12));
    lemma_bit_12(a, b, x, y, z);
    assert(a[13] == bit(x, 13));
    assert(b[13] == bit(y, 13));
    lemma_bit_13(a, b, x, y, z);
    assert(a[14] == bit(x, 14));
    assert(b[14] == bit(y, 14));
    lemma_bit_14(a, b, x, y, z);
    assert(a[15] == bit(x, 15));
    assert(b[15] == bit(y, 15));
    lemma_bit_15(a, b, x, y, z);
}

/// Every output slot holds its bit of the sum.
proof fn lemma_bits_each(a: Seq<bool>, b: Seq<bool>, x: u16, y: u16, z: u16)
    requires
        z == sum16(x, y),
        forall|i: int| 0 <= i < 16 ==> #[trigger] a[i] == bit(x, i as u16),
        forall|i: int| 0 <= i < 16 ==> #[trigger] b[i] == bit(y, i as u16),
    ensures
        out_value(a, b, 0) == bit(z, 0),
        out_value(a, b, 1) == bit(z, 1),
        out_value(a, b, 2) == bit(z, 2),
        out_value(a, b, 3) == bit(z, 3),
        out_value(a, b, 4) == bit(z, 4),
        out_value(a, b, 5) == bit(z, 5),
        out_value(a, b, 6) == bit(z, 6),
        out_value(a, b, 7) == bit(z, 7),
        out_value(a, b, 8) == bit(z, 8),
        out_value(a, b, 9) == bit(z, 9),
        out_value(a, b, 10) == bit(z, 10),
        out_value(a, b, 11) == bit(z, 11),
        out_value(a, b, 12) == bit(z, 12),
        out_value(a, b, 13) == bit(z, 13),
        out_value(a, b, 14) == bit(z, 14),
        out_value(a, b, 15) == bit(z, 15),
{
    lemma_bits_from_0(a, b, x, y, z);
    lemma_bits_from_8(a, b, x, y, z);
}

/// Output slots 0 to 7 taken together.
proof fn lemma_bits_within_0(a: Seq<bool>, b: Seq<bool>, z: u16)
    requires
        out_value(a, b, 0) == bit(z, 0),
        out_value(a, b, 1) == bit(z, 1),
        out_value(a, b, 2) == bit(z, 2),
        out_value(a, b, 3) == bit(z, 3),
        out_value(a, b, 4) == bit(z, 4),
        out_value(a, b, 5) == bit(z, 5),
        out_value(a, b, 6) == bit(z, 6),
        out_value(a, b, 7) == bit(z, 7),
    ensures
        forall|o: usize| 0 <= o < 8 ==> #[trigger] out_value(a, b, o) == bit(z, o as u16),
{
    assert forall|o: usize| 0 <= o < 8 implies #[trigger] out_value(a, b, o) == bit(z, o as u16) by {
        if o == 0 {
            assert(out_value(a, b, 0) == bit(z, 0));
        } else if o == 1 {
            assert(out_value(a, b, 1) == bit(z, 1));
        } else if o == 2 {
            assert(out_value(a, b, 2) == bit(z, 2));
        } else if o == 3 {
            assert(out_value(a, b, 3) == bit(z, 3));
        } else if o == 4 {
            assert(out_value(a, b, 4) == bit(z, 4));
        } else if o == 5 {
            assert(out_value(a, b, 5) == bit(z, 5));
        } else if o == 6 {
            assert(out_value(a, b, 6) == bit(z, 6));
        } else if o == 7 {
            assert(out_value(a, b, 7) == bit(z, 7));
        }
    }
}

/// Output slots 8 to 15 taken together.
proof fn lemma_bits_within_8(a: Seq<bool>, b: Seq<bool>, z: u16)
    requires
        out_value(a, b, 8) == bit(z, 8),
        out_value(a, b, 9) == bit(z, 9),
        out_value(a, b, 10) == bit(z, 10),
        out_value(a, b, 11) == bit(z, 11),
        out_value(a, b, 12) == bit(z, 12),
        out_value(a, b, 13) == bit(z, 13),
        out_value(a, b, 14) == bit(z, 14),
        out_value(a, b, 15) == bit(z, 15),
    ensures
        forall|o: usize| 8 <= o < 16 ==> #[trigger] out_value(a, b, o) == bit(z, o as u16),
{
    assert forall|o: usize| 8 <= o < 16 implies #[trigger] out_value(a, b, o) == bit(z, o as u16) by {
        if o == 8 {
            assert(out_value(a, b, 8) == bit(z, 8));
        } else if o == 9 {
            assert(out_value(a, b, 9) == bit(z, 9));
        } else if o == 10 {
            assert(out_value(a, b, 10) == bit(z, 10));
        } else if o == 11 {
            assert(out_value(a, b, 11) == bit(z, 11));
        } else if o == 12 {
            assert(out_value(a, b, 12) == bit(z, 12));
        } else if o == 13 {
            assert(out_value(a, b, 13) == bit(z, 13));
        } else if o == 14 {
            assert(out_value(a, b, 14) == bit(z, 14));
        } else if o == 15 {
            assert(out_value(a, b, 15) == bit(z, 15));
        }
    }
}

/// The sum of two words, one bit after the other: what the gates make of
/// the bits of `x` and `y` are the bits of `z`.
proof fn lemma_bits(a: Seq<bool>, b: Seq<bool>, x: u16, y: u16, z: u16)
    requires
        z == sum16(x, y),
        forall|i: int| 0 <= i < 16 ==> #[trigger] a[i] == bit(x, i as u16),
        forall|i: int| 0 <= i < 16 ==> #[trigger] b[i] == bit(y, i as u16),
    ensures
        forall|o: usize| o < 16 ==> #[trigger] out_value(a, b, o) == bit(z, o as u16),
{
    lemma_bits_each(a, b, x, y, z);
    lemma_bits_within_0(a, b, z);
    lemma_bits_within_8(a, b, z);
}

/// The netlist computes the sum of two words: on words of plain bits
/// that begin with the bits of `x` and of `y` its output wires are the bits
/// of `x + y`, the carry out of the top bit dropped.
pub proof fn lemma_karma_add_sums(a: Seq<bool>, b: Seq<bool>, x: u16, y: u16)
    requires
        begins_with(a, bits_of_u16(x)),
        begins_with(b, bits_of_u16(y)),
    ensures
        circuit_outputs(&PlainBackend, karma_add_netlist(), seq![a, b]) == bits_of_u16(sum16(x, y)),
{
    let z = sum16(x, y);
    lemma_outputs(a, b);
    assert forall|i: int| 0 <= i < 16 implies #[trigger] a[i] == bit(x, i as u16) by {
        assert(a[i] == a.subrange(0, 16)[i]);
    }
    assert forall|i: int| 0 <= i < 16 implies #[trigger] b[i] == bit(y, i as u16) by {
        assert(b[i] == b.subrange(0, 16)[i]);
    }
    lemma_bits(a, b, x, y, z);
    let word = assigned_outputs(16, out_values(a, b));
    let bits = bits_of_u16(z);
    assert forall|i: int| 0 <= i < 16 implies #[trigger] word[i] == bits[i] by {
        assert(word[i] == out_value(a, b, i as usize));
    }
    assert(word =~= bits);
}

} // verus!
