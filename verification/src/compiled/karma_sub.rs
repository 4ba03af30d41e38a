//! The netlist of a thirty-two-bit subtractor.

use vstd::prelude::*;
use crate::backend::PlainBackend;
use crate::compiled::{
    begins_with, bits_of_u32, difference32, g1, g2, gate1, gate2,
};
use crate::engine::circuit_outputs;
use crate::netlist::{
    level_view, CircuitDefinition, CircuitModel, GateInput, GateModel, GateOp, GateSpec,
};
use crate::schedule::{assigned_outputs, lemma_assignment_is_computed, level_satisfied, Schedule};

verus! {

/// The gates of level 0.
pub open spec fn level_0() -> Seq<GateModel> {
    seq![
        g1(27, false, GateOp::Not, GateInput::Argument(0, 0)),
    ]
}

/// The gates of level 1.
pub open spec fn level_1() -> Seq<GateModel> {
    seq![
        g1(172, false, GateOp::Not, GateInput::Argument(1, 1)),
        g2(39, false, GateOp::Nand, GateInput::Argument(1, 0), GateInput::Temporary(27)),
        g2(59, false, GateOp::Xnor, GateInput::Argument(1, 1), GateInput::Argument(0, 1)),
    ]
}

/// The gates of level 2.
pub open spec fn level_2() -> Seq<GateModel> {
    seq![
        g2(58, false, GateOp::Nand, GateInput::Temporary(172), GateInput::Argument(0, 1)),
        g2(60, false, GateOp::Nand, GateInput::Temporary(39), GateInput::Temporary(59)),
    ]
}

/// The gates of level 3.
pub open spec fn level_3() -> Seq<GateModel> {
    seq![
        g1(173, false, GateOp::Not, GateInput::Argument(1, 2)),
        g2(61, false, GateOp::Nand, GateInput::Temporary(58), GateInput::Temporary(60)),
        g2(62, false, GateOp::Xnor, GateInput::Argument(1, 2), GateInput::Argument(0, 2)),
    ]
}

/// The gates of level 4.
pub open spec fn level_4() -> Seq<GateModel> {
    seq![
        g2(57, false, GateOp::Nand, GateInput::Temporary(173), GateInput::Argument(0, 2)),
        g2(63, false, GateOp::Nand, GateInput::Temporary(61), GateInput::Temporary(62)),
    ]
}

/// The gates of level 5.
pub open spec fn level_5() -> Seq<GateModel> {
    seq![
        g1(174, false, GateOp::Not, GateInput::Argument(1, 3)),
        g2(64, false, GateOp::Nand, GateInput::Temporary(57), GateInput::Temporary(63)),
        g2(65, false, GateOp::Xnor, GateInput::Argument(1, 3), GateInput::Argument(0, 3)),
    ]
}

/// The gates of level 6.
pub open spec fn level_6() -> Seq<GateModel> {
    seq![
        g2(56, false, GateOp::Nand, GateInput::Temporary(174), GateInput::Argument(0, 3)),
        g2(66, false, GateOp::Nand, GateInput::Temporary(64), GateInput::Temporary(65)),
    ]
}

/// The gates of level 7.
pub open spec fn level_7() -> Seq<GateModel> {
    seq![
        g1(0, false, GateOp::Not, GateInput::Argument(1, 4)),
        g2(67, false, GateOp::Nand, GateInput::Temporary(56), GateInput::Temporary(66)),
        g2(68, false, GateOp::Xnor, GateInput::Argument(1, 4), GateInput::Argument(0, 4)),
    ]
}

/// The gates of level 8.
pub open spec fn level_8() -> Seq<GateModel> {
    seq![
        g2(55, false, GateOp::Nand, GateInput::Temporary(0), GateInput::Argument(0, 4)),
        g2(69, false, GateOp::Nand, GateInput::Temporary(67), GateInput::Temporary(68)),
    ]
}

/// The gates of level 9.
pub open spec fn level_9() -> Seq<GateModel> {
    seq![
        g1(1, false, GateOp::Not, GateInput::Argument(1, 5)),
        g2(70, false, GateOp::Nand, GateInput::Temporary(55), GateInput::Temporary(69)),
        g2(71, false, GateOp::Xnor, GateInput::Argument(1, 5), GateInput::Argument(0, 5)),
    ]
}

/// The gates of level 10.
pub open spec fn level_10() -> Seq<GateModel> {
    seq![
        g2(54, false, GateOp::Nand, GateInput::Temporary(1), GateInput::Argument(0, 5)),
        g2(72, false, GateOp::Nand, GateInput::Temporary(70), GateInput::Temporary(71)),
    ]
}

/// The gates of level 11.
pub open spec fn level_11() -> Seq<GateModel> {
    seq![
        g1(2, false, GateOp::Not, GateInput::Argument(1, 6)),
        g2(53, false, GateOp::Xnor, GateInput::Argument(1, 6), GateInput::Argument(0, 6)),
        g2(73, false, GateOp::Nand, GateInput::Temporary(54), GateInput::Temporary(72)),
    ]
}

/// The gates of level 12.
pub open spec fn level_12() -> Seq<GateModel> {
    seq![
        g1(28, false, GateOp::Not, GateInput::Argument(0, 7)),
        g2(52, false, GateOp::Nand, GateInput::Temporary(2), GateInput::Argument(0, 6)),
        g2(74, false, GateOp::Nand, GateInput::Temporary(53), GateInput::Temporary(73)),
    ]
}

/// The gates of level 13.
pub open spec fn level_13() -> Seq<GateModel> {
    seq![
        g1(3, false, GateOp::Not, GateInput::Argument(1, 7)),
        g2(51, false, GateOp::Nand, GateInput::Argument(1, 7), GateInput::Temporary(28)),
        g2(75, false, GateOp::Nand, GateInput::Temporary(52), GateInput::Temporary(74)),
    ]
}

/// The gates of level 14.
pub open spec fn level_14() -> Seq<GateModel> {
    seq![
        g2(50, false, GateOp::Nand, GateInput::Temporary(3), GateInput::Argument(0, 7)),
        g2(76, false, GateOp::Nand, GateInput::Temporary(51), GateInput::Temporary(75)),
    ]
}

/// The gates of level 15.
pub open spec fn level_15() -> Seq<GateModel> {
    seq![
        g1(4, false, GateOp::Not, GateInput::Argument(1, 8)),
        g2(49, false, GateOp::Xnor, GateInput::Argument(1, 8), GateInput::Argument(0, 8)),
        g2(77, false, GateOp::Nand, GateInput::Temporary(50), GateInput::Temporary(76)),
    ]
}

/// The gates of level 16.
pub open spec fn level_16() -> Seq<GateModel> {
    seq![
        g1(29, false, GateOp::Not, GateInput::Argument(0, 9)),
        g2(48, false, GateOp::Nand, GateInput::Temporary(4), GateInput::Argument(0, 8)),
        g2(78, false, GateOp::Nand, GateInput::Temporary(49), GateInput::Temporary(77)),
    ]
}

/// The gates of level 17.
pub open spec fn level_17() -> Seq<GateModel> {
    seq![
        g1(5, false, GateOp::Not, GateInput::Argument(1, 9)),
        g2(47, false, GateOp::Nand, GateInput::Argument(1, 9), GateInput::Temporary(29)),
        g2(79, false, GateOp::Nand, GateInput::Temporary(48), GateInput::Temporary(78)),
    ]
}

/// The gates of level 18.
pub open spec fn level_18() -> Seq<GateModel> {
    seq![
        g2(46, false, GateOp::Nand, GateInput::Temporary(5), GateInput::Argument(0, 9)),
        g2(80, false, GateOp::Nand, GateInput::Temporary(47), GateInput::Temporary(79)),
    ]
}

/// The gates of level 19.
pub open spec fn level_19() -> Seq<GateModel> {
    seq![
        g1(6, false, GateOp::Not, GateInput::Argument(1, 10)),
        g2(45, false, GateOp::Xnor, GateInput::Argument(1, 10), GateInput::Argument(0, 10)),
        g2(81, false, GateOp::Nand, GateInput::Temporary(46), GateInput::Temporary(80)),
    ]
}

/// The gates of level 20.
pub open spec fn level_20() -> Seq<GateModel> {
    seq![
        g1(30, false, GateOp::Not, GateInput::Argument(0, 11)),
        g2(44, false, GateOp::Nand, GateInput::Temporary(6), GateInput::Argument(0, 10)),
        g2(82, false, GateOp::Nand, GateInput::Temporary(45), GateInput::Temporary(81)),
    ]
}

/// The gates of level 21.
pub open spec fn level_21() -> Seq<GateModel> {
    seq![
        g1(7, false, GateOp::Not, GateInput::Argument(1, 11)),
        g2(43, false, GateOp::Nand, GateInput::Argument(1, 11), GateInput::Temporary(30)),
        g2(83, false, GateOp::Nand, GateInput::Temporary(44), GateInput::Temporary(82)),
    ]
}

/// The gates of level 22.
pub open spec fn level_22() -> Seq<GateModel> {
    seq![
        g2(42, false, GateOp::Nand, GateInput::Temporary(7), GateInput::Argument(0, 11)),
        g2(84, false, GateOp::Nand, GateInput::Temporary(43), GateInput::Temporary(83)),
    ]
}

/// The gates of level 23.
pub open spec fn level_23() -> Seq<GateModel> {
    seq![
        g1(8, false, GateOp::Not, GateInput::Argument(1, 12)),
        g2(41, false, GateOp::Xnor, GateInput::Argument(1, 12), GateInput::Argument(0, 12)),
        g2(85, false, GateOp::Nand, GateInput::Temporary(42), GateInput::Temporary(84)),
    ]
}

/// The gates of level 24.
pub open spec fn level_24() -> Seq<GateModel> {
    seq![
        g1(9, false, GateOp::Not, GateInput::Argument(1, 13)),
        g2(40, false, GateOp::Nand, GateInput::Temporary(8), GateInput::Argument(0, 12)),
        g2(86, false, GateOp::Nand, GateInput::Temporary(41), GateInput::Temporary(85)),
    ]
}

/// The gates of level 25.
pub open spec fn level_25() -> Seq<GateModel> {
    seq![
        g1(31, false, GateOp::Not, GateInput::Argument(0, 13)),
        g2(87, false, GateOp::And, GateInput::Temporary(40), GateInput::Temporary(86)),
        g2(88, false, GateOp::Nand, GateInput::Temporary(9), GateInput::Argument(0, 13)),
    ]
}

/// The gates of level 26.
pub open spec fn level_26() -> Seq<GateModel> {
    seq![
        g2(89, false, GateOp::Nand, GateInput::Argument(1, 13), GateInput::Temporary(31)),
        g2(93, false, GateOp::Nand, GateInput::Temporary(87), GateInput::Temporary(88)),
    ]
}

/// The gates of level 27.
pub open spec fn level_27() -> Seq<GateModel> {
    seq![
        g1(10, false, GateOp::Not, GateInput::Argument(1, 14)),
        g2(92, false, GateOp::Xnor, GateInput::Argument(1, 14), GateInput::Argument(0, 14)),
        g2(94, false, GateOp::And, GateInput::Temporary(89), GateInput::Temporary(93)),
    ]
}

/// The gates of level 28.
pub open spec fn level_28() -> Seq<GateModel> {
    seq![
        g1(11, false, GateOp::Not, GateInput::Argument(1, 15)),
        g2(91, false, GateOp::Nand, GateInput::Temporary(10), GateInput::Argument(0, 14)),
        g2(95, false, GateOp::Nand, GateInput::Temporary(92), GateInput::Temporary(94)),
    ]
}

/// The gates of level 29.
pub open spec fn level_29() -> Seq<GateModel> {
    seq![
        g1(32, false, GateOp::Not, GateInput::Argument(0, 15)),
        g2(96, false, GateOp::And, GateInput::Temporary(91), GateInput::Temporary(95)),
        g2(97, false, GateOp::Nand, GateInput::Temporary(11), GateInput::Argument(0, 15)),
    ]
}

/// The gates of level 30.
pub open spec fn level_30() -> Seq<GateModel> {
    seq![
        g2(98, false, GateOp::Nand, GateInput::Argument(1, 15), GateInput::Temporary(32)),
        g2(102, false, GateOp::Nand, GateInput::Temporary(96), GateInput::Temporary(97)),
    ]
}

/// The gates of level 31.
pub open spec fn level_31() -> Seq<GateModel> {
    seq![
        g1(12, false, GateOp::Not, GateInput::Argument(1, 16)),
        g2(101, false, GateOp::Xnor, GateInput::Argument(1, 16), GateInput::Argument(0, 16)),
        g2(103, false, GateOp::And, GateInput::Temporary(98), GateInput::Temporary(102)),
    ]
}

/// The gates of level 32.
pub open spec fn level_32() -> Seq<GateModel> {
    seq![
        g1(13, false, GateOp::Not, GateInput::Argument(1, 17)),
        g2(100, false, GateOp::Nand, GateInput::Temporary(12), GateInput::Argument(0, 16)),
        g2(104, false, GateOp::Nand, GateInput::Temporary(101), GateInput::Temporary(103)),
    ]
}

/// The gates of level 33.
pub open spec fn level_33() -> Seq<GateModel> {
    seq![
        g1(33, false, GateOp::Not, GateInput::Argument(0, 17)),
        g2(105, false, GateOp::And, GateInput::Temporary(100), GateInput::Temporary(104)),
        g2(106, false, GateOp::Nand, GateInput::Temporary(13), GateInput::Argument(0, 17)),
    ]
}

/// The gates of level 34.
pub open spec fn level_34() -> Seq<GateModel> {
    seq![
        g2(107, false, GateOp::Nand, GateInput::Argument(1, 17), GateInput::Temporary(33)),
        g2(111, false, GateOp::Nand, GateInput::Temporary(105), GateInput::Temporary(106)),
    ]
}

/// The gates of level 35.
pub open spec fn level_35() -> Seq<GateModel> {
    seq![
        g1(14, false, GateOp::Not, GateInput::Argument(1, 18)),
        g2(110, false, GateOp::Xnor, GateInput::Argument(1, 18), GateInput::Argument(0, 18)),
        g2(112, false, GateOp::And, GateInput::Temporary(107), GateInput::Temporary(111)),
    ]
}

/// The gates of level 36.
pub open spec fn level_36() -> Seq<GateModel> {
    seq![
        g1(15, false, GateOp::Not, GateInput::Argument(1, 19)),
        g2(109, false, GateOp::Nand, GateInput::Temporary(14), GateInput::Argument(0, 18)),
        g2(113, false, GateOp::Nand, GateInput::Temporary(110), GateInput::Temporary(112)),
    ]
}

/// The gates of level 37.
pub open spec fn level_37() -> Seq<GateModel> {
    seq![
        g1(34, false, GateOp::Not, GateInput::Argument(0, 19)),
        g2(114, false, GateOp::And, GateInput::Temporary(109), GateInput::Temporary(113)),
        g2(115, false, GateOp::Nand, GateInput::Temporary(15), GateInput::Argument(0, 19)),
    ]
}

/// The gates of level 38.
pub open spec fn level_38() -> Seq<GateModel> {
    seq![
        g2(116, false, GateOp::Nand, GateInput::Argument(1, 19), GateInput::Temporary(34)),
        g2(120, false, GateOp::Nand, GateInput::Temporary(114), GateInput::Temporary(115)),
    ]
}

/// The gates of level 39.
pub open spec fn level_39() -> Seq<GateModel> {
    seq![
        g1(16, false, GateOp::Not, GateInput::Argument(1, 20)),
        g2(119, false, GateOp::Xnor, GateInput::Argument(1, 20), GateInput::Argument(0, 20)),
        g2(121, false, GateOp::And, GateInput::Temporary(116), GateInput::Temporary(120)),
    ]
}

/// The gates of level 40.
pub open spec fn level_40() -> Seq<GateModel> {
    seq![
        g1(17, false, GateOp::Not, GateInput::Argument(1, 21)),
        g2(118, false, GateOp::Nand, GateInput::Temporary(16), GateInput::Argument(0, 20)),
        g2(122, false, GateOp::Nand, GateInput::Temporary(119), GateInput::Temporary(121)),
    ]
}

/// The gates of level 41.
pub open spec fn level_41() -> Seq<GateModel> {
    seq![
        g1(35, false, GateOp::Not, GateInput::Argument(0, 21)),
        g2(123, false, GateOp::And, GateInput::Temporary(118), GateInput::Temporary(122)),
        g2(124, false, GateOp::Nand, GateInput::Temporary(17), GateInput::Argument(0, 21)),
    ]
}

/// The gates of level 42.
pub open spec fn level_42() -> Seq<GateModel> {
    seq![
        g2(125, false, GateOp::Nand, GateInput::Argument(1, 21), GateInput::Temporary(35)),
        g2(129, false, GateOp::Nand, GateInput::Temporary(123), GateInput::Temporary(124)),
    ]
}

/// The gates of level 43.
pub open spec fn level_43() -> Seq<GateModel> {
    seq![
        g1(18, false, GateOp::Not, GateInput::Argument(1, 22)),
        g2(128, false, GateOp::Xnor, GateInput::Argument(1, 22), GateInput::Argument(0, 22)),
        g2(130, false, GateOp::And, GateInput::Temporary(125), GateInput::Temporary(129)),
    ]
}

/// The gates of level 44.
pub open spec fn level_44() -> Seq<GateModel> {
    seq![
        g1(19, false, GateOp::Not, GateInput::Argument(1, 23)),
        g2(127, false, GateOp::Nand, GateInput::Temporary(18), GateInput::Argument(0, 22)),
        g2(131, false, GateOp::Nand, GateInput::Temporary(128), GateInput::Temporary(130)),
    ]
}

/// The gates of level 45.
pub open spec fn level_45() -> Seq<GateModel> {
    seq![
        g1(36, false, GateOp::Not, GateInput::Argument(0, 23)),
        g2(132, false, GateOp::And, GateInput::Temporary(127), GateInput::Temporary(131)),
        g2(133, false, GateOp::Nand, GateInput::Temporary(19), GateInput::Argument(0, 23)),
    ]
}

/// The gates of level 46.
pub open spec fn level_46() -> Seq<GateModel> {
    seq![
        g2(134, false, GateOp::Nand, GateInput::Argument(1, 23), GateInput::Temporary(36)),
        g2(138, false, GateOp::Nand, GateInput::Temporary(132), GateInput::Temporary(133)),
    ]
}

/// The gates of level 47.
pub open spec fn level_47() -> Seq<GateModel> {
    seq![
        g1(20, false, GateOp::Not, GateInput::Argument(1, 24)),
        g2(137, false, GateOp::Xnor, GateInput::Argument(1, 24), GateInput::Argument(0, 24)),
        g2(139, false, GateOp::And, GateInput::Temporary(134), GateInput::Temporary(138)),
    ]
}

/// The gates of level 48.
pub open spec fn level_48() -> Seq<GateModel> {
    seq![
        g1(21, false, GateOp::Not, GateInput::Argument(1, 25)),
        g2(136, false, GateOp::Nand, GateInput::Temporary(20), GateInput::Argument(0, 24)),
        g2(140, false, GateOp::Nand, GateInput::Temporary(137), GateInput::Temporary(139)),
    ]
}

/// The gates of level 49.
pub open spec fn level_49() -> Seq<GateModel> {
    seq![
        g1(37, false, GateOp::Not, GateInput::Argument(0, 25)),
        g2(141, false, GateOp::And, GateInput::Temporary(136), GateInput::Temporary(140)),
        g2(142, false, GateOp::Nand, GateInput::Temporary(21), GateInput::Argument(0, 25)),
    ]
}

/// The gates of level 50.
pub open spec fn level_50() -> Seq<GateModel> {
    seq![
        g2(143, false, GateOp::Nand, GateInput::Argument(1, 25), GateInput::Temporary(37)),
        g2(147, false, GateOp::Nand, GateInput::Temporary(141), GateInput::Temporary(142)),
    ]
}

/// The gates of level 51.
pub open spec fn level_51() -> Seq<GateModel> {
    seq![
        g1(22, false, GateOp::Not, GateInput::Argument(1, 26)),
        g2(146, false, GateOp::Xnor, GateInput::Argument(1, 26), GateInput::Argument(0, 26)),
        g2(148, false, GateOp::And, GateInput::Temporary(143), GateInput::Temporary(147)),
    ]
}

/// The gates of level 52.
pub open spec fn level_52() -> Seq<GateModel> {
    seq![
        g1(23, false, GateOp::Not, GateInput::Argument(1, 27)),
        g2(145, false, GateOp::Nand, GateInput::Temporary(22), GateInput::Argument(0, 26)),
        g2(149, false, GateOp::Nand, GateInput::Temporary(146), GateInput::Temporary(148)),
    ]
}

/// The gates of level 53.
pub open spec fn level_53() -> Seq<GateModel> {
    seq![
        g1(38, false, GateOp::Not, GateInput::Argument(0, 27)),
        g2(150, false, GateOp::And, GateInput::Temporary(145), GateInput::Temporary(149)),
        g2(151, false, GateOp::Nand, GateInput::Temporary(23), GateInput::Argument(0, 27)),
    ]
}

/// The gates of level 54.
pub open spec fn level_54() -> Seq<GateModel> {
    seq![
        g2(152, false, GateOp::Nand, GateInput::Argument(1, 27), GateInput::Temporary(38)),
        g2(156, false, GateOp::Nand, GateInput::Temporary(150), GateInput::Temporary(151)),
    ]
}

/// The gates of level 55.
pub open spec fn level_55() -> Seq<GateModel> {
    seq![
        g1(24, false, GateOp::Not, GateInput::Argument(1, 28)),
        g2(155, false, GateOp::Xnor, GateInput::Argument(1, 28), GateInput::Argument(0, 28)),
        g2(157, false, GateOp::And, GateInput::Temporary(152), GateInput::Temporary(156)),
    ]
}

/// The gates of level 56.
pub open spec fn level_56() -> Seq<GateModel> {
    seq![
        g2(154, false, GateOp::Nand, GateInput::Temporary(24), GateInput::Argument(0, 28)),
        g2(158, false, GateOp::Nand, GateInput::Temporary(155), GateInput::Temporary(157)),
    ]
}

/// The gates of level 57.
pub open spec fn level_57() -> Seq<GateModel> {
    seq![
        g1(25, false, GateOp::Not, GateInput::Argument(1, 29)),
        g2(159, false, GateOp::Nand, GateInput::Temporary(154), GateInput::Temporary(158)),
        g2(161, false, GateOp::Xnor, GateInput::Argument(1, 29), GateInput::Argument(0, 29)),
    ]
}

/// The gates of level 58.
pub open spec fn level_58() -> Seq<GateModel> {
    seq![
        g2(160, false, GateOp::Nand, GateInput::Temporary(25), GateInput::Argument(0, 29)),
        g2(162, false, GateOp::Nand, GateInput::Temporary(159), GateInput::Temporary(161)),
    ]
}

/// The gates of level 59.
pub open spec fn level_59() -> Seq<GateModel> {
    seq![
        g1(26, false, GateOp::Not, GateInput::Argument(1, 30)),
        g2(163, false, GateOp::Nand, GateInput::Temporary(160), GateInput::Temporary(162)),
        g2(165, false, GateOp::Xnor, GateInput::Argument(1, 30), GateInput::Argument(0, 30)),
    ]
}

/// The gates of level 60.
pub open spec fn level_60() -> Seq<GateModel> {
    seq![
        g2(164, false, GateOp::Nand, GateInput::Temporary(26), GateInput::Argument(0, 30)),
        g2(166, false, GateOp::Nand, GateInput::Temporary(163), GateInput::Temporary(165)),
    ]
}

/// The gates of level 61.
pub open spec fn level_61() -> Seq<GateModel> {
    seq![
        g2(90, false, GateOp::Xnor, GateInput::Argument(1, 13), GateInput::Argument(0, 13)),
        g2(99, false, GateOp::Xnor, GateInput::Argument(1, 15), GateInput::Argument(0, 15)),
        g2(108, false, GateOp::Xnor, GateInput::Argument(1, 17), GateInput::Argument(0, 17)),
        g2(117, false, GateOp::Xnor, GateInput::Argument(1, 19), GateInput::Argument(0, 19)),
        g2(126, false, GateOp::Xnor, GateInput::Argument(1, 21), GateInput::Argument(0, 21)),
        g2(135, false, GateOp::Xnor, GateInput::Argument(1, 23), GateInput::Argument(0, 23)),
        g2(144, false, GateOp::Xnor, GateInput::Argument(1, 25), GateInput::Argument(0, 25)),
        g2(153, false, GateOp::Xnor, GateInput::Argument(1, 27), GateInput::Argument(0, 27)),
        g2(167, false, GateOp::Nand, GateInput::Temporary(164), GateInput::Temporary(166)),
        g2(168, false, GateOp::Xor, GateInput::Argument(1, 31), GateInput::Argument(0, 31)),
        g2(169, false, GateOp::Xor, GateInput::Argument(1, 7), GateInput::Argument(0, 7)),
        g2(170, false, GateOp::Xor, GateInput::Argument(1, 9), GateInput::Argument(0, 9)),
        g2(171, false, GateOp::Xor, GateInput::Argument(1, 11), GateInput::Argument(0, 11)),
    ]
}

/// The gates of level 62.
pub open spec fn level_62() -> Seq<GateModel> {
    seq![
        g2(0, true, GateOp::Xor, GateInput::Argument(1, 0), GateInput::Argument(0, 0)),
        g2(13, true, GateOp::Xnor, GateInput::Temporary(87), GateInput::Temporary(90)),
        g2(14, true, GateOp::Xor, GateInput::Temporary(92), GateInput::Temporary(94)),
        g2(15, true, GateOp::Xnor, GateInput::Temporary(96), GateInput::Temporary(99)),
        g2(16, true, GateOp::Xor, GateInput::Temporary(101), GateInput::Temporary(103)),
        g2(17, true, GateOp::Xnor, GateInput::Temporary(105), GateInput::Temporary(108)),
        g2(18, true, GateOp::Xor, GateInput::Temporary(110), GateInput::Temporary(112)),
        g2(19, true, GateOp::Xnor, GateInput::Temporary(114), GateInput::Temporary(117)),
        g2(20, true, GateOp::Xor, GateInput::Temporary(119), GateInput::Temporary(121)),
        g2(21, true, GateOp::Xnor, GateInput::Temporary(123), GateInput::Temporary(126)),
        g2(22, true, GateOp::Xor, GateInput::Temporary(128), GateInput::Temporary(130)),
        g2(23, true, GateOp::Xnor, GateInput::Temporary(132), GateInput::Temporary(135)),
        g2(24, true, GateOp::Xor, GateInput::Temporary(137), GateInput::Temporary(139)),
        g2(25, true, GateOp::Xnor, GateInput::Temporary(141), GateInput::Temporary(144)),
        g2(26, true, GateOp::Xor, GateInput::Temporary(146), GateInput::Temporary(148)),
        g2(27, true, GateOp::Xnor, GateInput::Temporary(150), GateInput::Temporary(153)),
        g2(28, true, GateOp::Xor, GateInput::Temporary(155), GateInput::Temporary(157)),
        g2(29, true, GateOp::Xor, GateInput::Temporary(159), GateInput::Temporary(161)),
        g2(30, true, GateOp::Xor, GateInput::Temporary(163), GateInput::Temporary(165)),
        g2(31, true, GateOp::Xnor, GateInput::Temporary(167), GateInput::Temporary(168)),
        g2(1, true, GateOp::Xor, GateInput::Temporary(39), GateInput::Temporary(59)),
        g2(2, true, GateOp::Xor, GateInput::Temporary(61), GateInput::Temporary(62)),
        g2(3, true, GateOp::Xor, GateInput::Temporary(64), GateInput::Temporary(65)),
        g2(4, true, GateOp::Xor, GateInput::Temporary(67), GateInput::Temporary(68)),
        g2(5, true, GateOp::Xor, GateInput::Temporary(70), GateInput::Temporary(71)),
        g2(6, true, GateOp::Xor, GateInput::Temporary(53), GateInput::Temporary(73)),
        g2(7, true, GateOp::Xnor, GateInput::Temporary(75), GateInput::Temporary(169)),
        g2(8, true, GateOp::Xor, GateInput::Temporary(49), GateInput::Temporary(77)),
        g2(9, true, GateOp::Xnor, GateInput::Temporary(79), GateInput::Temporary(170)),
        g2(10, true, GateOp::Xor, GateInput::Temporary(45), GateInput::Temporary(81)),
        g2(11, true, GateOp::Xnor, GateInput::Temporary(83), GateInput::Temporary(171)),
        g2(12, true, GateOp::Xor, GateInput::Temporary(41), GateInput::Temporary(85)),
    ]
}

/// The temporaries that no level after level 1 reads.
pub open spec fn prune_1() -> Seq<usize> {
    seq![27]
}

/// The temporaries that no level after level 2 reads.
pub open spec fn prune_2() -> Seq<usize> {
    seq![172]
}

/// The temporaries that no level after level 3 reads.
pub open spec fn prune_3() -> Seq<usize> {
    seq![60, 58]
}

/// The temporaries that no level after level 4 reads.
pub open spec fn prune_4() -> Seq<usize> {
    seq![173]
}

/// The temporaries that no level after level 5 reads.
pub open spec fn prune_5() -> Seq<usize> {
    seq![57, 63]
}

/// The temporaries that no level after level 6 reads.
pub open spec fn prune_6() -> Seq<usize> {
    seq![174]
}

/// The temporaries that no level after level 7 reads.
pub open spec fn prune_7() -> Seq<usize> {
    seq![56, 66]
}

/// The temporaries that no level after level 8 reads.
pub open spec fn prune_8() -> Seq<usize> {
    seq![0]
}

/// The temporaries that no level after level 9 reads.
pub open spec fn prune_9() -> Seq<usize> {
    seq![69, 55]
}

/// The temporaries that no level after level 10 reads.
pub open spec fn prune_10() -> Seq<usize> {
    seq![1]
}

/// The temporaries that no level after level 11 reads.
pub open spec fn prune_11() -> Seq<usize> {
    seq![54, 72]
}

/// The temporaries that no level after level 12 reads.
pub open spec fn prune_12() -> Seq<usize> {
    seq![2]
}

/// The temporaries that no level after level 13 reads.
pub open spec fn prune_13() -> Seq<usize> {
    seq![28, 74, 52]
}

/// The temporaries that no level after level 14 reads.
pub open spec fn prune_14() -> Seq<usize> {
    seq![3, 51]
}

/// The temporaries that no level after level 15 reads.
pub open spec fn prune_15() -> Seq<usize> {
    seq![76, 50]
}

/// The temporaries that no level after level 16 reads.
pub open spec fn prune_16() -> Seq<usize> {
    seq![4]
}

/// The temporaries that no level after level 17 reads.
pub open spec fn prune_17() -> Seq<usize> {
    seq![48, 29, 78]
}

/// The temporaries that no level after level 18 reads.
pub open spec fn prune_18() -> Seq<usize> {
    seq![47, 5]
}

/// The temporaries that no level after level 19 reads.
pub open spec fn prune_19() -> Seq<usize> {
    seq![46, 80]
}

/// The temporaries that no level after level 20 reads.
pub open spec fn prune_20() -> Seq<usize> {
    seq![6]
}

/// The temporaries that no level after level 21 reads.
pub open spec fn prune_21() -> Seq<usize> {
    seq![82, 44, 30]
}

/// The temporaries that no level after level 22 reads.
pub open spec fn prune_22() -> Seq<usize> {
    seq![43, 7]
}

/// The temporaries that no level after level 23 reads.
pub open spec fn prune_23() -> Seq<usize> {
    seq![42, 84]
}

/// The temporaries that no level after level 24 reads.
pub open spec fn prune_24() -> Seq<usize> {
    seq![8]
}

/// The temporaries that no level after level 25 reads.
pub open spec fn prune_25() -> Seq<usize> {
    seq![9, 40, 86]
}

/// The temporaries that no level after level 26 reads.
pub open spec fn prune_26() -> Seq<usize> {
    seq![31, 88]
}

/// The temporaries that no level after level 27 reads.
pub open spec fn prune_27() -> Seq<usize> {
    seq![93, 89]
}

/// The temporaries that no level after level 28 reads.
pub open spec fn prune_28() -> Seq<usize> {
    seq![10]
}

/// The temporaries that no level after level 29 reads.
pub open spec fn prune_29() -> Seq<usize> {
    seq![11, 91, 95]
}

/// The temporaries that no level after level 30 reads.
pub open spec fn prune_30() -> Seq<usize> {
    seq![97, 32]
}

/// The temporaries that no level after level 31 reads.
pub open spec fn prune_31() -> Seq<usize> {
    seq![102, 98]
}

/// The temporaries that no level after level 32 reads.
pub open spec fn prune_32() -> Seq<usize> {
    seq![12]
}

/// The temporaries that no level after level 33 reads.
pub open spec fn prune_33() -> Seq<usize> {
    seq![104, 100, 13]
}

/// The temporaries that no level after level 34 reads.
pub open spec fn prune_34() -> Seq<usize> {
    seq![33, 106]
}

/// The temporaries that no level after level 35 reads.
pub open spec fn prune_35() -> Seq<usize> {
    seq![107, 111]
}

/// The temporaries that no level after level 36 reads.
pub open spec fn prune_36() -> Seq<usize> {
    seq![14]
}

/// The temporaries that no level after level 37 reads.
pub open spec fn prune_37() -> Seq<usize> {
    seq![113, 15, 109]
}

/// The temporaries that no level after level 38 reads.
pub open spec fn prune_38() -> Seq<usize> {
    seq![34, 115]
}

/// The temporaries that no level after level 39 reads.
pub open spec fn prune_39() -> Seq<usize> {
    seq![116, 120]
}

/// The temporaries that no level after level 40 reads.
pub open spec fn prune_40() -> Seq<usize> {
    seq![16]
}

/// The temporaries that no level after level 41 reads.
pub open spec fn prune_41() -> Seq<usize> {
    seq![118, 17, 122]
}

/// The temporaries that no level after level 42 reads.
pub open spec fn prune_42() -> Seq<usize> {
    seq![124, 35]
}

/// The temporaries that no level after level 43 reads.
pub open spec fn prune_43() -> Seq<usize> {
    seq![125, 129]
}

/// The temporaries that no level after level 44 reads.
pub open spec fn prune_44() -> Seq<usize> {
    seq![18]
}

/// The temporaries that no level after level 45 reads.
pub open spec fn prune_45() -> Seq<usize> {
    seq![127, 131, 19]
}

/// The temporaries that no level after level 46 reads.
pub open spec fn prune_46() -> Seq<usize> {
    seq![133, 36]
}

/// The temporaries that no level after level 47 reads.
pub open spec fn prune_47() -> Seq<usize> {
    seq![138, 134]
}

/// The temporaries that no level after level 48 reads.
pub open spec fn prune_48() -> Seq<usize> {
    seq![20]
}

/// The temporaries that no level after level 49 reads.
pub open spec fn prune_49() -> Seq<usize> {
    seq![136, 21, 140]
}

/// The temporaries that no level after level 50 reads.
pub open spec fn prune_50() -> Seq<usize> {
    seq![37, 142]
}

/// The temporaries that no level after level 51 reads.
pub open spec fn prune_51() -> Seq<usize> {
    seq![147, 143]
}

/// The temporaries that no level after level 52 reads.
pub open spec fn prune_52() -> Seq<usize> {
    seq![22]
}

/// The temporaries that no level after level 53 reads.
pub open spec fn prune_53() -> Seq<usize> {
    seq![149, 23, 145]
}

/// The temporaries that no level after level 54 reads.
pub open spec fn prune_54() -> Seq<usize> {
    seq![151, 38]
}

/// The temporaries that no level after level 55 reads.
pub open spec fn prune_55() -> Seq<usize> {
    seq![152, 156]
}

/// The temporaries that no level after level 56 reads.
pub open spec fn prune_56() -> Seq<usize> {
    seq![24]
}

/// The temporaries that no level after level 57 reads.
pub open spec fn prune_57() -> Seq<usize> {
    seq![158, 154]
}

/// The temporaries that no level after level 58 reads.
pub open spec fn prune_58() -> Seq<usize> {
    seq![25]
}

/// The temporaries that no level after level 59 reads.
pub open spec fn prune_59() -> Seq<usize> {
    seq![162, 160]
}

/// The temporaries that no level after level 60 reads.
pub open spec fn prune_60() -> Seq<usize> {
    seq![26]
}

/// The temporaries that no level after level 61 reads.
pub open spec fn prune_61() -> Seq<usize> {
    seq![166, 164]
}

/// The temporaries that no level after level 62 reads.
pub open spec fn prune_62() -> Seq<usize> {
    seq![121, 90, 169, 59, 87, 73, 135, 79, 144, 65, 96, 155, 45, 110, 62, 141, 85, 71, 161, 68, 130, 99, 153, 139, 77, 108, 170, 150, 119, 167, 105, 128, 159, 83, 114, 94, 49, 41, 103, 165, 148, 117, 171, 157, 64, 126, 75, 137, 168, 61, 92, 123, 146, 53, 132, 39, 70, 101, 163, 112, 81, 67]
}

/// The gates of level `l`.
pub open spec fn level_at(l: int) -> Seq<GateModel> {
    if l == 0 {
        level_0()
    } else if l == 1 {
        level_1()
    } else if l == 2 {
        level_2()
    } else if l == 3 {
        level_3()
    } else if l == 4 {
        level_4()
    } else if l == 5 {
        level_5()
    } else if l == 6 {
        level_6()
    } else if l == 7 {
        level_7()
    } else if l == 8 {
        level_8()
    } else if l == 9 {
        level_9()
    } else if l == 10 {
        level_10()
    } else if l == 11 {
        level_11()
    } else if l == 12 {
        level_12()
    } else if l == 13 {
        level_13()
    } else if l == 14 {
        level_14()
    } else if l == 15 {
        level_15()
    } else if l == 16 {
        level_16()
    } else if l == 17 {
        level_17()
    } else if l == 18 {
        level_18()
    } else if l == 19 {
        level_19()
    } else if l == 20 {
        level_20()
    } else if l == 21 {
        level_21()
    } else if l == 22 {
        level_22()
    } else if l == 23 {
        level_23()
    } else if l == 24 {
        level_24()
    } else if l == 25 {
        level_25()
    } else if l == 26 {
        level_26()
    } else if l == 27 {
        level_27()
    } else if l == 28 {
        level_28()
    } else if l == 29 {
        level_29()
    } else if l == 30 {
        level_30()
    } else if l == 31 {
        level_31()
    } else if l == 32 {
        level_32()
    } else if l == 33 {
        level_33()
    } else if l == 34 {
        level_34()
    } else if l == 35 {
        level_35()
    } else if l == 36 {
        level_36()
    } else if l == 37 {
        level_37()
    } else if l == 38 {
        level_38()
    } else if l == 39 {
        level_39()
    } else if l == 40 {
        level_40()
    } else if l == 41 {
        level_41()
    } else if l == 42 {
        level_42()
    } else if l == 43 {
        level_43()
    } else if l == 44 {
        level_44()
    } else if l == 45 {
        level_45()
    } else if l == 46 {
        level_46()
    } else if l == 47 {
        level_47()
    } else if l == 48 {
        level_48()
    } else if l == 49 {
        level_49()
    } else if l == 50 {
        level_50()
    } else if l == 51 {
        level_51()
    } else if l == 52 {
        level_52()
    } else if l == 53 {
        level_53()
    } else if l == 54 {
        level_54()
    } else if l == 55 {
        level_55()
    } else if l == 56 {
        level_56()
    } else if l == 57 {
        level_57()
    } else if l == 58 {
        level_58()
    } else if l == 59 {
        level_59()
    } else if l == 60 {
        level_60()
    } else if l == 61 {
        level_61()
    } else if l == 62 {
        level_62()
    } else {
        Seq::empty()
    }
}

/// The temporaries that may be dropped after level `l`.
pub open spec fn prune_at(l: int) -> Seq<usize> {
    if l == 1 {
        prune_1()
    } else if l == 2 {
        prune_2()
    } else if l == 3 {
        prune_3()
    } else if l == 4 {
        prune_4()
    } else if l == 5 {
        prune_5()
    } else if l == 6 {
        prune_6()
    } else if l == 7 {
        prune_7()
    } else if l == 8 {
        prune_8()
    } else if l == 9 {
        prune_9()
    } else if l == 10 {
        prune_10()
    } else if l == 11 {
        prune_11()
    } else if l == 12 {
        prune_12()
    } else if l == 13 {
        prune_13()
    } else if l == 14 {
        prune_14()
    } else if l == 15 {
        prune_15()
    } else if l == 16 {
        prune_16()
    } else if l == 17 {
        prune_17()
    } else if l == 18 {
        prune_18()
    } else if l == 19 {
        prune_19()
    } else if l == 20 {
        prune_20()
    } else if l == 21 {
        prune_21()
    } else if l == 22 {
        prune_22()
    } else if l == 23 {
        prune_23()
    } else if l == 24 {
        prune_24()
    } else if l == 25 {
        prune_25()
    } else if l == 26 {
        prune_26()
    } else if l == 27 {
        prune_27()
    } else if l == 28 {
        prune_28()
    } else if l == 29 {
        prune_29()
    } else if l == 30 {
        prune_30()
    } else if l == 31 {
        prune_31()
    } else if l == 32 {
        prune_32()
    } else if l == 33 {
        prune_33()
    } else if l == 34 {
        prune_34()
    } else if l == 35 {
        prune_35()
    } else if l == 36 {
        prune_36()
    } else if l == 37 {
        prune_37()
    } else if l == 38 {
        prune_38()
    } else if l == 39 {
        prune_39()
    } else if l == 40 {
        prune_40()
    } else if l == 41 {
        prune_41()
    } else if l == 42 {
        prune_42()
    } else if l == 43 {
        prune_43()
    } else if l == 44 {
        prune_44()
    } else if l == 45 {
        prune_45()
    } else if l == 46 {
        prune_46()
    } else if l == 47 {
        prune_47()
    } else if l == 48 {
        prune_48()
    } else if l == 49 {
        prune_49()
    } else if l == 50 {
        prune_50()
    } else if l == 51 {
        prune_51()
    } else if l == 52 {
        prune_52()
    } else if l == 53 {
        prune_53()
    } else if l == 54 {
        prune_54()
    } else if l == 55 {
        prune_55()
    } else if l == 56 {
        prune_56()
    } else if l == 57 {
        prune_57()
    } else if l == 58 {
        prune_58()
    } else if l == 59 {
        prune_59()
    } else if l == 60 {
        prune_60()
    } else if l == 61 {
        prune_61()
    } else if l == 62 {
        prune_62()
    } else {
        Seq::empty()
    }
}

/// The netlist: 63 levels that fill 32 output slots.
pub open spec fn karma_sub_netlist() -> CircuitModel {
    CircuitModel {
        levels: Seq::new(63, |l: int| level_at(l)),
        prune_after_level: Seq::new(63, |l: int| prune_at(l)),
        output_count: 32,
    }
}

/// The first `count` levels and prune lists of the netlist are in place.
spec fn built(levels: Seq<Vec<GateSpec>>, prunes: Seq<Vec<usize>>, count: int) -> bool {
    &&& levels.len() == count
    &&& prunes.len() == count
    &&& forall|l: int| 0 <= l < count ==> level_view((#[trigger] levels[l])@) == level_at(l)
    &&& forall|l: int| 0 <= l < count ==> (#[trigger] prunes[l])@ == prune_at(l)
}

/// Appends level 0 and its prune list.
fn build_level_0(levels: &mut Vec<Vec<GateSpec>>, prunes: &mut Vec<Vec<usize>>)
    requires
        built(old(levels)@, old(prunes)@, 0),
    ensures
        built(final(levels)@, final(prunes)@, 1),
{
    let gates = vec![
        gate1(27, false, GateOp::Not, GateInput::Argument(0, 0)),
    ];
    assert(level_view(gates@) =~= level_0());
    let dropped: Vec<usize> = Vec::new();
    assert(dropped@ =~= Seq::<usize>::empty());
    levels.push(gates);
    prunes.push(dropped);
}

/// Appends level 1 and its prune list.
fn build_level_1(levels: &mut Vec<Vec<GateSpec>>, prunes: &mut Vec<Vec<usize>>)
    requires
        built(old(levels)@, old(prunes)@, 1),
    ensures
        built(final(levels)@, final(prunes)@, 2),
{
    let gates = vec![
        gate1(172, false, GateOp::Not, GateInput::Argument(1, 1)),
        gate2(39, false, GateOp::Nand, GateInput::Argument(1, 0), GateInput::Temporary(27)),
        gate2(59, false, GateOp::Xnor, GateInput::Argument(1, 1), GateInput::Argument(0, 1)),
    ];
    assert(level_view(gates@) =~= level_1());
    let dropped: Vec<usize> = vec![27];
    assert(dropped@ =~= prune_1());
    levels.push(gates);
    prunes.push(dropped);
}

/// Appends level 2 and its prune list.
fn build_level_2(levels: &mut Vec<Vec<GateSpec>>, prunes: &mut Vec<Vec<usize>>)
    requires
        built(old(levels)@, old(prunes)@, 2),
    ensures
        built(final(levels)@, final(prunes)@, 3),
{
    let gates = vec![
        gate2(58, false, GateOp::Nand, GateInput::Temporary(172), GateInput::Argument(0, 1)),
        gate2(60, false, GateOp::Nand, GateInput::Temporary(39), GateInput::Temporary(59)),
    ];
    assert(level_view(gates@) =~= level_2());
    let dropped: Vec<usize> = vec![172];
    assert(dropped@ =~= prune_2());
    levels.push(gates);
    prunes.push(dropped);
}

/// Appends level 3 and its prune list.
fn build_level_3(levels: &mut Vec<Vec<GateSpec>>, prunes: &mut Vec<Vec<usize>>)
    requires
        built(old(levels)@, old(prunes)@, 3),
    ensures
        built(final(levels)@, final(prunes)@, 4),
{
    let gates = vec![
        gate1(173, false, GateOp::Not, GateInput::Argument(1, 2)),
        gate2(61, false, GateOp::Nand, GateInput::Temporary(58), GateInput::Temporary(60)),
        gate2(62, false, GateOp::Xnor, GateInput::Argument(1, 2), GateInput::Argument(0, 2)),
    ];
    assert(level_view(gates@) =~= level_3());
    let dropped: Vec<usize> = vec![60, 58];
    assert(dropped@ =~= prune_3());
    levels.push(gates);
    prunes.push(dropped);
}

/// Appends level 4 and its prune list.
fn build_level_4(levels: &mut Vec<Vec<GateSpec>>, prunes: &mut Vec<Vec<usize>>)
    requires
        built(old(levels)@, old(prunes)@, 4),
    ensures
        built(final(levels)@, final(prunes)@, 5),
{
    let gates = vec![
        gate2(57, false, GateOp::Nand, GateInput::Temporary(173), GateInput::Argument(0, 2)),
        gate2(63, false, GateOp::Nand, GateInput::Temporary(61), GateInput::Temporary(62)),
    ];
    assert(level_view(gates@) =~= level_4());
    let dropped: Vec<usize> = vec![173];
    assert(dropped@ =~= prune_4());
    levels.push(gates);
    prunes.push(dropped);
}

/// Appends level 5 and its prune list.
fn build_level_5(levels: &mut Vec<Vec<GateSpec>>, prunes: &mut Vec<Vec<usize>>)
    requires
        built(old(levels)@, old(prunes)@, 5),
    ensures
        built(final(levels)@, final(prunes)@, 6),
{
    let gates = vec![
        gate1(174, false, GateOp::Not, GateInput::Argument(1, 3)),
        gate2(64, false, GateOp::Nand, GateInput::Temporary(57), GateInput::Temporary(63)),
        gate2(65, false, GateOp::Xnor, GateInput::Argument(1, 3), GateInput::Argument(0, 3)),
    ];
    assert(level_view(gates@) =~= level_5());
    let dropped: Vec<usize> = vec![57, 63];
    assert(dropped@ =~= prune_5());
    levels.push(gates);
    prunes.push(dropped);
}

/// Appends level 6 and its prune list.
fn build_level_6(levels: &mut Vec<Vec<GateSpec>>, prunes: &mut Vec<Vec<usize>>)
    requires
        built(old(levels)@, old(prunes)@, 6),
    ensures
        built(final(levels)@, final(prunes)@, 7),
{
    let gates = vec![
        gate2(56, false, GateOp::Nand, GateInput::Temporary(174), GateInput::Argument(0, 3)),
        gate2(66, false, GateOp::Nand, GateInput::Temporary(64), GateInput::Temporary(65)),
    ];
    assert(level_view(gates@) =~= level_6());
    let dropped: Vec<usize> = vec![174];
    assert(dropped@ =~= prune_6());
    levels.push(gates);
    prunes.push(dropped);
}

/// Appends level 7 and its prune list.
fn build_level_7(levels: &mut Vec<Vec<GateSpec>>, prunes: &mut Vec<Vec<usize>>)
    requires
        built(old(levels)@, old(prunes)@, 7),
    ensures
        built(final(levels)@, final(prunes)@, 8),
{
    let gates = vec![
        gate1(0, false, GateOp::Not, GateInput::Argument(1, 4)),
        gate2(67, false, GateOp::Nand, GateInput::Temporary(56), GateInput::Temporary(66)),
        gate2(68, false, GateOp::Xnor, GateInput::Argument(1, 4), GateInput::Argument(0, 4)),
    ];
    assert(level_view(gates@) =~= level_7());
    let dropped: Vec<usize> = vec![56, 66];
    assert(dropped@ =~= prune_7());
    levels.push(gates);
    prunes.push(dropped);
}

/// Appends level 8 and its prune list.
fn build_level_8(levels: &mut Vec<Vec<GateSpec>>, prunes: &mut Vec<Vec<usize>>)
    requires
        built(old(levels)@, old(prunes)@, 8),
    ensures
        built(final(levels)@, final(prunes)@, 9),
{
    let gates = vec![
        gate2(55, false, GateOp::Nand, GateInput::Temporary(0), GateInput::Argument(0, 4)),
        gate2(69, false, GateOp::Nand, GateInput::Temporary(67), GateInput::Temporary(68)),
    ];
    assert(level_view(gates@) =~= level_8());
    let dropped: Vec<usize> = vec![0];
    assert(dropped@ =~= prune_8());
    levels.push(gates);
    prunes.push(dropped);
}

/// Appends level 9 and its prune list.
fn build_level_9(levels: &mut Vec<Vec<GateSpec>>, prunes: &mut Vec<Vec<usize>>)
    requires
        built(old(levels)@, old(prunes)@, 9),
    ensures
        built(final(levels)@, final(prunes)@, 10),
{
    let gates = vec![
        gate1(1, false, GateOp::Not, GateInput::Argument(1, 5)),
        gate2(70, false, GateOp::Nand, GateInput::Temporary(55), GateInput::Temporary(69)),
        gate2(71, false, GateOp::Xnor, GateInput::Argument(1, 5), GateInput::Argument(0, 5)),
    ];
    assert(level_view(gates@) =~= level_9());
    let dropped: Vec<usize> = vec![69, 55];
    assert(dropped@ =~= prune_9());
    levels.push(gates);
    prunes.push(dropped);
}

/// Appends level 10 and its prune list.
fn build_level_10(levels: &mut Vec<Vec<GateSpec>>, prunes: &mut Vec<Vec<usize>>)
    requires
        built(old(levels)@, old(prunes)@, 10),
    ensures
        built(final(levels)@, final(prunes)@, 11),
{
    let gates = vec![
        gate2(54, false, GateOp::Nand, GateInput::Temporary(1), GateInput::Argument(0, 5)),
        gate2(72, false, GateOp::Nand, GateInput::Temporary(70), GateInput::Temporary(71)),
    ];
    assert(level_view(gates@) =~= level_10());
    let dropped: Vec<usize> = vec![1];
    assert(dropped@ =~= prune_10());
    levels.push(gates);
    prunes.push(dropped);
}

/// Appends level 11 and its prune list.
fn build_level_11(levels: &mut Vec<Vec<GateSpec>>, prunes: &mut Vec<Vec<usize>>)
    requires
        built(old(levels)@, old(prunes)@, 11),
    ensures
        built(final(levels)@, final(prunes)@, 12),
{
    let gates = vec![
        gate1(2, false, GateOp::Not, GateInput::Argument(1, 6)),
        gate2(53, false, GateOp::Xnor, GateInput::Argument(1, 6), GateInput::Argument(0, 6)),
        gate2(73, false, GateOp::Nand, GateInput::Temporary(54), GateInput::Temporary(72)),
    ];
    assert(level_view(gates@) =~= level_11());
    let dropped: Vec<usize> = vec![54, 72];
    assert(dropped@ =~= prune_11());
    levels.push(gates);
    prunes.push(dropped);
}

/// Appends level 12 and its prune list.
fn build_level_12(levels: &mut Vec<Vec<GateSpec>>, prunes: &mut Vec<Vec<usize>>)
    requires
        built(old(levels)@, old(prunes)@, 12),
    ensures
        built(final(levels)@, final(prunes)@, 13),
{
    let gates = vec![
        gate1(28, false, GateOp::Not, GateInput::Argument(0, 7)),
        gate2(52, false, GateOp::Nand, GateInput::Temporary(2), GateInput::Argument(0, 6)),
        gate2(74, false, GateOp::Nand, GateInput::Temporary(53), GateInput::Temporary(73)),
    ];
    assert(level_view(gates@) =~= level_12());
    let dropped: Vec<usize> = vec![2];
    assert(dropped@ =~= prune_12());
    levels.push(gates);
    prunes.push(dropped);
}

/// Appends level 13 and its prune list.
fn build_level_13(levels: &mut Vec<Vec<GateSpec>>, prunes: &mut Vec<Vec<usize>>)
    requires
        built(old(levels)@, old(prunes)@, 13),
    ensures
        built(final(levels)@, final(prunes)@, 14),
{
    let gates = vec![
        gate1(3, false, GateOp::Not, GateInput::Argument(1, 7)),
        gate2(51, false, GateOp::Nand, GateInput::Argument(1, 7), GateInput::Temporary(28)),
        gate2(75, false, GateOp::Nand, GateInput::Temporary(52), GateInput::Temporary(74)),
    ];
    assert(level_view(gates@) =~= level_13());
    let dropped: Vec<usize> = vec![28, 74, 52];
    assert(dropped@ =~= prune_13());
    levels.push(gates);
    prunes.push(dropped);
}

/// Appends level 14 and its prune list.
fn build_level_14(levels: &mut Vec<Vec<GateSpec>>, prunes: &mut Vec<Vec<usize>>)
    requires
        built(old(levels)@, old(prunes)@, 14),
    ensures
        built(final(levels)@, final(prunes)@, 15),
{
    let gates = vec![
        gate2(50, false, GateOp::Nand, GateInput::Temporary(3), GateInput::Argument(0, 7)),
        gate2(76, false, GateOp::Nand, GateInput::Temporary(51), GateInput::Temporary(75)),
    ];
    assert(level_view(gates@) =~= level_14());
    let dropped: Vec<usize> = vec![3, 51];
    assert(dropped@ =~= prune_14());
    levels.push(gates);
    prunes.push(dropped);
}

/// Appends level 15 and its prune list.
fn build_level_15(levels: &mut Vec<Vec<GateSpec>>, prunes: &mut Vec<Vec<usize>>)
    requires
        built(old(levels)@, old(prunes)@, 15),
    ensures
        built(final(levels)@, final(prunes)@, 16),
{
    let gates = vec![
        gate1(4, false, GateOp::Not, GateInput::Argument(1, 8)),
        gate2(49, false, GateOp::Xnor, GateInput::Argument(1, 8), GateInput::Argument(0, 8)),
        gate2(77, false, GateOp::Nand, GateInput::Temporary(50), GateInput::Temporary(76)),
    ];
    assert(level_view(gates@) =~= level_15());
    let dropped: Vec<usize> = vec![76, 50];
    assert(dropped@ =~= prune_15());
    levels.push(gates);
    prunes.push(dropped);
}

/// Appends level 16 and its prune list.
fn build_level_16(levels: &mut Vec<Vec<GateSpec>>, prunes: &mut Vec<Vec<usize>>)
    requires
        built(old(levels)@, old(prunes)@, 16),
    ensures
        built(final(levels)@, final(prunes)@, 17),
{
    let gates = vec![
        gate1(29, false, GateOp::Not, GateInput::Argument(0, 9)),
        gate2(48, false, GateOp::Nand, GateInput::Temporary(4), GateInput::Argument(0, 8)),
        gate2(78, false, GateOp::Nand, GateInput::Temporary(49), GateInput::Temporary(77)),
    ];
    assert(level_view(gates@) =~= level_16());
    let dropped: Vec<usize> = vec![4];
    assert(dropped@ =~= prune_16());
    levels.push(gates);
    prunes.push(dropped);
}

/// Appends level 17 and its prune list.
fn build_level_17(levels: &mut Vec<Vec<GateSpec>>, prunes: &mut Vec<Vec<usize>>)
    requires
        built(old(levels)@, old(prunes)@, 17),
    ensures
        built(final(levels)@, final(prunes)@, 18),
{
    let gates = vec![
        gate1(5, false, GateOp::Not, GateInput::Argument(1, 9)),
        gate2(47, false, GateOp::Nand, GateInput::Argument(1, 9), GateInput::Temporary(29)),
        gate2(79, false, GateOp::Nand, GateInput::Temporary(48), GateInput::Temporary(78)),
    ];
    assert(level_view(gates@) =~= level_17());
    let dropped: Vec<usize> = vec![48, 29, 78];
    assert(dropped@ =~= prune_17());
    levels.push(gates);
    prunes.push(dropped);
}

/// Appends level 18 and its prune list.
fn build_level_18(levels: &mut Vec<Vec<GateSpec>>, prunes: &mut Vec<Vec<usize>>)
    requires
        built(old(levels)@, old(prunes)@, 18),
    ensures
        built(final(levels)@, final(prunes)@, 19),
{
    let gates = vec![
        gate2(46, false, GateOp::Nand, GateInput::Temporary(5), GateInput::Argument(0, 9)),
        gate2(80, false, GateOp::Nand, GateInput::Temporary(47), GateInput::Temporary(79)),
    ];
    assert(level_view(gates@) =~= level_18());
    let dropped: Vec<usize> = vec![47, 5];
    assert(dropped@ =~= prune_18());
    levels.push(gates);
    prunes.push(dropped);
}

/// Appends level 19 and its prune list.
fn build_level_19(levels: &mut Vec<Vec<GateSpec>>, prunes: &mut Vec<Vec<usize>>)
    requires
        built(old(levels)@, old(prunes)@, 19),
    ensures
        built(final(levels)@, final(prunes)@, 20),
{
    let gates = vec![
        gate1(6, false, GateOp::Not, GateInput::Argument(1, 10)),
        gate2(45, false, GateOp::Xnor, GateInput::Argument(1, 10), GateInput::Argument(0, 10)),
        gate2(81, false, GateOp::Nand, GateInput::Temporary(46), GateInput::Temporary(80)),
    ];
    assert(level_view(gates@) =~= level_19());
    let dropped: Vec<usize> = vec![46, 80];
    assert(dropped@ =~= prune_19());
    levels.push(gates);
    prunes.push(dropped);
}

/// Appends level 20 and its prune list.
fn build_level_20(levels: &mut Vec<Vec<GateSpec>>, prunes: &mut Vec<Vec<usize>>)
    requires
        built(old(levels)@, old(prunes)@, 20),
    ensures
        built(final(levels)@, final(prunes)@, 21),
{
    let gates = vec![
        gate1(30, false, GateOp::Not, GateInput::Argument(0, 11)),
        gate2(44, false, GateOp::Nand, GateInput::Temporary(6), GateInput::Argument(0, 10)),
        gate2(82, false, GateOp::Nand, GateInput::Temporary(45), GateInput::Temporary(81)),
    ];
    assert(level_view(gates@) =~= level_20());
    let dropped: Vec<usize> = vec![6];
    assert(dropped@ =~= prune_20());
    levels.push(gates);
    prunes.push(dropped);
}

/// Appends level 21 and its prune list.
fn build_level_21(levels: &mut Vec<Vec<GateSpec>>, prunes: &mut Vec<Vec<usize>>)
    requires
        built(old(levels)@, old(prunes)@, 21),
    ensures
        built(final(levels)@, final(prunes)@, 22),
{
    let gates = vec![
        gate1(7, false, GateOp::Not, GateInput::Argument(1, 11)),
        gate2(43, false, GateOp::Nand, GateInput::Argument(1, 11), GateInput::Temporary(30)),
        gate2(83, false, GateOp::Nand, GateInput::Temporary(44), GateInput::Temporary(82)),
    ];
    assert(level_view(gates@) =~= level_21());
    let dropped: Vec<usize> = vec![82, 44, 30];
    assert(dropped@ =~= prune_21());
    levels.push(gates);
    prunes.push(dropped);
}

/// Appends level 22 and its prune list.
fn build_level_22(levels: &mut Vec<Vec<GateSpec>>, prunes: &mut Vec<Vec<usize>>)
    requires
        built(old(levels)@, old(prunes)@, 22),
    ensures
        built(final(levels)@, final(prunes)@, 23),
{
    let gates = vec![
        gate2(42, false, GateOp::Nand, GateInput::Temporary(7), GateInput::Argument(0, 11)),
        gate2(84, false, GateOp::Nand, GateInput::Temporary(43), GateInput::Temporary(83)),
    ];
    assert(level_view(gates@) =~= level_22());
    let dropped: Vec<usize> = vec![43, 7];
    assert(dropped@ =~= prune_22());
    levels.push(gates);
    prunes.push(dropped);
}

/// Appends level 23 and its prune list.
fn build_level_23(levels: &mut Vec<Vec<GateSpec>>, prunes: &mut Vec<Vec<usize>>)
    requires
        built(old(levels)@, old(prunes)@, 23),
    ensures
        built(final(levels)@, final(prunes)@, 24),
{
    let gates = vec![
        gate1(8, false, GateOp::Not, GateInput::Argument(1, 12)),
        gate2(41, false, GateOp::Xnor, GateInput::Argument(1, 12), GateInput::Argument(0, 12)),
        gate2(85, false, GateOp::Nand, GateInput::Temporary(42), GateInput::Temporary(84)),
    ];
    assert(level_view(gates@) =~= level_23());
    let dropped: Vec<usize> = vec![42, 84];
    assert(dropped@ =~= prune_23());
    levels.push(gates);
    prunes.push(dropped);
}

/// Appends level 24 and its prune list.
fn build_level_24(levels: &mut Vec<Vec<GateSpec>>, prunes: &mut Vec<Vec<usize>>)
    requires
        built(old(levels)@, old(prunes)@, 24),
    ensures
        built(final(levels)@, final(prunes)@, 25),
{
    let gates = vec![
        gate1(9, false, GateOp::Not, GateInput::Argument(1, 13)),
        gate2(40, false, GateOp::Nand, GateInput::Temporary(8), GateInput::Argument(0, 12)),
        gate2(86, false, GateOp::Nand, GateInput::Temporary(41), GateInput::Temporary(85)),
    ];
    assert(level_view(gates@) =~= level_24());
    let dropped: Vec<usize> = vec![8];
    assert(dropped@ =~= prune_24());
    levels.push(gates);
    prunes.push(dropped);
}

/// Appends level 25 and its prune list.
fn build_level_25(levels: &mut Vec<Vec<GateSpec>>, prunes: &mut Vec<Vec<usize>>)
    requires
        built(old(levels)@, old(prunes)@, 25),
    ensures
        built(final(levels)@, final(prunes)@, 26),
{
    let gates = vec![
        gate1(31, false, GateOp::Not, GateInput::Argument(0, 13)),
        gate2(87, false, GateOp::And, GateInput::Temporary(40), GateInput::Temporary(86)),
        gate2(88, false, GateOp::Nand, GateInput::Temporary(9), GateInput::Argument(0, 13)),
    ];
    assert(level_view(gates@) =~= level_25());
    let dropped: Vec<usize> = vec![9, 40, 86];
    assert(dropped@ =~= prune_25());
    levels.push(gates);
    prunes.push(dropped);
}

/// Appends level 26 and its prune list.
fn build_level_26(levels: &mut Vec<Vec<GateSpec>>, prunes: &mut Vec<Vec<usize>>)
    requires
        built(old(levels)@, old(prunes)@, 26),
    ensures
        built(final(levels)@, final(prunes)@, 27),
{
    let gates = vec![
        gate2(89, false, GateOp::Nand, GateInput::Argument(1, 13), GateInput::Temporary(31)),
        gate2(93, false, GateOp::Nand, GateInput::Temporary(87), GateInput::Temporary(88)),
    ];
    assert(level_view(gates@) =~= level_26());
    let dropped: Vec<usize> = vec![31, 88];
    assert(dropped@ =~= prune_26());
    levels.push(gates);
    prunes.push(dropped);
}

/// Appends level 27 and its prune list.
fn build_level_27(levels: &mut Vec<Vec<GateSpec>>, prunes: &mut Vec<Vec<usize>>)
    requires
        built(old(levels)@, old(prunes)@, 27),
    ensures
        built(final(levels)@, final(prunes)@, 28),
{
    let gates = vec![
        gate1(10, false, GateOp::Not, GateInput::Argument(1, 14)),
        gate2(92, false, GateOp::Xnor, GateInput::Argument(1, 14), GateInput::Argument(0, 14)),
        gate2(94, false, GateOp::And, GateInput::Temporary(89), GateInput::Temporary(93)),
    ];
    assert(level_view(gates@) =~= level_27());
    let dropped: Vec<usize> = vec![93, 89];
    assert(dropped@ =~= prune_27());
    levels.push(gates);
    prunes.push(dropped);
}

/// Appends level 28 and its prune list.
fn build_level_28(levels: &mut Vec<Vec<GateSpec>>, prunes: &mut Vec<Vec<usize>>)
    requires
        built(old(levels)@, old(prunes)@, 28),
    ensures
        built(final(levels)@, final(prunes)@, 29),
{
    let gates = vec![
        gate1(11, false, GateOp::Not, GateInput::Argument(1, 15)),
        gate2(91, false, GateOp::Nand, GateInput::Temporary(10), GateInput::Argument(0, 14)),
        gate2(95, false, GateOp::Nand, GateInput::Temporary(92), GateInput::Temporary(94)),
    ];
    assert(level_view(gates@) =~= level_28());
    let dropped: Vec<usize> = vec![10];
    assert(dropped@ =~= prune_28());
    levels.push(gates);
    prunes.push(dropped);
}

/// Appends level 29 and its prune list.
fn build_level_29(levels: &mut Vec<Vec<GateSpec>>, prunes: &mut Vec<Vec<usize>>)
    requires
        built(old(levels)@, old(prunes)@, 29),
    ensures
        built(final(levels)@, final(prunes)@, 30),
{
    let gates = vec![
        gate1(32, false, GateOp::Not, GateInput::Argument(0, 15)),
        gate2(96, false, GateOp::And, GateInput::Temporary(91), GateInput::Temporary(95)),
        gate2(97, false, GateOp::Nand, GateInput::Temporary(11), GateInput::Argument(0, 15)),
    ];
    assert(level_view(gates@) =~= level_29());
    let dropped: Vec<usize> = vec![11, 91, 95];
    assert(dropped@ =~= prune_29());
    levels.push(gates);
    prunes.push(dropped);
}

/// Appends level 30 and its prune list.
fn build_level_30(levels: &mut Vec<Vec<GateSpec>>, prunes: &mut Vec<Vec<usize>>)
    requires
        built(old(levels)@, old(prunes)@, 30),
    ensures
        built(final(levels)@, final(prunes)@, 31),
{
    let gates = vec![
        gate2(98, false, GateOp::Nand, GateInput::Argument(1, 15), GateInput::Temporary(32)),
        gate2(102, false, GateOp::Nand, GateInput::Temporary(96), GateInput::Temporary(97)),
    ];
    assert(level_view(gates@) =~= level_30());
    let dropped: Vec<usize> = vec![97, 32];
    assert(dropped@ =~= prune_30());
    levels.push(gates);
    prunes.push(dropped);
}

/// Appends level 31 and its prune list.
fn build_level_31(levels: &mut Vec<Vec<GateSpec>>, prunes: &mut Vec<Vec<usize>>)
    requires
        built(old(levels)@, old(prunes)@, 31),
    ensures
        built(final(levels)@, final(prunes)@, 32),
{
    let gates = vec![
        gate1(12, false, GateOp::Not, GateInput::Argument(1, 16)),
        gate2(101, false, GateOp::Xnor, GateInput::Argument(1, 16), GateInput::Argument(0, 16)),
        gate2(103, false, GateOp::And, GateInput::Temporary(98), GateInput::Temporary(102)),
    ];
    assert(level_view(gates@) =~= level_31());
    let dropped: Vec<usize> = vec![102, 98];
    assert(dropped@ =~= prune_31());
    levels.push(gates);
    prunes.push(dropped);
}

/// Appends level 32 and its prune list.
fn build_level_32(levels: &mut Vec<Vec<GateSpec>>, prunes: &mut Vec<Vec<usize>>)
    requires
        built(old(levels)@, old(prunes)@, 32),
    ensures
        built(final(levels)@, final(prunes)@, 33),
{
    let gates = vec![
        gate1(13, false, GateOp::Not, GateInput::Argument(1, 17)),
        gate2(100, false, GateOp::Nand, GateInput::Temporary(12), GateInput::Argument(0, 16)),
        gate2(104, false, GateOp::Nand, GateInput::Temporary(101), GateInput::Temporary(103)),
    ];
    assert(level_view(gates@) =~= level_32());
    let dropped: Vec<usize> = vec![12];
    assert(dropped@ =~= prune_32());
    levels.push(gates);
    prunes.push(dropped);
}

/// Appends level 33 and its prune list.
fn build_level_33(levels: &mut Vec<Vec<GateSpec>>, prunes: &mut Vec<Vec<usize>>)
    requires
        built(old(levels)@, old(prunes)@, 33),
    ensures
        built(final(levels)@, final(prunes)@, 34),
{
    let gates = vec![
        gate1(33, false, GateOp::Not, GateInput::Argument(0, 17)),
        gate2(105, false, GateOp::And, GateInput::Temporary(100), GateInput::Temporary(104)),
        gate2(106, false, GateOp::Nand, GateInput::Temporary(13), GateInput::Argument(0, 17)),
    ];
    assert(level_view(gates@) =~= level_33());
    let dropped: Vec<usize> = vec![104, 100, 13];
    assert(dropped@ =~= prune_33());
    levels.push(gates);
    prunes.push(dropped);
}

/// Appends level 34 and its prune list.
fn build_level_34(levels: &mut Vec<Vec<GateSpec>>, prunes: &mut Vec<Vec<usize>>)
    requires
        built(old(levels)@, old(prunes)@, 34),
    ensures
        built(final(levels)@, final(prunes)@, 35),
{
    let gates = vec![
        gate2(107, false, GateOp::Nand, GateInput::Argument(1, 17), GateInput::Temporary(33)),
        gate2(111, false, GateOp::Nand, GateInput::Temporary(105), GateInput::Temporary(106)),
    ];
    assert(level_view(gates@) =~= level_34());
    let dropped: Vec<usize> = vec![33, 106];
    assert(dropped@ =~= prune_34());
    levels.push(gates);
    prunes.push(dropped);
}

/// Appends level 35 and its prune list.
fn build_level_35(levels: &mut Vec<Vec<GateSpec>>, prunes: &mut Vec<Vec<usize>>)
    requires
        built(old(levels)@, old(prunes)@, 35),
    ensures
        built(final(levels)@, final(prunes)@, 36),
{
    let gates = vec![
        gate1(14, false, GateOp::Not, GateInput::Argument(1, 18)),
        gate2(110, false, GateOp::Xnor, GateInput::Argument(1, 18), GateInput::Argument(0, 18)),
        gate2(112, false, GateOp::And, GateInput::Temporary(107), GateInput::Temporary(111)),
    ];
    assert(level_view(gates@) =~= level_35());
    let dropped: Vec<usize> = vec![107, 111];
    assert(dropped@ =~= prune_35());
    levels.push(gates);
    prunes.push(dropped);
}

/// Appends level 36 and its prune list.
fn build_level_36(levels: &mut Vec<Vec<GateSpec>>, prunes: &mut Vec<Vec<usize>>)
    requires
        built(old(levels)@, old(prunes)@, 36),
    ensures
        built(final(levels)@, final(prunes)@, 37),
{
    let gates = vec![
        gate1(15, false, GateOp::Not, GateInput::Argument(1, 19)),
        gate2(109, false, GateOp::Nand, GateInput::Temporary(14), GateInput::Argument(0, 18)),
        gate2(113, false, GateOp::Nand, GateInput::Temporary(110), GateInput::Temporary(112)),
    ];
    assert(level_view(gates@) =~= level_36());
    let dropped: Vec<usize> = vec![14];
    assert(dropped@ =~= prune_36());
    levels.push(gates);
    prunes.push(dropped);
}

/// Appends level 37 and its prune list.
fn build_level_37(levels: &mut Vec<Vec<GateSpec>>, prunes: &mut Vec<Vec<usize>>)
    requires
        built(old(levels)@, old(prunes)@, 37),
    ensures
        built(final(levels)@, final(prunes)@, 38),
{
    let gates = vec![
        gate1(34, false, GateOp::Not, GateInput::Argument(0, 19)),
        gate2(114, false, GateOp::And, GateInput::Temporary(109), GateInput::Temporary(113)),
        gate2(115, false, GateOp::Nand, GateInput::Temporary(15), GateInput::Argument(0, 19)),
    ];
    assert(level_view(gates@) =~= level_37());
    let dropped: Vec<usize> = vec![113, 15, 109];
    assert(dropped@ =~= prune_37());
    levels.push(gates);
    prunes.push(dropped);
}

/// Appends level 38 and its prune list.
fn build_level_38(levels: &mut Vec<Vec<GateSpec>>, prunes: &mut Vec<Vec<usize>>)
    requires
        built(old(levels)@, old(prunes)@, 38),
    ensures
        built(final(levels)@, final(prunes)@, 39),
{
    let gates = vec![
        gate2(116, false, GateOp::Nand, GateInput::Argument(1, 19), GateInput::Temporary(34)),
        gate2(120, false, GateOp::Nand, GateInput::Temporary(114), GateInput::Temporary(115)),
    ];
    assert(level_view(gates@) =~= level_38());
    let dropped: Vec<usize> = vec![34, 115];
    assert(dropped@ =~= prune_38());
    levels.push(gates);
    prunes.push(dropped);
}

/// Appends level 39 and its prune list.
fn build_level_39(levels: &mut Vec<Vec<GateSpec>>, prunes: &mut Vec<Vec<usize>>)
    requires
        built(old(levels)@, old(prunes)@, 39),
    ensures
        built(final(levels)@, final(prunes)@, 40),
{
    let gates = vec![
        gate1(16, false, GateOp::Not, GateInput::Argument(1, 20)),
        gate2(119, false, GateOp::Xnor, GateInput::Argument(1, 20), GateInput::Argument(0, 20)),
        gate2(121, false, GateOp::And, GateInput::Temporary(116), GateInput::Temporary(120)),
    ];
    assert(level_view(gates@) =~= level_39());
    let dropped: Vec<usize> = vec![116, 120];
    assert(dropped@ =~= prune_39());
    levels.push(gates);
    prunes.push(dropped);
}

/// Appends level 40 and its prune list.
fn build_level_40(levels: &mut Vec<Vec<GateSpec>>, prunes: &mut Vec<Vec<usize>>)
    requires
        built(old(levels)@, old(prunes)@, 40),
    ensures
        built(final(levels)@, final(prunes)@, 41),
{
    let gates = vec![
        gate1(17, false, GateOp::Not, GateInput::Argument(1, 21)),
        gate2(118, false, GateOp::Nand, GateInput::Temporary(16), GateInput::Argument(0, 20)),
        gate2(122, false, GateOp::Nand, GateInput::Temporary(119), GateInput::Temporary(121)),
    ];
    assert(level_view(gates@) =~= level_40());
    let dropped: Vec<usize> = vec![16];
    assert(dropped@ =~= prune_40());
    levels.push(gates);
    prunes.push(dropped);
}

/// Appends level 41 and its prune list.
fn build_level_41(levels: &mut Vec<Vec<GateSpec>>, prunes: &mut Vec<Vec<usize>>)
    requires
        built(old(levels)@, old(prunes)@, 41),
    ensures
        built(final(levels)@, final(prunes)@, 42),
{
    let gates = vec![
        gate1(35, false, GateOp::Not, GateInput::Argument(0, 21)),
        gate2(123, false, GateOp::And, GateInput::Temporary(118), GateInput::Temporary(122)),
        gate2(124, false, GateOp::Nand, GateInput::Temporary(17), GateInput::Argument(0, 21)),
    ];
    assert(level_view(gates@) =~= level_41());
    let dropped: Vec<usize> = vec![118, 17, 122];
    assert(dropped@ =~= prune_41());
    levels.push(gates);
    prunes.push(dropped);
}

/// Appends level 42 and its prune list.
fn build_level_42(levels: &mut Vec<Vec<GateSpec>>, prunes: &mut Vec<Vec<usize>>)
    requires
        built(old(levels)@, old(prunes)@, 42),
    ensures
        built(final(levels)@, final(prunes)@, 43),
{
    let gates = vec![
        gate2(125, false, GateOp::Nand, GateInput::Argument(1, 21), GateInput::Temporary(35)),
        gate2(129, false, GateOp::Nand, GateInput::Temporary(123), GateInput::Temporary(124)),
    ];
    assert(level_view(gates@) =~= level_42());
    let dropped: Vec<usize> = vec![124, 35];
    assert(dropped@ =~= prune_42());
    levels.push(gates);
    prunes.push(dropped);
}

/// Appends level 43 and its prune list.
fn build_level_43(levels: &mut Vec<Vec<GateSpec>>, prunes: &mut Vec<Vec<usize>>)
    requires
        built(old(levels)@, old(prunes)@, 43),
    ensures
        built(final(levels)@, final(prunes)@, 44),
{
    let gates = vec![
        gate1(18, false, GateOp::Not, GateInput::Argument(1, 22)),
        gate2(128, false, GateOp::Xnor, GateInput::Argument(1, 22), GateInput::Argument(0, 22)),
        gate2(130, false, GateOp::And, GateInput::Temporary(125), GateInput::Temporary(129)),
    ];
    assert(level_view(gates@) =~= level_43());
    let dropped: Vec<usize> = vec![125, 129];
    assert(dropped@ =~= prune_43());
    levels.push(gates);
    prunes.push(dropped);
}

/// Appends level 44 and its prune list.
fn build_level_44(levels: &mut Vec<Vec<GateSpec>>, prunes: &mut Vec<Vec<usize>>)
    requires
        built(old(levels)@, old(prunes)@, 44),
    ensures
        built(final(levels)@, final(prunes)@, 45),
{
    let gates = vec![
        gate1(19, false, GateOp::Not, GateInput::Argument(1, 23)),
        gate2(127, false, GateOp::Nand, GateInput::Temporary(18), GateInput::Argument(0, 22)),
        gate2(131, false, GateOp::Nand, GateInput::Temporary(128), GateInput::Temporary(130)),
    ];
    assert(level_view(gates@) =~= level_44());
    let dropped: Vec<usize> = vec![18];
    assert(dropped@ =~= prune_44());
    levels.push(gates);
    prunes.push(dropped);
}

/// Appends level 45 and its prune list.
fn build_level_45(levels: &mut Vec<Vec<GateSpec>>, prunes: &mut Vec<Vec<usize>>)
    requires
        built(old(levels)@, old(prunes)@, 45),
    ensures
        built(final(levels)@, final(prunes)@, 46),
{
    let gates = vec![
        gate1(36, false, GateOp::Not, GateInput::Argument(0, 23)),
        gate2(132, false, GateOp::And, GateInput::Temporary(127), GateInput::Temporary(131)),
        gate2(133, false, GateOp::Nand, GateInput::Temporary(19), GateInput::Argument(0, 23)),
    ];
    assert(level_view(gates@) =~= level_45());
    let dropped: Vec<usize> = vec![127, 131, 19];
    assert(dropped@ =~= prune_45());
    levels.push(gates);
    prunes.push(dropped);
}

/// Appends level 46 and its prune list.
fn build_level_46(levels: &mut Vec<Vec<GateSpec>>, prunes: &mut Vec<Vec<usize>>)
    requires
        built(old(levels)@, old(prunes)@, 46),
    ensures
        built(final(levels)@, final(prunes)@, 47),
{
    let gates = vec![
        gate2(134, false, GateOp::Nand, GateInput::Argument(1, 23), GateInput::Temporary(36)),
        gate2(138, false, GateOp::Nand, GateInput::Temporary(132), GateInput::Temporary(133)),
    ];
    assert(level_view(gates@) =~= level_46());
    let dropped: Vec<usize> = vec![133, 36];
    assert(dropped@ =~= prune_46());
    levels.push(gates);
    prunes.push(dropped);
}

/// Appends level 47 and its prune list.
fn build_level_47(levels: &mut Vec<Vec<GateSpec>>, prunes: &mut Vec<Vec<usize>>)
    requires
        built(old(levels)@, old(prunes)@, 47),
    ensures
        built(final(levels)@, final(prunes)@, 48),
{
    let gates = vec![
        gate1(20, false, GateOp::Not, GateInput::Argument(1, 24)),
        gate2(137, false, GateOp::Xnor, GateInput::Argument(1, 24), GateInput::Argument(0, 24)),
        gate2(139, false, GateOp::And, GateInput::Temporary(134), GateInput::Temporary(138)),
    ];
    assert(level_view(gates@) =~= level_47());
    let dropped: Vec<usize> = vec![138, 134];
    assert(dropped@ =~= prune_47());
    levels.push(gates);
    prunes.push(dropped);
}

/// Appends level 48 and its prune list.
fn build_level_48(levels: &mut Vec<Vec<GateSpec>>, prunes: &mut Vec<Vec<usize>>)
    requires
        built(old(levels)@, old(prunes)@, 48),
    ensures
        built(final(levels)@, final(prunes)@, 49),
{
    let gates = vec![
        gate1(21, false, GateOp::Not, GateInput::Argument(1, 25)),
        gate2(136, false, GateOp::Nand, GateInput::Temporary(20), GateInput::Argument(0, 24)),
        gate2(140, false, GateOp::Nand, GateInput::Temporary(137), GateInput::Temporary(139)),
    ];
    assert(level_view(gates@) =~= level_48());
    let dropped: Vec<usize> = vec![20];
    assert(dropped@ =~= prune_48());
    levels.push(gates);
    prunes.push(dropped);
}

/// Appends level 49 and its prune list.
fn build_level_49(levels: &mut Vec<Vec<GateSpec>>, prunes: &mut Vec<Vec<usize>>)
    requires
        built(old(levels)@, old(prunes)@, 49),
    ensures
        built(final(levels)@, final(prunes)@, 50),
{
    let gates = vec![
        gate1(37, false, GateOp::Not, GateInput::Argument(0, 25)),
        gate2(141, false, GateOp::And, GateInput::Temporary(136), GateInput::Temporary(140)),
        gate2(142, false, GateOp::Nand, GateInput::Temporary(21), GateInput::Argument(0, 25)),
    ];
    assert(level_view(gates@) =~= level_49());
    let dropped: Vec<usize> = vec![136, 21, 140];
    assert(dropped@ =~= prune_49());
    levels.push(gates);
    prunes.push(dropped);
}

/// Appends level 50 and its prune list.
fn build_level_50(levels: &mut Vec<Vec<GateSpec>>, prunes: &mut Vec<Vec<usize>>)
    requires
        built(old(levels)@, old(prunes)@, 50),
    ensures
        built(final(levels)@, final(prunes)@, 51),
{
    let gates = vec![
        gate2(143, false, GateOp::Nand, GateInput::Argument(1, 25), GateInput::Temporary(37)),
        gate2(147, false, GateOp::Nand, GateInput::Temporary(141), GateInput::Temporary(142)),
    ];
    assert(level_view(gates@) =~= level_50());
    let dropped: Vec<usize> = vec![37, 142];
    assert(dropped@ =~= prune_50());
    levels.push(gates);
    prunes.push(dropped);
}

/// Appends level 51 and its prune list.
fn build_level_51(levels: &mut Vec<Vec<GateSpec>>, prunes: &mut Vec<Vec<usize>>)
    requires
        built(old(levels)@, old(prunes)@, 51),
    ensures
        built(final(levels)@, final(prunes)@, 52),
{
    let gates = vec![
        gate1(22, false, GateOp::Not, GateInput::Argument(1, 26)),
        gate2(146, false, GateOp::Xnor, GateInput::Argument(1, 26), GateInput::Argument(0, 26)),
        gate2(148, false, GateOp::And, GateInput::Temporary(143), GateInput::Temporary(147)),
    ];
    assert(level_view(gates@) =~= level_51());
    let dropped: Vec<usize> = vec![147, 143];
    assert(dropped@ =~= prune_51());
    levels.push(gates);
    prunes.push(dropped);
}

/// Appends level 52 and its prune list.
fn build_level_52(levels: &mut Vec<Vec<GateSpec>>, prunes: &mut Vec<Vec<usize>>)
    requires
        built(old(levels)@, old(prunes)@, 52),
    ensures
        built(final(levels)@, final(prunes)@, 53),
{
    let gates = vec![
        gate1(23, false, GateOp::Not, GateInput::Argument(1, 27)),
        gate2(145, false, GateOp::Nand, GateInput::Temporary(22), GateInput::Argument(0, 26)),
        gate2(149, false, GateOp::Nand, GateInput::Temporary(146), GateInput::Temporary(148)),
    ];
    assert(level_view(gates@) =~= level_52());
    let dropped: Vec<usize> = vec![22];
    assert(dropped@ =~= prune_52());
    levels.push(gates);
    prunes.push(dropped);
}

/// Appends level 53 and its prune list.
fn build_level_53(levels: &mut Vec<Vec<GateSpec>>, prunes: &mut Vec<Vec<usize>>)
    requires
        built(old(levels)@, old(prunes)@, 53),
    ensures
        built(final(levels)@, final(prunes)@, 54),
{
    let gates = vec![
        gate1(38, false, GateOp::Not, GateInput::Argument(0, 27)),
        gate2(150, false, GateOp::And, GateInput::Temporary(145), GateInput::Temporary(149)),
        gate2(151, false, GateOp::Nand, GateInput::Temporary(23), GateInput::Argument(0, 27)),
    ];
    assert(level_view(gates@) =~= level_53());
    let dropped: Vec<usize> = vec![149, 23, 145];
    assert(dropped@ =~= prune_53());
    levels.push(gates);
    prunes.push(dropped);
}

/// Appends level 54 and its prune list.
fn build_level_54(levels: &mut Vec<Vec<GateSpec>>, prunes: &mut Vec<Vec<usize>>)
    requires
        built(old(levels)@, old(prunes)@, 54),
    ensures
        built(final(levels)@, final(prunes)@, 55),
{
    let gates = vec![
        gate2(152, false, GateOp::Nand, GateInput::Argument(1, 27), GateInput::Temporary(38)),
        gate2(156, false, GateOp::Nand, GateInput::Temporary(150), GateInput::Temporary(151)),
    ];
    assert(level_view(gates@) =~= level_54());
    let dropped: Vec<usize> = vec![151, 38];
    assert(dropped@ =~= prune_54());
    levels.push(gates);
    prunes.push(dropped);
}

/// Appends level 55 and its prune list.
fn build_level_55(levels: &mut Vec<Vec<GateSpec>>, prunes: &mut Vec<Vec<usize>>)
    requires
        built(old(levels)@, old(prunes)@, 55),
    ensures
        built(final(levels)@, final(prunes)@, 56),
{
    let gates = vec![
        gate1(24, false, GateOp::Not, GateInput::Argument(1, 28)),
        gate2(155, false, GateOp::Xnor, GateInput::Argument(1, 28), GateInput::Argument(0, 28)),
        gate2(157, false, GateOp::And, GateInput::Temporary(152), GateInput::Temporary(156)),
    ];
    assert(level_view(gates@) =~= level_55());
    let dropped: Vec<usize> = vec![152, 156];
    assert(dropped@ =~= prune_55());
    levels.push(gates);
    prunes.push(dropped);
}

/// Appends level 56 and its prune list.
fn build_level_56(levels: &mut Vec<Vec<GateSpec>>, prunes: &mut Vec<Vec<usize>>)
    requires
        built(old(levels)@, old(prunes)@, 56),
    ensures
        built(final(levels)@, final(prunes)@, 57),
{
    let gates = vec![
        gate2(154, false, GateOp::Nand, GateInput::Temporary(24), GateInput::Argument(0, 28)),
        gate2(158, false, GateOp::Nand, GateInput::Temporary(155), GateInput::Temporary(157)),
    ];
    assert(level_view(gates@) =~= level_56());
    let dropped: Vec<usize> = vec![24];
    assert(dropped@ =~= prune_56());
    levels.push(gates);
    prunes.push(dropped);
}

/// Appends level 57 and its prune list.
fn build_level_57(levels: &mut Vec<Vec<GateSpec>>, prunes: &mut Vec<Vec<usize>>)
    requires
        built(old(levels)@, old(prunes)@, 57),
    ensures
        built(final(levels)@, final(prunes)@, 58),
{
    let gates = vec![
        gate1(25, false, GateOp::Not, GateInput::Argument(1, 29)),
        gate2(159, false, GateOp::Nand, GateInput::Temporary(154), GateInput::Temporary(158)),
        gate2(161, false, GateOp::Xnor, GateInput::Argument(1, 29), GateInput::Argument(0, 29)),
    ];
    assert(level_view(gates@) =~= level_57());
    let dropped: Vec<usize> = vec![158, 154];
    assert(dropped@ =~= prune_57());
    levels.push(gates);
    prunes.push(dropped);
}

/// Appends level 58 and its prune list.
fn build_level_58(levels: &mut Vec<Vec<GateSpec>>, prunes: &mut Vec<Vec<usize>>)
    requires
        built(old(levels)@, old(prunes)@, 58),
    ensures
        built(final(levels)@, final(prunes)@, 59),
{
    let gates = vec![
        gate2(160, false, GateOp::Nand, GateInput::Temporary(25), GateInput::Argument(0, 29)),
        gate2(162, false, GateOp::Nand, GateInput::Temporary(159), GateInput::Temporary(161)),
    ];
    assert(level_view(gates@) =~= level_58());
    let dropped: Vec<usize> = vec![25];
    assert(dropped@ =~= prune_58());
    levels.push(gates);
    prunes.push(dropped);
}

/// Appends level 59 and its prune list.
fn build_level_59(levels: &mut Vec<Vec<GateSpec>>, prunes: &mut Vec<Vec<usize>>)
    requires
        built(old(levels)@, old(prunes)@, 59),
    ensures
        built(final(levels)@, final(prunes)@, 60),
{
    let gates = vec![
        gate1(26, false, GateOp::Not, GateInput::Argument(1, 30)),
        gate2(163, false, GateOp::Nand, GateInput::Temporary(160), GateInput::Temporary(162)),
        gate2(165, false, GateOp::Xnor, GateInput::Argument(1, 30), GateInput::Argument(0, 30)),
    ];
    assert(level_view(gates@) =~= level_59());
    let dropped: Vec<usize> = vec![162, 160];
    assert(dropped@ =~= prune_59());
    levels.push(gates);
    prunes.push(dropped);
}

/// Appends level 60 and its prune list.
fn build_level_60(levels: &mut Vec<Vec<GateSpec>>, prunes: &mut Vec<Vec<usize>>)
    requires
        built(old(levels)@, old(prunes)@, 60),
    ensures
        built(final(levels)@, final(prunes)@, 61),
{
    let gates = vec![
        gate2(164, false, GateOp::Nand, GateInput::Temporary(26), GateInput::Argument(0, 30)),
        gate2(166, false, GateOp::Nand, GateInput::Temporary(163), GateInput::Temporary(165)),
    ];
    assert(level_view(gates@) =~= level_60());
    let dropped: Vec<usize> = vec![26];
    assert(dropped@ =~= prune_60());
    levels.push(gates);
    prunes.push(dropped);
}

/// Appends level 61 and its prune list.
fn build_level_61(levels: &mut Vec<Vec<GateSpec>>, prunes: &mut Vec<Vec<usize>>)
    requires
        built(old(levels)@, old(prunes)@, 61),
    ensures
        built(final(levels)@, final(prunes)@, 62),
{
    let gates = vec![
        gate2(90, false, GateOp::Xnor, GateInput::Argument(1, 13), GateInput::Argument(0, 13)),
        gate2(99, false, GateOp::Xnor, GateInput::Argument(1, 15), GateInput::Argument(0, 15)),
        gate2(108, false, GateOp::Xnor, GateInput::Argument(1, 17), GateInput::Argument(0, 17)),
        gate2(117, false, GateOp::Xnor, GateInput::Argument(1, 19), GateInput::Argument(0, 19)),
        gate2(126, false, GateOp::Xnor, GateInput::Argument(1, 21), GateInput::Argument(0, 21)),
        gate2(135, false, GateOp::Xnor, GateInput::Argument(1, 23), GateInput::Argument(0, 23)),
        gate2(144, false, GateOp::Xnor, GateInput::Argument(1, 25), GateInput::Argument(0, 25)),
        gate2(153, false, GateOp::Xnor, GateInput::Argument(1, 27), GateInput::Argument(0, 27)),
        gate2(167, false, GateOp::Nand, GateInput::Temporary(164), GateInput::Temporary(166)),
        gate2(168, false, GateOp::Xor, GateInput::Argument(1, 31), GateInput::Argument(0, 31)),
        gate2(169, false, GateOp::Xor, GateInput::Argument(1, 7), GateInput::Argument(0, 7)),
        gate2(170, false, GateOp::Xor, GateInput::Argument(1, 9), GateInput::Argument(0, 9)),
        gate2(171, false, GateOp::Xor, GateInput::Argument(1, 11), GateInput::Argument(0, 11)),
    ];
    assert(level_view(gates@) =~= level_61());
    let dropped: Vec<usize> = vec![166, 164];
    assert(dropped@ =~= prune_61());
    levels.push(gates);
    prunes.push(dropped);
}

/// Appends level 62 and its prune list.
fn build_level_62(levels: &mut Vec<Vec<GateSpec>>, prunes: &mut Vec<Vec<usize>>)
    requires
        built(old(levels)@, old(prunes)@, 62),
    ensures
        built(final(levels)@, final(prunes)@, 63),
{
    let gates = vec![
        gate2(0, true, GateOp::Xor, GateInput::Argument(1, 0), GateInput::Argument(0, 0)),
        gate2(13, true, GateOp::Xnor, GateInput::Temporary(87), GateInput::Temporary(90)),
        gate2(14, true, GateOp::Xor, GateInput::Temporary(92), GateInput::Temporary(94)),
        gate2(15, true, GateOp::Xnor, GateInput::Temporary(96), GateInput::Temporary(99)),
        gate2(16, true, GateOp::Xor, GateInput::Temporary(101), GateInput::Temporary(103)),
        gate2(17, true, GateOp::Xnor, GateInput::Temporary(105), GateInput::Temporary(108)),
        gate2(18, true, GateOp::Xor, GateInput::Temporary(110), GateInput::Temporary(112)),
        gate2(19, true, GateOp::Xnor, GateInput::Temporary(114), GateInput::Temporary(117)),
        gate2(20, true, GateOp::Xor, GateInput::Temporary(119), GateInput::Temporary(121)),
        gate2(21, true, GateOp::Xnor, GateInput::Temporary(123), GateInput::Temporary(126)),
        gate2(22, true, GateOp::Xor, GateInput::Temporary(128), GateInput::Temporary(130)),
        gate2(23, true, GateOp::Xnor, GateInput::Temporary(132), GateInput::Temporary(135)),
        gate2(24, true, GateOp::Xor, GateInput::Temporary(137), GateInput::Temporary(139)),
        gate2(25, true, GateOp::Xnor, GateInput::Temporary(141), GateInput::Temporary(144)),
        gate2(26, true, GateOp::Xor, GateInput::Temporary(146), GateInput::Temporary(148)),
        gate2(27, true, GateOp::Xnor, GateInput::Temporary(150), GateInput::Temporary(153)),
        gate2(28, true, GateOp::Xor, GateInput::Temporary(155), GateInput::Temporary(157)),
        gate2(29, true, GateOp::Xor, GateInput::Temporary(159), GateInput::Temporary(161)),
        gate2(30, true, GateOp::Xor, GateInput::Temporary(163), GateInput::Temporary(165)),
        gate2(31, true, GateOp::Xnor, GateInput::Temporary(167), GateInput::Temporary(168)),
        gate2(1, true, GateOp::Xor, GateInput::Temporary(39), GateInput::Temporary(59)),
        gate2(2, true, GateOp::Xor, GateInput::Temporary(61), GateInput::Temporary(62)),
        gate2(3, true, GateOp::Xor, GateInput::Temporary(64), GateInput::Temporary(65)),
        gate2(4, true, GateOp::Xor, GateInput::Temporary(67), GateInput::Temporary(68)),
        gate2(5, true, GateOp::Xor, GateInput::Temporary(70), GateInput::Temporary(71)),
        gate2(6, true, GateOp::Xor, GateInput::Temporary(53), GateInput::Temporary(73)),
        gate2(7, true, GateOp::Xnor, GateInput::Temporary(75), GateInput::Temporary(169)),
        gate2(8, true, GateOp::Xor, GateInput::Temporary(49), GateInput::Temporary(77)),
        gate2(9, true, GateOp::Xnor, GateInput::Temporary(79), GateInput::Temporary(170)),
        gate2(10, true, GateOp::Xor, GateInput::Temporary(45), GateInput::Temporary(81)),
        gate2(11, true, GateOp::Xnor, GateInput::Temporary(83), GateInput::Temporary(171)),
        gate2(12, true, GateOp::Xor, GateInput::Temporary(41), GateInput::Temporary(85)),
    ];
    assert(level_view(gates@) =~= level_62());
    let dropped: Vec<usize> = vec![121, 90, 169, 59, 87, 73, 135, 79, 144, 65, 96, 155, 45, 110, 62, 141, 85, 71, 161, 68, 130, 99, 153, 139, 77, 108, 170, 150, 119, 167, 105, 128, 159, 83, 114, 94, 49, 41, 103, 165, 148, 117, 171, 157, 64, 126, 75, 137, 168, 61, 92, 123, 146, 53, 132, 39, 70, 101, 163, 112, 81, 67];
    assert(dropped@ =~= prune_62());
    levels.push(gates);
    prunes.push(dropped);
}

/// Builds the subtractor: a circuit of two arguments of thirty-two bits each.
pub fn karma_sub_circuit() -> (circuit: CircuitDefinition)
    ensures
        circuit@ == karma_sub_netlist(),
{
    let mut levels: Vec<Vec<GateSpec>> = Vec::new();
    let mut prunes: Vec<Vec<usize>> = Vec::new();
    build_level_0(&mut levels, &mut prunes);
    build_level_1(&mut levels, &mut prunes);
    build_level_2(&mut levels, &mut prunes);
    build_level_3(&mut levels, &mut prunes);
    build_level_4(&mut levels, &mut prunes);
    build_level_5(&mut levels, &mut prunes);
    build_level_6(&mut levels, &mut prunes);
    build_level_7(&mut levels, &mut prunes);
    build_level_8(&mut levels, &mut prunes);
    build_level_9(&mut levels, &mut prunes);
    build_level_10(&mut levels, &mut prunes);
    build_level_11(&mut levels, &mut prunes);
    build_level_12(&mut levels, &mut prunes);
    build_level_13(&mut levels, &mut prunes);
    build_level_14(&mut levels, &mut prunes);
    build_level_15(&mut levels, &mut prunes);
    build_level_16(&mut levels, &mut prunes);
    build_level_17(&mut levels, &mut prunes);
    build_level_18(&mut levels, &mut prunes);
    build_level_19(&mut levels, &mut prunes);
    build_level_20(&mut levels, &mut prunes);
    build_level_21(&mut levels, &mut prunes);
    build_level_22(&mut levels, &mut prunes);
    build_level_23(&mut levels, &mut prunes);
    build_level_24(&mut levels, &mut prunes);
    build_level_25(&mut levels, &mut prunes);
    build_level_26(&mut levels, &mut prunes);
    build_level_27(&mut levels, &mut prunes);
    build_level_28(&mut levels, &mut prunes);
    build_level_29(&mut levels, &mut prunes);
    build_level_30(&mut levels, &mut prunes);
    build_level_31(&mut levels, &mut prunes);
    build_level_32(&mut levels, &mut prunes);
    build_level_33(&mut levels, &mut prunes);
    build_level_34(&mut levels, &mut prunes);
    build_level_35(&mut levels, &mut prunes);
    build_level_36(&mut levels, &mut prunes);
    build_level_37(&mut levels, &mut prunes);
    build_level_38(&mut levels, &mut prunes);
    build_level_39(&mut levels, &mut prunes);
    build_level_40(&mut levels, &mut prunes);
    build_level_41(&mut levels, &mut prunes);
    build_level_42(&mut levels, &mut prunes);
    build_level_43(&mut levels, &mut prunes);
    build_level_44(&mut levels, &mut prunes);
    build_level_45(&mut levels, &mut prunes);
    build_level_46(&mut levels, &mut prunes);
    build_level_47(&mut levels, &mut prunes);
    build_level_48(&mut levels, &mut prunes);
    build_level_49(&mut levels, &mut prunes);
    build_level_50(&mut levels, &mut prunes);
    build_level_51(&mut levels, &mut prunes);
    build_level_52(&mut levels, &mut prunes);
    build_level_53(&mut levels, &mut prunes);
    build_level_54(&mut levels, &mut prunes);
    build_level_55(&mut levels, &mut prunes);
    build_level_56(&mut levels, &mut prunes);
    build_level_57(&mut levels, &mut prunes);
    build_level_58(&mut levels, &mut prunes);
    build_level_59(&mut levels, &mut prunes);
    build_level_60(&mut levels, &mut prunes);
    build_level_61(&mut levels, &mut prunes);
    build_level_62(&mut levels, &mut prunes);
    let circuit = CircuitDefinition { levels, prune_after_level: prunes, output_count: 32 };
    assert(circuit@.levels =~= karma_sub_netlist().levels);
    assert(circuit@.prune_after_level =~= karma_sub_netlist().prune_after_level);
    circuit
}

/// The level that makes temporary `t`.
pub open spec fn made_at(t: usize) -> int {
    if t == 0 {
        7
    } else if t == 1 {
        9
    } else if t == 2 {
        11
    } else if t == 3 {
        13
    } else if t == 4 {
        15
    } else if t == 5 {
        17
    } else if t == 6 {
        19
    } else if t == 7 {
        21
    } else if t == 8 {
        23
    } else if t == 9 {
        24
    } else if t == 10 {
        27
    } else if t == 11 {
        28
    } else if t == 12 {
        31
    } else if t == 13 {
        32
    } else if t == 14 {
        35
    } else if t == 15 {
        36
    } else if t == 16 {
        39
    } else if t == 17 {
        40
    } else if t == 18 {
        43
    } else if t == 19 {
        44
    } else if t == 20 {
        47
    } else if t == 21 {
        48
    } else if t == 22 {
        51
    } else if t == 23 {
        52
    } else if t == 24 {
        55
    } else if t == 25 {
        57
    } else if t == 26 {
        59
    } else if t == 27 {
        0
    } else if t == 28 {
        12
    } else if t == 29 {
        16
    } else if t == 30 {
        20
    } else if t == 31 {
        25
    } else if t == 32 {
        29
    } else if t == 33 {
        33
    } else if t == 34 {
        37
    } else if t == 35 {
        41
    } else if t == 36 {
        45
    } else if t == 37 {
        49
    } else if t == 38 {
        53
    } else if t == 39 {
        1
    } else if t == 40 {
        24
    } else if t == 41 {
        23
    } else if t == 42 {
        22
    } else if t == 43 {
        21
    } else if t == 44 {
        20
    } else if t == 45 {
        19
    } else if t == 46 {
        18
    } else if t == 47 {
        17
    } else if t == 48 {
        16
    } else if t == 49 {
        15
    } else if t == 50 {
        14
    } else if t == 51 {
        13
    } else if t == 52 {
        12
    } else if t == 53 {
        11
    } else if t == 54 {
        10
    } else if t == 55 {
        8
    } else if t == 56 {
        6
    } else if t == 57 {
        4
    } else if t == 58 {
        2
    } else if t == 59 {
        1
    } else if t == 60 {
        2
    } else if t == 61 {
        3
    } else if t == 62 {
        3
    } else if t == 63 {
        4
    } else if t == 64 {
        5
    } else if t == 65 {
        5
    } else if t == 66 {
        6
    } else if t == 67 {
        7
    } else if t == 68 {
        7
    } else if t == 69 {
        8
    } else if t == 70 {
        9
    } else if t == 71 {
        9
    } else if t == 72 {
        10
    } else if t == 73 {
        11
    } else if t == 74 {
        12
    } else if t == 75 {
        13
    } else if t == 76 {
        14
    } else if t == 77 {
        15
    } else if t == 78 {
        16
    } else if t == 79 {
        17
    } else if t == 80 {
        18
    } else if t == 81 {
        19
    } else if t == 82 {
        20
    } else if t == 83 {
        21
    } else if t == 84 {
        22
    } else if t == 85 {
        23
    } else if t == 86 {
        24
    } else if t == 87 {
        25
    } else if t == 88 {
        25
    } else if t == 89 {
        26
    } else if t == 90 {
        61
    } else if t == 91 {
        28
    } else if t == 92 {
        27
    } else if t == 93 {
        26
    } else if t == 94 {
        27
    } else if t == 95 {
        28
    } else if t == 96 {
        29
    } else if t == 97 {
        29
    } else if t == 98 {
        30
    } else if t == 99 {
        61
    } else if t == 100 {
        32
    } else if t == 101 {
        31
    } else if t == 102 {
        30
    } else if t == 103 {
        31
    } else if t == 104 {
        32
    } else if t == 105 {
        33
    } else if t == 106 {
        33
    } else if t == 107 {
        34
    } else if t == 108 {
        61
    } else if t == 109 {
        36
    } else if t == 110 {
        35
    } else if t == 111 {
        34
    } else if t == 112 {
        35
    } else if t == 113 {
        36
    } else if t == 114 {
        37
    } else if t == 115 {
        37
    } else if t == 116 {
        38
    } else if t == 117 {
        61
    } else if t == 118 {
        40
    } else if t == 119 {
        39
    } else if t == 120 {
        38
    } else if t == 121 {
        39
    } else if t == 122 {
        40
    } else if t == 123 {
        41
    } else if t == 124 {
        41
    } else if t == 125 {
        42
    } else if t == 126 {
        61
    } else if t == 127 {
        44
    } else if t == 128 {
        43
    } else if t == 129 {
        42
    } else if t == 130 {
        43
    } else if t == 131 {
        44
    } else if t == 132 {
        45
    } else if t == 133 {
        45
    } else if t == 134 {
        46
    } else if t == 135 {
        61
    } else if t == 136 {
        48
    } else if t == 137 {
        47
    } else if t == 138 {
        46
    } else if t == 139 {
        47
    } else if t == 140 {
        48
    } else if t == 141 {
        49
    } else if t == 142 {
        49
    } else if t == 143 {
        50
    } else if t == 144 {
        61
    } else if t == 145 {
        52
    } else if t == 146 {
        51
    } else if t == 147 {
        50
    } else if t == 148 {
        51
    } else if t == 149 {
        52
    } else if t == 150 {
        53
    } else if t == 151 {
        53
    } else if t == 152 {
        54
    } else if t == 153 {
        61
    } else if t == 154 {
        56
    } else if t == 155 {
        55
    } else if t == 156 {
        54
    } else if t == 157 {
        55
    } else if t == 158 {
        56
    } else if t == 159 {
        57
    } else if t == 160 {
        58
    } else if t == 161 {
        57
    } else if t == 162 {
        58
    } else if t == 163 {
        59
    } else if t == 164 {
        60
    } else if t == 165 {
        59
    } else if t == 166 {
        60
    } else if t == 167 {
        61
    } else if t == 168 {
        61
    } else if t == 169 {
        61
    } else if t == 170 {
        61
    } else if t == 171 {
        61
    } else if t == 172 {
        1
    } else if t == 173 {
        3
    } else if t == 174 {
        5
    } else {
        0
    }
}

/// The place in its level of what makes temporary `t`.
pub open spec fn slot_of(t: usize) -> int {
    if t == 0 {
        0
    } else if t == 1 {
        0
    } else if t == 2 {
        0
    } else if t == 3 {
        0
    } else if t == 4 {
        0
    } else if t == 5 {
        0
    } else if t == 6 {
        0
    } else if t == 7 {
        0
    } else if t == 8 {
        0
    } else if t == 9 {
        0
    } else if t == 10 {
        0
    } else if t == 11 {
        0
    } else if t == 12 {
        0
    } else if t == 13 {
        0
    } else if t == 14 {
        0
    } else if t == 15 {
        0
    } else if t == 16 {
        0
    } else if t == 17 {
        0
    } else if t == 18 {
        0
    } else if t == 19 {
        0
    } else if t == 20 {
        0
    } else if t == 21 {
        0
    } else if t == 22 {
        0
    } else if t == 23 {
        0
    } else if t == 24 {
        0
    } else if t == 25 {
        0
    } else if t == 26 {
        0
    } else if t == 27 {
        0
    } else if t == 28 {
        0
    } else if t == 29 {
        0
    } else if t == 30 {
        0
    } else if t == 31 {
        0
    } else if t == 32 {
        0
    } else if t == 33 {
        0
    } else if t == 34 {
        0
    } else if t == 35 {
        0
    } else if t == 36 {
        0
    } else if t == 37 {
        0
    } else if t == 38 {
        0
    } else if t == 39 {
        1
    } else if t == 40 {
        1
    } else if t == 41 {
        1
    } else if t == 42 {
        0
    } else if t == 43 {
        1
    } else if t == 44 {
        1
    } else if t == 45 {
        1
    } else if t == 46 {
        0
    } else if t == 47 {
        1
    } else if t == 48 {
        1
    } else if t == 49 {
        1
    } else if t == 50 {
        0
    } else if t == 51 {
        1
    } else if t == 52 {
        1
    } else if t == 53 {
        1
    } else if t == 54 {
        0
    } else if t == 55 {
        0
    } else if t == 56 {
        0
    } else if t == 57 {
        0
    } else if t == 58 {
        0
    } else if t == 59 {
        2
    } else if t == 60 {
        1
    } else if t == 61 {
        1
    } else if t == 62 {
        2
    } else if t == 63 {
        1
    } else if t == 64 {
        1
    } else if t == 65 {
        2
    } else if t == 66 {
        1
    } else if t == 67 {
        1
    } else if t == 68 {
        2
    } else if t == 69 {
        1
    } else if t == 70 {
        1
    } else if t == 71 {
        2
    } else if t == 72 {
        1
    } else if t == 73 {
        2
    } else if t == 74 {
        2
    } else if t == 75 {
        2
    } else if t == 76 {
        1
    } else if t == 77 {
        2
    } else if t == 78 {
        2
    } else if t == 79 {
        2
    } else if t == 80 {
        1
    } else if t == 81 {
        2
    } else if t == 82 {
        2
    } else if t == 83 {
        2
    } else if t == 84 {
        1
    } else if t == 85 {
        2
    } else if t == 86 {
        2
    } else if t == 87 {
        1
    } else if t == 88 {
        2
    } else if t == 89 {
        0
    } else if t == 90 {
        0
    } else if t == 91 {
        1
    } else if t == 92 {
        1
    } else if t == 93 {
        1
    } else if t == 94 {
        2
    } else if t == 95 {
        2
    } else if t == 96 {
        1
    } else if t == 97 {
        2
    } else if t == 98 {
        0
    } else if t == 99 {
        1
    } else if t == 100 {
        1
    } else if t == 101 {
        1
    } else if t == 102 {
        1
    } else if t == 103 {
        2
    } else if t == 104 {
        2
    } else if t == 105 {
        1
    } else if t == 106 {
        2
    } else if t == 107 {
        0
    } else if t == 108 {
        2
    } else if t == 109 {
        1
    } else if t == 110 {
        1
    } else if t == 111 {
        1
    } else if t == 112 {
        2
    } else if t == 113 {
        2
    } else if t == 114 {
        1
    } else if t == 115 {
        2
    } else if t == 116 {
        0
    } else if t == 117 {
        3
    } else if t == 118 {
        1
    } else if t == 119 {
        1
    } else if t == 120 {
        1
    } else if t == 121 {
        2
    } else if t == 122 {
        2
    } else if t == 123 {
        1
    } else if t == 124 {
        2
    } else if t == 125 {
        0
    } else if t == 126 {
        4
    } else if t == 127 {
        1
    } else if t == 128 {
        1
    } else if t == 129 {
        1
    } else if t == 130 {
        2
    } else if t == 131 {
        2
    } else if t == 132 {
        1
    } else if t == 133 {
        2
    } else if t == 134 {
        0
    } else if t == 135 {
        5
    } else if t == 136 {
        1
    } else if t == 137 {
        1
    } else if t == 138 {
        1
    } else if t == 139 {
        2
    } else if t == 140 {
        2
    } else if t == 141 {
        1
    } else if t == 142 {
        2
    } else if t == 143 {
        0
    } else if t == 144 {
        6
    } else if t == 145 {
        1
    } else if t == 146 {
        1
    } else if t == 147 {
        1
    } else if t == 148 {
        2
    } else if t == 149 {
        2
    } else if t == 150 {
        1
    } else if t == 151 {
        2
    } else if t == 152 {
        0
    } else if t == 153 {
        7
    } else if t == 154 {
        0
    } else if t == 155 {
        1
    } else if t == 156 {
        1
    } else if t == 157 {
        2
    } else if t == 158 {
        1
    } else if t == 159 {
        1
    } else if t == 160 {
        0
    } else if t == 161 {
        2
    } else if t == 162 {
        1
    } else if t == 163 {
        1
    } else if t == 164 {
        0
    } else if t == 165 {
        2
    } else if t == 166 {
        1
    } else if t == 167 {
        8
    } else if t == 168 {
        9
    } else if t == 169 {
        10
    } else if t == 170 {
        11
    } else if t == 171 {
        12
    } else if t == 172 {
        0
    } else if t == 173 {
        0
    } else if t == 174 {
        0
    } else {
        0
    }
}

/// The level after which temporary `t` may be dropped.
pub open spec fn dropped_at(t: usize) -> int {
    if t == 0 {
        8
    } else if t == 1 {
        10
    } else if t == 2 {
        12
    } else if t == 3 {
        14
    } else if t == 4 {
        16
    } else if t == 5 {
        18
    } else if t == 6 {
        20
    } else if t == 7 {
        22
    } else if t == 8 {
        24
    } else if t == 9 {
        25
    } else if t == 10 {
        28
    } else if t == 11 {
        29
    } else if t == 12 {
        32
    } else if t == 13 {
        33
    } else if t == 14 {
        36
    } else if t == 15 {
        37
    } else if t == 16 {
        40
    } else if t == 17 {
        41
    } else if t == 18 {
        44
    } else if t == 19 {
        45
    } else if t == 20 {
        48
    } else if t == 21 {
        49
    } else if t == 22 {
        52
    } else if t == 23 {
        53
    } else if t == 24 {
        56
    } else if t == 25 {
        58
    } else if t == 26 {
        60
    } else if t == 27 {
        1
    } else if t == 28 {
        13
    } else if t == 29 {
        17
    } else if t == 30 {
        21
    } else if t == 31 {
        26
    } else if t == 32 {
        30
    } else if t == 33 {
        34
    } else if t == 34 {
        38
    } else if t == 35 {
        42
    } else if t == 36 {
        46
    } else if t == 37 {
        50
    } else if t == 38 {
        54
    } else if t == 39 {
        62
    } else if t == 40 {
        25
    } else if t == 41 {
        62
    } else if t == 42 {
        23
    } else if t == 43 {
        22
    } else if t == 44 {
        21
    } else if t == 45 {
        62
    } else if t == 46 {
        19
    } else if t == 47 {
        18
    } else if t == 48 {
        17
    } else if t == 49 {
        62
    } else if t == 50 {
        15
    } else if t == 51 {
        14
    } else if t == 52 {
        13
    } else if t == 53 {
        62
    } else if t == 54 {
        11
    } else if t == 55 {
        9
    } else if t == 56 {
        7
    } else if t == 57 {
        5
    } else if t == 58 {
        3
    } else if t == 59 {
        62
    } else if t == 60 {
        3
    } else if t == 61 {
        62
    } else if t == 62 {
        62
    } else if t == 63 {
        5
    } else if t == 64 {
        62
    } else if t == 65 {
        62
    } else if t == 66 {
        7
    } else if t == 67 {
        62
    } else if t == 68 {
        62
    } else if t == 69 {
        9
    } else if t == 70 {
        62
    } else if t == 71 {
        62
    } else if t == 72 {
        11
    } else if t == 73 {
        62
    } else if t == 74 {
        13
    } else if t == 75 {
        62
    } else if t == 76 {
        15
    } else if t == 77 {
        62
    } else if t == 78 {
        17
    } else if t == 79 {
        62
    } else if t == 80 {
        19
    } else if t == 81 {
        62
    } else if t == 82 {
        21
    } else if t == 83 {
        62
    } else if t == 84 {
        23
    } else if t == 85 {
        62
    } else if t == 86 {
        25
    } else if t == 87 {
        62
    } else if t == 88 {
        26
    } else if t == 89 {
        27
    } else if t == 90 {
        62
    } else if t == 91 {
        29
    } else if t == 92 {
        62
    } else if t == 93 {
        27
    } else if t == 94 {
        62
    } else if t == 95 {
        29
    } else if t == 96 {
        62
    } else if t == 97 {
        30
    } else if t == 98 {
        31
    } else if t == 99 {
        62
    } else if t == 100 {
        33
    } else if t == 101 {
        62
    } else if t == 102 {
        31
    } else if t == 103 {
        62
    } else if t == 104 {
        33
    } else if t == 105 {
        62
    } else if t == 106 {
        34
    } else if t == 107 {
        35
    } else if t == 108 {
        62
    } else if t == 109 {
        37
    } else if t == 110 {
        62
    } else if t == 111 {
        35
    } else if t == 112 {
        62
    } else if t == 113 {
        37
    } else if t == 114 {
        62
    } else if t == 115 {
        38
    } else if t == 116 {
        39
    } else if t == 117 {
        62
    } else if t == 118 {
        41
    } else if t == 119 {
        62
    } else if t == 120 {
        39
    } else if t == 121 {
        62
    } else if t == 122 {
        41
    } else if t == 123 {
        62
    } else if t == 124 {
        42
    } else if t == 125 {
        43
    } else if t == 126 {
        62
    } else if t == 127 {
        45
    } else if t == 128 {
        62
    } else if t == 129 {
        43
    } else if t == 130 {
        62
    } else if t == 131 {
        45
    } else if t == 132 {
        62
    } else if t == 133 {
        46
    } else if t == 134 {
        47
    } else if t == 135 {
        62
    } else if t == 136 {
        49
    } else if t == 137 {
        62
    } else if t == 138 {
        47
    } else if t == 139 {
        62
    } else if t == 140 {
        49
    } else if t == 141 {
        62
    } else if t == 142 {
        50
    } else if t == 143 {
        51
    } else if t == 144 {
        62
    } else if t == 145 {
        53
    } else if t == 146 {
        62
    } else if t == 147 {
        51
    } else if t == 148 {
        62
    } else if t == 149 {
        53
    } else if t == 150 {
        62
    } else if t == 151 {
        54
    } else if t == 152 {
        55
    } else if t == 153 {
        62
    } else if t == 154 {
        57
    } else if t == 155 {
        62
    } else if t == 156 {
        55
    } else if t == 157 {
        62
    } else if t == 158 {
        57
    } else if t == 159 {
        62
    } else if t == 160 {
        59
    } else if t == 161 {
        62
    } else if t == 162 {
        59
    } else if t == 163 {
        62
    } else if t == 164 {
        61
    } else if t == 165 {
        62
    } else if t == 166 {
        61
    } else if t == 167 {
        62
    } else if t == 168 {
        62
    } else if t == 169 {
        62
    } else if t == 170 {
        62
    } else if t == 171 {
        62
    } else if t == 172 {
        2
    } else if t == 173 {
        4
    } else if t == 174 {
        6
    } else {
        63
    }
}

/// The level that fills output slot `o`.
pub open spec fn written_at(o: usize) -> int {
    if o == 0 {
        62
    } else if o == 1 {
        62
    } else if o == 2 {
        62
    } else if o == 3 {
        62
    } else if o == 4 {
        62
    } else if o == 5 {
        62
    } else if o == 6 {
        62
    } else if o == 7 {
        62
    } else if o == 8 {
        62
    } else if o == 9 {
        62
    } else if o == 10 {
        62
    } else if o == 11 {
        62
    } else if o == 12 {
        62
    } else if o == 13 {
        62
    } else if o == 14 {
        62
    } else if o == 15 {
        62
    } else if o == 16 {
        62
    } else if o == 17 {
        62
    } else if o == 18 {
        62
    } else if o == 19 {
        62
    } else if o == 20 {
        62
    } else if o == 21 {
        62
    } else if o == 22 {
        62
    } else if o == 23 {
        62
    } else if o == 24 {
        62
    } else if o == 25 {
        62
    } else if o == 26 {
        62
    } else if o == 27 {
        62
    } else if o == 28 {
        62
    } else if o == 29 {
        62
    } else if o == 30 {
        62
    } else if o == 31 {
        62
    } else {
        0
    }
}

/// The place in its level of what fills output slot `o`.
pub open spec fn out_slot_of(o: usize) -> int {
    if o == 0 {
        0
    } else if o == 1 {
        20
    } else if o == 2 {
        21
    } else if o == 3 {
        22
    } else if o == 4 {
        23
    } else if o == 5 {
        24
    } else if o == 6 {
        25
    } else if o == 7 {
        26
    } else if o == 8 {
        27
    } else if o == 9 {
        28
    } else if o == 10 {
        29
    } else if o == 11 {
        30
    } else if o == 12 {
        31
    } else if o == 13 {
        1
    } else if o == 14 {
        2
    } else if o == 15 {
        3
    } else if o == 16 {
        4
    } else if o == 17 {
        5
    } else if o == 18 {
        6
    } else if o == 19 {
        7
    } else if o == 20 {
        8
    } else if o == 21 {
        9
    } else if o == 22 {
        10
    } else if o == 23 {
        11
    } else if o == 24 {
        12
    } else if o == 25 {
        13
    } else if o == 26 {
        14
    } else if o == 27 {
        15
    } else if o == 28 {
        16
    } else if o == 29 {
        17
    } else if o == 30 {
        18
    } else if o == 31 {
        19
    } else {
        0
    }
}

/// Where the wires of the netlist are made.
pub open spec fn schedule() -> Schedule {
    Schedule {
        made: |t: usize| made_at(t),
        slot: |t: usize| slot_of(t),
        dropped: |t: usize| dropped_at(t),
        written: |o: usize| written_at(o),
        out_slot: |o: usize| out_slot_of(o),
    }
}

/// Level 0 keeps to the schedule.
proof fn level_0_scheduled(arg_lens: Seq<nat>)
    requires
        fits(arg_lens),
    ensures
        karma_sub_netlist().level_scheduled(0, arg_lens, schedule()),
{
    assert(karma_sub_netlist().levels[0] == level_0());
    assert(karma_sub_netlist().prune_after_level[0] == Seq::<usize>::empty());
}

/// Level 1 keeps to the schedule.
proof fn level_1_scheduled(arg_lens: Seq<nat>)
    requires
        fits(arg_lens),
    ensures
        karma_sub_netlist().level_scheduled(1, arg_lens, schedule()),
{
    assert(karma_sub_netlist().levels[1] == level_1());
    assert(karma_sub_netlist().prune_after_level[1] == prune_1());
    assert(karma_sub_netlist().levels[0] == level_0());
}

/// Level 2 keeps to the schedule.
proof fn level_2_scheduled(arg_lens: Seq<nat>)
    requires
        fits(arg_lens),
    ensures
        karma_sub_netlist().level_scheduled(2, arg_lens, schedule()),
{
    assert(karma_sub_netlist().levels[2] == level_2());
    assert(karma_sub_netlist().prune_after_level[2] == prune_2());
    assert(karma_sub_netlist().levels[1] == level_1());
}

/// Level 3 keeps to the schedule.
proof fn level_3_scheduled(arg_lens: Seq<nat>)
    requires
        fits(arg_lens),
    ensures
        karma_sub_netlist().level_scheduled(3, arg_lens, schedule()),
{
    assert(karma_sub_netlist().levels[3] == level_3());
    assert(karma_sub_netlist().prune_after_level[3] == prune_3());
    assert(karma_sub_netlist().levels[2] == level_2());
}

/// Level 4 keeps to the schedule.
proof fn level_4_scheduled(arg_lens: Seq<nat>)
    requires
        fits(arg_lens),
    ensures
        karma_sub_netlist().level_scheduled(4, arg_lens, schedule()),
{
    assert(karma_sub_netlist().levels[4] == level_4());
    assert(karma_sub_netlist().prune_after_level[4] == prune_4());
    assert(karma_sub_netlist().levels[3] == level_3());
}

/// Level 5 keeps to the schedule.
proof fn level_5_scheduled(arg_lens: Seq<nat>)
    requires
        fits(arg_lens),
    ensures
        karma_sub_netlist().level_scheduled(5, arg_lens, schedule()),
{
    assert(karma_sub_netlist().levels[5] == level_5());
    assert(karma_sub_netlist().prune_after_level[5] == prune_5());
    assert(karma_sub_netlist().levels[4] == level_4());
}

/// Level 6 keeps to the schedule.
proof fn level_6_scheduled(arg_lens: Seq<nat>)
    requires
        fits(arg_lens),
    ensures
        karma_sub_netlist().level_scheduled(6, arg_lens, schedule()),
{
    assert(karma_sub_netlist().levels[6] == level_6());
    assert(karma_sub_netlist().prune_after_level[6] == prune_6());
    assert(karma_sub_netlist().levels[5] == level_5());
}

/// Level 7 keeps to the schedule.
proof fn level_7_scheduled(arg_lens: Seq<nat>)
    requires
        fits(arg_lens),
    ensures
        karma_sub_netlist().level_scheduled(7, arg_lens, schedule()),
{
    assert(karma_sub_netlist().levels[7] == level_7());
    assert(karma_sub_netlist().prune_after_level[7] == prune_7());
    assert(karma_sub_netlist().levels[6] == level_6());
}

/// Level 8 keeps to the schedule.
proof fn level_8_scheduled(arg_lens: Seq<nat>)
    requires
        fits(arg_lens),
    ensures
        karma_sub_netlist().level_scheduled(8, arg_lens, schedule()),
{
    assert(karma_sub_netlist().levels[8] == level_8());
    assert(karma_sub_netlist().prune_after_level[8] == prune_8());
    assert(karma_sub_netlist().levels[7] == level_7());
}

/// Level 9 keeps to the schedule.
proof fn level_9_scheduled(arg_lens: Seq<nat>)
    requires
        fits(arg_lens),
    ensures
        karma_sub_netlist().level_scheduled(9, arg_lens, schedule()),
{
    assert(karma_sub_netlist().levels[9] == level_9());
    assert(karma_sub_netlist().prune_after_level[9] == prune_9());
    assert(karma_sub_netlist().levels[8] == level_8());
}

/// Level 10 keeps to the schedule.
proof fn level_10_scheduled(arg_lens: Seq<nat>)
    requires
        fits(arg_lens),
    ensures
        karma_sub_netlist().level_scheduled(10, arg_lens, schedule()),
{
    assert(karma_sub_netlist().levels[10] == level_10());
    assert(karma_sub_netlist().prune_after_level[10] == prune_10());
    assert(karma_sub_netlist().levels[9] == level_9());
}

/// Level 11 keeps to the schedule.
proof fn level_11_scheduled(arg_lens: Seq<nat>)
    requires
        fits(arg_lens),
    ensures
        karma_sub_netlist().level_scheduled(11, arg_lens, schedule()),
{
    assert(karma_sub_netlist().levels[11] == level_11());
    assert(karma_sub_netlist().prune_after_level[11] == prune_11());
    assert(karma_sub_netlist().levels[10] == level_10());
}

/// Level 12 keeps to the schedule.
proof fn level_12_scheduled(arg_lens: Seq<nat>)
    requires
        fits(arg_lens),
    ensures
        karma_sub_netlist().level_scheduled(12, arg_lens, schedule()),
{
    assert(karma_sub_netlist().levels[12] == level_12());
    assert(karma_sub_netlist().prune_after_level[12] == prune_12());
    assert(karma_sub_netlist().levels[11] == level_11());
}

/// Level 13 keeps to the schedule.
proof fn level_13_scheduled(arg_lens: Seq<nat>)
    requires
        fits(arg_lens),
    ensures
        karma_sub_netlist().level_scheduled(13, arg_lens, schedule()),
{
    assert(karma_sub_netlist().levels[13] == level_13());
    assert(karma_sub_netlist().prune_after_level[13] == prune_13());
    assert(karma_sub_netlist().levels[12] == level_12());
}

/// Level 14 keeps to the schedule.
proof fn level_14_scheduled(arg_lens: Seq<nat>)
    requires
        fits(arg_lens),
    ensures
        karma_sub_netlist().level_scheduled(14, arg_lens, schedule()),
{
    assert(karma_sub_netlist().levels[14] == level_14());
    assert(karma_sub_netlist().prune_after_level[14] == prune_14());
    assert(karma_sub_netlist().levels[13] == level_13());
}

/// Level 15 keeps to the schedule.
proof fn level_15_scheduled(arg_lens: Seq<nat>)
    requires
        fits(arg_lens),
    ensures
        karma_sub_netlist().level_scheduled(15, arg_lens, schedule()),
{
    assert(karma_sub_netlist().levels[15] == level_15());
    assert(karma_sub_netlist().prune_after_level[15] == prune_15());
    assert(karma_sub_netlist().levels[14] == level_14());
}

/// Level 16 keeps to the schedule.
proof fn level_16_scheduled(arg_lens: Seq<nat>)
    requires
        fits(arg_lens),
    ensures
        karma_sub_netlist().level_scheduled(16, arg_lens, schedule()),
{
    assert(karma_sub_netlist().levels[16] == level_16());
    assert(karma_sub_netlist().prune_after_level[16] == prune_16());
    assert(karma_sub_netlist().levels[15] == level_15());
}

/// Level 17 keeps to the schedule.
proof fn level_17_scheduled(arg_lens: Seq<nat>)
    requires
        fits(arg_lens),
    ensures
        karma_sub_netlist().level_scheduled(17, arg_lens, schedule()),
{
    assert(karma_sub_netlist().levels[17] == level_17());
    assert(karma_sub_netlist().prune_after_level[17] == prune_17());
    assert(karma_sub_netlist().levels[16] == level_16());
}

/// Level 18 keeps to the schedule.
proof fn level_18_scheduled(arg_lens: Seq<nat>)
    requires
        fits(arg_lens),
    ensures
        karma_sub_netlist().level_scheduled(18, arg_lens, schedule()),
{
    assert(karma_sub_netlist().levels[18] == level_18());
    assert(karma_sub_netlist().prune_after_level[18] == prune_18());
    assert(karma_sub_netlist().levels[17] == level_17());
}

/// Level 19 keeps to the schedule.
proof fn level_19_scheduled(arg_lens: Seq<nat>)
    requires
        fits(arg_lens),
    ensures
        karma_sub_netlist().level_scheduled(19, arg_lens, schedule()),
{
    assert(karma_sub_netlist().levels[19] == level_19());
    assert(karma_sub_netlist().prune_after_level[19] == prune_19());
    assert(karma_sub_netlist().levels[18] == level_18());
}

/// Level 20 keeps to the schedule.
proof fn level_20_scheduled(arg_lens: Seq<nat>)
    requires
        fits(arg_lens),
    ensures
        karma_sub_netlist().level_scheduled(20, arg_lens, schedule()),
{
    assert(karma_sub_netlist().levels[20] == level_20());
    assert(karma_sub_netlist().prune_after_level[20] == prune_20());
    assert(karma_sub_netlist().levels[19] == level_19());
}

/// Level 21 keeps to the schedule.
proof fn level_21_scheduled(arg_lens: Seq<nat>)
    requires
        fits(arg_lens),
    ensures
        karma_sub_netlist().level_scheduled(21, arg_lens, schedule()),
{
    assert(karma_sub_netlist().levels[21] == level_21());
    assert(karma_sub_netlist().prune_after_level[21] == prune_21());
    assert(karma_sub_netlist().levels[20] == level_20());
}

/// Level 22 keeps to the schedule.
proof fn level_22_scheduled(arg_lens: Seq<nat>)
    requires
        fits(arg_lens),
    ensures
        karma_sub_netlist().level_scheduled(22, arg_lens, schedule()),
{
    assert(karma_sub_netlist().levels[22] == level_22());
    assert(karma_sub_netlist().prune_after_level[22] == prune_22());
    assert(karma_sub_netlist().levels[21] == level_21());
}

/// Level 23 keeps to the schedule.
proof fn level_23_scheduled(arg_lens: Seq<nat>)
    requires
        fits(arg_lens),
    ensures
        karma_sub_netlist().level_scheduled(23, arg_lens, schedule()),
{
    assert(karma_sub_netlist().levels[23] == level_23());
    assert(karma_sub_netlist().prune_after_level[23] == prune_23());
    assert(karma_sub_netlist().levels[22] == level_22());
}

/// Level 24 keeps to the schedule.
proof fn level_24_scheduled(arg_lens: Seq<nat>)
    requires
        fits(arg_lens),
    ensures
        karma_sub_netlist().level_scheduled(24, arg_lens, schedule()),
{
    assert(karma_sub_netlist().levels[24] == level_24());
    assert(karma_sub_netlist().prune_after_level[24] == prune_24());
    assert(karma_sub_netlist().levels[23] == level_23());
}

/// Level 25 keeps to the schedule.
proof fn level_25_scheduled(arg_lens: Seq<nat>)
    requires
        fits(arg_lens),
    ensures
        karma_sub_netlist().level_scheduled(25, arg_lens, schedule()),
{
    assert(karma_sub_netlist().levels[25] == level_25());
    assert(karma_sub_netlist().prune_after_level[25] == prune_25());
    assert(karma_sub_netlist().levels[24] == level_24());
}

/// Level 26 keeps to the schedule.
proof fn level_26_scheduled(arg_lens: Seq<nat>)
    requires
        fits(arg_lens),
    ensures
        karma_sub_netlist().level_scheduled(26, arg_lens, schedule()),
{
    assert(karma_sub_netlist().levels[26] == level_26());
    assert(karma_sub_netlist().prune_after_level[26] == prune_26());
    assert(karma_sub_netlist().levels[25] == level_25());
}

/// Level 27 keeps to the schedule.
proof fn level_27_scheduled(arg_lens: Seq<nat>)
    requires
        fits(arg_lens),
    ensures
        karma_sub_netlist().level_scheduled(27, arg_lens, schedule()),
{
    assert(karma_sub_netlist().levels[27] == level_27());
    assert(karma_sub_netlist().prune_after_level[27] == prune_27());
    assert(karma_sub_netlist().levels[26] == level_26());
}

/// Level 28 keeps to the schedule.
proof fn level_28_scheduled(arg_lens: Seq<nat>)
    requires
        fits(arg_lens),
    ensures
        karma_sub_netlist().level_scheduled(28, arg_lens, schedule()),
{
    assert(karma_sub_netlist().levels[28] == level_28());
    assert(karma_sub_netlist().prune_after_level[28] == prune_28());
    assert(karma_sub_netlist().levels[27] == level_27());
}

/// Level 29 keeps to the schedule.
proof fn level_29_scheduled(arg_lens: Seq<nat>)
    requires
        fits(arg_lens),
    ensures
        karma_sub_netlist().level_scheduled(29, arg_lens, schedule()),
{
    assert(karma_sub_netlist().levels[29] == level_29());
    assert(karma_sub_netlist().prune_after_level[29] == prune_29());
    assert(karma_sub_netlist().levels[28] == level_28());
}

/// Level 30 keeps to the schedule.
proof fn level_30_scheduled(arg_lens: Seq<nat>)
    requires
        fits(arg_lens),
    ensures
        karma_sub_netlist().level_scheduled(30, arg_lens, schedule()),
{
    assert(karma_sub_netlist().levels[30] == level_30());
    assert(karma_sub_netlist().prune_after_level[30] == prune_30());
    assert(karma_sub_netlist().levels[29] == level_29());
}

/// Level 31 keeps to the schedule.
proof fn level_31_scheduled(arg_lens: Seq<nat>)
    requires
        fits(arg_lens),
    ensures
        karma_sub_netlist().level_scheduled(31, arg_lens, schedule()),
{
    assert(karma_sub_netlist().levels[31] == level_31());
    assert(karma_sub_netlist().prune_after_level[31] == prune_31());
    assert(karma_sub_netlist().levels[30] == level_30());
}

/// Level 32 keeps to the schedule.
proof fn level_32_scheduled(arg_lens: Seq<nat>)
    requires
        fits(arg_lens),
    ensures
        karma_sub_netlist().level_scheduled(32, arg_lens, schedule()),
{
    assert(karma_sub_netlist().levels[32] == level_32());
    assert(karma_sub_netlist().prune_after_level[32] == prune_32());
    assert(karma_sub_netlist().levels[31] == level_31());
}

/// Level 33 keeps to the schedule.
proof fn level_33_scheduled(arg_lens: Seq<nat>)
    requires
        fits(arg_lens),
    ensures
        karma_sub_netlist().level_scheduled(33, arg_lens, schedule()),
{
    assert(karma_sub_netlist().levels[33] == level_33());
    assert(karma_sub_netlist().prune_after_level[33] == prune_33());
    assert(karma_sub_netlist().levels[32] == level_32());
}

/// Level 34 keeps to the schedule.
proof fn level_34_scheduled(arg_lens: Seq<nat>)
    requires
        fits(arg_lens),
    ensures
        karma_sub_netlist().level_scheduled(34, arg_lens, schedule()),
{
    assert(karma_sub_netlist().levels[34] == level_34());
    assert(karma_sub_netlist().prune_after_level[34] == prune_34());
    assert(karma_sub_netlist().levels[33] == level_33());
}

/// Level 35 keeps to the schedule.
proof fn level_35_scheduled(arg_lens: Seq<nat>)
    requires
        fits(arg_lens),
    ensures
        karma_sub_netlist().level_scheduled(35, arg_lens, schedule()),
{
    assert(karma_sub_netlist().levels[35] == level_35());
    assert(karma_sub_netlist().prune_after_level[35] == prune_35());
    assert(karma_sub_netlist().levels[34] == level_34());
}

/// Level 36 keeps to the schedule.
proof fn level_36_scheduled(arg_lens: Seq<nat>)
    requires
        fits(arg_lens),
    ensures
        karma_sub_netlist().level_scheduled(36, arg_lens, schedule()),
{
    assert(karma_sub_netlist().levels[36] == level_36());
    assert(karma_sub_netlist().prune_after_level[36] == prune_36());
    assert(karma_sub_netlist().levels[35] == level_35());
}

/// Level 37 keeps to the schedule.
proof fn level_37_scheduled(arg_lens: Seq<nat>)
    requires
        fits(arg_lens),
    ensures
        karma_sub_netlist().level_scheduled(37, arg_lens, schedule()),
{
    assert(karma_sub_netlist().levels[37] == level_37());
    assert(karma_sub_netlist().prune_after_level[37] == prune_37());
    assert(karma_sub_netlist().levels[36] == level_36());
}

/// Level 38 keeps to the schedule.
proof fn level_38_scheduled(arg_lens: Seq<nat>)
    requires
        fits(arg_lens),
    ensures
        karma_sub_netlist().level_scheduled(38, arg_lens, schedule()),
{
    assert(karma_sub_netlist().levels[38] == level_38());
    assert(karma_sub_netlist().prune_after_level[38] == prune_38());
    assert(karma_sub_netlist().levels[37] == level_37());
}

/// Level 39 keeps to the schedule.
proof fn level_39_scheduled(arg_lens: Seq<nat>)
    requires
        fits(arg_lens),
    ensures
        karma_sub_netlist().level_scheduled(39, arg_lens, schedule()),
{
    assert(karma_sub_netlist().levels[39] == level_39());
    assert(karma_sub_netlist().prune_after_level[39] == prune_39());
    assert(karma_sub_netlist().levels[38] == level_38());
}

/// Level 40 keeps to the schedule.
proof fn level_40_scheduled(arg_lens: Seq<nat>)
    requires
        fits(arg_lens),
    ensures
        karma_sub_netlist().level_scheduled(40, arg_lens, schedule()),
{
    assert(karma_sub_netlist().levels[40] == level_40());
    assert(karma_sub_netlist().prune_after_level[40] == prune_40());
    assert(karma_sub_netlist().levels[39] == level_39());
}

/// Level 41 keeps to the schedule.
proof fn level_41_scheduled(arg_lens: Seq<nat>)
    requires
        fits(arg_lens),
    ensures
        karma_sub_netlist().level_scheduled(41, arg_lens, schedule()),
{
    assert(karma_sub_netlist().levels[41] == level_41());
    assert(karma_sub_netlist().prune_after_level[41] == prune_41());
    assert(karma_sub_netlist().levels[40] == level_40());
}

/// Level 42 keeps to the schedule.
proof fn level_42_scheduled(arg_lens: Seq<nat>)
    requires
        fits(arg_lens),
    ensures
        karma_sub_netlist().level_scheduled(42, arg_lens, schedule()),
{
    assert(karma_sub_netlist().levels[42] == level_42());
    assert(karma_sub_netlist().prune_after_level[42] == prune_42());
    assert(karma_sub_netlist().levels[41] == level_41());
}

/// Level 43 keeps to the schedule.
proof fn level_43_scheduled(arg_lens: Seq<nat>)
    requires
        fits(arg_lens),
    ensures
        karma_sub_netlist().level_scheduled(43, arg_lens, schedule()),
{
    assert(karma_sub_netlist().levels[43] == level_43());
    assert(karma_sub_netlist().prune_after_level[43] == prune_43());
    assert(karma_sub_netlist().levels[42] == level_42());
}

/// Level 44 keeps to the schedule.
proof fn level_44_scheduled(arg_lens: Seq<nat>)
    requires
        fits(arg_lens),
    ensures
        karma_sub_netlist().level_scheduled(44, arg_lens, schedule()),
{
    assert(karma_sub_netlist().levels[44] == level_44());
    assert(karma_sub_netlist().prune_after_level[44] == prune_44());
    assert(karma_sub_netlist().levels[43] == level_43());
}

/// Level 45 keeps to the schedule.
proof fn level_45_scheduled(arg_lens: Seq<nat>)
    requires
        fits(arg_lens),
    ensures
        karma_sub_netlist().level_scheduled(45, arg_lens, schedule()),
{
    assert(karma_sub_netlist().levels[45] == level_45());
    assert(karma_sub_netlist().prune_after_level[45] == prune_45());
    assert(karma_sub_netlist().levels[44] == level_44());
}

/// Level 46 keeps to the schedule.
proof fn level_46_scheduled(arg_lens: Seq<nat>)
    requires
        fits(arg_lens),
    ensures
        karma_sub_netlist().level_scheduled(46, arg_lens, schedule()),
{
    assert(karma_sub_netlist().levels[46] == level_46());
    assert(karma_sub_netlist().prune_after_level[46] == prune_46());
    assert(karma_sub_netlist().levels[45] == level_45());
}

/// Level 47 keeps to the schedule.
proof fn level_47_scheduled(arg_lens: Seq<nat>)
    requires
        fits(arg_lens),
    ensures
        karma_sub_netlist().level_scheduled(47, arg_lens, schedule()),
{
    assert(karma_sub_netlist().levels[47] == level_47());
    assert(karma_sub_netlist().prune_after_level[47] == prune_47());
    assert(karma_sub_netlist().levels[46] == level_46());
}

/// Level 48 keeps to the schedule.
proof fn level_48_scheduled(arg_lens: Seq<nat>)
    requires
        fits(arg_lens),
    ensures
        karma_sub_netlist().level_scheduled(48, arg_lens, schedule()),
{
    assert(karma_sub_netlist().levels[48] == level_48());
    assert(karma_sub_netlist().prune_after_level[48] == prune_48());
    assert(karma_sub_netlist().levels[47] == level_47());
}

/// Level 49 keeps to the schedule.
proof fn level_49_scheduled(arg_lens: Seq<nat>)
    requires
        fits(arg_lens),
    ensures
        karma_sub_netlist().level_scheduled(49, arg_lens, schedule()),
{
    assert(karma_sub_netlist().levels[49] == level_49());
    assert(karma_sub_netlist().prune_after_level[49] == prune_49());
    assert(karma_sub_netlist().levels[48] == level_48());
}

/// Level 50 keeps to the schedule.
proof fn level_50_scheduled(arg_lens: Seq<nat>)
    requires
        fits(arg_lens),
    ensures
        karma_sub_netlist().level_scheduled(50, arg_lens, schedule()),
{
    assert(karma_sub_netlist().levels[50] == level_50());
    assert(karma_sub_netlist().prune_after_level[50] == prune_50());
    assert(karma_sub_netlist().levels[49] == level_49());
}

/// Level 51 keeps to the schedule.
proof fn level_51_scheduled(arg_lens: Seq<nat>)
    requires
        fits(arg_lens),
    ensures
        karma_sub_netlist().level_scheduled(51, arg_lens, schedule()),
{
    assert(karma_sub_netlist().levels[51] == level_51());
    assert(karma_sub_netlist().prune_after_level[51] == prune_51());
    assert(karma_sub_netlist().levels[50] == level_50());
}

/// Level 52 keeps to the schedule.
proof fn level_52_scheduled(arg_lens: Seq<nat>)
    requires
        fits(arg_lens),
    ensures
        karma_sub_netlist().level_scheduled(52, arg_lens, schedule()),
{
    assert(karma_sub_netlist().levels[52] == level_52());
    assert(karma_sub_netlist().prune_after_level[52] == prune_52());
    assert(karma_sub_netlist().levels[51] == level_51());
}

/// Level 53 keeps to the schedule.
proof fn level_53_scheduled(arg_lens: Seq<nat>)
    requires
        fits(arg_lens),
    ensures
        karma_sub_netlist().level_scheduled(53, arg_lens, schedule()),
{
    assert(karma_sub_netlist().levels[53] == level_53());
    assert(karma_sub_netlist().prune_after_level[53] == prune_53());
    assert(karma_sub_netlist().levels[52] == level_52());
}

/// Level 54 keeps to the schedule.
proof fn level_54_scheduled(arg_lens: Seq<nat>)
    requires
        fits(arg_lens),
    ensures
        karma_sub_netlist().level_scheduled(54, arg_lens, schedule()),
{
    assert(karma_sub_netlist().levels[54] == level_54());
    assert(karma_sub_netlist().prune_after_level[54] == prune_54());
    assert(karma_sub_netlist().levels[53] == level_53());
}

/// Level 55 keeps to the schedule.
proof fn level_55_scheduled(arg_lens: Seq<nat>)
    requires
        fits(arg_lens),
    ensures
        karma_sub_netlist().level_scheduled(55, arg_lens, schedule()),
{
    assert(karma_sub_netlist().levels[55] == level_55());
    assert(karma_sub_netlist().prune_after_level[55] == prune_55());
    assert(karma_sub_netlist().levels[54] == level_54());
}

/// Level 56 keeps to the schedule.
proof fn level_56_scheduled(arg_lens: Seq<nat>)
    requires
        fits(arg_lens),
    ensures
        karma_sub_netlist().level_scheduled(56, arg_lens, schedule()),
{
    assert(karma_sub_netlist().levels[56] == level_56());
    assert(karma_sub_netlist().prune_after_level[56] == prune_56());
    assert(karma_sub_netlist().levels[55] == level_55());
}

/// Level 57 keeps to the schedule.
proof fn level_57_scheduled(arg_lens: Seq<nat>)
    requires
        fits(arg_lens),
    ensures
        karma_sub_netlist().level_scheduled(57, arg_lens, schedule()),
{
    assert(karma_sub_netlist().levels[57] == level_57());
    assert(karma_sub_netlist().prune_after_level[57] == prune_57());
    assert(karma_sub_netlist().levels[56] == level_56());
}

/// Level 58 keeps to the schedule.
proof fn level_58_scheduled(arg_lens: Seq<nat>)
    requires
        fits(arg_lens),
    ensures
        karma_sub_netlist().level_scheduled(58, arg_lens, schedule()),
{
    assert(karma_sub_netlist().levels[58] == level_58());
    assert(karma_sub_netlist().prune_after_level[58] == prune_58());
    assert(karma_sub_netlist().levels[57] == level_57());
}

/// Level 59 keeps to the schedule.
proof fn level_59_scheduled(arg_lens: Seq<nat>)
    requires
        fits(arg_lens),
    ensures
        karma_sub_netlist().level_scheduled(59, arg_lens, schedule()),
{
    assert(karma_sub_netlist().levels[59] == level_59());
    assert(karma_sub_netlist().prune_after_level[59] == prune_59());
    assert(karma_sub_netlist().levels[58] == level_58());
}

/// Level 60 keeps to the schedule.
proof fn level_60_scheduled(arg_lens: Seq<nat>)
    requires
        fits(arg_lens),
    ensures
        karma_sub_netlist().level_scheduled(60, arg_lens, schedule()),
{
    assert(karma_sub_netlist().levels[60] == level_60());
    assert(karma_sub_netlist().prune_after_level[60] == prune_60());
    assert(karma_sub_netlist().levels[59] == level_59());
}

/// Level 61 keeps to the schedule.
proof fn level_61_scheduled(arg_lens: Seq<nat>)
    requires
        fits(arg_lens),
    ensures
        karma_sub_netlist().level_scheduled(61, arg_lens, schedule()),
{
    assert(karma_sub_netlist().levels[61] == level_61());
    assert(karma_sub_netlist().prune_after_level[61] == prune_61());
    assert(karma_sub_netlist().levels[60] == level_60());
}

/// Level 62 keeps to the schedule.
proof fn level_62_scheduled(arg_lens: Seq<nat>)
    requires
        fits(arg_lens),
    ensures
        karma_sub_netlist().level_scheduled(62, arg_lens, schedule()),
{
    assert(karma_sub_netlist().levels[62] == level_62());
    assert(karma_sub_netlist().prune_after_level[62] == prune_62());
    assert(karma_sub_netlist().levels[1] == level_1());
    assert(karma_sub_netlist().levels[3] == level_3());
    assert(karma_sub_netlist().levels[5] == level_5());
    assert(karma_sub_netlist().levels[7] == level_7());
    assert(karma_sub_netlist().levels[9] == level_9());
    assert(karma_sub_netlist().levels[11] == level_11());
    assert(karma_sub_netlist().levels[13] == level_13());
    assert(karma_sub_netlist().levels[15] == level_15());
    assert(karma_sub_netlist().levels[17] == level_17());
    assert(karma_sub_netlist().levels[19] == level_19());
    assert(karma_sub_netlist().levels[21] == level_21());
    assert(karma_sub_netlist().levels[23] == level_23());
    assert(karma_sub_netlist().levels[25] == level_25());
    assert(karma_sub_netlist().levels[27] == level_27());
    assert(karma_sub_netlist().levels[29] == level_29());
    assert(karma_sub_netlist().levels[31] == level_31());
    assert(karma_sub_netlist().levels[33] == level_33());
    assert(karma_sub_netlist().levels[35] == level_35());
    assert(karma_sub_netlist().levels[37] == level_37());
    assert(karma_sub_netlist().levels[39] == level_39());
    assert(karma_sub_netlist().levels[41] == level_41());
    assert(karma_sub_netlist().levels[43] == level_43());
    assert(karma_sub_netlist().levels[45] == level_45());
    assert(karma_sub_netlist().levels[47] == level_47());
    assert(karma_sub_netlist().levels[49] == level_49());
    assert(karma_sub_netlist().levels[51] == level_51());
    assert(karma_sub_netlist().levels[53] == level_53());
    assert(karma_sub_netlist().levels[55] == level_55());
    assert(karma_sub_netlist().levels[57] == level_57());
    assert(karma_sub_netlist().levels[59] == level_59());
    assert(karma_sub_netlist().levels[61] == level_61());
}

/// Words of at least thirty-two bits each.
pub open spec fn fits(arg_lens: Seq<nat>) -> bool {
    arg_lens.len() == 2 && arg_lens[0] >= 32 && arg_lens[1] >= 32
}

/// The schedule fits the netlist on two words of at least thirty-two bits
/// each.
pub proof fn lemma_karma_sub_scheduled(arg_lens: Seq<nat>)
    requires
        fits(arg_lens),
    ensures
        karma_sub_netlist().scheduled(arg_lens, schedule()),
{
    let netlist = karma_sub_netlist();
    assert forall|l: int| 0 <= l < netlist.levels.len() implies #[trigger] netlist.level_scheduled(
        l,
        arg_lens,
        schedule(),
    ) by {
        if l == 0 {
            level_0_scheduled(arg_lens);
        } else if l == 1 {
            level_1_scheduled(arg_lens);
        } else if l == 2 {
            level_2_scheduled(arg_lens);
        } else if l == 3 {
            level_3_scheduled(arg_lens);
        } else if l == 4 {
            level_4_scheduled(arg_lens);
        } else if l == 5 {
            level_5_scheduled(arg_lens);
        } else if l == 6 {
            level_6_scheduled(arg_lens);
        } else if l == 7 {
            level_7_scheduled(arg_lens);
        } else if l == 8 {
            level_8_scheduled(arg_lens);
        } else if l == 9 {
            level_9_scheduled(arg_lens);
        } else if l == 10 {
            level_10_scheduled(arg_lens);
        } else if l == 11 {
            level_11_scheduled(arg_lens);
        } else if l == 12 {
            level_12_scheduled(arg_lens);
        } else if l == 13 {
            level_13_scheduled(arg_lens);
        } else if l == 14 {
            level_14_scheduled(arg_lens);
        } else if l == 15 {
            level_15_scheduled(arg_lens);
        } else if l == 16 {
            level_16_scheduled(arg_lens);
        } else if l == 17 {
            level_17_scheduled(arg_lens);
        } else if l == 18 {
            level_18_scheduled(arg_lens);
        } else if l == 19 {
            level_19_scheduled(arg_lens);
        } else if l == 20 {
            level_20_scheduled(arg_lens);
        } else if l == 21 {
            level_21_scheduled(arg_lens);
        } else if l == 22 {
            level_22_scheduled(arg_lens);
        } else if l == 23 {
            level_23_scheduled(arg_lens);
        } else if l == 24 {
            level_24_scheduled(arg_lens);
        } else if l == 25 {
            level_25_scheduled(arg_lens);
        } else if l == 26 {
            level_26_scheduled(arg_lens);
        } else if l == 27 {
            level_27_scheduled(arg_lens);
        } else if l == 28 {
            level_28_scheduled(arg_lens);
        } else if l == 29 {
            level_29_scheduled(arg_lens);
        } else if l == 30 {
            level_30_scheduled(arg_lens);
        } else if l == 31 {
            level_31_scheduled(arg_lens);
        } else if l == 32 {
            level_32_scheduled(arg_lens);
        } else if l == 33 {
            level_33_scheduled(arg_lens);
        } else if l == 34 {
            level_34_scheduled(arg_lens);
        } else if l == 35 {
            level_35_scheduled(arg_lens);
        } else if l == 36 {
            level_36_scheduled(arg_lens);
        } else if l == 37 {
            level_37_scheduled(arg_lens);
        } else if l == 38 {
            level_38_scheduled(arg_lens);
        } else if l == 39 {
            level_39_scheduled(arg_lens);
        } else if l == 40 {
            level_40_scheduled(arg_lens);
        } else if l == 41 {
            level_41_scheduled(arg_lens);
        } else if l == 42 {
            level_42_scheduled(arg_lens);
        } else if l == 43 {
            level_43_scheduled(arg_lens);
        } else if l == 44 {
            level_44_scheduled(arg_lens);
        } else if l == 45 {
            level_45_scheduled(arg_lens);
        } else if l == 46 {
            level_46_scheduled(arg_lens);
        } else if l == 47 {
            level_47_scheduled(arg_lens);
        } else if l == 48 {
            level_48_scheduled(arg_lens);
        } else if l == 49 {
            level_49_scheduled(arg_lens);
        } else if l == 50 {
            level_50_scheduled(arg_lens);
        } else if l == 51 {
            level_51_scheduled(arg_lens);
        } else if l == 52 {
            level_52_scheduled(arg_lens);
        } else if l == 53 {
            level_53_scheduled(arg_lens);
        } else if l == 54 {
            level_54_scheduled(arg_lens);
        } else if l == 55 {
            level_55_scheduled(arg_lens);
        } else if l == 56 {
            level_56_scheduled(arg_lens);
        } else if l == 57 {
            level_57_scheduled(arg_lens);
        } else if l == 58 {
            level_58_scheduled(arg_lens);
        } else if l == 59 {
            level_59_scheduled(arg_lens);
        } else if l == 60 {
            level_60_scheduled(arg_lens);
        } else if l == 61 {
            level_61_scheduled(arg_lens);
        } else if l == 62 {
            level_62_scheduled(arg_lens);
        }
    }
    assert forall|o: usize| o < netlist.output_count implies #[trigger] netlist.output_placed(
        o,
        schedule(),
    ) by {
        assert(netlist.levels[62] == level_62());
    }
}

/// The netlist is well formed for two words of at least thirty-two bits each.
pub proof fn lemma_karma_sub_well_formed(arg_lens: Seq<nat>)
    requires
        fits(arg_lens),
    ensures
        karma_sub_netlist().well_formed(arg_lens),
{
    lemma_karma_sub_scheduled(arg_lens);
    karma_sub_netlist().lemma_scheduled_well_formed(arg_lens, schedule());
}

/// The netlist reads the top bit of both words: it is well formed only
/// for two words of at least thirty-two bits each.
pub proof fn lemma_karma_sub_needs_bits(arg_lens: Seq<nat>)
    requires
        arg_lens.len() == 2,
        karma_sub_netlist().well_formed(arg_lens),
    ensures
        fits(arg_lens),
{
    let netlist = karma_sub_netlist();
    assert(netlist.levels[61] == level_61());
    assert(netlist.gate_ok(61, netlist.levels[61][9], arg_lens));
    assert(netlist.input_ok(61, netlist.levels[61][9].inputs[1], arg_lens));
    assert(netlist.input_ok(61, netlist.levels[61][9].inputs[0], arg_lens));
}

/// The bit on temporary 27.
#[verifier::opaque]
spec fn w27(a: Seq<bool>, b: Seq<bool>) -> bool {
    !a[0]
}

/// The bit on temporary 172.
#[verifier::opaque]
spec fn w172(a: Seq<bool>, b: Seq<bool>) -> bool {
    !b[1]
}

/// The bit on temporary 39.
#[verifier::opaque]
spec fn w39(a: Seq<bool>, b: Seq<bool>) -> bool {
    !(b[0] && w27(a, b))
}

/// The bit on temporary 59.
#[verifier::opaque]
spec fn w59(a: Seq<bool>, b: Seq<bool>) -> bool {
    (b[1] == a[1])
}

/// The bit on temporary 58.
#[verifier::opaque]
spec fn w58(a: Seq<bool>, b: Seq<bool>) -> bool {
    !(w172(a, b) && a[1])
}

/// The bit on temporary 60.
#[verifier::opaque]
spec fn w60(a: Seq<bool>, b: Seq<bool>) -> bool {
    !(w39(a, b) && w59(a, b))
}

/// The bit on temporary 173.
#[verifier::opaque]
spec fn w173(a: Seq<bool>, b: Seq<bool>) -> bool {
    !b[2]
}

/// The bit on temporary 61.
#[verifier::opaque]
spec fn w61(a: Seq<bool>, b: Seq<bool>) -> bool {
    !(w58(a, b) && w60(a, b))
}

/// The bit on temporary 62.
#[verifier::opaque]
spec fn w62(a: Seq<bool>, b: Seq<bool>) -> bool {
    (b[2] == a[2])
}

/// The bit on temporary 57.
#[verifier::opaque]
spec fn w57(a: Seq<bool>, b: Seq<bool>) -> bool {
    !(w173(a, b) && a[2])
}

/// The bit on temporary 63.
#[verifier::opaque]
spec fn w63(a: Seq<bool>, b: Seq<bool>) -> bool {
    !(w61(a, b) && w62(a, b))
}

/// The bit on temporary 174.
#[verifier::opaque]
spec fn w174(a: Seq<bool>, b: Seq<bool>) -> bool {
    !b[3]
}

/// The bit on temporary 64.
#[verifier::opaque]
spec fn w64(a: Seq<bool>, b: Seq<bool>) -> bool {
    !(w57(a, b) && w63(a, b))
}

/// The bit on temporary 65.
#[verifier::opaque]
spec fn w65(a: Seq<bool>, b: Seq<bool>) -> bool {
    (b[3] == a[3])
}

/// The bit on temporary 56.
#[verifier::opaque]
spec fn w56(a: Seq<bool>, b: Seq<bool>) -> bool {
    !(w174(a, b) && a[3])
}

/// The bit on temporary 66.
#[verifier::opaque]
spec fn w66(a: Seq<bool>, b: Seq<bool>) -> bool {
    !(w64(a, b) && w65(a, b))
}

/// The bit on temporary 0.
#[verifier::opaque]
spec fn w0(a: Seq<bool>, b: Seq<bool>) -> bool {
    !b[4]
}

/// The bit on temporary 67.
#[verifier::opaque]
spec fn w67(a: Seq<bool>, b: Seq<bool>) -> bool {
    !(w56(a, b) && w66(a, b))
}

/// The bit on temporary 68.
#[verifier::opaque]
spec fn w68(a: Seq<bool>, b: Seq<bool>) -> bool {
    (b[4] == a[4])
}

/// The bit on temporary 55.
#[verifier::opaque]
spec fn w55(a: Seq<bool>, b: Seq<bool>) -> bool {
    !(w0(a, b) && a[4])
}

/// The bit on temporary 69.
#[verifier::opaque]
spec fn w69(a: Seq<bool>, b: Seq<bool>) -> bool {
    !(w67(a, b) && w68(a, b))
}

/// The bit on temporary 1.
#[verifier::opaque]
spec fn w1(a: Seq<bool>, b: Seq<bool>) -> bool {
    !b[5]
}

/// The bit on temporary 70.
#[verifier::opaque]
spec fn w70(a: Seq<bool>, b: Seq<bool>) -> bool {
    !(w55(a, b) && w69(a, b))
}

/// The bit on temporary 71.
#[verifier::opaque]
spec fn w71(a: Seq<bool>, b: Seq<bool>) -> bool {
    (b[5] == a[5])
}

/// The bit on temporary 54.
#[verifier::opaque]
spec fn w54(a: Seq<bool>, b: Seq<bool>) -> bool {
    !(w1(a, b) && a[5])
}

/// The bit on temporary 72.
#[verifier::opaque]
spec fn w72(a: Seq<bool>, b: Seq<bool>) -> bool {
    !(w70(a, b) && w71(a, b))
}

/// The bit on temporary 2.
#[verifier::opaque]
spec fn w2(a: Seq<bool>, b: Seq<bool>) -> bool {
    !b[6]
}

/// The bit on temporary 53.
#[verifier::opaque]
spec fn w53(a: Seq<bool>, b: Seq<bool>) -> bool {
    (b[6] == a[6])
}

/// The bit on temporary 73.
#[verifier::opaque]
spec fn w73(a: Seq<bool>, b: Seq<bool>) -> bool {
    !(w54(a, b) && w72(a, b))
}

/// The bit on temporary 28.
#[verifier::opaque]
spec fn w28(a: Seq<bool>, b: Seq<bool>) -> bool {
    !a[7]
}

/// The bit on temporary 52.
#[verifier::opaque]
spec fn w52(a: Seq<bool>, b: Seq<bool>) -> bool {
    !(w2(a, b) && a[6])
}

/// The bit on temporary 74.
#[verifier::opaque]
spec fn w74(a: Seq<bool>, b: Seq<bool>) -> bool {
    !(w53(a, b) && w73(a, b))
}

/// The bit on temporary 3.
#[verifier::opaque]
spec fn w3(a: Seq<bool>, b: Seq<bool>) -> bool {
    !b[7]
}

/// The bit on temporary 51.
#[verifier::opaque]
spec fn w51(a: Seq<bool>, b: Seq<bool>) -> bool {
    !(b[7] && w28(a, b))
}

/// The bit on temporary 75.
#[verifier::opaque]
spec fn w75(a: Seq<bool>, b: Seq<bool>) -> bool {
    !(w52(a, b) && w74(a, b))
}

/// The bit on temporary 50.
#[verifier::opaque]
spec fn w50(a: Seq<bool>, b: Seq<bool>) -> bool {
    !(w3(a, b) && a[7])
}

/// The bit on temporary 76.
#[verifier::opaque]
spec fn w76(a: Seq<bool>, b: Seq<bool>) -> bool {
    !(w51(a, b) && w75(a, b))
}

/// The bit on temporary 4.
#[verifier::opaque]
spec fn w4(a: Seq<bool>, b: Seq<bool>) -> bool {
    !b[8]
}

/// The bit on temporary 49.
#[verifier::opaque]
spec fn w49(a: Seq<bool>, b: Seq<bool>) -> bool {
    (b[8] == a[8])
}

/// The bit on temporary 77.
#[verifier::opaque]
spec fn w77(a: Seq<bool>, b: Seq<bool>) -> bool {
    !(w50(a, b) && w76(a, b))
}

/// The bit on temporary 29.
#[verifier::opaque]
spec fn w29(a: Seq<bool>, b: Seq<bool>) -> bool {
    !a[9]
}

/// The bit on temporary 48.
#[verifier::opaque]
spec fn w48(a: Seq<bool>, b: Seq<bool>) -> bool {
    !(w4(a, b) && a[8])
}

/// The bit on temporary 78.
#[verifier::opaque]
spec fn w78(a: Seq<bool>, b: Seq<bool>) -> bool {
    !(w49(a, b) && w77(a, b))
}

/// The bit on temporary 5.
#[verifier::opaque]
spec fn w5(a: Seq<bool>, b: Seq<bool>) -> bool {
    !b[9]
}

/// The bit on temporary 47.
#[verifier::opaque]
spec fn w47(a: Seq<bool>, b: Seq<bool>) -> bool {
    !(b[9] && w29(a, b))
}

/// The bit on temporary 79.
#[verifier::opaque]
spec fn w79(a: Seq<bool>, b: Seq<bool>) -> bool {
    !(w48(a, b) && w78(a, b))
}

/// The bit on temporary 46.
#[verifier::opaque]
spec fn w46(a: Seq<bool>, b: Seq<bool>) -> bool {
    !(w5(a, b) && a[9])
}

/// The bit on temporary 80.
#[verifier::opaque]
spec fn w80(a: Seq<bool>, b: Seq<bool>) -> bool {
    !(w47(a, b) && w79(a, b))
}

/// The bit on temporary 6.
#[verifier::opaque]
spec fn w6(a: Seq<bool>, b: Seq<bool>) -> bool {
    !b[10]
}

/// The bit on temporary 45.
#[verifier::opaque]
spec fn w45(a: Seq<bool>, b: Seq<bool>) -> bool {
    (b[10] == a[10])
}

/// The bit on temporary 81.
#[verifier::opaque]
spec fn w81(a: Seq<bool>, b: Seq<bool>) -> bool {
    !(w46(a, b) && w80(a, b))
}

/// The bit on temporary 30.
#[verifier::opaque]
spec fn w30(a: Seq<bool>, b: Seq<bool>) -> bool {
    !a[11]
}

/// The bit on temporary 44.
#[verifier::opaque]
spec fn w44(a: Seq<bool>, b: Seq<bool>) -> bool {
    !(w6(a, b) && a[10])
}

/// The bit on temporary 82.
#[verifier::opaque]
spec fn w82(a: Seq<bool>, b: Seq<bool>) -> bool {
    !(w45(a, b) && w81(a, b))
}

/// The bit on temporary 7.
#[verifier::opaque]
spec fn w7(a: Seq<bool>, b: Seq<bool>) -> bool {
    !b[11]
}

/// The bit on temporary 43.
#[verifier::opaque]
spec fn w43(a: Seq<bool>, b: Seq<bool>) -> bool {
    !(b[11] && w30(a, b))
}

/// The bit on temporary 83.
#[verifier::opaque]
spec fn w83(a: Seq<bool>, b: Seq<bool>) -> bool {
    !(w44(a, b) && w82(a, b))
}

/// The bit on temporary 42.
#[verifier::opaque]
spec fn w42(a: Seq<bool>, b: Seq<bool>) -> bool {
    !(w7(a, b) && a[11])
}

/// The bit on temporary 84.
#[verifier::opaque]
spec fn w84(a: Seq<bool>, b: Seq<bool>) -> bool {
    !(w43(a, b) && w83(a, b))
}

/// The bit on temporary 8.
#[verifier::opaque]
spec fn w8(a: Seq<bool>, b: Seq<bool>) -> bool {
    !b[12]
}

/// The bit on temporary 41.
#[verifier::opaque]
spec fn w41(a: Seq<bool>, b: Seq<bool>) -> bool {
    (b[12] == a[12])
}

/// The bit on temporary 85.
#[verifier::opaque]
spec fn w85(a: Seq<bool>, b: Seq<bool>) -> bool {
    !(w42(a, b) && w84(a, b))
}

/// The bit on temporary 9.
#[verifier::opaque]
spec fn w9(a: Seq<bool>, b: Seq<bool>) -> bool {
    !b[13]
}

/// The bit on temporary 40.
#[verifier::opaque]
spec fn w40(a: Seq<bool>, b: Seq<bool>) -> bool {
    !(w8(a, b) && a[12])
}

/// The bit on temporary 86.
#[verifier::opaque]
spec fn w86(a: Seq<bool>, b: Seq<bool>) -> bool {
    !(w41(a, b) && w85(a, b))
}

/// The bit on temporary 31.
#[verifier::opaque]
spec fn w31(a: Seq<bool>, b: Seq<bool>) -> bool {
    !a[13]
}

/// The bit on temporary 87.
#[verifier::opaque]
spec fn w87(a: Seq<bool>, b: Seq<bool>) -> bool {
    (w40(a, b) && w86(a, b))
}

/// The bit on temporary 88.
#[verifier::opaque]
spec fn w88(a: Seq<bool>, b: Seq<bool>) -> bool {
    !(w9(a, b) && a[13])
}

/// The bit on temporary 89.
#[verifier::opaque]
spec fn w89(a: Seq<bool>, b: Seq<bool>) -> bool {
    !(b[13] && w31(a, b))
}

/// The bit on temporary 93.
#[verifier::opaque]
spec fn w93(a: Seq<bool>, b: Seq<bool>) -> bool {
    !(w87(a, b) && w88(a, b))
}

/// The bit on temporary 10.
#[verifier::opaque]
spec fn w10(a: Seq<bool>, b: Seq<bool>) -> bool {
    !b[14]
}

/// The bit on temporary 92.
#[verifier::opaque]
spec fn w92(a: Seq<bool>, b: Seq<bool>) -> bool {
    (b[14] == a[14])
}

/// The bit on temporary 94.
#[verifier::opaque]
spec fn w94(a: Seq<bool>, b: Seq<bool>) -> bool {
    (w89(a, b) && w93(a, b))
}

/// The bit on temporary 11.
#[verifier::opaque]
spec fn w11(a: Seq<bool>, b: Seq<bool>) -> bool {
    !b[15]
}

/// The bit on temporary 91.
#[verifier::opaque]
spec fn w91(a: Seq<bool>, b: Seq<bool>) -> bool {
    !(w10(a, b) && a[14])
}

/// The bit on temporary 95.
#[verifier::opaque]
spec fn w95(a: Seq<bool>, b: Seq<bool>) -> bool {
    !(w92(a, b) && w94(a, b))
}

/// The bit on temporary 32.
#[verifier::opaque]
spec fn w32(a: Seq<bool>, b: Seq<bool>) -> bool {
    !a[15]
}

/// The bit on temporary 96.
#[verifier::opaque]
spec fn w96(a: Seq<bool>, b: Seq<bool>) -> bool {
    (w91(a, b) && w95(a, b))
}

/// The bit on temporary 97.
#[verifier::opaque]
spec fn w97(a: Seq<bool>, b: Seq<bool>) -> bool {
    !(w11(a, b) && a[15])
}

/// The bit on temporary 98.
#[verifier::opaque]
spec fn w98(a: Seq<bool>, b: Seq<bool>) -> bool {
    !(b[15] && w32(a, b))
}

/// The bit on temporary 102.
#[verifier::opaque]
spec fn w102(a: Seq<bool>, b: Seq<bool>) -> bool {
    !(w96(a, b) && w97(a, b))
}

/// The bit on temporary 12.
#[verifier::opaque]
spec fn w12(a: Seq<bool>, b: Seq<bool>) -> bool {
    !b[16]
}

/// The bit on temporary 101.
#[verifier::opaque]
spec fn w101(a: Seq<bool>, b: Seq<bool>) -> bool {
    (b[16] == a[16])
}

/// The bit on temporary 103.
#[verifier::opaque]
spec fn w103(a: Seq<bool>, b: Seq<bool>) -> bool {
    (w98(a, b) && w102(a, b))
}

/// The bit on temporary 13.
#[verifier::opaque]
spec fn w13(a: Seq<bool>, b: Seq<bool>) -> bool {
    !b[17]
}

/// The bit on temporary 100.
#[verifier::opaque]
spec fn w100(a: Seq<bool>, b: Seq<bool>) -> bool {
    !(w12(a, b) && a[16])
}

/// The bit on temporary 104.
#[verifier::opaque]
spec fn w104(a: Seq<bool>, b: Seq<bool>) -> bool {
    !(w101(a, b) && w103(a, b))
}

/// The bit on temporary 33.
#[verifier::opaque]
spec fn w33(a: Seq<bool>, b: Seq<bool>) -> bool {
    !a[17]
}

/// The bit on temporary 105.
#[verifier::opaque]
spec fn w105(a: Seq<bool>, b: Seq<bool>) -> bool {
    (w100(a, b) && w104(a, b))
}

/// The bit on temporary 106.
#[verifier::opaque]
spec fn w106(a: Seq<bool>, b: Seq<bool>) -> bool {
    !(w13(a, b) && a[17])
}

/// The bit on temporary 107.
#[verifier::opaque]
spec fn w107(a: Seq<bool>, b: Seq<bool>) -> bool {
    !(b[17] && w33(a, b))
}

/// The bit on temporary 111.
#[verifier::opaque]
spec fn w111(a: Seq<bool>, b: Seq<bool>) -> bool {
    !(w105(a, b) && w106(a, b))
}

/// The bit on temporary 14.
#[verifier::opaque]
spec fn w14(a: Seq<bool>, b: Seq<bool>) -> bool {
    !b[18]
}

/// The bit on temporary 110.
#[verifier::opaque]
spec fn w110(a: Seq<bool>, b: Seq<bool>) -> bool {
    (b[18] == a[18])
}

/// The bit on temporary 112.
#[verifier::opaque]
spec fn w112(a: Seq<bool>, b: Seq<bool>) -> bool {
    (w107(a, b) && w111(a, b))
}

/// The bit on temporary 15.
#[verifier::opaque]
spec fn w15(a: Seq<bool>, b: Seq<bool>) -> bool {
    !b[19]
}

/// The bit on temporary 109.
#[verifier::opaque]
spec fn w109(a: Seq<bool>, b: Seq<bool>) -> bool {
    !(w14(a, b) && a[18])
}

/// The bit on temporary 113.
#[verifier::opaque]
spec fn w113(a: Seq<bool>, b: Seq<bool>) -> bool {
    !(w110(a, b) && w112(a, b))
}

/// The bit on temporary 34.
#[verifier::opaque]
spec fn w34(a: Seq<bool>, b: Seq<bool>) -> bool {
    !a[19]
}

/// The bit on temporary 114.
#[verifier::opaque]
spec fn w114(a: Seq<bool>, b: Seq<bool>) -> bool {
    (w109(a, b) && w113(a, b))
}

/// The bit on temporary 115.
#[verifier::opaque]
spec fn w115(a: Seq<bool>, b: Seq<bool>) -> bool {
    !(w15(a, b) && a[19])
}

/// The bit on temporary 116.
#[verifier::opaque]
spec fn w116(a: Seq<bool>, b: Seq<bool>) -> bool {
    !(b[19] && w34(a, b))
}

/// The bit on temporary 120.
#[verifier::opaque]
spec fn w120(a: Seq<bool>, b: Seq<bool>) -> bool {
    !(w114(a, b) && w115(a, b))
}

/// The bit on temporary 16.
#[verifier::opaque]
spec fn w16(a: Seq<bool>, b: Seq<bool>) -> bool {
    !b[20]
}

/// The bit on temporary 119.
#[verifier::opaque]
spec fn w119(a: Seq<bool>, b: Seq<bool>) -> bool {
    (b[20] == a[20])
}

/// The bit on temporary 121.
#[verifier::opaque]
spec fn w121(a: Seq<bool>, b: Seq<bool>) -> bool {
    (w116(a, b) && w120(a, b))
}

/// The bit on temporary 17.
#[verifier::opaque]
spec fn w17(a: Seq<bool>, b: Seq<bool>) -> bool {
    !b[21]
}

/// The bit on temporary 118.
#[verifier::opaque]
spec fn w118(a: Seq<bool>, b: Seq<bool>) -> bool {
    !(w16(a, b) && a[20])
}

/// The bit on temporary 122.
#[verifier::opaque]
spec fn w122(a: Seq<bool>, b: Seq<bool>) -> bool {
    !(w119(a, b) && w121(a, b))
}

/// The bit on temporary 35.
#[verifier::opaque]
spec fn w35(a: Seq<bool>, b: Seq<bool>) -> bool {
    !a[21]
}

/// The bit on temporary 123.
#[verifier::opaque]
spec fn w123(a: Seq<bool>, b: Seq<bool>) -> bool {
    (w118(a, b) && w122(a, b))
}

/// The bit on temporary 124.
#[verifier::opaque]
spec fn w124(a: Seq<bool>, b: Seq<bool>) -> bool {
    !(w17(a, b) && a[21])
}

/// The bit on temporary 125.
#[verifier::opaque]
spec fn w125(a: Seq<bool>, b: Seq<bool>) -> bool {
    !(b[21] && w35(a, b))
}

/// The bit on temporary 129.
#[verifier::opaque]
spec fn w129(a: Seq<bool>, b: Seq<bool>) -> bool {
    !(w123(a, b) && w124(a, b))
}

/// The bit on temporary 18.
#[verifier::opaque]
spec fn w18(a: Seq<bool>, b: Seq<bool>) -> bool {
    !b[22]
}

/// The bit on temporary 128.
#[verifier::opaque]
spec fn w128(a: Seq<bool>, b: Seq<bool>) -> bool {
    (b[22] == a[22])
}

/// The bit on temporary 130.
#[verifier::opaque]
spec fn w130(a: Seq<bool>, b: Seq<bool>) -> bool {
    (w125(a, b) && w129(a, b))
}

/// The bit on temporary 19.
#[verifier::opaque]
spec fn w19(a: Seq<bool>, b: Seq<bool>) -> bool {
    !b[23]
}

/// The bit on temporary 127.
#[verifier::opaque]
spec fn w127(a: Seq<bool>, b: Seq<bool>) -> bool {
    !(w18(a, b) && a[22])
}

/// The bit on temporary 131.
#[verifier::opaque]
spec fn w131(a: Seq<bool>, b: Seq<bool>) -> bool {
    !(w128(a, b) && w130(a, b))
}

/// The bit on temporary 36.
#[verifier::opaque]
spec fn w36(a: Seq<bool>, b: Seq<bool>) -> bool {
    !a[23]
}

/// The bit on temporary 132.
#[verifier::opaque]
spec fn w132(a: Seq<bool>, b: Seq<bool>) -> bool {
    (w127(a, b) && w131(a, b))
}

/// The bit on temporary 133.
#[verifier::opaque]
spec fn w133(a: Seq<bool>, b: Seq<bool>) -> bool {
    !(w19(a, b) && a[23])
}

/// The bit on temporary 134.
#[verifier::opaque]
spec fn w134(a: Seq<bool>, b: Seq<bool>) -> bool {
    !(b[23] && w36(a, b))
}

/// The bit on temporary 138.
#[verifier::opaque]
spec fn w138(a: Seq<bool>, b: Seq<bool>) -> bool {
    !(w132(a, b) && w133(a, b))
}

/// The bit on temporary 20.
#[verifier::opaque]
spec fn w20(a: Seq<bool>, b: Seq<bool>) -> bool {
    !b[24]
}

/// The bit on temporary 137.
#[verifier::opaque]
spec fn w137(a: Seq<bool>, b: Seq<bool>) -> bool {
    (b[24] == a[24])
}

/// The bit on temporary 139.
#[verifier::opaque]
spec fn w139(a: Seq<bool>, b: Seq<bool>) -> bool {
    (w134(a, b) && w138(a, b))
}

/// The bit on temporary 21.
#[verifier::opaque]
spec fn w21(a: Seq<bool>, b: Seq<bool>) -> bool {
    !b[25]
}

/// The bit on temporary 136.
#[verifier::opaque]
spec fn w136(a: Seq<bool>, b: Seq<bool>) -> bool {
    !(w20(a, b) && a[24])
}

/// The bit on temporary 140.
#[verifier::opaque]
spec fn w140(a: Seq<bool>, b: Seq<bool>) -> bool {
    !(w137(a, b) && w139(a, b))
}

/// The bit on temporary 37.
#[verifier::opaque]
spec fn w37(a: Seq<bool>, b: Seq<bool>) -> bool {
    !a[25]
}

/// The bit on temporary 141.
#[verifier::opaque]
spec fn w141(a: Seq<bool>, b: Seq<bool>) -> bool {
    (w136(a, b) && w140(a, b))
}

/// The bit on temporary 142.
#[verifier::opaque]
spec fn w142(a: Seq<bool>, b: Seq<bool>) -> bool {
    !(w21(a, b) && a[25])
}

/// The bit on temporary 143.
#[verifier::opaque]
spec fn w143(a: Seq<bool>, b: Seq<bool>) -> bool {
    !(b[25] && w37(a, b))
}

/// The bit on temporary 147.
#[verifier::opaque]
spec fn w147(a: Seq<bool>, b: Seq<bool>) -> bool {
    !(w141(a, b) && w142(a, b))
}

/// The bit on temporary 22.
#[verifier::opaque]
spec fn w22(a: Seq<bool>, b: Seq<bool>) -> bool {
    !b[26]
}

/// The bit on temporary 146.
#[verifier::opaque]
spec fn w146(a: Seq<bool>, b: Seq<bool>) -> bool {
    (b[26] == a[26])
}

/// The bit on temporary 148.
#[verifier::opaque]
spec fn w148(a: Seq<bool>, b: Seq<bool>) -> bool {
    (w143(a, b) && w147(a, b))
}

/// The bit on temporary 23.
#[verifier::opaque]
spec fn w23(a: Seq<bool>, b: Seq<bool>) -> bool {
    !b[27]
}

/// The bit on temporary 145.
#[verifier::opaque]
spec fn w145(a: Seq<bool>, b: Seq<bool>) -> bool {
    !(w22(a, b) && a[26])
}

/// The bit on temporary 149.
#[verifier::opaque]
spec fn w149(a: Seq<bool>, b: Seq<bool>) -> bool {
    !(w146(a, b) && w148(a, b))
}

/// The bit on temporary 38.
#[verifier::opaque]
spec fn w38(a: Seq<bool>, b: Seq<bool>) -> bool {
    !a[27]
}

/// The bit on temporary 150.
#[verifier::opaque]
spec fn w150(a: Seq<bool>, b: Seq<bool>) -> bool {
    (w145(a, b) && w149(a, b))
}

/// The bit on temporary 151.
#[verifier::opaque]
spec fn w151(a: Seq<bool>, b: Seq<bool>) -> bool {
    !(w23(a, b) && a[27])
}

/// The bit on temporary 152.
#[verifier::opaque]
spec fn w152(a: Seq<bool>, b: Seq<bool>) -> bool {
    !(b[27] && w38(a, b))
}

/// The bit on temporary 156.
#[verifier::opaque]
spec fn w156(a: Seq<bool>, b: Seq<bool>) -> bool {
    !(w150(a, b) && w151(a, b))
}

/// The bit on temporary 24.
#[verifier::opaque]
spec fn w24(a: Seq<bool>, b: Seq<bool>) -> bool {
    !b[28]
}

/// The bit on temporary 155.
#[verifier::opaque]
spec fn w155(a: Seq<bool>, b: Seq<bool>) -> bool {
    (b[28] == a[28])
}

/// The bit on temporary 157.
#[verifier::opaque]
spec fn w157(a: Seq<bool>, b: Seq<bool>) -> bool {
    (w152(a, b) && w156(a, b))
}

/// The bit on temporary 154.
#[verifier::opaque]
spec fn w154(a: Seq<bool>, b: Seq<bool>) -> bool {
    !(w24(a, b) && a[28])
}

/// The bit on temporary 158.
#[verifier::opaque]
spec fn w158(a: Seq<bool>, b: Seq<bool>) -> bool {
    !(w155(a, b) && w157(a, b))
}

/// The bit on temporary 25.
#[verifier::opaque]
spec fn w25(a: Seq<bool>, b: Seq<bool>) -> bool {
    !b[29]
}

/// The bit on temporary 159.
#[verifier::opaque]
spec fn w159(a: Seq<bool>, b: Seq<bool>) -> bool {
    !(w154(a, b) && w158(a, b))
}

/// The bit on temporary 161.
#[verifier::opaque]
spec fn w161(a: Seq<bool>, b: Seq<bool>) -> bool {
    (b[29] == a[29])
}

/// The bit on temporary 160.
#[verifier::opaque]
spec fn w160(a: Seq<bool>, b: Seq<bool>) -> bool {
    !(w25(a, b) && a[29])
}

/// The bit on temporary 162.
#[verifier::opaque]
spec fn w162(a: Seq<bool>, b: Seq<bool>) -> bool {
    !(w159(a, b) && w161(a, b))
}

/// The bit on temporary 26.
#[verifier::opaque]
spec fn w26(a: Seq<bool>, b: Seq<bool>) -> bool {
    !b[30]
}

/// The bit on temporary 163.
#[verifier::opaque]
spec fn w163(a: Seq<bool>, b: Seq<bool>) -> bool {
    !(w160(a, b) && w162(a, b))
}

/// The bit on temporary 165.
#[verifier::opaque]
spec fn w165(a: Seq<bool>, b: Seq<bool>) -> bool {
    (b[30] == a[30])
}

/// The bit on temporary 164.
#[verifier::opaque]
spec fn w164(a: Seq<bool>, b: Seq<bool>) -> bool {
    !(w26(a, b) && a[30])
}

/// The bit on temporary 166.
#[verifier::opaque]
spec fn w166(a: Seq<bool>, b: Seq<bool>) -> bool {
    !(w163(a, b) && w165(a, b))
}

/// The bit on temporary 90.
#[verifier::opaque]
spec fn w90(a: Seq<bool>, b: Seq<bool>) -> bool {
    (b[13] == a[13])
}

/// The bit on temporary 99.
#[verifier::opaque]
spec fn w99(a: Seq<bool>, b: Seq<bool>) -> bool {
    (b[15] == a[15])
}

/// The bit on temporary 108.
#[verifier::opaque]
spec fn w108(a: Seq<bool>, b: Seq<bool>) -> bool {
    (b[17] == a[17])
}

/// The bit on temporary 117.
#[verifier::opaque]
spec fn w117(a: Seq<bool>, b: Seq<bool>) -> bool {
    (b[19] == a[19])
}

/// The bit on temporary 126.
#[verifier::opaque]
spec fn w126(a: Seq<bool>, b: Seq<bool>) -> bool {
    (b[21] == a[21])
}

/// The bit on temporary 135.
#[verifier::opaque]
spec fn w135(a: Seq<bool>, b: Seq<bool>) -> bool {
    (b[23] == a[23])
}

/// The bit on temporary 144.
#[verifier::opaque]
spec fn w144(a: Seq<bool>, b: Seq<bool>) -> bool {
    (b[25] == a[25])
}

/// The bit on temporary 153.
#[verifier::opaque]
spec fn w153(a: Seq<bool>, b: Seq<bool>) -> bool {
    (b[27] == a[27])
}

/// The bit on temporary 167.
#[verifier::opaque]
spec fn w167(a: Seq<bool>, b: Seq<bool>) -> bool {
    !(w164(a, b) && w166(a, b))
}

/// The bit on temporary 168.
#[verifier::opaque]
spec fn w168(a: Seq<bool>, b: Seq<bool>) -> bool {
    (b[31] != a[31])
}

/// The bit on temporary 169.
#[verifier::opaque]
spec fn w169(a: Seq<bool>, b: Seq<bool>) -> bool {
    (b[7] != a[7])
}

/// The bit on temporary 170.
#[verifier::opaque]
spec fn w170(a: Seq<bool>, b: Seq<bool>) -> bool {
    (b[9] != a[9])
}

/// The bit on temporary 171.
#[verifier::opaque]
spec fn w171(a: Seq<bool>, b: Seq<bool>) -> bool {
    (b[11] != a[11])
}

/// The bit on output slot 0.
#[verifier::opaque]
spec fn o0(a: Seq<bool>, b: Seq<bool>) -> bool {
    (b[0] != a[0])
}

/// The bit on output slot 13.
#[verifier::opaque]
spec fn o13(a: Seq<bool>, b: Seq<bool>) -> bool {
    (w87(a, b) == w90(a, b))
}

/// The bit on output slot 14.
#[verifier::opaque]
spec fn o14(a: Seq<bool>, b: Seq<bool>) -> bool {
    (w92(a, b) != w94(a, b))
}

/// The bit on output slot 15.
#[verifier::opaque]
spec fn o15(a: Seq<bool>, b: Seq<bool>) -> bool {
    (w96(a, b) == w99(a, b))
}

/// The bit on output slot 16.
#[verifier::opaque]
spec fn o16(a: Seq<bool>, b: Seq<bool>) -> bool {
    (w101(a, b) != w103(a, b))
}

/// The bit on output slot 17.
#[verifier::opaque]
spec fn o17(a: Seq<bool>, b: Seq<bool>) -> bool {
    (w105(a, b) == w108(a, b))
}

/// The bit on output slot 18.
#[verifier::opaque]
spec fn o18(a: Seq<bool>, b: Seq<bool>) -> bool {
    (w110(a, b) != w112(a, b))
}

/// The bit on output slot 19.
#[verifier::opaque]
spec fn o19(a: Seq<bool>, b: Seq<bool>) -> bool {
    (w114(a, b) == w117(a, b))
}

/// The bit on output slot 20.
#[verifier::opaque]
spec fn o20(a: Seq<bool>, b: Seq<bool>) -> bool {
    (w119(a, b) != w121(a, b))
}

/// The bit on output slot 21.
#[verifier::opaque]
spec fn o21(a: Seq<bool>, b: Seq<bool>) -> bool {
    (w123(a, b) == w126(a, b))
}

/// The bit on output slot 22.
#[verifier::opaque]
spec fn o22(a: Seq<bool>, b: Seq<bool>) -> bool {
    (w128(a, b) != w130(a, b))
}

/// The bit on output slot 23.
#[verifier::opaque]
spec fn o23(a: Seq<bool>, b: Seq<bool>) -> bool {
    (w132(a, b) == w135(a, b))
}

/// The bit on output slot 24.
#[verifier::opaque]
spec fn o24(a: Seq<bool>, b: Seq<bool>) -> bool {
    (w137(a, b) != w139(a, b))
}

/// The bit on output slot 25.
#[verifier::opaque]
spec fn o25(a: Seq<bool>, b: Seq<bool>) -> bool {
    (w141(a, b) == w144(a, b))
}

/// The bit on output slot 26.
#[verifier::opaque]
spec fn o26(a: Seq<bool>, b: Seq<bool>) -> bool {
    (w146(a, b) != w148(a, b))
}

/// The bit on output slot 27.
#[verifier::opaque]
spec fn o27(a: Seq<bool>, b: Seq<bool>) -> bool {
    (w150(a, b) == w153(a, b))
}

/// The bit on output slot 28.
#[verifier::opaque]
spec fn o28(a: Seq<bool>, b: Seq<bool>) -> bool {
    (w155(a, b) != w157(a, b))
}

/// The bit on output slot 29.
#[verifier::opaque]
spec fn o29(a: Seq<bool>, b: Seq<bool>) -> bool {
    (w159(a, b) != w161(a, b))
}

/// The bit on output slot 30.
#[verifier::opaque]
spec fn o30(a: Seq<bool>, b: Seq<bool>) -> bool {
    (w163(a, b) != w165(a, b))
}

/// The bit on output slot 31.
#[verifier::opaque]
spec fn o31(a: Seq<bool>, b: Seq<bool>) -> bool {
    (w167(a, b) == w168(a, b))
}

/// The bit on output slot 1.
#[verifier::opaque]
spec fn o1(a: Seq<bool>, b: Seq<bool>) -> bool {
    (w39(a, b) != w59(a, b))
}

/// The bit on output slot 2.
#[verifier::opaque]
spec fn o2(a: Seq<bool>, b: Seq<bool>) -> bool {
    (w61(a, b) != w62(a, b))
}

/// The bit on output slot 3.
#[verifier::opaque]
spec fn o3(a: Seq<bool>, b: Seq<bool>) -> bool {
    (w64(a, b) != w65(a, b))
}

/// The bit on output slot 4.
#[verifier::opaque]
spec fn o4(a: Seq<bool>, b: Seq<bool>) -> bool {
    (w67(a, b) != w68(a, b))
}

/// The bit on output slot 5.
#[verifier::opaque]
spec fn o5(a: Seq<bool>, b: Seq<bool>) -> bool {
    (w70(a, b) != w71(a, b))
}

/// The bit on output slot 6.
#[verifier::opaque]
spec fn o6(a: Seq<bool>, b: Seq<bool>) -> bool {
    (w53(a, b) != w73(a, b))
}

/// The bit on output slot 7.
#[verifier::opaque]
spec fn o7(a: Seq<bool>, b: Seq<bool>) -> bool {
    (w75(a, b) == w169(a, b))
}

/// The bit on output slot 8.
#[verifier::opaque]
spec fn o8(a: Seq<bool>, b: Seq<bool>) -> bool {
    (w49(a, b) != w77(a, b))
}

/// The bit on output slot 9.
#[verifier::opaque]
spec fn o9(a: Seq<bool>, b: Seq<bool>) -> bool {
    (w79(a, b) == w170(a, b))
}

/// The bit on output slot 10.
#[verifier::opaque]
spec fn o10(a: Seq<bool>, b: Seq<bool>) -> bool {
    (w45(a, b) != w81(a, b))
}

/// The bit on output slot 11.
#[verifier::opaque]
spec fn o11(a: Seq<bool>, b: Seq<bool>) -> bool {
    (w83(a, b) == w171(a, b))
}

/// The bit on output slot 12.
#[verifier::opaque]
spec fn o12(a: Seq<bool>, b: Seq<bool>) -> bool {
    (w41(a, b) != w85(a, b))
}

/// The bit on temporary `t` when the words are `a` and `b`.
spec fn temp_value(a: Seq<bool>, b: Seq<bool>, t: usize) -> bool {
    if t == 0 {
        w0(a, b)
    } else if t == 1 {
        w1(a, b)
    } else if t == 2 {
        w2(a, b)
    } else if t == 3 {
        w3(a, b)
    } else if t == 4 {
        w4(a, b)
    } else if t == 5 {
        w5(a, b)
    } else if t == 6 {
        w6(a, b)
    } else if t == 7 {
        w7(a, b)
    } else if t == 8 {
        w8(a, b)
    } else if t == 9 {
        w9(a, b)
    } else if t == 10 {
        w10(a, b)
    } else if t == 11 {
        w11(a, b)
    } else if t == 12 {
        w12(a, b)
    } else if t == 13 {
        w13(a, b)
    } else if t == 14 {
        w14(a, b)
    } else if t == 15 {
        w15(a, b)
    } else if t == 16 {
        w16(a, b)
    } else if t == 17 {
        w17(a, b)
    } else if t == 18 {
        w18(a, b)
    } else if t == 19 {
        w19(a, b)
    } else if t == 20 {
        w20(a, b)
    } else if t == 21 {
        w21(a, b)
    } else if t == 22 {
        w22(a, b)
    } else if t == 23 {
        w23(a, b)
    } else if t == 24 {
        w24(a, b)
    } else if t == 25 {
        w25(a, b)
    } else if t == 26 {
        w26(a, b)
    } else if t == 27 {
        w27(a, b)
    } else if t == 28 {
        w28(a, b)
    } else if t == 29 {
        w29(a, b)
    } else if t == 30 {
        w30(a, b)
    } else if t == 31 {
        w31(a, b)
    } else if t == 32 {
        w32(a, b)
    } else if t == 33 {
        w33(a, b)
    } else if t == 34 {
        w34(a, b)
    } else if t == 35 {
        w35(a, b)
    } else if t == 36 {
        w36(a, b)
    } else if t == 37 {
        w37(a, b)
    } else if t == 38 {
        w38(a, b)
    } else if t == 39 {
        w39(a, b)
    } else if t == 40 {
        w40(a, b)
    } else if t == 41 {
        w41(a, b)
    } else if t == 42 {
        w42(a, b)
    } else if t == 43 {
        w43(a, b)
    } else if t == 44 {
        w44(a, b)
    } else if t == 45 {
        w45(a, b)
    } else if t == 46 {
        w46(a, b)
    } else if t == 47 {
        w47(a, b)
    } else if t == 48 {
        w48(a, b)
    } else if t == 49 {
        w49(a, b)
    } else if t == 50 {
        w50(a, b)
    } else if t == 51 {
        w51(a, b)
    } else if t == 52 {
        w52(a, b)
    } else if t == 53 {
        w53(a, b)
    } else if t == 54 {
        w54(a, b)
    } else if t == 55 {
        w55(a, b)
    } else if t == 56 {
        w56(a, b)
    } else if t == 57 {
        w57(a, b)
    } else if t == 58 {
        w58(a, b)
    } else if t == 59 {
        w59(a, b)
    } else if t == 60 {
        w60(a, b)
    } else if t == 61 {
        w61(a, b)
    } else if t == 62 {
        w62(a, b)
    } else if t == 63 {
        w63(a, b)
    } else if t == 64 {
        w64(a, b)
    } else if t == 65 {
        w65(a, b)
    } else if t == 66 {
        w66(a, b)
    } else if t == 67 {
        w67(a, b)
    } else if t == 68 {
        w68(a, b)
    } else if t == 69 {
        w69(a, b)
    } else if t == 70 {
        w70(a, b)
    } else if t == 71 {
        w71(a, b)
    } else if t == 72 {
        w72(a, b)
    } else if t == 73 {
        w73(a, b)
    } else if t == 74 {
        w74(a, b)
    } else if t == 75 {
        w75(a, b)
    } else if t == 76 {
        w76(a, b)
    } else if t == 77 {
        w77(a, b)
    } else if t == 78 {
        w78(a, b)
    } else if t == 79 {
        w79(a, b)
    } else if t == 80 {
        w80(a, b)
    } else if t == 81 {
        w81(a, b)
    } else if t == 82 {
        w82(a, b)
    } else if t == 83 {
        w83(a, b)
    } else if t == 84 {
        w84(a, b)
    } else if t == 85 {
        w85(a, b)
    } else if t == 86 {
        w86(a, b)
    } else if t == 87 {
        w87(a, b)
    } else if t == 88 {
        w88(a, b)
    } else if t == 89 {
        w89(a, b)
    } else if t == 90 {
        w90(a, b)
    } else if t == 91 {
        w91(a, b)
    } else if t == 92 {
        w92(a, b)
    } else if t == 93 {
        w93(a, b)
    } else if t == 94 {
        w94(a, b)
    } else if t == 95 {
        w95(a, b)
    } else if t == 96 {
        w96(a, b)
    } else if t == 97 {
        w97(a, b)
    } else if t == 98 {
        w98(a, b)
    } else if t == 99 {
        w99(a, b)
    } else if t == 100 {
        w100(a, b)
    } else if t == 101 {
        w101(a, b)
    } else if t == 102 {
        w102(a, b)
    } else if t == 103 {
        w103(a, b)
    } else if t == 104 {
        w104(a, b)
    } else if t == 105 {
        w105(a, b)
    } else if t == 106 {
        w106(a, b)
    } else if t == 107 {
        w107(a, b)
    } else if t == 108 {
        w108(a, b)
    } else if t == 109 {
        w109(a, b)
    } else if t == 110 {
        w110(a, b)
    } else if t == 111 {
        w111(a, b)
    } else if t == 112 {
        w112(a, b)
    } else if t == 113 {
        w113(a, b)
    } else if t == 114 {
        w114(a, b)
    } else if t == 115 {
        w115(a, b)
    } else if t == 116 {
        w116(a, b)
    } else if t == 117 {
        w117(a, b)
    } else if t == 118 {
        w118(a, b)
    } else if t == 119 {
        w119(a, b)
    } else if t == 120 {
        w120(a, b)
    } else if t == 121 {
        w121(a, b)
    } else if t == 122 {
        w122(a, b)
    } else if t == 123 {
        w123(a, b)
    } else if t == 124 {
        w124(a, b)
    } else if t == 125 {
        w125(a, b)
    } else if t == 126 {
        w126(a, b)
    } else if t == 127 {
        w127(a, b)
    } else if t == 128 {
        w128(a, b)
    } else if t == 129 {
        w129(a, b)
    } else if t == 130 {
        w130(a, b)
    } else if t == 131 {
        w131(a, b)
    } else if t == 132 {
        w132(a, b)
    } else if t == 133 {
        w133(a, b)
    } else if t == 134 {
        w134(a, b)
    } else if t == 135 {
        w135(a, b)
    } else if t == 136 {
        w136(a, b)
    } else if t == 137 {
        w137(a, b)
    } else if t == 138 {
        w138(a, b)
    } else if t == 139 {
        w139(a, b)
    } else if t == 140 {
        w140(a, b)
    } else if t == 141 {
        w141(a, b)
    } else if t == 142 {
        w142(a, b)
    } else if t == 143 {
        w143(a, b)
    } else if t == 144 {
        w144(a, b)
    } else if t == 145 {
        w145(a, b)
    } else if t == 146 {
        w146(a, b)
    } else if t == 147 {
        w147(a, b)
    } else if t == 148 {
        w148(a, b)
    } else if t == 149 {
        w149(a, b)
    } else if t == 150 {
        w150(a, b)
    } else if t == 151 {
        w151(a, b)
    } else if t == 152 {
        w152(a, b)
    } else if t == 153 {
        w153(a, b)
    } else if t == 154 {
        w154(a, b)
    } else if t == 155 {
        w155(a, b)
    } else if t == 156 {
        w156(a, b)
    } else if t == 157 {
        w157(a, b)
    } else if t == 158 {
        w158(a, b)
    } else if t == 159 {
        w159(a, b)
    } else if t == 160 {
        w160(a, b)
    } else if t == 161 {
        w161(a, b)
    } else if t == 162 {
        w162(a, b)
    } else if t == 163 {
        w163(a, b)
    } else if t == 164 {
        w164(a, b)
    } else if t == 165 {
        w165(a, b)
    } else if t == 166 {
        w166(a, b)
    } else if t == 167 {
        w167(a, b)
    } else if t == 168 {
        w168(a, b)
    } else if t == 169 {
        w169(a, b)
    } else if t == 170 {
        w170(a, b)
    } else if t == 171 {
        w171(a, b)
    } else if t == 172 {
        w172(a, b)
    } else if t == 173 {
        w173(a, b)
    } else if t == 174 {
        w174(a, b)
    } else {
        false
    }
}

/// The bit on output slot `o` when the words are `a` and `b`.
spec fn out_value(a: Seq<bool>, b: Seq<bool>, o: usize) -> bool {
    if o == 0 {
        o0(a, b)
    } else if o == 1 {
        o1(a, b)
    } else if o == 2 {
        o2(a, b)
    } else if o == 3 {
        o3(a, b)
    } else if o == 4 {
        o4(a, b)
    } else if o == 5 {
        o5(a, b)
    } else if o == 6 {
        o6(a, b)
    } else if o == 7 {
        o7(a, b)
    } else if o == 8 {
        o8(a, b)
    } else if o == 9 {
        o9(a, b)
    } else if o == 10 {
        o10(a, b)
    } else if o == 11 {
        o11(a, b)
    } else if o == 12 {
        o12(a, b)
    } else if o == 13 {
        o13(a, b)
    } else if o == 14 {
        o14(a, b)
    } else if o == 15 {
        o15(a, b)
    } else if o == 16 {
        o16(a, b)
    } else if o == 17 {
        o17(a, b)
    } else if o == 18 {
        o18(a, b)
    } else if o == 19 {
        o19(a, b)
    } else if o == 20 {
        o20(a, b)
    } else if o == 21 {
        o21(a, b)
    } else if o == 22 {
        o22(a, b)
    } else if o == 23 {
        o23(a, b)
    } else if o == 24 {
        o24(a, b)
    } else if o == 25 {
        o25(a, b)
    } else if o == 26 {
        o26(a, b)
    } else if o == 27 {
        o27(a, b)
    } else if o == 28 {
        o28(a, b)
    } else if o == 29 {
        o29(a, b)
    } else if o == 30 {
        o30(a, b)
    } else if o == 31 {
        o31(a, b)
    } else {
        false
    }
}

/// The bits on the temporaries when the words are `a` and `b`.
spec fn temp_values(a: Seq<bool>, b: Seq<bool>) -> spec_fn(usize) -> bool {
    |t: usize| temp_value(a, b, t)
}

/// The bits on the output slots when the words are `a` and `b`.
spec fn out_values(a: Seq<bool>, b: Seq<bool>) -> spec_fn(usize) -> bool {
    |o: usize| out_value(a, b, o)
}

/// The bits on the wires are what the gates of level 0 yield.
proof fn level_0_satisfied(a: Seq<bool>, b: Seq<bool>)
    ensures
        level_satisfied(
            &PlainBackend,
            karma_sub_netlist(),
            seq![a, b],
            0,
            temp_values(a, b),
            out_values(a, b),
        ),
{
    reveal(w27);
    assert(karma_sub_netlist().levels[0] == level_0());
}

/// The bits on the wires are what the gates of level 1 yield.
proof fn level_1_satisfied(a: Seq<bool>, b: Seq<bool>)
    ensures
        level_satisfied(
            &PlainBackend,
            karma_sub_netlist(),
            seq![a, b],
            1,
            temp_values(a, b),
            out_values(a, b),
        ),
{
    reveal(w172);
    reveal(w39);
    reveal(w59);
    assert(karma_sub_netlist().levels[1] == level_1());
}

/// The bits on the wires are what the gates of level 2 yield.
proof fn level_2_satisfied(a: Seq<bool>, b: Seq<bool>)
    ensures
        level_satisfied(
            &PlainBackend,
            karma_sub_netlist(),
            seq![a, b],
            2,
            temp_values(a, b),
            out_values(a, b),
        ),
{
    reveal(w58);
    reveal(w60);
    assert(karma_sub_netlist().levels[2] == level_2());
}

/// The bits on the wires are what the gates of level 3 yield.
proof fn level_3_satisfied(a: Seq<bool>, b: Seq<bool>)
    ensures
        level_satisfied(
            &PlainBackend,
            karma_sub_netlist(),
            seq![a, b],
            3,
            temp_values(a, b),
            out_values(a, b),
        ),
{
    reveal(w173);
    reveal(w61);
    reveal(w62);
    assert(karma_sub_netlist().levels[3] == level_3());
}

/// The bits on the wires are what the gates of level 4 yield.
proof fn level_4_satisfied(a: Seq<bool>, b: Seq<bool>)
    ensures
        level_satisfied(
            &PlainBackend,
            karma_sub_netlist(),
            seq![a, b],
            4,
            temp_values(a, b),
            out_values(a, b),
        ),
{
    reveal(w57);
    reveal(w63);
    assert(karma_sub_netlist().levels[4] == level_4());
}

/// The bits on the wires are what the gates of level 5 yield.
proof fn level_5_satisfied(a: Seq<bool>, b: Seq<bool>)
    ensures
        level_satisfied(
            &PlainBackend,
            karma_sub_netlist(),
            seq![a, b],
            5,
            temp_values(a, b),
            out_values(a, b),
        ),
{
    reveal(w174);
    reveal(w64);
    reveal(w65);
    assert(karma_sub_netlist().levels[5] == level_5());
}

/// The bits on the wires are what the gates of level 6 yield.
proof fn level_6_satisfied(a: Seq<bool>, b: Seq<bool>)
    ensures
        level_satisfied(
            &PlainBackend,
            karma_sub_netlist(),
            seq![a, b],
            6,
            temp_values(a, b),
            out_values(a, b),
        ),
{
    reveal(w56);
    reveal(w66);
    assert(karma_sub_netlist().levels[6] == level_6());
}

/// The bits on the wires are what the gates of level 7 yield.
proof fn level_7_satisfied(a: Seq<bool>, b: Seq<bool>)
    ensures
        level_satisfied(
            &PlainBackend,
            karma_sub_netlist(),
            seq![a, b],
            7,
            temp_values(a, b),
            out_values(a, b),
        ),
{
    reveal(w0);
    reveal(w67);
    reveal(w68);
    assert(karma_sub_netlist().levels[7] == level_7());
}

/// The bits on the wires are what the gates of level 8 yield.
proof fn level_8_satisfied(a: Seq<bool>, b: Seq<bool>)
    ensures
        level_satisfied(
            &PlainBackend,
            karma_sub_netlist(),
            seq![a, b],
            8,
            temp_values(a, b),
            out_values(a, b),
        ),
{
    reveal(w55);
    reveal(w69);
    assert(karma_sub_netlist().levels[8] == level_8());
}

/// The bits on the wires are what the gates of level 9 yield.
proof fn level_9_satisfied(a: Seq<bool>, b: Seq<bool>)
    ensures
        level_satisfied(
            &PlainBackend,
            karma_sub_netlist(),
            seq![a, b],
            9,
            temp_values(a, b),
            out_values(a, b),
        ),
{
    reveal(w1);
    reveal(w70);
    reveal(w71);
    assert(karma_sub_netlist().levels[9] == level_9());
}

/// The bits on the wires are what the gates of level 10 yield.
proof fn level_10_satisfied(a: Seq<bool>, b: Seq<bool>)
    ensures
        level_satisfied(
            &PlainBackend,
            karma_sub_netlist(),
            seq![a, b],
            10,
            temp_values(a, b),
            out_values(a, b),
        ),
{
    reveal(w54);
    reveal(w72);
    assert(karma_sub_netlist().levels[10] == level_10());
}

/// The bits on the wires are what the gates of level 11 yield.
proof fn level_11_satisfied(a: Seq<bool>, b: Seq<bool>)
    ensures
        level_satisfied(
            &PlainBackend,
            karma_sub_netlist(),
            seq![a, b],
            11,
            temp_values(a, b),
            out_values(a, b),
        ),
{
    reveal(w2);
    reveal(w53);
    reveal(w73);
    assert(karma_sub_netlist().levels[11] == level_11());
}

/// The bits on the wires are what the gates of level 12 yield.
proof fn level_12_satisfied(a: Seq<bool>, b: Seq<bool>)
    ensures
        level_satisfied(
            &PlainBackend,
            karma_sub_netlist(),
            seq![a, b],
            12,
            temp_values(a, b),
            out_values(a, b),
        ),
{
    reveal(w28);
    reveal(w52);
    reveal(w74);
    assert(karma_sub_netlist().levels[12] == level_12());
}

/// The bits on the wires are what the gates of level 13 yield.
proof fn level_13_satisfied(a: Seq<bool>, b: Seq<bool>)
    ensures
        level_satisfied(
            &PlainBackend,
            karma_sub_netlist(),
            seq![a, b],
            13,
            temp_values(a, b),
            out_values(a, b),
        ),
{
    reveal(w3);
    reveal(w51);
    reveal(w75);
    assert(karma_sub_netlist().levels[13] == level_13());
}

/// The bits on the wires are what the gates of level 14 yield.
proof fn level_14_satisfied(a: Seq<bool>, b: Seq<bool>)
    ensures
        level_satisfied(
            &PlainBackend,
            karma_sub_netlist(),
            seq![a, b],
            14,
            temp_values(a, b),
            out_values(a, b),
        ),
{
    reveal(w50);
    reveal(w76);
    assert(karma_sub_netlist().levels[14] == level_14());
}

/// The bits on the wires are what the gates of level 15 yield.
proof fn level_15_satisfied(a: Seq<bool>, b: Seq<bool>)
    ensures
        level_satisfied(
            &PlainBackend,
            karma_sub_netlist(),
            seq![a, b],
            15,
            temp_values(a, b),
            out_values(a, b),
        ),
{
    reveal(w4);
    reveal(w49);
    reveal(w77);
    assert(karma_sub_netlist().levels[15] == level_15());
}

/// The bits on the wires are what the gates of level 16 yield.
proof fn level_16_satisfied(a: Seq<bool>, b: Seq<bool>)
    ensures
        level_satisfied(
            &PlainBackend,
            karma_sub_netlist(),
            seq![a, b],
            16,
            temp_values(a, b),
            out_values(a, b),
        ),
{
    reveal(w29);
    reveal(w48);
    reveal(w78);
    assert(karma_sub_netlist().levels[16] == level_16());
}

/// The bits on the wires are what the gates of level 17 yield.
proof fn level_17_satisfied(a: Seq<bool>, b: Seq<bool>)
    ensures
        level_satisfied(
            &PlainBackend,
            karma_sub_netlist(),
            seq![a, b],
            17,
            temp_values(a, b),
            out_values(a, b),
        ),
{
    reveal(w5);
    reveal(w47);
    reveal(w79);
    assert(karma_sub_netlist().levels[17] == level_17());
}

/// The bits on the wires are what the gates of level 18 yield.
proof fn level_18_satisfied(a: Seq<bool>, b: Seq<bool>)
    ensures
        level_satisfied(
            &PlainBackend,
            karma_sub_netlist(),
            seq![a, b],
            18,
            temp_values(a, b),
            out_values(a, b),
        ),
{
    reveal(w46);
    reveal(w80);
    assert(karma_sub_netlist().levels[18] == level_18());
}

/// The bits on the wires are what the gates of level 19 yield.
proof fn level_19_satisfied(a: Seq<bool>, b: Seq<bool>)
    ensures
        level_satisfied(
            &PlainBackend,
            karma_sub_netlist(),
            seq![a, b],
            19,
            temp_values(a, b),
            out_values(a, b),
        ),
{
    reveal(w6);
    reveal(w45);
    reveal(w81);
    assert(karma_sub_netlist().levels[19] == level_19());
}

/// The bits on the wires are what the gates of level 20 yield.
proof fn level_20_satisfied(a: Seq<bool>, b: Seq<bool>)
    ensures
        level_satisfied(
            &PlainBackend,
            karma_sub_netlist(),
            seq![a, b],
            20,
            temp_values(a, b),
            out_values(a, b),
        ),
{
    reveal(w30);
    reveal(w44);
    reveal(w82);
    assert(karma_sub_netlist().levels[20] == level_20());
}

/// The bits on the wires are what the gates of level 21 yield.
proof fn level_21_satisfied(a: Seq<bool>, b: Seq<bool>)
    ensures
        level_satisfied(
            &PlainBackend,
            karma_sub_netlist(),
            seq![a, b],
            21,
            temp_values(a, b),
            out_values(a, b),
        ),
{
    reveal(w7);
    reveal(w43);
    reveal(w83);
    assert(karma_sub_netlist().levels[21] == level_21());
}

/// The bits on the wires are what the gates of level 22 yield.
proof fn level_22_satisfied(a: Seq<bool>, b: Seq<bool>)
    ensures
        level_satisfied(
            &PlainBackend,
            karma_sub_netlist(),
            seq![a, b],
            22,
            temp_values(a, b),
            out_values(a, b),
        ),
{
    reveal(w42);
    reveal(w84);
    assert(karma_sub_netlist().levels[22] == level_22());
}

/// The bits on the wires are what the gates of level 23 yield.
proof fn level_23_satisfied(a: Seq<bool>, b: Seq<bool>)
    ensures
        level_satisfied(
            &PlainBackend,
            karma_sub_netlist(),
            seq![a, b],
            23,
            temp_values(a, b),
            out_values(a, b),
        ),
{
    reveal(w8);
    reveal(w41);
    reveal(w85);
    assert(karma_sub_netlist().levels[23] == level_23());
}

/// The bits on the wires are what the gates of level 24 yield.
proof fn level_24_satisfied(a: Seq<bool>, b: Seq<bool>)
    ensures
        level_satisfied(
            &PlainBackend,
            karma_sub_netlist(),
            seq![a, b],
            24,
            temp_values(a, b),
            out_values(a, b),
        ),
{
    reveal(w9);
    reveal(w40);
    reveal(w86);
    assert(karma_sub_netlist().levels[24] == level_24());
}

/// The bits on the wires are what the gates of level 25 yield.
proof fn level_25_satisfied(a: Seq<bool>, b: Seq<bool>)
    ensures
        level_satisfied(
            &PlainBackend,
            karma_sub_netlist(),
            seq![a, b],
            25,
            temp_values(a, b),
            out_values(a, b),
        ),
{
    reveal(w31);
    reveal(w87);
    reveal(w88);
    assert(karma_sub_netlist().levels[25] == level_25());
}

/// The bits on the wires are what the gates of level 26 yield.
proof fn level_26_satisfied(a: Seq<bool>, b: Seq<bool>)
    ensures
        level_satisfied(
            &PlainBackend,
            karma_sub_netlist(),
            seq![a, b],
            26,
            temp_values(a, b),
            out_values(a, b),
        ),
{
    reveal(w89);
    reveal(w93);
    assert(karma_sub_netlist().levels[26] == level_26());
}

/// The bits on the wires are what the gates of level 27 yield.
proof fn level_27_satisfied(a: Seq<bool>, b: Seq<bool>)
    ensures
        level_satisfied(
            &PlainBackend,
            karma_sub_netlist(),
            seq![a, b],
            27,
            temp_values(a, b),
            out_values(a, b),
        ),
{
    reveal(w10);
    reveal(w92);
    reveal(w94);
    assert(karma_sub_netlist().levels[27] == level_27());
}

/// The bits on the wires are what the gates of level 28 yield.
proof fn level_28_satisfied(a: Seq<bool>, b: Seq<bool>)
    ensures
        level_satisfied(
            &PlainBackend,
            karma_sub_netlist(),
            seq![a, b],
            28,
            temp_values(a, b),
            out_values(a, b),
        ),
{
    reveal(w11);
    reveal(w91);
    reveal(w95);
    assert(karma_sub_netlist().levels[28] == level_28());
}

/// The bits on the wires are what the gates of level 29 yield.
proof fn level_29_satisfied(a: Seq<bool>, b: Seq<bool>)
    ensures
        level_satisfied(
            &PlainBackend,
            karma_sub_netlist(),
            seq![a, b],
            29,
            temp_values(a, b),
            out_values(a, b),
        ),
{
    reveal(w32);
    reveal(w96);
    reveal(w97);
    assert(karma_sub_netlist().levels[29] == level_29());
}

/// The bits on the wires are what the gates of level 30 yield.
proof fn level_30_satisfied(a: Seq<bool>, b: Seq<bool>)
    ensures
        level_satisfied(
            &PlainBackend,
            karma_sub_netlist(),
            seq![a, b],
            30,
            temp_values(a, b),
            out_values(a, b),
        ),
{
    reveal(w98);
    reveal(w102);
    assert(karma_sub_netlist().levels[30] == level_30());
}

/// The bits on the wires are what the gates of level 31 yield.
proof fn level_31_satisfied(a: Seq<bool>, b: Seq<bool>)
    ensures
        level_satisfied(
            &PlainBackend,
            karma_sub_netlist(),
            seq![a, b],
            31,
            temp_values(a, b),
            out_values(a, b),
        ),
{
    reveal(w12);
    reveal(w101);
    reveal(w103);
    assert(karma_sub_netlist().levels[31] == level_31());
}

/// The bits on the wires are what the gates of level 32 yield.
proof fn level_32_satisfied(a: Seq<bool>, b: Seq<bool>)
    ensures
        level_satisfied(
            &PlainBackend,
            karma_sub_netlist(),
            seq![a, b],
            32,
            temp_values(a, b),
            out_values(a, b),
        ),
{
    reveal(w13);
    reveal(w100);
    reveal(w104);
    assert(karma_sub_netlist().levels[32] == level_32());
}

/// The bits on the wires are what the gates of level 33 yield.
proof fn level_33_satisfied(a: Seq<bool>, b: Seq<bool>)
    ensures
        level_satisfied(
            &PlainBackend,
            karma_sub_netlist(),
            seq![a, b],
            33,
            temp_values(a, b),
            out_values(a, b),
        ),
{
    reveal(w33);
    reveal(w105);
    reveal(w106);
    assert(karma_sub_netlist().levels[33] == level_33());
}

/// The bits on the wires are what the gates of level 34 yield.
proof fn level_34_satisfied(a: Seq<bool>, b: Seq<bool>)
    ensures
        level_satisfied(
            &PlainBackend,
            karma_sub_netlist(),
            seq![a, b],
            34,
            temp_values(a, b),
            out_values(a, b),
        ),
{
    reveal(w107);
    reveal(w111);
    assert(karma_sub_netlist().levels[34] == level_34());
}

/// The bits on the wires are what the gates of level 35 yield.
proof fn level_35_satisfied(a: Seq<bool>, b: Seq<bool>)
    ensures
        level_satisfied(
            &PlainBackend,
            karma_sub_netlist(),
            seq![a, b],
            35,
            temp_values(a, b),
            out_values(a, b),
        ),
{
    reveal(w14);
    reveal(w110);
    reveal(w112);
    assert(karma_sub_netlist().levels[35] == level_35());
}

/// The bits on the wires are what the gates of level 36 yield.
proof fn level_36_satisfied(a: Seq<bool>, b: Seq<bool>)
    ensures
        level_satisfied(
            &PlainBackend,
            karma_sub_netlist(),
            seq![a, b],
            36,
            temp_values(a, b),
            out_values(a, b),
        ),
{
    reveal(w15);
    reveal(w109);
    reveal(w113);
    assert(karma_sub_netlist().levels[36] == level_36());
}

/// The bits on the wires are what the gates of level 37 yield.
proof fn level_37_satisfied(a: Seq<bool>, b: Seq<bool>)
    ensures
        level_satisfied(
            &PlainBackend,
            karma_sub_netlist(),
            seq![a, b],
            37,
            temp_values(a, b),
            out_values(a, b),
        ),
{
    reveal(w34);
    reveal(w114);
    reveal(w115);
    assert(karma_sub_netlist().levels[37] == level_37());
}

/// The bits on the wires are what the gates of level 38 yield.
proof fn level_38_satisfied(a: Seq<bool>, b: Seq<bool>)
    ensures
        level_satisfied(
            &PlainBackend,
            karma_sub_netlist(),
            seq![a, b],
            38,
            temp_values(a, b),
            out_values(a, b),
        ),
{
    reveal(w116);
    reveal(w120);
    assert(karma_sub_netlist().levels[38] == level_38());
}

/// The bits on the wires are what the gates of level 39 yield.
proof fn level_39_satisfied(a: Seq<bool>, b: Seq<bool>)
    ensures
        level_satisfied(
            &PlainBackend,
            karma_sub_netlist(),
            seq![a, b],
            39,
            temp_values(a, b),
            out_values(a, b),
        ),
{
    reveal(w16);
    reveal(w119);
    reveal(w121);
    assert(karma_sub_netlist().levels[39] == level_39());
}

/// The bits on the wires are what the gates of level 40 yield.
proof fn level_40_satisfied(a: Seq<bool>, b: Seq<bool>)
    ensures
        level_satisfied(
            &PlainBackend,
            karma_sub_netlist(),
            seq![a, b],
            40,
            temp_values(a, b),
            out_values(a, b),
        ),
{
    reveal(w17);
    reveal(w118);
    reveal(w122);
    assert(karma_sub_netlist().levels[40] == level_40());
}

/// The bits on the wires are what the gates of level 41 yield.
proof fn level_41_satisfied(a: Seq<bool>, b: Seq<bool>)
    ensures
        level_satisfied(
            &PlainBackend,
            karma_sub_netlist(),
            seq![a, b],
            41,
            temp_values(a, b),
            out_values(a, b),
        ),
{
    reveal(w35);
    reveal(w123);
    reveal(w124);
    assert(karma_sub_netlist().levels[41] == level_41());
}

/// The bits on the wires are what the gates of level 42 yield.
proof fn level_42_satisfied(a: Seq<bool>, b: Seq<bool>)
    ensures
        level_satisfied(
            &PlainBackend,
            karma_sub_netlist(),
            seq![a, b],
            42,
            temp_values(a, b),
            out_values(a, b),
        ),
{
    reveal(w125);
    reveal(w129);
    assert(karma_sub_netlist().levels[42] == level_42());
}

/// The bits on the wires are what the gates of level 43 yield.
proof fn level_43_satisfied(a: Seq<bool>, b: Seq<bool>)
    ensures
        level_satisfied(
            &PlainBackend,
            karma_sub_netlist(),
            seq![a, b],
            43,
            temp_values(a, b),
            out_values(a, b),
        ),
{
    reveal(w18);
    reveal(w128);
    reveal(w130);
    assert(karma_sub_netlist().levels[43] == level_43());
}

/// The bits on the wires are what the gates of level 44 yield.
proof fn level_44_satisfied(a: Seq<bool>, b: Seq<bool>)
    ensures
        level_satisfied(
            &PlainBackend,
            karma_sub_netlist(),
            seq![a, b],
            44,
            temp_values(a, b),
            out_values(a, b),
        ),
{
    reveal(w19);
    reveal(w127);
    reveal(w131);
    assert(karma_sub_netlist().levels[44] == level_44());
}

/// The bits on the wires are what the gates of level 45 yield.
proof fn level_45_satisfied(a: Seq<bool>, b: Seq<bool>)
    ensures
        level_satisfied(
            &PlainBackend,
            karma_sub_netlist(),
            seq![a, b],
            45,
            temp_values(a, b),
            out_values(a, b),
        ),
{
    reveal(w36);
    reveal(w132);
    reveal(w133);
    assert(karma_sub_netlist().levels[45] == level_45());
}

/// The bits on the wires are what the gates of level 46 yield.
proof fn level_46_satisfied(a: Seq<bool>, b: Seq<bool>)
    ensures
        level_satisfied(
            &PlainBackend,
            karma_sub_netlist(),
            seq![a, b],
            46,
            temp_values(a, b),
            out_values(a, b),
        ),
{
    reveal(w134);
    reveal(w138);
    assert(karma_sub_netlist().levels[46] == level_46());
}

/// The bits on the wires are what the gates of level 47 yield.
proof fn level_47_satisfied(a: Seq<bool>, b: Seq<bool>)
    ensures
        level_satisfied(
            &PlainBackend,
            karma_sub_netlist(),
            seq![a, b],
            47,
            temp_values(a, b),
            out_values(a, b),
        ),
{
    reveal(w20);
    reveal(w137);
    reveal(w139);
    assert(karma_sub_netlist().levels[47] == level_47());
}

/// The bits on the wires are what the gates of level 48 yield.
proof fn level_48_satisfied(a: Seq<bool>, b: Seq<bool>)
    ensures
        level_satisfied(
            &PlainBackend,
            karma_sub_netlist(),
            seq![a, b],
            48,
            temp_values(a, b),
            out_values(a, b),
        ),
{
    reveal(w21);
    reveal(w136);
    reveal(w140);
    assert(karma_sub_netlist().levels[48] == level_48());
}

/// The bits on the wires are what the gates of level 49 yield.
proof fn level_49_satisfied(a: Seq<bool>, b: Seq<bool>)
    ensures
        level_satisfied(
            &PlainBackend,
            karma_sub_netlist(),
            seq![a, b],
            49,
            temp_values(a, b),
            out_values(a, b),
        ),
{
    reveal(w37);
    reveal(w141);
    reveal(w142);
    assert(karma_sub_netlist().levels[49] == level_49());
}

/// The bits on the wires are what the gates of level 50 yield.
proof fn level_50_satisfied(a: Seq<bool>, b: Seq<bool>)
    ensures
        level_satisfied(
            &PlainBackend,
            karma_sub_netlist(),
            seq![a, b],
            50,
            temp_values(a, b),
            out_values(a, b),
        ),
{
    reveal(w143);
    reveal(w147);
    assert(karma_sub_netlist().levels[50] == level_50());
}

/// The bits on the wires are what the gates of level 51 yield.
proof fn level_51_satisfied(a: Seq<bool>, b: Seq<bool>)
    ensures
        level_satisfied(
            &PlainBackend,
            karma_sub_netlist(),
            seq![a, b],
            51,
            temp_values(a, b),
            out_values(a, b),
        ),
{
    reveal(w22);
    reveal(w146);
    reveal(w148);
    assert(karma_sub_netlist().levels[51] == level_51());
}

/// The bits on the wires are what the gates of level 52 yield.
proof fn level_52_satisfied(a: Seq<bool>, b: Seq<bool>)
    ensures
        level_satisfied(
            &PlainBackend,
            karma_sub_netlist(),
            seq![a, b],
            52,
            temp_values(a, b),
            out_values(a, b),
        ),
{
    reveal(w23);
    reveal(w145);
    reveal(w149);
    assert(karma_sub_netlist().levels[52] == level_52());
}

/// The bits on the wires are what the gates of level 53 yield.
proof fn level_53_satisfied(a: Seq<bool>, b: Seq<bool>)
    ensures
        level_satisfied(
            &PlainBackend,
            karma_sub_netlist(),
            seq![a, b],
            53,
            temp_values(a, b),
            out_values(a, b),
        ),
{
    reveal(w38);
    reveal(w150);
    reveal(w151);
    assert(karma_sub_netlist().levels[53] == level_53());
}

/// The bits on the wires are what the gates of level 54 yield.
proof fn level_54_satisfied(a: Seq<bool>, b: Seq<bool>)
    ensures
        level_satisfied(
            &PlainBackend,
            karma_sub_netlist(),
            seq![a, b],
            54,
            temp_values(a, b),
            out_values(a, b),
        ),
{
    reveal(w152);
    reveal(w156);
    assert(karma_sub_netlist().levels[54] == level_54());
}

/// The bits on the wires are what the gates of level 55 yield.
proof fn level_55_satisfied(a: Seq<bool>, b: Seq<bool>)
    ensures
        level_satisfied(
            &PlainBackend,
            karma_sub_netlist(),
            seq![a, b],
            55,
            temp_values(a, b),
            out_values(a, b),
        ),
{
    reveal(w24);
    reveal(w155);
    reveal(w157);
    assert(karma_sub_netlist().levels[55] == level_55());
}

/// The bits on the wires are what the gates of level 56 yield.
proof fn level_56_satisfied(a: Seq<bool>, b: Seq<bool>)
    ensures
        level_satisfied(
            &PlainBackend,
            karma_sub_netlist(),
            seq![a, b],
            56,
            temp_values(a, b),
            out_values(a, b),
        ),
{
    reveal(w154);
    reveal(w158);
    assert(karma_sub_netlist().levels[56] == level_56());
}

/// The bits on the wires are what the gates of level 57 yield.
proof fn level_57_satisfied(a: Seq<bool>, b: Seq<bool>)
    ensures
        level_satisfied(
            &PlainBackend,
            karma_sub_netlist(),
            seq![a, b],
            57,
            temp_values(a, b),
            out_values(a, b),
        ),
{
    reveal(w25);
    reveal(w159);
    reveal(w161);
    assert(karma_sub_netlist().levels[57] == level_57());
}

/// The bits on the wires are what the gates of level 58 yield.
proof fn level_58_satisfied(a: Seq<bool>, b: Seq<bool>)
    ensures
        level_satisfied(
            &PlainBackend,
            karma_sub_netlist(),
            seq![a, b],
            58,
            temp_values(a, b),
            out_values(a, b),
        ),
{
    reveal(w160);
    reveal(w162);
    assert(karma_sub_netlist().levels[58] == level_58());
}

/// The bits on the wires are what the gates of level 59 yield.
proof fn level_59_satisfied(a: Seq<bool>, b: Seq<bool>)
    ensures
        level_satisfied(
            &PlainBackend,
            karma_sub_netlist(),
            seq![a, b],
            59,
            temp_values(a, b),
            out_values(a, b),
        ),
{
    reveal(w26);
    reveal(w163);
    reveal(w165);
    assert(karma_sub_netlist().levels[59] == level_59());
}

/// The bits on the wires are what the gates of level 60 yield.
proof fn level_60_satisfied(a: Seq<bool>, b: Seq<bool>)
    ensures
        level_satisfied(
            &PlainBackend,
            karma_sub_netlist(),
            seq![a, b],
            60,
            temp_values(a, b),
            out_values(a, b),
        ),
{
    reveal(w164);
    reveal(w166);
    assert(karma_sub_netlist().levels[60] == level_60());
}

/// The bits on the wires are what the gates of level 61 yield.
proof fn level_61_satisfied(a: Seq<bool>, b: Seq<bool>)
    ensures
        level_satisfied(
            &PlainBackend,
            karma_sub_netlist(),
            seq![a, b],
            61,
            temp_values(a, b),
            out_values(a, b),
        ),
{
    reveal(w90);
    reveal(w99);
    reveal(w108);
    reveal(w117);
    reveal(w126);
    reveal(w135);
    reveal(w144);
    reveal(w153);
    reveal(w167);
    reveal(w168);
    reveal(w169);
    reveal(w170);
    reveal(w171);
    assert(karma_sub_netlist().levels[61] == level_61());
}

/// The bits on the wires are what the gates of level 62 yield.
proof fn level_62_satisfied(a: Seq<bool>, b: Seq<bool>)
    ensures
        level_satisfied(
            &PlainBackend,
            karma_sub_netlist(),
            seq![a, b],
            62,
            temp_values(a, b),
            out_values(a, b),
        ),
{
    reveal(o0);
    reveal(o13);
    reveal(o14);
    reveal(o15);
    reveal(o16);
    reveal(o17);
    reveal(o18);
    reveal(o19);
    reveal(o20);
    reveal(o21);
    reveal(o22);
    reveal(o23);
    reveal(o24);
    reveal(o25);
    reveal(o26);
    reveal(o27);
    reveal(o28);
    reveal(o29);
    reveal(o30);
    reveal(o31);
    reveal(o1);
    reveal(o2);
    reveal(o3);
    reveal(o4);
    reveal(o5);
    reveal(o6);
    reveal(o7);
    reveal(o8);
    reveal(o9);
    reveal(o10);
    reveal(o11);
    reveal(o12);
    assert(karma_sub_netlist().levels[62] == level_62());
}

/// The output wires of the netlist on the words `a` and `b` are the bits
/// that follow from the gates one by one.
proof fn lemma_outputs(a: Seq<bool>, b: Seq<bool>)
    ensures
        circuit_outputs(&PlainBackend, karma_sub_netlist(), seq![a, b]) == assigned_outputs(
            32,
            out_values(a, b),
        ),
{
    let netlist = karma_sub_netlist();
    let arg_lens = seq![32nat, 32nat];
    let args = seq![a, b];
    lemma_karma_sub_scheduled(arg_lens);
    assert forall|l: int| 0 <= l < netlist.levels.len() implies #[trigger] level_satisfied(
        &PlainBackend,
        netlist,
        args,
        l,
        temp_values(a, b),
        out_values(a, b),
    ) by {
        if l == 0 {
            level_0_satisfied(a, b);
        } else if l == 1 {
            level_1_satisfied(a, b);
        } else if l == 2 {
            level_2_satisfied(a, b);
        } else if l == 3 {
            level_3_satisfied(a, b);
        } else if l == 4 {
            level_4_satisfied(a, b);
        } else if l == 5 {
            level_5_satisfied(a, b);
        } else if l == 6 {
            level_6_satisfied(a, b);
        } else if l == 7 {
            level_7_satisfied(a, b);
        } else if l == 8 {
            level_8_satisfied(a, b);
        } else if l == 9 {
            level_9_satisfied(a, b);
        } else if l == 10 {
            level_10_satisfied(a, b);
        } else if l == 11 {
            level_11_satisfied(a, b);
        } else if l == 12 {
            level_12_satisfied(a, b);
        } else if l == 13 {
            level_13_satisfied(a, b);
        } else if l == 14 {
            level_14_satisfied(a, b);
        } else if l == 15 {
            level_15_satisfied(a, b);
        } else if l == 16 {
            level_16_satisfied(a, b);
        } else if l == 17 {
            level_17_satisfied(a, b);
        } else if l == 18 {
            level_18_satisfied(a, b);
        } else if l == 19 {
            level_19_satisfied(a, b);
        } else if l == 20 {
            level_20_satisfied(a, b);
        } else if l == 21 {
            level_21_satisfied(a, b);
        } else if l == 22 {
            level_22_satisfied(a, b);
        } else if l == 23 {
            level_23_satisfied(a, b);
        } else if l == 24 {
            level_24_satisfied(a, b);
        } else if l == 25 {
            level_25_satisfied(a, b);
        } else if l == 26 {
            level_26_satisfied(a, b);
        } else if l == 27 {
            level_27_satisfied(a, b);
        } else if l == 28 {
            level_28_satisfied(a, b);
        } else if l == 29 {
            level_29_satisfied(a, b);
        } else if l == 30 {
            level_30_satisfied(a, b);
        } else if l == 31 {
            level_31_satisfied(a, b);
        } else if l == 32 {
            level_32_satisfied(a, b);
        } else if l == 33 {
            level_33_satisfied(a, b);
        } else if l == 34 {
            level_34_satisfied(a, b);
        } else if l == 35 {
            level_35_satisfied(a, b);
        } else if l == 36 {
            level_36_satisfied(a, b);
        } else if l == 37 {
            level_37_satisfied(a, b);
        } else if l == 38 {
            level_38_satisfied(a, b);
        } else if l == 39 {
            level_39_satisfied(a, b);
        } else if l == 40 {
            level_40_satisfied(a, b);
        } else if l == 41 {
            level_41_satisfied(a, b);
        } else if l == 42 {
            level_42_satisfied(a, b);
        } else if l == 43 {
            level_43_satisfied(a, b);
        } else if l == 44 {
            level_44_satisfied(a, b);
        } else if l == 45 {
            level_45_satisfied(a, b);
        } else if l == 46 {
            level_46_satisfied(a, b);
        } else if l == 47 {
            level_47_satisfied(a, b);
        } else if l == 48 {
            level_48_satisfied(a, b);
        } else if l == 49 {
            level_49_satisfied(a, b);
        } else if l == 50 {
            level_50_satisfied(a, b);
        } else if l == 51 {
            level_51_satisfied(a, b);
        } else if l == 52 {
            level_52_satisfied(a, b);
        } else if l == 53 {
            level_53_satisfied(a, b);
        } else if l == 54 {
            level_54_satisfied(a, b);
        } else if l == 55 {
            level_55_satisfied(a, b);
        } else if l == 56 {
            level_56_satisfied(a, b);
        } else if l == 57 {
            level_57_satisfied(a, b);
        } else if l == 58 {
            level_58_satisfied(a, b);
        } else if l == 59 {
            level_59_satisfied(a, b);
        } else if l == 60 {
            level_60_satisfied(a, b);
        } else if l == 61 {
            level_61_satisfied(a, b);
        } else if l == 62 {
            level_62_satisfied(a, b);
        }
    }
    lemma_assignment_is_computed(
        &PlainBackend,
        netlist,
        args,
        arg_lens,
        schedule(),
        temp_values(a, b),
        out_values(a, b),
    );
}

/// Bit `i` of `v`.
spec fn bit(v: u32, i: u32) -> bool {
    (v >> i) & 1 == 1
}

/// The low `i` bits of `x` are less than those of `y`: taking one from
/// the other borrows from bit `i`.
#[verifier::opaque]
spec fn borrow(x: u32, y: u32, i: u32) -> bool {
    (x & (((1u32 << i) - 1) as u32)) < (y & (((1u32 << i) - 1) as u32))
}

/// How bit `i` of the difference and the borrow into the next bit come from the
/// bits `i` of `x` and `y` and the borrow into bit `i`.
proof fn lemma_step(x: u32, y: u32, z: u32, i: u32)
    by (bit_vector)
    requires
        i < 32,
        z == (x + 0x1_0000_0000 - y) % 0x1_0000_0000,
    ensures
        ((z >> i) & 1 == 1) == ((((x >> i) & 1 == 1) != ((y >> i) & 1 == 1))
            != ((x & (((1u32 << i) - 1) as u32)) < (y & (((1u32 << i) - 1) as u32)))),
        i == 0 ==> !((x & (((1u32 << i) - 1) as u32)) < (y & (((1u32 << i) - 1) as u32))),
        i < 31 ==> ((x & (((1u32 << ((i + 1) as u32)) - 1) as u32)) < (y & (((1u32 << ((i + 1) as u32)) - 1) as u32)))
            == ((!((x >> i) & 1 == 1) && ((y >> i) & 1 == 1)) || (((x & (((1u32 << i) - 1) as u32)) < (y & (((1u32 << i) - 1) as u32))) && (((x >> i) & 1 == 1) == ((y >> i) & 1 == 1)))),
{
}

/// Bit 0 of the difference, and the borrow out of it.
proof fn lemma_bit_0(a: Seq<bool>, b: Seq<bool>, x: u32, y: u32, z: u32)
    requires
        z == difference32(x, y),
        a[0] == bit(x, 0),
        b[0] == bit(y, 0),
    ensures
        o0(a, b) == bit(z, 0),
        w39(a, b) == !borrow(x, y, 1),
{
    reveal(borrow);
    reveal(o0);
    reveal(w39);
    reveal(w27);
    lemma_step(x, y, z, 0);
}

/// Bit 1 of the difference, and the borrow out of it.
proof fn lemma_bit_1(a: Seq<bool>, b: Seq<bool>, x: u32, y: u32, z: u32)
    requires
        z == difference32(x, y),
        a[1] == bit(x, 1),
        b[1] == bit(y, 1),
        w39(a, b) == !borrow(x, y, 1),
    ensures
        o1(a, b) == bit(z, 1),
        w61(a, b) == !borrow(x, y, 2),
{
    reveal(borrow);
    reveal(o1);
    reveal(w59);
    reveal(w61);
    reveal(w58);
    reveal(w172);
    reveal(w60);
    lemma_step(x, y, z, 1);
}

/// Bit 2 of the difference, and the borrow out of it.
proof fn lemma_bit_2(a: Seq<bool>, b: Seq<bool>, x: u32, y: u32, z: u32)
    requires
        z == difference32(x, y),
        a[2] == bit(x, 2),
        b[2] == bit(y, 2),
        w61(a, b) == !borrow(x, y, 2),
    ensures
        o2(a, b) == bit(z, 2),
        w64(a, b) == !borrow(x, y, 3),
{
    reveal(borrow);
    reveal(o2);
    reveal(w62);
    reveal(w64);
    reveal(w57);
    reveal(w173);
    reveal(w63);
    lemma_step(x, y, z, 2);
}

/// Bit 3 of the difference, and the borrow out of it.
proof fn lemma_bit_3(a: Seq<bool>, b: Seq<bool>, x: u32, y: u32, z: u32)
    requires
        z == difference32(x, y),
        a[3] == bit(x, 3),
        b[3] == bit(y, 3),
        w64(a, b) == !borrow(x, y, 3),
    ensures
        o3(a, b) == bit(z, 3),
        w67(a, b) == !borrow(x, y, 4),
{
    reveal(borrow);
    reveal(o3);
    reveal(w65);
    reveal(w67);
    reveal(w56);
    reveal(w174);
    reveal(w66);
    lemma_step(x, y, z, 3);
}

/// Bit 4 of the difference, and the borrow out of it.
proof fn lemma_bit_4(a: Seq<bool>, b: Seq<bool>, x: u32, y: u32, z: u32)
    requires
        z == difference32(x, y),
        a[4] == bit(x, 4),
        b[4] == bit(y, 4),
        w67(a, b) == !borrow(x, y, 4),
    ensures
        o4(a, b) == bit(z, 4),
        w70(a, b) == !borrow(x, y, 5),
{
    reveal(borrow);
    reveal(o4);
    reveal(w68);
    reveal(w70);
    reveal(w55);
    reveal(w0);
    reveal(w69);
    lemma_step(x, y, z, 4);
}

/// Bit 5 of the difference, and the borrow out of it.
proof fn lemma_bit_5(a: Seq<bool>, b: Seq<bool>, x: u32, y: u32, z: u32)
    requires
        z == difference32(x, y),
        a[5] == bit(x, 5),
        b[5] == bit(y, 5),
        w70(a, b) == !borrow(x, y, 5),
    ensures
        o5(a, b) == bit(z, 5),
        w73(a, b) == !borrow(x, y, 6),
{
    reveal(borrow);
    reveal(o5);
    reveal(w71);
    reveal(w73);
    reveal(w54);
    reveal(w1);
    reveal(w72);
    lemma_step(x, y, z, 5);
}

/// Bit 6 of the difference, and the borrow out of it.
proof fn lemma_bit_6(a: Seq<bool>, b: Seq<bool>, x: u32, y: u32, z: u32)
    requires
        z == difference32(x, y),
        a[6] == bit(x, 6),
        b[6] == bit(y, 6),
        w73(a, b) == !borrow(x, y, 6),
    ensures
        o6(a, b) == bit(z, 6),
        w75(a, b) == !borrow(x, y, 7),
{
    reveal(borrow);
    reveal(o6);
    reveal(w53);
    reveal(w75);
    reveal(w52);
    reveal(w2);
    reveal(w74);
    lemma_step(x, y, z, 6);
}

/// Bit 7 of the difference, and the borrow out of it.
proof fn lemma_bit_7(a: Seq<bool>, b: Seq<bool>, x: u32, y: u32, z: u32)
    requires
        z == difference32(x, y),
        a[7] == bit(x, 7),
        b[7] == bit(y, 7),
        w75(a, b) == !borrow(x, y, 7),
    ensures
        o7(a, b) == bit(z, 7),
        w77(a, b) == !borrow(x, y, 8),
{
    reveal(borrow);
    reveal(o7);
    reveal(w169);
    reveal(w77);
    reveal(w50);
    reveal(w3);
    reveal(w76);
    reveal(w51);
    reveal(w28);
    lemma_step(x, y, z, 7);
}

/// Bit 8 of the difference, and the borrow out of it.
proof fn lemma_bit_8(a: Seq<bool>, b: Seq<bool>, x: u32, y: u32, z: u32)
    requires
        z == difference32(x, y),
        a[8] == bit(x, 8),
        b[8] == bit(y, 8),
        w77(a, b) == !borrow(x, y, 8),
    ensures
        o8(a, b) == bit(z, 8),
        w79(a, b) == !borrow(x, y, 9),
{
    reveal(borrow);
    reveal(o8);
    reveal(w49);
    reveal(w79);
    reveal(w48);
    reveal(w4);
    reveal(w78);
    lemma_step(x, y, z, 8);
}

/// Bit 9 of the difference, and the borrow out of it.
proof fn lemma_bit_9(a: Seq<bool>, b: Seq<bool>, x: u32, y: u32, z: u32)
    requires
        z == difference32(x, y),
        a[9] == bit(x, 9),
        b[9] == bit(y, 9),
        w79(a, b) == !borrow(x, y, 9),
    ensures
        o9(a, b) == bit(z, 9),
        w81(a, b) == !borrow(x, y, 10),
{
    reveal(borrow);
    reveal(o9);
    reveal(w170);
    reveal(w81);
    reveal(w46);
    reveal(w5);
    reveal(w80);
    reveal(w47);
    reveal(w29);
    lemma_step(x, y, z, 9);
}

/// Bit 10 of the difference, and the borrow out of it.
proof fn lemma_bit_10(a: Seq<bool>, b: Seq<bool>, x: u32, y: u32, z: u32)
    requires
        z == difference32(x, y),
        a[10] == bit(x, 10),
        b[10] == bit(y, 10),
        w81(a, b) == !borrow(x, y, 10),
    ensures
        o10(a, b) == bit(z, 10),
        w83(a, b) == !borrow(x, y, 11),
{
    reveal(borrow);
    reveal(o10);
    reveal(w45);
    reveal(w83);
    reveal(w44);
    reveal(w6);
    reveal(w82);
    lemma_step(x, y, z, 10);
}

/// Bit 11 of the difference, and the borrow out of it.
proof fn lemma_bit_11(a: Seq<bool>, b: Seq<bool>, x: u32, y: u32, z: u32)
    requires
        z == difference32(x, y),
        a[11] == bit(x, 11),
        b[11] == bit(y, 11),
        w83(a, b) == !borrow(x, y, 11),
    ensures
        o11(a, b) == bit(z, 11),
        w85(a, b) == !borrow(x, y, 12),
{
    reveal(borrow);
    reveal(o11);
    reveal(w171);
    reveal(w85);
    reveal(w42);
    reveal(w7);
    reveal(w84);
    reveal(w43);
    reveal(w30);
    lemma_step(x, y, z, 11);
}

/// Bit 12 of the difference, and the borrow out of it.
proof fn lemma_bit_12(a: Seq<bool>, b: Seq<bool>, x: u32, y: u32, z: u32)
    requires
        z == difference32(x, y),
        a[12] == bit(x, 12),
        b[12] == bit(y, 12),
        w85(a, b) == !borrow(x, y, 12),
    ensures
        o12(a, b) == bit(z, 12),
        w87(a, b) == borrow(x, y, 13),
{
    reveal(borrow);
    reveal(o12);
    reveal(w41);
    reveal(w87);
    reveal(w40);
    reveal(w8);
    reveal(w86);
    lemma_step(x, y, z, 12);
}

/// Bit 13 of the difference, and the borrow out of it.
proof fn lemma_bit_13(a: Seq<bool>, b: Seq<bool>, x: u32, y: u32, z: u32)
    requires
        z == difference32(x, y),
        a[13] == bit(x, 13),
        b[13] == bit(y, 13),
        w87(a, b) == borrow(x, y, 13),
    ensures
        o13(a, b) == bit(z, 13),
        w94(a, b) == !borrow(x, y, 14),
{
    reveal(borrow);
    reveal(o13);
    reveal(w90);
    reveal(w94);
    reveal(w89);
    reveal(w31);
    reveal(w93);
    reveal(w88);
    reveal(w9);
    lemma_step(x, y, z, 13);
}

/// Bit 14 of the difference, and the borrow out of it.
proof fn lemma_bit_14(a: Seq<bool>, b: Seq<bool>, x: u32, y: u32, z: u32)
    requires
        z == difference32(x, y),
        a[14] == bit(x, 14),
        b[14] == bit(y, 14),
        w94(a, b) == !borrow(x, y, 14),
    ensures
        o14(a, b) == bit(z, 14),
        w96(a, b) == borrow(x, y, 15),
{
    reveal(borrow);
    reveal(o14);
    reveal(w92);
    reveal(w96);
    reveal(w91);
    reveal(w10);
    reveal(w95);
    lemma_step(x, y, z, 14);
}

/// Bit 15 of the difference, and the borrow out of it.
proof fn lemma_bit_15(a: Seq<bool>, b: Seq<bool>, x: u32, y: u32, z: u32)
    requires
        z == difference32(x, y),
        a[15] == bit(x, 15),
        b[15] == bit(y, 15),
        w96(a, b) == borrow(x, y, 15),
    ensures
        o15(a, b) == bit(z, 15),
        w103(a, b) == !borrow(x, y, 16),
{
    reveal(borrow);
    reveal(o15);
    reveal(w99);
    reveal(w103);
    reveal(w98);
    reveal(w32);
    reveal(w102);
    reveal(w97);
    reveal(w11);
    lemma_step(x, y, z, 15);
}

/// Bit 16 of the difference, and the borrow out of it.
proof fn lemma_bit_16(a: Seq<bool>, b: Seq<bool>, x: u32, y: u32, z: u32)
    requires
        z == difference32(x, y),
        a[16] == bit(x, 16),
        b[16] == bit(y, 16),
        w103(a, b) == !borrow(x, y, 16),
    ensures
        o16(a, b) == bit(z, 16),
        w105(a, b) == borrow(x, y, 17),
{
    reveal(borrow);
    reveal(o16);
    reveal(w101);
    reveal(w105);
    reveal(w100);
    reveal(w12);
    reveal(w104);
    lemma_step(x, y, z, 16);
}

/// Bit 17 of the difference, and the borrow out of it.
proof fn lemma_bit_17(a: Seq<bool>, b: Seq<bool>, x: u32, y: u32, z: u32)
    requires
        z == difference32(x, y),
        a[17] == bit(x, 17),
        b[17] == bit(y, 17),
        w105(a, b) == borrow(x, y, 17),
    ensures
        o17(a, b) == bit(z, 17),
        w112(a, b) == !borrow(x, y, 18),
{
    reveal(borrow);
    reveal(o17);
    reveal(w108);
    reveal(w112);
    reveal(w107);
    reveal(w33);
    reveal(w111);
    reveal(w106);
    reveal(w13);
    lemma_step(x, y, z, 17);
}

/// Bit 18 of the difference, and the borrow out of it.
proof fn lemma_bit_18(a: Seq<bool>, b: Seq<bool>, x: u32, y: u32, z: u32)
    requires
        z == difference32(x, y),
        a[18] == bit(x, 18),
        b[18] == bit(y, 18),
        w112(a, b) == !borrow(x, y, 18),
    ensures
        o18(a, b) == bit(z, 18),
        w114(a, b) == borrow(x, y, 19),
{
    reveal(borrow);
    reveal(o18);
    reveal(w110);
    reveal(w114);
    reveal(w109);
    reveal(w14);
    reveal(w113);
    lemma_step(x, y, z, 18);
}

/// Bit 19 of the difference, and the borrow out of it.
proof fn lemma_bit_19(a: Seq<bool>, b: Seq<bool>, x: u32, y: u32, z: u32)
    requires
        z == difference32(x, y),
        a[19] == bit(x, 19),
        b[19] == bit(y, 19),
        w114(a, b) == borrow(x, y, 19),
    ensures
        o19(a, b) == bit(z, 19),
        w121(a, b) == !borrow(x, y, 20),
{
    reveal(borrow);
    reveal(o19);
    reveal(w117);
    reveal(w121);
    reveal(w116);
    reveal(w34);
    reveal(w120);
    reveal(w115);
    reveal(w15);
    lemma_step(x, y, z, 19);
}

/// Bit 20 of the difference, and the borrow out of it.
proof fn lemma_bit_20(a: Seq<bool>, b: Seq<bool>, x: u32, y: u32, z: u32)
    requires
        z == difference32(x, y),
        a[20] == bit(x, 20),
        b[20] == bit(y, 20),
        w121(a, b) == !borrow(x, y, 20),
    ensures
        o20(a, b) == bit(z, 20),
        w123(a, b) == borrow(x, y, 21),
{
    reveal(borrow);
    reveal(o20);
    reveal(w119);
    reveal(w123);
    reveal(w118);
    reveal(w16);
    reveal(w122);
    lemma_step(x, y, z, 20);
}

/// Bit 21 of the difference, and the borrow out of it.
proof fn lemma_bit_21(a: Seq<bool>, b: Seq<bool>, x: u32, y: u32, z: u32)
    requires
        z == difference32(x, y),
        a[21] == bit(x, 21),
        b[21] == bit(y, 21),
        w123(a, b) == borrow(x, y, 21),
    ensures
        o21(a, b) == bit(z, 21),
        w130(a, b) == !borrow(x, y, 22),
{
    reveal(borrow);
    reveal(o21);
    reveal(w126);
    reveal(w130);
    reveal(w125);
    reveal(w35);
    reveal(w129);
    reveal(w124);
    reveal(w17);
    lemma_step(x, y, z, 21);
}

/// Bit 22 of the difference, and the borrow out of it.
proof fn lemma_bit_22(a: Seq<bool>, b: Seq<bool>, x: u32, y: u32, z: u32)
    requires
        z == difference32(x, y),
        a[22] == bit(x, 22),
        b[22] == bit(y, 22),
        w130(a, b) == !borrow(x, y, 22),
    ensures
        o22(a, b) == bit(z, 22),
        w132(a, b) == borrow(x, y, 23),
{
    reveal(borrow);
    reveal(o22);
    reveal(w128);
    reveal(w132);
    reveal(w127);
    reveal(w18);
    reveal(w131);
    lemma_step(x, y, z, 22);
}

/// Bit 23 of the difference, and the borrow out of it.
proof fn lemma_bit_23(a: Seq<bool>, b: Seq<bool>, x: u32, y: u32, z: u32)
    requires
        z == difference32(x, y),
        a[23] == bit(x, 23),
        b[23] == bit(y, 23),
        w132(a, b) == borrow(x, y, 23),
    ensures
        o23(a, b) == bit(z, 23),
        w139(a, b) == !borrow(x, y, 24),
{
    reveal(borrow);
    reveal(o23);
    reveal(w135);
    reveal(w139);
    reveal(w134);
    reveal(w36);
    reveal(w138);
    reveal(w133);
    reveal(w19);
    lemma_step(x, y, z, 23);
}

/// Bit 24 of the difference, and the borrow out of it.
proof fn lemma_bit_24(a: Seq<bool>, b: Seq<bool>, x: u32, y: u32, z: u32)
    requires
        z == difference32(x, y),
        a[24] == bit(x, 24),
        b[24] == bit(y, 24),
        w139(a, b) == !borrow(x, y, 24),
    ensures
        o24(a, b) == bit(z, 24),
        w141(a, b) == borrow(x, y, 25),
{
    reveal(borrow);
    reveal(o24);
    reveal(w137);
    reveal(w141);
    reveal(w136);
    reveal(w20);
    reveal(w140);
    lemma_step(x, y, z, 24);
}

/// Bit 25 of the difference, and the borrow out of it.
proof fn lemma_bit_25(a: Seq<bool>, b: Seq<bool>, x: u32, y: u32, z: u32)
    requires
        z == difference32(x, y),
        a[25] == bit(x, 25),
        b[25] == bit(y, 25),
        w141(a, b) == borrow(x, y, 25),
    ensures
        o25(a, b) == bit(z, 25),
        w148(a, b) == !borrow(x, y, 26),
{
    reveal(borrow);
    reveal(o25);
    reveal(w144);
    reveal(w148);
    reveal(w143);
    reveal(w37);
    reveal(w147);
    reveal(w142);
    reveal(w21);
    lemma_step(x, y, z, 25);
}

/// Bit 26 of the difference, and the borrow out of it.
proof fn lemma_bit_26(a: Seq<bool>, b: Seq<bool>, x: u32, y: u32, z: u32)
    requires
        z == difference32(x, y),
        a[26] == bit(x, 26),
        b[26] == bit(y, 26),
        w148(a, b) == !borrow(x, y, 26),
    ensures
        o26(a, b) == bit(z, 26),
        w150(a, b) == borrow(x, y, 27),
{
    reveal(borrow);
    reveal(o26);
    reveal(w146);
    reveal(w150);
    reveal(w145);
    reveal(w22);
    reveal(w149);
    lemma_step(x, y, z, 26);
}

/// Bit 27 of the difference, and the borrow out of it.
proof fn lemma_bit_27(a: Seq<bool>, b: Seq<bool>, x: u32, y: u32, z: u32)
    requires
        z == difference32(x, y),
        a[27] == bit(x, 27),
        b[27] == bit(y, 27),
        w150(a, b) == borrow(x, y, 27),
    ensures
        o27(a, b) == bit(z, 27),
        w157(a, b) == !borrow(x, y, 28),
{
    reveal(borrow);
    reveal(o27);
    reveal(w153);
    reveal(w157);
    reveal(w152);
    reveal(w38);
    reveal(w156);
    reveal(w151);
    reveal(w23);
    lemma_step(x, y, z, 27);
}

/// Bit 28 of the difference, and the borrow out of it.
proof fn lemma_bit_28(a: Seq<bool>, b: Seq<bool>, x: u32, y: u32, z: u32)
    requires
        z == difference32(x, y),
        a[28] == bit(x, 28),
        b[28] == bit(y, 28),
        w157(a, b) == !borrow(x, y, 28),
    ensures
        o28(a, b) == bit(z, 28),
        w159(a, b) == !borrow(x, y, 29),
{
    reveal(borrow);
    reveal(o28);
    reveal(w155);
    reveal(w159);
    reveal(w154);
    reveal(w24);
    reveal(w158);
    lemma_step(x, y, z, 28);
}

/// Bit 29 of the difference, and the borrow out of it.
proof fn lemma_bit_29(a: Seq<bool>, b: Seq<bool>, x: u32, y: u32, z: u32)
    requires
        z == difference32(x, y),
        a[29] == bit(x, 29),
        b[29] == bit(y, 29),
        w159(a, b) == !borrow(x, y, 29),
    ensures
        o29(a, b) == bit(z, 29),
        w163(a, b) == !borrow(x, y, 30),
{
    reveal(borrow);
    reveal(o29);
    reveal(w161);
    reveal(w163);
    reveal(w160);
    reveal(w25);
    reveal(w162);
    lemma_step(x, y, z, 29);
}

/// Bit 30 of the difference, and the borrow out of it.
proof fn lemma_bit_30(a: Seq<bool>, b: Seq<bool>, x: u32, y: u32, z: u32)
    requires
        z == difference32(x, y),
        a[30] == bit(x, 30),
        b[30] == bit(y, 30),
        w163(a, b) == !borrow(x, y, 30),
    ensures
        o30(a, b) == bit(z, 30),
        w167(a, b) == !borrow(x, y, 31),
{
    reveal(borrow);
    reveal(o30);
    reveal(w165);
    reveal(w167);
    reveal(w164);
    reveal(w26);
    reveal(w166);
    lemma_step(x, y, z, 30);
}

/// Bit 31 of the difference, and the borrow out of it.
proof fn lemma_bit_31(a: Seq<bool>, b: Seq<bool>, x: u32, y: u32, z: u32)
    requires
        z == difference32(x, y),
        a[31] == bit(x, 31),
        b[31] == bit(y, 31),
        w167(a, b) == !borrow(x, y, 31),
    ensures
        o31(a, b) == bit(z, 31),
{
    reveal(borrow);
    reveal(o31);
    reveal(w168);
    lemma_step(x, y, z, 31);
}

/// Bits 0 to 7 of the difference.
proof fn lemma_bits_from_0(a: Seq<bool>, b: Seq<bool>, x: u32, y: u32, z: u32)
    requires
        z == difference32(x, y),
        forall|i: int| 0 <= i < 32 ==> #[trigger] a[i] == bit(x, i as u32),
        forall|i: int| 0 <= i < 32 ==> #[trigger] b[i] == bit(y, i as u32),
    ensures
        o0(a, b) == bit(z, 0),
        o1(a, b) == bit(z, 1),
        o2(a, b) == bit(z, 2),
        o3(a, b) == bit(z, 3),
        o4(a, b) == bit(z, 4),
        o5(a, b) == bit(z, 5),
        o6(a, b) == bit(z, 6),
        o7(a, b) == bit(z, 7),
        w77(a, b) == !borrow(x, y, 8),
{
    assert(a[0] == bit(x, 0));
    assert(b[0] == bit(y, 0));
    lemma_bit_0(a, b, x, y, z);
    assert(a[1] == bit(x, 1));
    assert(b[1] == bit(y, 1));
    lemma_bit_1(a, b, x, y, z);
    assert(a[2] == bit(x, 2));
    assert(b[2] == bit(y, 2));
    lemma_bit_2(a, b, x, y, z);
    assert(a[3] == bit(x, 3));
    assert(b[3] == bit(y, 3));
    lemma_bit_3(a, b, x, y, z);
    assert(a[4] == bit(x, 4));
    assert(b[4] == bit(y, 4));
    lemma_bit_4(a, b, x, y, z);
    assert(a[5] == bit(x, 5));
    assert(b[5] == bit(y, 5));
    lemma_bit_5(a, b, x, y, z);
    assert(a[6] == bit(x, 6));
    assert(b[6] == bit(y, 6));
    lemma_bit_6(a, b, x, y, z);
    assert(a[7] == bit(x, 7));
    assert(b[7] == bit(y, 7));
    lemma_bit_7(a, b, x, y, z);
}

/// Bits 8 to 15 of the difference.
proof fn lemma_bits_from_8(a: Seq<bool>, b: Seq<bool>, x: u32, y: u32, z: u32)
    requires
        z == difference32(x, y),
        forall|i: int| 0 <= i < 32 ==> #[trigger] a[i] == bit(x, i as u32),
        forall|i: int| 0 <= i < 32 ==> #[trigger] b[i] == bit(y, i as u32),
        w77(a, b) == !borrow(x, y, 8),
    ensures
        o8(a, b) == bit(z, 8),
        o9(a, b) == bit(z, 9),
        o10(a, b) == bit(z, 10),
        o11(a, b) == bit(z, 11),
        o12(a, b) == bit(z, 12),
        o13(a, b) == bit(z, 13),
        o14(a, b) == bit(z, 14),
        o15(a, b) == bit(z, 15),
        w103(a, b) == !borrow(x, y, 16),
{
    assert(a[8] == bit(x, 8));
    assert(b[8] == bit(y, 8));
    lemma_bit_8(a, b, x, y, z);
    assert(a[9] == bit(x, 9));
    assert(b[9] == bit(y, 9));
    lemma_bit_9(a, b, x, y, z);
    assert(a[10] == bit(x, 10));
    assert(b[10] == bit(y, 10));
    lemma_bit_10(a, b, x, y, z);
    assert(a[11] == bit(x, 11));
    assert(b[11] == bit(y, 11));
    lemma_bit_11(a, b, x, y, z);
    assert(a[12] == bit(x, 12));
    assert(b[12] == bit(y, 12));
    lemma_bit_12(a, b, x, y, z);
    assert(a[13] == bit(x, 13));
    assert(b[13] == bit(y, 13));
    lemma_bit_13(a, b, x, y, z);
    assert(a[14] == bit(x, 14));
    assert(b[14] == bit(y, 14));
    lemma_bit_14(a, b, x, y, z);
    assert(a[15] == bit(x, 15));
    assert(b[15] == bit(y, 15));
    lemma_bit_15(a, b, x, y, z);
}

/// Bits 16 to 23 of the difference.
proof fn lemma_bits_from_16(a: Seq<bool>, b: Seq<bool>, x: u32, y: u32, z: u32)
    requires
        z == difference32(x, y),
        forall|i: int| 0 <= i < 32 ==> #[trigger] a[i] == bit(x, i as u32),
        forall|i: int| 0 <= i < 32 ==> #[trigger] b[i] == bit(y, i as u32),
        w103(a, b) == !borrow(x, y, 16),
    ensures
        o16(a, b) == bit(z, 16),
        o17(a, b) == bit(z, 17),
        o18(a, b) == bit(z, 18),
        o19(a, b) == bit(z, 19),
        o20(a, b) == bit(z, 20),
        o21(a, b) == bit(z, 21),
        o22(a, b) == bit(z, 22),
        o23(a, b) == bit(z, 23),
        w139(a, b) == !borrow(x, y, 24),
{
    assert(a[16] == bit(x, 16));
    assert(b[16] == bit(y, 16));
    lemma_bit_16(a, b, x, y, z);
    assert(a[17] == bit(x, 17));
    assert(b[17] == bit(y, 17));
    lemma_bit_17(a, b, x, y, z);
    assert(a[18] == bit(x, 18));
    assert(b[18] == bit(y, 18));
    lemma_bit_18(a, b, x, y, z);
    assert(a[19] == bit(x, 19));
    assert(b[19] == bit(y, 19));
    lemma_bit_19(a, b, x, y, z);
    assert(a[20] == bit(x, 20));
    assert(b[20] == bit(y, 20));
    lemma_bit_20(a, b, x, y, z);
    assert(a[21] == bit(x, 21));
    assert(b[21] == bit(y, 21));
    lemma_bit_21(a, b, x, y, z);
    assert(a[22] == bit(x, 22));
    assert(b[22] == bit(y, 22));
    lemma_bit_22(a, b, x, y, z);
    assert(a[23] == bit(x, 23));
    assert(b[23] == bit(y, 23));
    lemma_bit_23(a, b, x, y, z);
}

/// Bits 24 to 31 of the difference.
proof fn lemma_bits_from_24(a: Seq<bool>, b: Seq<bool>, x: u32, y: u32, z: u32)
    requires
        z == difference32(x, y),
        forall|i: int| 0 <= i < 32 ==> #[trigger] a[i] == bit(x, i as u32),
        forall|i: int| 0 <= i < 32 ==> #[trigger] b[i] == bit(y, i as u32),
        w139(a, b) == !borrow(x, y, 24),
    ensures
        o24(a, b) == bit(z, 24),
        o25(a, b) == bit(z, 25),
        o26(a, b) == bit(z, 26),
        o27(a, b) == bit(z, 27),
        o28(a, b) == bit(z, 28),
        o29(a, b) == bit(z, 29),
        o30(a, b) == bit(z, 30),
        o31(a, b) == bit(z, 31),
{
    assert(a[24] == bit(x, 24));
    assert(b[24] == bit(y, 24));
    lemma_bit_24(a, b, x, y, z);
    assert(a[25] == bit(x, 25));
    assert(b[25] == bit(y, 25));
    lemma_bit_25(a, b, x, y, z);
    assert(a[26] == bit(x, 26));
    assert(b[26] == bit(y, 26));
    lemma_bit_26(a, b, x, y, z);
    assert(a[27] == bit(x, 27));
    assert(b[27] == bit(y, 27));
    lemma_bit_27(a, b, x, y, z);
    assert(a[28] == bit(x, 28));
    assert(b[28] == bit(y, 28));
    lemma_bit_28(a, b, x, y, z);
    assert(a[29] == bit(x, 29));
    assert(b[29] == bit(y, 29));
    lemma_bit_29(a, b, x, y, z);
    assert(a[30] == bit(x, 30));
    assert(b[30] == bit(y, 30));
    lemma_bit_30(a, b, x, y, z);
    assert(a[31] == bit(x, 31));
    assert(b[31] == bit(y, 31));
    lemma_bit_31(a, b, x, y, z);
}

/// Every output slot holds its bit of the difference.
proof fn lemma_bits_each(a: Seq<bool>, b: Seq<bool>, x: u32, y: u32, z: u32)
    requires
        z == difference32(x, y),
        forall|i: int| 0 <= i < 32 ==> #[trigger] a[i] == bit(x, i as u32),
        forall|i: int| 0 <= i < 32 ==> #[trigger] b[i] == bit(y, i as u32),
    ensures
        out_value(a, b, 0) == bit(z, 0),
        out_value(a, b, 1) == bit(z, 1),
        out_value(a, b, 2) == bit(z, 2),
        out_value(a, b, 3) == bit(z, 3),
        out_value(a, b, 4) == bit(z, 4),
        out_value(a, b, 5) == bit(z, 5),
        out_value(a, b, 6) == bit(z, 6),
        out_value(a, b, 7) == bit(z, 7),
        out_value(a, b, 8) == bit(z, 8),
        out_value(a, b, 9) == bit(z, 9),
        out_value(a, b, 10) == bit(z, 10),
        out_value(a, b, 11) == bit(z, 11),
        out_value(a, b, 12) == bit(z, 12),
        out_value(a, b, 13) == bit(z, 13),
        out_value(a, b, 14) == bit(z, 14),
        out_value(a, b, 15) == bit(z, 15),
        out_value(a, b, 16) == bit(z, 16),
        out_value(a, b, 17) == bit(z, 17),
        out_value(a, b, 18) == bit(z, 18),
        out_value(a, b, 19) == bit(z, 19),
        out_value(a, b, 20) == bit(z, 20),
        out_value(a, b, 21) == bit(z, 21),
        out_value(a, b, 22) == bit(z, 22),
        out_value(a, b, 23) == bit(z, 23),
        out_value(a, b, 24) == bit(z, 24),
        out_value(a, b, 25) == bit(z, 25),
        out_value(a, b, 26) == bit(z, 26),
        out_value(a, b, 27) == bit(z, 27),
        out_value(a, b, 28) == bit(z, 28),
        out_value(a, b, 29) == bit(z, 29),
        out_value(a, b, 30) == bit(z, 30),
        out_value(a, b, 31) == bit(z, 31),
{
    lemma_bits_from_0(a, b, x, y, z);
    lemma_bits_from_8(a, b, x, y, z);
    lemma_bits_from_16(a, b, x, y, z);
    lemma_bits_from_24(a, b, x, y, z);
}

/// Output slots 0 to 7 taken together.
proof fn lemma_bits_within_0(a: Seq<bool>, b: Seq<bool>, z: u32)
    requires
        out_value(a, b, 0) == bit(z, 0),
        out_value(a, b, 1) == bit(z, 1),
        out_value(a, b, 2) == bit(z, 2),
        out_value(a, b, 3) == bit(z, 3),
        out_value(a, b, 4) == bit(z, 4),
        out_value(a, b, 5) == bit(z, 5),
        out_value(a, b, 6) == bit(z, 6),
        out_value(a, b, 7) == bit(z, 7),
    ensures
        forall|o: usize| 0 <= o < 8 ==> #[trigger] out_value(a, b, o) == bit(z, o as u32),
{
    assert forall|o: usize| 0 <= o < 8 implies #[trigger] out_value(a, b, o) == bit(z, o as u32) by {
        if o == 0 {
            assert(out_value(a, b, 0) == bit(z, 0));
        } else if o == 1 {
            assert(out_value(a, b, 1) == bit(z, 1));
        } else if o == 2 {
            assert(out_value(a, b, 2) == bit(z, 2));
        } else if o == 3 {
            assert(out_value(a, b, 3) == bit(z, 3));
        } else if o == 4 {
            assert(out_value(a, b, 4) == bit(z, 4));
        } else if o == 5 {
            assert(out_value(a, b, 5) == bit(z, 5));
        } else if o == 6 {
            assert(out_value(a, b, 6) == bit(z, 6));
        } else if o == 7 {
            assert(out_value(a, b, 7) == bit(z, 7));
        }
    }
}

/// Output slots 8 to 15 taken together.
proof fn lemma_bits_within_8(a: Seq<bool>, b: Seq<bool>, z: u32)
    requires
        out_value(a, b, 8) == bit(z, 8),
        out_value(a, b, 9) == bit(z, 9),
        out_value(a, b, 10) == bit(z, 10),
        out_value(a, b, 11) == bit(z, 11),
        out_value(a, b, 12) == bit(z, 12),
        out_value(a, b, 13) == bit(z, 13),
        out_value(a, b, 14) == bit(z, 14),
        out_value(a, b, 15) == bit(z, 15),
    ensures
        forall|o: usize| 8 <= o < 16 ==> #[trigger] out_value(a, b, o) == bit(z, o as u32),
{
    assert forall|o: usize| 8 <= o < 16 implies #[trigger] out_value(a, b, o) == bit(z, o as u32) by {
        if o == 8 {
            assert(out_value(a, b, 8) == bit(z, 8));
        } else if o == 9 {
            assert(out_value(a, b, 9) == bit(z, 9));
        } else if o == 10 {
            assert(out_value(a, b, 10) == bit(z, 10));
        } else if o == 11 {
            assert(out_value(a, b, 11) == bit(z, 11));
        } else if o == 12 {
            assert(out_value(a, b, 12) == bit(z, 12));
        } else if o == 13 {
            assert(out_value(a, b, 13) == bit(z, 13));
        } else if o == 14 {
            assert(out_value(a, b, 14) == bit(z, 14));
        } else if o == 15 {
            assert(out_value(a, b, 15) == bit(z, 15));
        }
    }
}

/// Output slots 16 to 23 taken together.
proof fn lemma_bits_within_16(a: Seq<bool>, b: Seq<bool>, z: u32)
    requires
        out_value(a, b, 16) == bit(z, 16),
        out_value(a, b, 17) == bit(z, 17),
        out_value(a, b, 18) == bit(z, 18),
        out_value(a, b, 19) == bit(z, 19),
        out_value(a, b, 20) == bit(z, 20),
        out_value(a, b, 21) == bit(z, 21),
        out_value(a, b, 22) == bit(z, 22),
        out_value(a, b, 23) == bit(z, 23),
    ensures
        forall|o: usize| 16 <= o < 24 ==> #[trigger] out_value(a, b, o) == bit(z, o as u32),
{
    assert forall|o: usize| 16 <= o < 24 implies #[trigger] out_value(a, b, o) == bit(z, o as u32) by {
        if o == 16 {
            assert(out_value(a, b, 16) == bit(z, 16));
        } else if o == 17 {
            assert(out_value(a, b, 17) == bit(z, 17));
        } else if o == 18 {
            assert(out_value(a, b, 18) == bit(z, 18));
        } else if o == 19 {
            assert(out_value(a, b, 19) == bit(z, 19));
        } else if o == 20 {
            assert(out_value(a, b, 20) == bit(z, 20));
        } else if o == 21 {
            assert(out_value(a, b, 21) == bit(z, 21));
        } else if o == 22 {
            assert(out_value(a, b, 22) == bit(z, 22));
        } else if o == 23 {
            assert(out_value(a, b, 23) == bit(z, 23));
        }
    }
}

/// Output slots 24 to 31 taken together.
proof fn lemma_bits_within_24(a: Seq<bool>, b: Seq<bool>, z: u32)
    requires
        out_value(a, b, 24) == bit(z, 24),
        out_value(a, b, 25) == bit(z, 25),
        out_value(a, b, 26) == bit(z, 26),
        out_value(a, b, 27) == bit(z, 27),
        out_value(a, b, 28) == bit(z, 28),
        out_value(a, b, 29) == bit(z, 29),
        out_value(a, b, 30) == bit(z, 30),
        out_value(a, b, 31) == bit(z, 31),
    ensures
        forall|o: usize| 24 <= o < 32 ==> #[trigger] out_value(a, b, o) == bit(z, o as u32),
{
    assert forall|o: usize| 24 <= o < 32 implies #[trigger] out_value(a, b, o) == bit(z, o as u32) by {
        if o == 24 {
            assert(out_value(a, b, 24) == bit(z, 24));
        } else if o == 25 {
            assert(out_value(a, b, 25) == bit(z, 25));
        } else if o == 26 {
            assert(out_value(a, b, 26) == bit(z, 26));
        } else if o == 27 {
            assert(out_value(a, b, 27) == bit(z, 27));
        } else if o == 28 {
            assert(out_value(a, b, 28) == bit(z, 28));
        } else if o == 29 {
            assert(out_value(a, b, 29) == bit(z, 29));
        } else if o == 30 {
            assert(out_value(a, b, 30) == bit(z, 30));
        } else if o == 31 {
            assert(out_value(a, b, 31) == bit(z, 31));
        }
    }
}

/// The difference of two words, one bit after the other: what the gates make of
/// the bits of `x` and `y` are the bits of `z`.
proof fn lemma_bits(a: Seq<bool>, b: Seq<bool>, x: u32, y: u32, z: u32)
    requires
        z == difference32(x, y),
        forall|i: int| 0 <= i < 32 ==> #[trigger] a[i] == bit(x, i as u32),
        forall|i: int| 0 <= i < 32 ==> #[trigger] b[i] == bit(y, i as u32),
    ensures
        forall|o: usize| o < 32 ==> #[trigger] out_value(a, b, o) == bit(z, o as u32),
{
    lemma_bits_each(a, b, x, y, z);
    lemma_bits_within_0(a, b, z);
    lemma_bits_within_8(a, b, z);
    lemma_bits_within_16(a, b, z);
    lemma_bits_within_24(a, b, z);
}

/// The netlist computes the difference of two words: on words of plain bits
/// that begin with the bits of `x` and of `y` its output wires are the bits
/// of `x - y`, the borrow out of the top bit dropped.
pub proof fn lemma_karma_sub_subtracts(a: Seq<bool>, b: Seq<bool>, x: u32, y: u32)
    requires
        begins_with(a, bits_of_u32(x)),
        begins_with(b, bits_of_u32(y)),
    ensures
        circuit_outputs(&PlainBackend, karma_sub_netlist(), seq![a, b]) == bits_of_u32(difference32(x, y)),
{
    let z = difference32(x, y);
    lemma_outputs(a, b);
    assert forall|i: int| 0 <= i < 32 implies #[trigger] a[i] == bit(x, i as u32) by {
        assert(a[i] == a.subrange(0, 32)[i]);
    }
    assert forall|i: int| 0 <= i < 32 implies #[trigger] b[i] == bit(y, i as u32) by {
        assert(b[i] == b.subrange(0, 32)[i]);
    }
    lemma_bits(a, b, x, y, z);
    let word = assigned_outputs(32, out_values(a, b));
    let bits = bits_of_u32(z);
    assert forall|i: int| 0 <= i < 32 implies #[trigger] word[i] == bits[i] by {
        assert(word[i] == out_value(a, b, i as usize));
    }
    assert(word =~= bits);
}

} // verus!
