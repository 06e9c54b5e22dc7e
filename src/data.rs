//! The catalogue of isohedral tiling types: for each slot, the combinatorial
//! description of its prototile (counts, edge shapes, edge orientations and the
//! colouring table).
use vstd::prelude::*;

use crate::EdgeShape;
use crate::EdgeShape::{I, J, S, U};
use crate::{valid_types, NUM_CATALOGUE_SLOTS};

verus! {

/// Largest number of parameters of a tiling type.
pub const MAX_PARAMS: usize = 6;

/// Largest number of vertices of a prototile.
pub const MAX_VERTICES: usize = 6;

/// Largest number of aspects of a tiling type.
pub const MAX_ASPECTS: usize = 12;

/// Length of a colouring table: one colour per aspect, two transition tables
/// of three entries each, and the period.
pub const COLOURING_LEN: usize = 19;

/// Offset of the transition table for a step along the first translation vector.
pub const COLOURING_T1: usize = 12;

/// Offset of the transition table for a step along the second translation vector.
pub const COLOURING_T2: usize = 15;

/// Offset of the period of the colouring.
pub const COLOURING_PERIOD: usize = 18;

/// The combinatorial description of one tiling type.
#[derive(Debug)]
pub struct TilingTypeData {
    /// Number of parameters that shape the prototile.
    pub num_params: usize,
    /// Number of copies of the prototile in one translational cell.
    pub num_aspects: usize,
    /// Number of vertices (and edges) of the prototile.
    pub num_vertices: usize,
    /// Number of distinct edge shapes.
    pub num_edge_shapes: usize,
    /// The constraint of each distinct edge shape.
    pub edge_shapes: Vec<EdgeShape>,
    /// For each edge, its flip bit followed by its reverse bit.
    pub edge_orientations: Vec<bool>,
    /// For each edge, the index of its shape in `edge_shapes`.
    pub edge_shape_ids: Vec<usize>,
    /// The colouring table: see [`COLOURING_T1`], [`COLOURING_T2`], [`COLOURING_PERIOD`].
    pub colouring: Vec<u8>,
}

/// The contents of a catalogue record, as values.
#[verifier::ext_equal]
pub struct TilingTypeView {
    /// See [`TilingTypeData::num_params`].
    pub num_params: usize,
    /// See [`TilingTypeData::num_aspects`].
    pub num_aspects: usize,
    /// See [`TilingTypeData::num_vertices`].
    pub num_vertices: usize,
    /// See [`TilingTypeData::num_edge_shapes`].
    pub num_edge_shapes: usize,
    /// See [`TilingTypeData::edge_shapes`].
    pub edge_shapes: Seq<EdgeShape>,
    /// See [`TilingTypeData::edge_orientations`].
    pub edge_orientations: Seq<bool>,
    /// See [`TilingTypeData::edge_shape_ids`].
    pub edge_shape_ids: Seq<usize>,
    /// See [`TilingTypeData::colouring`].
    pub colouring: Seq<u8>,
}

impl View for TilingTypeData {
    type V = TilingTypeView;

    open spec fn view(&self) -> TilingTypeView {
        TilingTypeView {
            num_params: self.num_params,
            num_aspects: self.num_aspects,
            num_vertices: self.num_vertices,
            num_edge_shapes: self.num_edge_shapes,
            edge_shapes: self.edge_shapes@,
            edge_orientations: self.edge_orientations@,
            edge_shape_ids: self.edge_shape_ids@,
            colouring: self.colouring@,
        }
    }
}

/// The record that the catalogue holds in slot `t`; the undefined slots hold
/// an empty record.
pub open spec fn catalogue(t: usize) -> TilingTypeView {
    match t {
        1 => ih01(),
        2 => ih02(),
        3 => ih03(),
        4 => ih04(),
        5 => ih05(),
        6 => ih06(),
        7 => ih07(),
        8 => ih08(),
        9 => ih09(),
        10 => ih10(),
        11 => ih11(),
        12 => ih12(),
        13 => ih13(),
        14 => ih14(),
        15 => ih15(),
        16 => ih16(),
        17 => ih17(),
        18 => ih18(),
        20 => ih20(),
        21 => ih21(),
        22 => ih22(),
        23 => ih23(),
        24 => ih24(),
        25 => ih25(),
        26 => ih26(),
        27 => ih27(),
        28 => ih28(),
        29 => ih29(),
        30 => ih30(),
        31 => ih31(),
        32 => ih32(),
        33 => ih33(),
        34 => ih34(),
        36 => ih36(),
        37 => ih37(),
        38 => ih38(),
        39 => ih39(),
        40 => ih40(),
        41 => ih41(),
        42 => ih42(),
        43 => ih43(),
        44 => ih44(),
        45 => ih45(),
        46 => ih46(),
        47 => ih47(),
        49 => ih49(),
        50 => ih50(),
        51 => ih51(),
        52 => ih52(),
        53 => ih53(),
        54 => ih54(),
        55 => ih55(),
        56 => ih56(),
        57 => ih57(),
        58 => ih58(),
        59 => ih59(),
        61 => ih61(),
        62 => ih62(),
        64 => ih64(),
        66 => ih66(),
        67 => ih67(),
        68 => ih68(),
        69 => ih69(),
        71 => ih71(),
        72 => ih72(),
        73 => ih73(),
        74 => ih74(),
        76 => ih76(),
        77 => ih77(),
        78 => ih78(),
        79 => ih79(),
        81 => ih81(),
        82 => ih82(),
        83 => ih83(),
        84 => ih84(),
        85 => ih85(),
        86 => ih86(),
        88 => ih88(),
        90 => ih90(),
        91 => ih91(),
        93 => ih93(),
        _ => TilingTypeView {
            num_params: 0,
            num_aspects: 0,
            num_vertices: 0,
            num_edge_shapes: 0,
            edge_shapes: Seq::empty(),
            edge_orientations: Seq::empty(),
            edge_shape_ids: Seq::empty(),
            colouring: Seq::empty(),
        },
    }
}

/// The record of the tiling type IH01.
pub open spec fn ih01() -> TilingTypeView {
    TilingTypeView {
        num_params: 4,
        num_aspects: 1,
        num_vertices: 6,
        num_edge_shapes: 3,
        edge_shapes: seq![J, J, J],
        edge_orientations: seq![false, false, false, false, false, false, false, true, false, true, false, true],
        edge_shape_ids: seq![0, 1, 2, 0, 1, 2],
        colouring: seq![0, 0, 0, 0, 0, 0, 0, 0, 0, 0, 0, 0, 1, 2, 0, 2, 0, 1, 3],
    }
}

/// The record of the tiling type IH02.
pub open spec fn ih02() -> TilingTypeView {
    TilingTypeView {
        num_params: 4,
        num_aspects: 2,
        num_vertices: 6,
        num_edge_shapes: 3,
        edge_shapes: seq![J, J, J],
        edge_orientations: seq![false, false, true, true, false, false, false, false, true, true, false, true],
        edge_shape_ids: seq![0, 0, 1, 2, 2, 1],
        colouring: seq![0, 1, 0, 0, 0, 0, 0, 0, 0, 0, 0, 0, 1, 2, 0, 0, 1, 2, 3],
    }
}

/// The record of the tiling type IH03.
pub open spec fn ih03() -> TilingTypeView {
    TilingTypeView {
        num_params: 4,
        num_aspects: 2,
        num_vertices: 6,
        num_edge_shapes: 3,
        edge_shapes: seq![J, J, J],
        edge_orientations: seq![false, false, false, false, true, true, false, false, false, true, true, true],
        edge_shape_ids: seq![0, 1, 0, 2, 1, 2],
        colouring: seq![0, 1, 0, 0, 0, 0, 0, 0, 0, 0, 0, 0, 2, 0, 1, 2, 0, 1, 3],
    }
}

/// The record of the tiling type IH04.
pub open spec fn ih04() -> TilingTypeView {
    TilingTypeView {
        num_params: 6,
        num_aspects: 2,
        num_vertices: 6,
        num_edge_shapes: 5,
        edge_shapes: seq![S, J, S, S, S],
        edge_orientations: seq![false, false, false, false, false, false, false, false, false, true, false, false],
        edge_shape_ids: seq![0, 1, 2, 3, 1, 4],
        colouring: seq![0, 1, 0, 0, 0, 0, 0, 0, 0, 0, 0, 0, 2, 0, 1, 2, 0, 1, 3],
    }
}

/// The record of the tiling type IH05.
pub open spec fn ih05() -> TilingTypeView {
    TilingTypeView {
        num_params: 5,
        num_aspects: 4,
        num_vertices: 6,
        num_edge_shapes: 4,
        edge_shapes: seq![S, J, J, S],
        edge_orientations: seq![false, false, false, false, false, false, true, true, false, true, false, false],
        edge_shape_ids: seq![0, 1, 2, 2, 1, 3],
        colouring: seq![0, 1, 2, 1, 0, 0, 0, 0, 0, 0, 0, 0, 2, 0, 1, 2, 0, 1, 3],
    }
}

/// The record of the tiling type IH06.
pub open spec fn ih06() -> TilingTypeView {
    TilingTypeView {
        num_params: 5,
        num_aspects: 4,
        num_vertices: 6,
        num_edge_shapes: 4,
        edge_shapes: seq![S, J, S, J],
        edge_orientations: seq![false, false, false, false, false, false, false, false, true, true, true, true],
        edge_shape_ids: seq![0, 1, 2, 3, 1, 3],
        colouring: seq![0, 1, 2, 2, 0, 0, 0, 0, 0, 0, 0, 0, 1, 2, 0, 0, 1, 2, 3],
    }
}

/// The record of the tiling type IH07.
pub open spec fn ih07() -> TilingTypeView {
    TilingTypeView {
        num_params: 2,
        num_aspects: 3,
        num_vertices: 6,
        num_edge_shapes: 3,
        edge_shapes: seq![J, J, J],
        edge_orientations: seq![false, false, false, true, false, false, false, true, false, false, false, true],
        edge_shape_ids: seq![0, 0, 1, 1, 2, 2],
        colouring: seq![0, 1, 2, 0, 0, 0, 0, 0, 0, 0, 0, 0, 0, 1, 2, 0, 1, 2, 3],
    }
}

/// The record of the tiling type IH08.
pub open spec fn ih08() -> TilingTypeView {
    TilingTypeView {
        num_params: 4,
        num_aspects: 1,
        num_vertices: 6,
        num_edge_shapes: 3,
        edge_shapes: seq![S, S, S],
        edge_orientations: seq![false, false, false, false, false, false, false, false, false, false, false, false],
        edge_shape_ids: seq![0, 1, 2, 0, 1, 2],
        colouring: seq![0, 0, 0, 0, 0, 0, 0, 0, 0, 0, 0, 0, 1, 2, 0, 2, 0, 1, 3],
    }
}

/// The record of the tiling type IH09.
pub open spec fn ih09() -> TilingTypeView {
    TilingTypeView {
        num_params: 3,
        num_aspects: 2,
        num_vertices: 6,
        num_edge_shapes: 2,
        edge_shapes: seq![S, J],
        edge_orientations: seq![false, false, false, false, true, true, false, false, false, false, true, true],
        edge_shape_ids: seq![0, 1, 1, 0, 1, 1],
        colouring: seq![0, 1, 0, 0, 0, 0, 0, 0, 0, 0, 0, 0, 2, 0, 1, 0, 1, 2, 3],
    }
}

/// The record of the tiling type IH10.
pub open spec fn ih10() -> TilingTypeView {
    TilingTypeView {
        num_params: 0,
        num_aspects: 1,
        num_vertices: 6,
        num_edge_shapes: 1,
        edge_shapes: seq![J],
        edge_orientations: seq![false, false, false, true, false, false, false, true, false, false, false, true],
        edge_shape_ids: seq![0, 0, 0, 0, 0, 0],
        colouring: seq![0, 0, 0, 0, 0, 0, 0, 0, 0, 0, 0, 0, 1, 2, 0, 2, 0, 1, 3],
    }
}

/// The record of the tiling type IH11.
pub open spec fn ih11() -> TilingTypeView {
    TilingTypeView {
        num_params: 0,
        num_aspects: 1,
        num_vertices: 6,
        num_edge_shapes: 1,
        edge_shapes: seq![S],
        edge_orientations: seq![false, false, false, false, false, false, false, false, false, false, false, false],
        edge_shape_ids: seq![0, 0, 0, 0, 0, 0],
        colouring: seq![0, 0, 0, 0, 0, 0, 0, 0, 0, 0, 0, 0, 1, 2, 0, 2, 0, 1, 3],
    }
}

/// The record of the tiling type IH12.
pub open spec fn ih12() -> TilingTypeView {
    TilingTypeView {
        num_params: 2,
        num_aspects: 1,
        num_vertices: 6,
        num_edge_shapes: 2,
        edge_shapes: seq![U, J],
        edge_orientations: seq![false, false, false, false, true, true, false, true, false, true, true, false],
        edge_shape_ids: seq![0, 1, 1, 0, 1, 1],
        colouring: seq![0, 0, 0, 0, 0, 0, 0, 0, 0, 0, 0, 0, 1, 2, 0, 2, 0, 1, 3],
    }
}

/// The record of the tiling type IH13.
pub open spec fn ih13() -> TilingTypeView {
    TilingTypeView {
        num_params: 3,
        num_aspects: 2,
        num_vertices: 6,
        num_edge_shapes: 3,
        edge_shapes: seq![U, S, S],
        edge_orientations: seq![false, false, false, false, false, false, false, true, true, false, true, false],
        edge_shape_ids: seq![0, 1, 2, 0, 2, 1],
        colouring: seq![0, 1, 0, 0, 0, 0, 0, 0, 0, 0, 0, 0, 2, 0, 1, 0, 1, 2, 3],
    }
}

/// The record of the tiling type IH14.
pub open spec fn ih14() -> TilingTypeView {
    TilingTypeView {
        num_params: 2,
        num_aspects: 1,
        num_vertices: 6,
        num_edge_shapes: 2,
        edge_shapes: seq![J, I],
        edge_orientations: seq![false, false, false, false, true, true, false, true, true, false, true, false],
        edge_shape_ids: seq![0, 1, 0, 0, 1, 0],
        colouring: seq![0, 0, 0, 0, 0, 0, 0, 0, 0, 0, 0, 0, 1, 2, 0, 2, 0, 1, 3],
    }
}

/// The record of the tiling type IH15.
pub open spec fn ih15() -> TilingTypeView {
    TilingTypeView {
        num_params: 3,
        num_aspects: 2,
        num_vertices: 6,
        num_edge_shapes: 3,
        edge_shapes: seq![S, I, S],
        edge_orientations: seq![false, false, false, false, false, false, true, false, true, false, true, false],
        edge_shape_ids: seq![0, 1, 2, 2, 1, 0],
        colouring: seq![0, 1, 0, 0, 0, 0, 0, 0, 0, 0, 0, 0, 2, 0, 1, 0, 1, 2, 3],
    }
}

/// The record of the tiling type IH16.
pub open spec fn ih16() -> TilingTypeView {
    TilingTypeView {
        num_params: 1,
        num_aspects: 3,
        num_vertices: 6,
        num_edge_shapes: 2,
        edge_shapes: seq![I, J],
        edge_orientations: seq![false, false, false, false, false, true, true, true, true, false, true, false],
        edge_shape_ids: seq![0, 1, 1, 1, 1, 0],
        colouring: seq![0, 1, 2, 0, 0, 0, 0, 0, 0, 0, 0, 0, 0, 1, 2, 0, 1, 2, 3],
    }
}

/// The record of the tiling type IH17.
pub open spec fn ih17() -> TilingTypeView {
    TilingTypeView {
        num_params: 2,
        num_aspects: 1,
        num_vertices: 6,
        num_edge_shapes: 2,
        edge_shapes: seq![I, S],
        edge_orientations: seq![false, false, false, false, true, false, false, false, false, false, true, false],
        edge_shape_ids: seq![0, 1, 1, 0, 1, 1],
        colouring: seq![0, 0, 0, 0, 0, 0, 0, 0, 0, 0, 0, 0, 1, 2, 0, 2, 0, 1, 3],
    }
}

/// The record of the tiling type IH18.
pub open spec fn ih18() -> TilingTypeView {
    TilingTypeView {
        num_params: 0,
        num_aspects: 1,
        num_vertices: 6,
        num_edge_shapes: 1,
        edge_shapes: seq![U],
        edge_orientations: seq![false, false, false, true, false, false, false, true, false, false, false, true],
        edge_shape_ids: seq![0, 0, 0, 0, 0, 0],
        colouring: seq![0, 0, 0, 0, 0, 0, 0, 0, 0, 0, 0, 0, 1, 2, 0, 2, 0, 1, 3],
    }
}

/// The record of the tiling type IH20.
pub open spec fn ih20() -> TilingTypeView {
    TilingTypeView {
        num_params: 0,
        num_aspects: 1,
        num_vertices: 6,
        num_edge_shapes: 1,
        edge_shapes: seq![I],
        edge_orientations: seq![false, false, false, false, false, false, false, false, false, false, false, false],
        edge_shape_ids: seq![0, 0, 0, 0, 0, 0],
        colouring: seq![0, 0, 0, 0, 0, 0, 0, 0, 0, 0, 0, 0, 1, 2, 0, 2, 0, 1, 3],
    }
}

/// The record of the tiling type IH21.
pub open spec fn ih21() -> TilingTypeView {
    TilingTypeView {
        num_params: 2,
        num_aspects: 6,
        num_vertices: 5,
        num_edge_shapes: 3,
        edge_shapes: seq![S, J, J],
        edge_orientations: seq![false, false, false, false, false, true, false, false, false, true],
        edge_shape_ids: seq![0, 1, 1, 2, 2],
        colouring: seq![0, 1, 0, 1, 0, 1, 0, 0, 0, 0, 0, 0, 1, 2, 0, 2, 0, 1, 3],
    }
}

/// The record of the tiling type IH22.
pub open spec fn ih22() -> TilingTypeView {
    TilingTypeView {
        num_params: 3,
        num_aspects: 2,
        num_vertices: 5,
        num_edge_shapes: 3,
        edge_shapes: seq![J, J, I],
        edge_orientations: seq![false, false, true, true, false, false, false, false, false, true],
        edge_shape_ids: seq![0, 0, 1, 2, 1],
        colouring: seq![0, 1, 0, 0, 0, 0, 0, 0, 0, 0, 0, 0, 2, 0, 1, 0, 1, 2, 3],
    }
}

/// The record of the tiling type IH23.
pub open spec fn ih23() -> TilingTypeView {
    TilingTypeView {
        num_params: 4,
        num_aspects: 2,
        num_vertices: 5,
        num_edge_shapes: 4,
        edge_shapes: seq![S, S, J, S],
        edge_orientations: seq![false, false, false, false, false, false, false, false, false, true],
        edge_shape_ids: seq![0, 1, 2, 3, 2],
        colouring: seq![0, 1, 0, 0, 0, 0, 0, 0, 0, 0, 0, 0, 1, 2, 0, 2, 0, 1, 3],
    }
}

/// The record of the tiling type IH24.
pub open spec fn ih24() -> TilingTypeView {
    TilingTypeView {
        num_params: 4,
        num_aspects: 4,
        num_vertices: 5,
        num_edge_shapes: 4,
        edge_shapes: seq![S, S, J, I],
        edge_orientations: seq![false, false, false, false, false, false, false, false, false, true],
        edge_shape_ids: seq![0, 1, 2, 3, 2],
        colouring: seq![0, 1, 2, 0, 0, 0, 0, 0, 0, 0, 0, 0, 2, 0, 1, 1, 2, 0, 3],
    }
}

/// The record of the tiling type IH25.
pub open spec fn ih25() -> TilingTypeView {
    TilingTypeView {
        num_params: 3,
        num_aspects: 4,
        num_vertices: 5,
        num_edge_shapes: 3,
        edge_shapes: seq![J, J, S],
        edge_orientations: seq![false, false, true, true, false, false, false, false, false, true],
        edge_shape_ids: seq![0, 0, 1, 2, 1],
        colouring: seq![0, 1, 2, 0, 0, 0, 0, 0, 0, 0, 0, 0, 2, 0, 1, 0, 1, 2, 3],
    }
}

/// The record of the tiling type IH26.
pub open spec fn ih26() -> TilingTypeView {
    TilingTypeView {
        num_params: 2,
        num_aspects: 2,
        num_vertices: 5,
        num_edge_shapes: 3,
        edge_shapes: seq![S, I, I],
        edge_orientations: seq![false, false, true, false, false, false, false, false, true, false],
        edge_shape_ids: seq![0, 0, 1, 2, 1],
        colouring: seq![0, 1, 0, 0, 0, 0, 0, 0, 0, 0, 0, 0, 1, 2, 0, 0, 1, 2, 3],
    }
}

/// The record of the tiling type IH27.
pub open spec fn ih27() -> TilingTypeView {
    TilingTypeView {
        num_params: 3,
        num_aspects: 4,
        num_vertices: 5,
        num_edge_shapes: 3,
        edge_shapes: seq![S, J, J],
        edge_orientations: seq![false, false, false, false, false, false, true, true, true, true],
        edge_shape_ids: seq![0, 1, 2, 1, 2],
        colouring: seq![0, 1, 2, 2, 0, 0, 0, 0, 0, 0, 0, 0, 0, 1, 2, 1, 2, 0, 3],
    }
}

/// The record of the tiling type IH28.
pub open spec fn ih28() -> TilingTypeView {
    TilingTypeView {
        num_params: 2,
        num_aspects: 4,
        num_vertices: 5,
        num_edge_shapes: 3,
        edge_shapes: seq![S, J, J],
        edge_orientations: seq![false, false, false, false, false, true, false, false, false, true],
        edge_shape_ids: seq![0, 1, 1, 2, 2],
        colouring: seq![0, 1, 2, 0, 0, 0, 0, 0, 0, 0, 0, 0, 1, 2, 0, 0, 1, 2, 3],
    }
}

/// The record of the tiling type IH29.
pub open spec fn ih29() -> TilingTypeView {
    TilingTypeView {
        num_params: 1,
        num_aspects: 4,
        num_vertices: 5,
        num_edge_shapes: 2,
        edge_shapes: seq![I, J],
        edge_orientations: seq![false, false, false, false, false, true, true, true, true, false],
        edge_shape_ids: seq![0, 1, 1, 1, 1],
        colouring: seq![0, 1, 2, 2, 0, 0, 0, 0, 0, 0, 0, 0, 1, 2, 0, 0, 1, 2, 3],
    }
}

/// The record of the tiling type IH30.
pub open spec fn ih30() -> TilingTypeView {
    TilingTypeView {
        num_params: 1,
        num_aspects: 6,
        num_vertices: 4,
        num_edge_shapes: 3,
        edge_shapes: seq![J, I, I],
        edge_orientations: seq![false, false, false, false, false, false, false, true],
        edge_shape_ids: seq![0, 1, 2, 0],
        colouring: seq![0, 1, 2, 1, 2, 0, 0, 0, 0, 0, 0, 0, 1, 2, 0, 2, 0, 1, 3],
    }
}

/// The record of the tiling type IH31.
pub open spec fn ih31() -> TilingTypeView {
    TilingTypeView {
        num_params: 0,
        num_aspects: 6,
        num_vertices: 4,
        num_edge_shapes: 2,
        edge_shapes: seq![J, J],
        edge_orientations: seq![false, false, false, false, false, true, false, true],
        edge_shape_ids: seq![0, 1, 1, 0],
        colouring: seq![0, 1, 2, 0, 1, 2, 0, 0, 0, 0, 0, 0, 0, 1, 2, 0, 1, 2, 3],
    }
}

/// The record of the tiling type IH32.
pub open spec fn ih32() -> TilingTypeView {
    TilingTypeView {
        num_params: 0,
        num_aspects: 6,
        num_vertices: 4,
        num_edge_shapes: 2,
        edge_shapes: seq![I, I],
        edge_orientations: seq![false, false, false, false, true, false, true, false],
        edge_shape_ids: seq![0, 1, 1, 0],
        colouring: seq![0, 2, 1, 1, 0, 2, 0, 0, 0, 0, 0, 0, 1, 2, 0, 2, 0, 1, 3],
    }
}

/// The record of the tiling type IH33.
pub open spec fn ih33() -> TilingTypeView {
    TilingTypeView {
        num_params: 0,
        num_aspects: 3,
        num_vertices: 4,
        num_edge_shapes: 2,
        edge_shapes: seq![J, J],
        edge_orientations: seq![false, false, false, false, false, true, false, true],
        edge_shape_ids: seq![0, 1, 1, 0],
        colouring: seq![0, 1, 2, 0, 0, 0, 0, 0, 0, 0, 0, 0, 0, 1, 2, 0, 1, 2, 3],
    }
}

/// The record of the tiling type IH34.
pub open spec fn ih34() -> TilingTypeView {
    TilingTypeView {
        num_params: 0,
        num_aspects: 3,
        num_vertices: 4,
        num_edge_shapes: 1,
        edge_shapes: seq![J],
        edge_orientations: seq![false, false, false, true, false, false, false, true],
        edge_shape_ids: seq![0, 0, 0, 0],
        colouring: seq![0, 1, 2, 0, 0, 0, 0, 0, 0, 0, 0, 0, 0, 1, 2, 0, 1, 2, 3],
    }
}

/// The record of the tiling type IH36.
pub open spec fn ih36() -> TilingTypeView {
    TilingTypeView {
        num_params: 0,
        num_aspects: 3,
        num_vertices: 4,
        num_edge_shapes: 1,
        edge_shapes: seq![J],
        edge_orientations: seq![false, false, true, false, true, true, false, true],
        edge_shape_ids: seq![0, 0, 0, 0],
        colouring: seq![0, 1, 2, 0, 0, 0, 0, 0, 0, 0, 0, 0, 0, 1, 2, 0, 1, 2, 3],
    }
}

/// The record of the tiling type IH37.
pub open spec fn ih37() -> TilingTypeView {
    TilingTypeView {
        num_params: 0,
        num_aspects: 3,
        num_vertices: 4,
        num_edge_shapes: 1,
        edge_shapes: seq![I],
        edge_orientations: seq![false, false, true, false, false, false, true, false],
        edge_shape_ids: seq![0, 0, 0, 0],
        colouring: seq![0, 1, 2, 0, 0, 0, 0, 0, 0, 0, 0, 0, 0, 1, 2, 0, 1, 2, 3],
    }
}

/// The record of the tiling type IH38.
pub open spec fn ih38() -> TilingTypeView {
    TilingTypeView {
        num_params: 0,
        num_aspects: 6,
        num_vertices: 3,
        num_edge_shapes: 2,
        edge_shapes: seq![J, I],
        edge_orientations: seq![false, false, false, false, false, true],
        edge_shape_ids: seq![0, 1, 0],
        colouring: seq![0, 2, 1, 1, 0, 2, 0, 0, 0, 0, 0, 0, 1, 2, 0, 2, 0, 1, 3],
    }
}

/// The record of the tiling type IH39.
pub open spec fn ih39() -> TilingTypeView {
    TilingTypeView {
        num_params: 0,
        num_aspects: 6,
        num_vertices: 3,
        num_edge_shapes: 2,
        edge_shapes: seq![J, S],
        edge_orientations: seq![false, false, false, false, false, true],
        edge_shape_ids: seq![0, 1, 0],
        colouring: seq![0, 2, 1, 0, 1, 2, 0, 0, 0, 0, 0, 0, 2, 0, 1, 1, 2, 0, 3],
    }
}

/// The record of the tiling type IH40.
pub open spec fn ih40() -> TilingTypeView {
    TilingTypeView {
        num_params: 0,
        num_aspects: 6,
        num_vertices: 3,
        num_edge_shapes: 2,
        edge_shapes: seq![I, I],
        edge_orientations: seq![false, false, false, false, true, false],
        edge_shape_ids: seq![0, 1, 0],
        colouring: seq![1, 0, 2, 2, 0, 1, 0, 0, 0, 0, 0, 0, 1, 2, 0, 2, 0, 1, 3],
    }
}

/// The record of the tiling type IH41.
pub open spec fn ih41() -> TilingTypeView {
    TilingTypeView {
        num_params: 2,
        num_aspects: 1,
        num_vertices: 4,
        num_edge_shapes: 2,
        edge_shapes: seq![J, J],
        edge_orientations: seq![false, false, false, false, false, true, false, true],
        edge_shape_ids: seq![0, 1, 0, 1],
        colouring: seq![0, 0, 0, 0, 0, 0, 0, 0, 0, 0, 0, 0, 1, 0, 2, 1, 0, 2, 2],
    }
}

/// The record of the tiling type IH42.
pub open spec fn ih42() -> TilingTypeView {
    TilingTypeView {
        num_params: 2,
        num_aspects: 2,
        num_vertices: 4,
        num_edge_shapes: 3,
        edge_shapes: seq![J, I, I],
        edge_orientations: seq![false, false, false, false, false, true, false, false],
        edge_shape_ids: seq![0, 1, 0, 2],
        colouring: seq![0, 1, 0, 0, 0, 0, 0, 0, 0, 0, 0, 0, 1, 0, 2, 0, 1, 2, 2],
    }
}

/// The record of the tiling type IH43.
pub open spec fn ih43() -> TilingTypeView {
    TilingTypeView {
        num_params: 2,
        num_aspects: 2,
        num_vertices: 4,
        num_edge_shapes: 2,
        edge_shapes: seq![J, J],
        edge_orientations: seq![false, false, false, false, false, true, true, true],
        edge_shape_ids: seq![0, 1, 0, 1],
        colouring: seq![0, 1, 0, 0, 0, 0, 0, 0, 0, 0, 0, 0, 1, 0, 2, 0, 1, 2, 2],
    }
}

/// The record of the tiling type IH44.
pub open spec fn ih44() -> TilingTypeView {
    TilingTypeView {
        num_params: 2,
        num_aspects: 2,
        num_vertices: 4,
        num_edge_shapes: 2,
        edge_shapes: seq![J, J],
        edge_orientations: seq![false, false, true, true, false, false, true, true],
        edge_shape_ids: seq![0, 0, 1, 1],
        colouring: seq![0, 1, 0, 0, 0, 0, 0, 0, 0, 0, 0, 0, 0, 1, 2, 0, 1, 2, 2],
    }
}

/// The record of the tiling type IH45.
pub open spec fn ih45() -> TilingTypeView {
    TilingTypeView {
        num_params: 2,
        num_aspects: 2,
        num_vertices: 4,
        num_edge_shapes: 3,
        edge_shapes: seq![J, I, I],
        edge_orientations: seq![false, false, false, false, true, true, false, false],
        edge_shape_ids: seq![0, 1, 0, 2],
        colouring: seq![0, 1, 0, 0, 0, 0, 0, 0, 0, 0, 0, 0, 0, 1, 2, 0, 1, 2, 2],
    }
}

/// The record of the tiling type IH46.
pub open spec fn ih46() -> TilingTypeView {
    TilingTypeView {
        num_params: 4,
        num_aspects: 2,
        num_vertices: 4,
        num_edge_shapes: 4,
        edge_shapes: seq![S, S, S, S],
        edge_orientations: seq![false, false, false, false, false, false, false, false],
        edge_shape_ids: seq![0, 1, 2, 3],
        colouring: seq![0, 1, 0, 0, 0, 0, 0, 0, 0, 0, 0, 0, 0, 1, 2, 0, 1, 2, 2],
    }
}

/// The record of the tiling type IH47.
pub open spec fn ih47() -> TilingTypeView {
    TilingTypeView {
        num_params: 2,
        num_aspects: 2,
        num_vertices: 4,
        num_edge_shapes: 3,
        edge_shapes: seq![J, S, S],
        edge_orientations: seq![false, false, false, false, false, true, false, false],
        edge_shape_ids: seq![0, 1, 0, 2],
        colouring: seq![0, 1, 0, 0, 0, 0, 0, 0, 0, 0, 0, 0, 1, 0, 2, 0, 1, 2, 2],
    }
}

/// The record of the tiling type IH49.
pub open spec fn ih49() -> TilingTypeView {
    TilingTypeView {
        num_params: 3,
        num_aspects: 4,
        num_vertices: 4,
        num_edge_shapes: 4,
        edge_shapes: seq![I, S, I, S],
        edge_orientations: seq![false, false, false, false, false, false, false, false],
        edge_shape_ids: seq![0, 1, 2, 3],
        colouring: seq![0, 1, 1, 0, 0, 0, 0, 0, 0, 0, 0, 0, 0, 1, 2, 0, 1, 2, 2],
    }
}

/// The record of the tiling type IH50.
pub open spec fn ih50() -> TilingTypeView {
    TilingTypeView {
        num_params: 2,
        num_aspects: 4,
        num_vertices: 4,
        num_edge_shapes: 3,
        edge_shapes: seq![J, I, S],
        edge_orientations: seq![false, false, false, false, false, true, false, false],
        edge_shape_ids: seq![0, 1, 0, 2],
        colouring: seq![0, 1, 1, 0, 0, 0, 0, 0, 0, 0, 0, 0, 0, 1, 2, 1, 0, 2, 2],
    }
}

/// The record of the tiling type IH51.
pub open spec fn ih51() -> TilingTypeView {
    TilingTypeView {
        num_params: 3,
        num_aspects: 4,
        num_vertices: 4,
        num_edge_shapes: 3,
        edge_shapes: seq![J, S, S],
        edge_orientations: seq![false, false, false, false, true, true, false, false],
        edge_shape_ids: seq![0, 1, 0, 2],
        colouring: seq![0, 1, 1, 0, 0, 0, 0, 0, 0, 0, 0, 0, 0, 1, 2, 0, 1, 2, 2],
    }
}

/// The record of the tiling type IH52.
pub open spec fn ih52() -> TilingTypeView {
    TilingTypeView {
        num_params: 1,
        num_aspects: 4,
        num_vertices: 4,
        num_edge_shapes: 2,
        edge_shapes: seq![J, J],
        edge_orientations: seq![false, false, false, false, true, true, true, true],
        edge_shape_ids: seq![0, 1, 0, 1],
        colouring: seq![0, 0, 1, 1, 0, 0, 0, 0, 0, 0, 0, 0, 0, 1, 2, 0, 1, 2, 2],
    }
}

/// The record of the tiling type IH53.
pub open spec fn ih53() -> TilingTypeView {
    TilingTypeView {
        num_params: 3,
        num_aspects: 4,
        num_vertices: 4,
        num_edge_shapes: 3,
        edge_shapes: seq![J, S, S],
        edge_orientations: seq![false, false, true, true, false, false, false, false],
        edge_shape_ids: seq![0, 0, 1, 2],
        colouring: seq![0, 1, 1, 0, 0, 0, 0, 0, 0, 0, 0, 0, 0, 1, 2, 0, 1, 2, 2],
    }
}

/// The record of the tiling type IH54.
pub open spec fn ih54() -> TilingTypeView {
    TilingTypeView {
        num_params: 2,
        num_aspects: 4,
        num_vertices: 4,
        num_edge_shapes: 4,
        edge_shapes: seq![I, I, I, S],
        edge_orientations: seq![false, false, false, false, false, false, false, false],
        edge_shape_ids: seq![0, 1, 2, 3],
        colouring: seq![0, 1, 1, 0, 0, 0, 0, 0, 0, 0, 0, 0, 0, 1, 2, 1, 0, 2, 2],
    }
}

/// The record of the tiling type IH55.
pub open spec fn ih55() -> TilingTypeView {
    TilingTypeView {
        num_params: 0,
        num_aspects: 4,
        num_vertices: 4,
        num_edge_shapes: 2,
        edge_shapes: seq![J, J],
        edge_orientations: seq![false, false, false, true, false, false, false, true],
        edge_shape_ids: seq![0, 0, 1, 1],
        colouring: seq![0, 1, 0, 1, 0, 0, 0, 0, 0, 0, 0, 0, 0, 1, 2, 0, 1, 2, 2],
    }
}

/// The record of the tiling type IH56.
pub open spec fn ih56() -> TilingTypeView {
    TilingTypeView {
        num_params: 1,
        num_aspects: 8,
        num_vertices: 4,
        num_edge_shapes: 3,
        edge_shapes: seq![J, I, I],
        edge_orientations: seq![false, false, false, true, false, false, false, false],
        edge_shape_ids: seq![0, 0, 1, 2],
        colouring: seq![0, 1, 0, 1, 1, 0, 1, 0, 0, 0, 0, 0, 0, 1, 2, 0, 1, 2, 2],
    }
}

/// The record of the tiling type IH57.
pub open spec fn ih57() -> TilingTypeView {
    TilingTypeView {
        num_params: 2,
        num_aspects: 1,
        num_vertices: 4,
        num_edge_shapes: 2,
        edge_shapes: seq![S, S],
        edge_orientations: seq![false, false, false, false, false, false, false, false],
        edge_shape_ids: seq![0, 1, 0, 1],
        colouring: seq![0, 0, 0, 0, 0, 0, 0, 0, 0, 0, 0, 0, 1, 0, 2, 1, 0, 2, 2],
    }
}

/// The record of the tiling type IH58.
pub open spec fn ih58() -> TilingTypeView {
    TilingTypeView {
        num_params: 2,
        num_aspects: 2,
        num_vertices: 4,
        num_edge_shapes: 2,
        edge_shapes: seq![S, I],
        edge_orientations: seq![false, false, false, false, false, false, false, false],
        edge_shape_ids: seq![0, 1, 0, 1],
        colouring: seq![0, 1, 0, 0, 0, 0, 0, 0, 0, 0, 0, 0, 1, 0, 2, 0, 1, 2, 2],
    }
}

/// The record of the tiling type IH59.
pub open spec fn ih59() -> TilingTypeView {
    TilingTypeView {
        num_params: 1,
        num_aspects: 2,
        num_vertices: 4,
        num_edge_shapes: 1,
        edge_shapes: seq![J],
        edge_orientations: seq![false, false, true, true, false, false, true, true],
        edge_shape_ids: seq![0, 0, 0, 0],
        colouring: seq![0, 1, 0, 0, 0, 0, 0, 0, 0, 0, 0, 0, 0, 1, 2, 0, 1, 2, 2],
    }
}

/// The record of the tiling type IH61.
pub open spec fn ih61() -> TilingTypeView {
    TilingTypeView {
        num_params: 0,
        num_aspects: 2,
        num_vertices: 4,
        num_edge_shapes: 1,
        edge_shapes: seq![J],
        edge_orientations: seq![false, false, false, true, false, false, false, true],
        edge_shape_ids: seq![0, 0, 0, 0],
        colouring: seq![0, 1, 0, 0, 0, 0, 0, 0, 0, 0, 0, 0, 0, 1, 2, 0, 1, 2, 2],
    }
}

/// The record of the tiling type IH62.
pub open spec fn ih62() -> TilingTypeView {
    TilingTypeView {
        num_params: 0,
        num_aspects: 1,
        num_vertices: 4,
        num_edge_shapes: 1,
        edge_shapes: seq![S],
        edge_orientations: seq![false, false, false, false, false, false, false, false],
        edge_shape_ids: seq![0, 0, 0, 0],
        colouring: seq![0, 0, 0, 0, 0, 0, 0, 0, 0, 0, 0, 0, 1, 0, 2, 1, 0, 2, 2],
    }
}

/// The record of the tiling type IH64.
pub open spec fn ih64() -> TilingTypeView {
    TilingTypeView {
        num_params: 1,
        num_aspects: 1,
        num_vertices: 4,
        num_edge_shapes: 2,
        edge_shapes: seq![U, I],
        edge_orientations: seq![false, false, false, false, false, true, true, false],
        edge_shape_ids: seq![0, 1, 0, 1],
        colouring: seq![0, 0, 0, 0, 0, 0, 0, 0, 0, 0, 0, 0, 1, 0, 2, 1, 0, 2, 2],
    }
}

/// The record of the tiling type IH66.
pub open spec fn ih66() -> TilingTypeView {
    TilingTypeView {
        num_params: 1,
        num_aspects: 2,
        num_vertices: 4,
        num_edge_shapes: 2,
        edge_shapes: seq![U, S],
        edge_orientations: seq![false, false, false, false, false, true, true, false],
        edge_shape_ids: seq![0, 1, 0, 1],
        colouring: seq![0, 1, 0, 0, 0, 0, 0, 0, 0, 0, 0, 0, 1, 0, 2, 0, 1, 2, 2],
    }
}

/// The record of the tiling type IH67.
pub open spec fn ih67() -> TilingTypeView {
    TilingTypeView {
        num_params: 2,
        num_aspects: 2,
        num_vertices: 4,
        num_edge_shapes: 3,
        edge_shapes: seq![S, I, I],
        edge_orientations: seq![false, false, false, false, true, false, false, false],
        edge_shape_ids: seq![0, 1, 0, 2],
        colouring: seq![0, 1, 0, 0, 0, 0, 0, 0, 0, 0, 0, 0, 0, 1, 2, 0, 1, 2, 2],
    }
}

/// The record of the tiling type IH68.
pub open spec fn ih68() -> TilingTypeView {
    TilingTypeView {
        num_params: 1,
        num_aspects: 1,
        num_vertices: 4,
        num_edge_shapes: 1,
        edge_shapes: seq![J],
        edge_orientations: seq![false, false, true, true, false, true, true, false],
        edge_shape_ids: seq![0, 0, 0, 0],
        colouring: seq![0, 0, 0, 0, 0, 0, 0, 0, 0, 0, 0, 0, 1, 0, 2, 1, 0, 2, 2],
    }
}

/// The record of the tiling type IH69.
pub open spec fn ih69() -> TilingTypeView {
    TilingTypeView {
        num_params: 2,
        num_aspects: 2,
        num_vertices: 4,
        num_edge_shapes: 2,
        edge_shapes: seq![S, S],
        edge_orientations: seq![false, false, true, false, false, false, true, false],
        edge_shape_ids: seq![0, 0, 1, 1],
        colouring: seq![0, 1, 0, 0, 0, 0, 0, 0, 0, 0, 0, 0, 0, 1, 2, 0, 1, 2, 2],
    }
}

/// The record of the tiling type IH71.
pub open spec fn ih71() -> TilingTypeView {
    TilingTypeView {
        num_params: 0,
        num_aspects: 4,
        num_vertices: 4,
        num_edge_shapes: 1,
        edge_shapes: seq![J],
        edge_orientations: seq![false, false, false, true, true, true, true, false],
        edge_shape_ids: seq![0, 0, 0, 0],
        colouring: seq![0, 1, 0, 1, 0, 0, 0, 0, 0, 0, 0, 0, 0, 1, 2, 0, 1, 2, 2],
    }
}

/// The record of the tiling type IH72.
pub open spec fn ih72() -> TilingTypeView {
    TilingTypeView {
        num_params: 1,
        num_aspects: 1,
        num_vertices: 4,
        num_edge_shapes: 2,
        edge_shapes: seq![I, I],
        edge_orientations: seq![false, false, false, false, false, false, false, false],
        edge_shape_ids: seq![0, 1, 0, 1],
        colouring: seq![0, 0, 0, 0, 0, 0, 0, 0, 0, 0, 0, 0, 1, 0, 2, 1, 0, 2, 2],
    }
}

/// The record of the tiling type IH73.
pub open spec fn ih73() -> TilingTypeView {
    TilingTypeView {
        num_params: 0,
        num_aspects: 2,
        num_vertices: 4,
        num_edge_shapes: 1,
        edge_shapes: seq![U],
        edge_orientations: seq![false, false, false, true, false, false, false, true],
        edge_shape_ids: seq![0, 0, 0, 0],
        colouring: seq![0, 1, 0, 0, 0, 0, 0, 0, 0, 0, 0, 0, 0, 1, 2, 0, 1, 2, 2],
    }
}

/// The record of the tiling type IH74.
pub open spec fn ih74() -> TilingTypeView {
    TilingTypeView {
        num_params: 1,
        num_aspects: 1,
        num_vertices: 4,
        num_edge_shapes: 1,
        edge_shapes: seq![S],
        edge_orientations: seq![false, false, true, false, false, false, true, false],
        edge_shape_ids: seq![0, 0, 0, 0],
        colouring: seq![0, 0, 0, 0, 0, 0, 0, 0, 0, 0, 0, 0, 1, 0, 2, 1, 0, 2, 2],
    }
}

/// The record of the tiling type IH76.
pub open spec fn ih76() -> TilingTypeView {
    TilingTypeView {
        num_params: 0,
        num_aspects: 1,
        num_vertices: 4,
        num_edge_shapes: 1,
        edge_shapes: seq![I],
        edge_orientations: seq![false, false, false, false, false, false, false, false],
        edge_shape_ids: seq![0, 0, 0, 0],
        colouring: seq![0, 0, 0, 0, 0, 0, 0, 0, 0, 0, 0, 0, 1, 0, 2, 1, 0, 2, 2],
    }
}

/// The record of the tiling type IH77.
pub open spec fn ih77() -> TilingTypeView {
    TilingTypeView {
        num_params: 0,
        num_aspects: 12,
        num_vertices: 3,
        num_edge_shapes: 3,
        edge_shapes: seq![I, I, I],
        edge_orientations: seq![false, false, false, false, false, false],
        edge_shape_ids: seq![0, 1, 2],
        colouring: seq![0, 0, 0, 0, 0, 0, 1, 1, 1, 1, 1, 1, 0, 1, 2, 0, 1, 2, 2],
    }
}

/// The record of the tiling type IH78.
pub open spec fn ih78() -> TilingTypeView {
    TilingTypeView {
        num_params: 1,
        num_aspects: 4,
        num_vertices: 3,
        num_edge_shapes: 3,
        edge_shapes: seq![I, S, I],
        edge_orientations: seq![false, false, false, false, false, false],
        edge_shape_ids: seq![0, 1, 2],
        colouring: seq![0, 1, 1, 0, 0, 0, 0, 0, 0, 0, 0, 0, 0, 1, 2, 1, 0, 2, 2],
    }
}

/// The record of the tiling type IH79.
pub open spec fn ih79() -> TilingTypeView {
    TilingTypeView {
        num_params: 0,
        num_aspects: 4,
        num_vertices: 3,
        num_edge_shapes: 2,
        edge_shapes: seq![J, S],
        edge_orientations: seq![false, false, false, false, false, true],
        edge_shape_ids: seq![0, 1, 0],
        colouring: seq![0, 1, 0, 1, 0, 0, 0, 0, 0, 0, 0, 0, 1, 0, 2, 1, 0, 2, 2],
    }
}

/// The record of the tiling type IH81.
pub open spec fn ih81() -> TilingTypeView {
    TilingTypeView {
        num_params: 0,
        num_aspects: 8,
        num_vertices: 3,
        num_edge_shapes: 2,
        edge_shapes: seq![J, I],
        edge_orientations: seq![false, false, false, false, false, true],
        edge_shape_ids: seq![0, 1, 0],
        colouring: seq![0, 1, 0, 1, 1, 0, 1, 0, 0, 0, 0, 0, 0, 1, 2, 0, 1, 2, 2],
    }
}

/// The record of the tiling type IH82.
pub open spec fn ih82() -> TilingTypeView {
    TilingTypeView {
        num_params: 0,
        num_aspects: 4,
        num_vertices: 3,
        num_edge_shapes: 2,
        edge_shapes: seq![I, I],
        edge_orientations: seq![false, false, false, false, true, false],
        edge_shape_ids: seq![0, 1, 0],
        colouring: seq![0, 1, 0, 1, 0, 0, 0, 0, 0, 0, 0, 0, 1, 0, 2, 1, 0, 2, 2],
    }
}

/// The record of the tiling type IH83.
pub open spec fn ih83() -> TilingTypeView {
    TilingTypeView {
        num_params: 1,
        num_aspects: 2,
        num_vertices: 3,
        num_edge_shapes: 2,
        edge_shapes: seq![J, I],
        edge_orientations: seq![false, false, true, true, false, false],
        edge_shape_ids: seq![0, 0, 1],
        colouring: seq![0, 1, 0, 0, 0, 0, 0, 0, 0, 0, 0, 0, 0, 1, 2, 0, 1, 2, 2],
    }
}

/// The record of the tiling type IH84.
pub open spec fn ih84() -> TilingTypeView {
    TilingTypeView {
        num_params: 2,
        num_aspects: 2,
        num_vertices: 3,
        num_edge_shapes: 3,
        edge_shapes: seq![S, S, S],
        edge_orientations: seq![false, false, false, false, false, false],
        edge_shape_ids: seq![0, 1, 2],
        colouring: seq![0, 1, 0, 0, 0, 0, 0, 0, 0, 0, 0, 0, 0, 1, 2, 0, 1, 2, 2],
    }
}

/// The record of the tiling type IH85.
pub open spec fn ih85() -> TilingTypeView {
    TilingTypeView {
        num_params: 2,
        num_aspects: 4,
        num_vertices: 3,
        num_edge_shapes: 3,
        edge_shapes: seq![I, S, S],
        edge_orientations: seq![false, false, false, false, false, false],
        edge_shape_ids: seq![0, 1, 2],
        colouring: seq![0, 1, 1, 0, 0, 0, 0, 0, 0, 0, 0, 0, 0, 1, 2, 0, 1, 2, 2],
    }
}

/// The record of the tiling type IH86.
pub open spec fn ih86() -> TilingTypeView {
    TilingTypeView {
        num_params: 1,
        num_aspects: 4,
        num_vertices: 3,
        num_edge_shapes: 2,
        edge_shapes: seq![J, S],
        edge_orientations: seq![false, false, true, true, false, false],
        edge_shape_ids: seq![0, 0, 1],
        colouring: seq![0, 1, 1, 0, 0, 0, 0, 0, 0, 0, 0, 0, 0, 1, 2, 0, 1, 2, 2],
    }
}

/// The record of the tiling type IH88.
pub open spec fn ih88() -> TilingTypeView {
    TilingTypeView {
        num_params: 0,
        num_aspects: 6,
        num_vertices: 3,
        num_edge_shapes: 2,
        edge_shapes: seq![J, S],
        edge_orientations: seq![false, false, false, true, false, false],
        edge_shape_ids: seq![0, 0, 1],
        colouring: seq![0, 1, 0, 1, 0, 1, 0, 0, 0, 0, 0, 0, 0, 1, 2, 0, 1, 2, 2],
    }
}

/// The record of the tiling type IH90.
pub open spec fn ih90() -> TilingTypeView {
    TilingTypeView {
        num_params: 0,
        num_aspects: 2,
        num_vertices: 3,
        num_edge_shapes: 1,
        edge_shapes: seq![S],
        edge_orientations: seq![false, false, false, false, false, false],
        edge_shape_ids: seq![0, 0, 0],
        colouring: seq![0, 1, 0, 0, 0, 0, 0, 0, 0, 0, 0, 0, 0, 1, 2, 0, 1, 2, 2],
    }
}

/// The record of the tiling type IH91.
pub open spec fn ih91() -> TilingTypeView {
    TilingTypeView {
        num_params: 1,
        num_aspects: 2,
        num_vertices: 3,
        num_edge_shapes: 2,
        edge_shapes: seq![S, I],
        edge_orientations: seq![false, false, true, false, false, false],
        edge_shape_ids: seq![0, 0, 1],
        colouring: seq![0, 1, 0, 0, 0, 0, 0, 0, 0, 0, 0, 0, 0, 1, 2, 0, 1, 2, 2],
    }
}

/// The record of the tiling type IH93.
pub open spec fn ih93() -> TilingTypeView {
    TilingTypeView {
        num_params: 0,
        num_aspects: 2,
        num_vertices: 3,
        num_edge_shapes: 1,
        edge_shapes: seq![I],
        edge_orientations: seq![false, false, false, false, false, false],
        edge_shape_ids: seq![0, 0, 0],
        colouring: seq![0, 1, 0, 0, 0, 0, 0, 0, 0, 0, 0, 0, 0, 1, 2, 0, 1, 2, 2],
    }
}

impl TilingTypeData {
    /// The record of a defined tiling type: every count within its capacity and
    /// every table of the length that the counts give.
    pub open spec fn wf(&self) -> bool {
        &&& self.num_params <= MAX_PARAMS
        &&& 1 <= self.num_aspects <= MAX_ASPECTS
        &&& 1 <= self.num_vertices <= MAX_VERTICES
        &&& 1 <= self.num_edge_shapes <= self.num_vertices
        &&& self.edge_shapes@.len() == self.num_edge_shapes
        &&& self.edge_orientations@.len() == 2 * self.num_vertices
        &&& self.edge_shape_ids@.len() == self.num_vertices
        &&& forall|i: int|
            0 <= i < self.num_vertices ==> #[trigger] self.edge_shape_ids@[i] < self.num_edge_shapes
        &&& self.colouring@.len() == COLOURING_LEN
        &&& forall|i: int| 0 <= i < COLOURING_PERIOD ==> #[trigger] self.colouring@[i] < 3
        &&& 1 <= self.colouring@[COLOURING_PERIOD as int] <= 3
    }

    /// The record of an undefined slot: nothing in it.
    pub open spec fn is_null(&self) -> bool {
        &&& self.num_params == 0
        &&& self.num_aspects == 0
        &&& self.num_vertices == 0
        &&& self.num_edge_shapes == 0
        &&& self.edge_shapes@.len() == 0
        &&& self.edge_orientations@.len() == 0
        &&& self.edge_shape_ids@.len() == 0
        &&& self.colouring@.len() == 0
    }
}

fn ttd(
    num_params: usize,
    num_aspects: usize,
    num_vertices: usize,
    num_edge_shapes: usize,
    edge_shapes: Vec<EdgeShape>,
    edge_orientations: Vec<bool>,
    edge_shape_ids: Vec<usize>,
    colouring: Vec<u8>,
) -> (r: TilingTypeData)
    ensures
        r.num_params == num_params,
        r.num_aspects == num_aspects,
        r.num_vertices == num_vertices,
        r.num_edge_shapes == num_edge_shapes,
        r.edge_shapes@ == edge_shapes@,
        r.edge_orientations@ == edge_orientations@,
        r.edge_shape_ids@ == edge_shape_ids@,
        r.colouring@ == colouring@,
{
    TilingTypeData {
        num_params,
        num_aspects,
        num_vertices,
        num_edge_shapes,
        edge_shapes,
        edge_orientations,
        edge_shape_ids,
        colouring,
    }
}

fn ttd_null() -> (r: TilingTypeData)
    ensures
        r.is_null(),
{
    ttd(0, 0, 0, 0, Vec::new(), Vec::new(), Vec::new(), Vec::new())
}

/// The record of catalogue slot `t`. The slots of [`valid_types`] hold
/// well-formed records; the others are empty.
pub fn tiling_type_data(t: usize) -> (r: TilingTypeData)
    requires
        t < NUM_CATALOGUE_SLOTS,
    ensures
        r@ == catalogue(t),
        valid_types().contains(t) ==> r.wf(),
        !valid_types().contains(t) ==> r.is_null(),
{
    match t {
        1 => {
            let r = ttd(
                4, 1, 6, 3,
                vec![J, J, J],
                vec![false, false, false, false, false, false, false, true, false, true, false, true],
                vec![0, 1, 2, 0, 1, 2],
                vec![0, 0, 0, 0, 0, 0, 0, 0, 0, 0, 0, 0, 1, 2, 0, 2, 0, 1, 3],
            );
            assert(r@ =~= ih01());
            r
        },
        2 => {
            let r = ttd(
                4, 2, 6, 3,
                vec![J, J, J],
                vec![false, false, true, true, false, false, false, false, true, true, false, true],
                vec![0, 0, 1, 2, 2, 1],
                vec![0, 1, 0, 0, 0, 0, 0, 0, 0, 0, 0, 0, 1, 2, 0, 0, 1, 2, 3],
            );
            assert(r@ =~= ih02());
            r
        },
        3 => {
            let r = ttd(
                4, 2, 6, 3,
                vec![J, J, J],
                vec![false, false, false, false, true, true, false, false, false, true, true, true],
                vec![0, 1, 0, 2, 1, 2],
                vec![0, 1, 0, 0, 0, 0, 0, 0, 0, 0, 0, 0, 2, 0, 1, 2, 0, 1, 3],
            );
            assert(r@ =~= ih03());
            r
        },
        4 => {
            let r = ttd(
                6, 2, 6, 5,
                vec![S, J, S, S, S],
                vec![false, false, false, false, false, false, false, false, false, true, false, false],
                vec![0, 1, 2, 3, 1, 4],
                vec![0, 1, 0, 0, 0, 0, 0, 0, 0, 0, 0, 0, 2, 0, 1, 2, 0, 1, 3],
            );
            assert(r@ =~= ih04());
            r
        },
        5 => {
            let r = ttd(
                5, 4, 6, 4,
                vec![S, J, J, S],
                vec![false, false, false, false, false, false, true, true, false, true, false, false],
                vec![0, 1, 2, 2, 1, 3],
                vec![0, 1, 2, 1, 0, 0, 0, 0, 0, 0, 0, 0, 2, 0, 1, 2, 0, 1, 3],
            );
            assert(r@ =~= ih05());
            r
        },
        6 => {
            let r = ttd(
                5, 4, 6, 4,
                vec![S, J, S, J],
                vec![false, false, false, false, false, false, false, false, true, true, true, true],
                vec![0, 1, 2, 3, 1, 3],
                vec![0, 1, 2, 2, 0, 0, 0, 0, 0, 0, 0, 0, 1, 2, 0, 0, 1, 2, 3],
            );
            assert(r@ =~= ih06());
            r
        },
        7 => {
            let r = ttd(
                2, 3, 6, 3,
                vec![J, J, J],
                vec![false, false, false, true, false, false, false, true, false, false, false, true],
                vec![0, 0, 1, 1, 2, 2],
                vec![0, 1, 2, 0, 0, 0, 0, 0, 0, 0, 0, 0, 0, 1, 2, 0, 1, 2, 3],
            );
            assert(r@ =~= ih07());
            r
        },
        8 => {
            let r = ttd(
                4, 1, 6, 3,
                vec![S, S, S],
                vec![false, false, false, false, false, false, false, false, false, false, false, false],
                vec![0, 1, 2, 0, 1, 2],
                vec![0, 0, 0, 0, 0, 0, 0, 0, 0, 0, 0, 0, 1, 2, 0, 2, 0, 1, 3],
            );
            assert(r@ =~= ih08());
            r
        },
        9 => {
            let r = ttd(
                3, 2, 6, 2,
                vec![S, J],
                vec![false, false, false, false, true, true, false, false, false, false, true, true],
                vec![0, 1, 1, 0, 1, 1],
                vec![0, 1, 0, 0, 0, 0, 0, 0, 0, 0, 0, 0, 2, 0, 1, 0, 1, 2, 3],
            );
            assert(r@ =~= ih09());
            r
        },
        10 => {
            let r = ttd(
                0, 1, 6, 1,
                vec![J],
                vec![false, false, false, true, false, false, false, true, false, false, false, true],
                vec![0, 0, 0, 0, 0, 0],
                vec![0, 0, 0, 0, 0, 0, 0, 0, 0, 0, 0, 0, 1, 2, 0, 2, 0, 1, 3],
            );
            assert(r@ =~= ih10());
            r
        },
        11 => {
            let r = ttd(
                0, 1, 6, 1,
                vec![S],
                vec![false, false, false, false, false, false, false, false, false, false, false, false],
                vec![0, 0, 0, 0, 0, 0],
                vec![0, 0, 0, 0, 0, 0, 0, 0, 0, 0, 0, 0, 1, 2, 0, 2, 0, 1, 3],
            );
            assert(r@ =~= ih11());
            r
        },
        12 => {
            let r = ttd(
                2, 1, 6, 2,
                vec![U, J],
                vec![false, false, false, false, true, true, false, true, false, true, true, false],
                vec![0, 1, 1, 0, 1, 1],
                vec![0, 0, 0, 0, 0, 0, 0, 0, 0, 0, 0, 0, 1, 2, 0, 2, 0, 1, 3],
            );
            assert(r@ =~= ih12());
            r
        },
        13 => {
            let r = ttd(
                3, 2, 6, 3,
                vec![U, S, S],
                vec![false, false, false, false, false, false, false, true, true, false, true, false],
                vec![0, 1, 2, 0, 2, 1],
                vec![0, 1, 0, 0, 0, 0, 0, 0, 0, 0, 0, 0, 2, 0, 1, 0, 1, 2, 3],
            );
            assert(r@ =~= ih13());
            r
        },
        14 => {
            let r = ttd(
                2, 1, 6, 2,
                vec![J, I],
                vec![false, false, false, false, true, true, false, true, true, false, true, false],
                vec![0, 1, 0, 0, 1, 0],
                vec![0, 0, 0, 0, 0, 0, 0, 0, 0, 0, 0, 0, 1, 2, 0, 2, 0, 1, 3],
            );
            assert(r@ =~= ih14());
            r
        },
        15 => {
            let r = ttd(
                3, 2, 6, 3,
                vec![S, I, S],
                vec![false, false, false, false, false, false, true, false, true, false, true, false],
                vec![0, 1, 2, 2, 1, 0],
                vec![0, 1, 0, 0, 0, 0, 0, 0, 0, 0, 0, 0, 2, 0, 1, 0, 1, 2, 3],
            );
            assert(r@ =~= ih15());
            r
        },
        16 => {
            let r = ttd(
                1, 3, 6, 2,
                vec![I, J],
                vec![false, false, false, false, false, true, true, true, true, false, true, false],
                vec![0, 1, 1, 1, 1, 0],
                vec![0, 1, 2, 0, 0, 0, 0, 0, 0, 0, 0, 0, 0, 1, 2, 0, 1, 2, 3],
            );
            assert(r@ =~= ih16());
            r
        },
        17 => {
            let r = ttd(
                2, 1, 6, 2,
                vec![I, S],
                vec![false, false, false, false, true, false, false, false, false, false, true, false],
                vec![0, 1, 1, 0, 1, 1],
                vec![0, 0, 0, 0, 0, 0, 0, 0, 0, 0, 0, 0, 1, 2, 0, 2, 0, 1, 3],
            );
            assert(r@ =~= ih17());
            r
        },
        18 => {
            let r = ttd(
                0, 1, 6, 1,
                vec![U],
                vec![false, false, false, true, false, false, false, true, false, false, false, true],
                vec![0, 0, 0, 0, 0, 0],
                vec![0, 0, 0, 0, 0, 0, 0, 0, 0, 0, 0, 0, 1, 2, 0, 2, 0, 1, 3],
            );
            assert(r@ =~= ih18());
            r
        },
        20 => {
            let r = ttd(
                0, 1, 6, 1,
                vec![I],
                vec![false, false, false, false, false, false, false, false, false, false, false, false],
                vec![0, 0, 0, 0, 0, 0],
                vec![0, 0, 0, 0, 0, 0, 0, 0, 0, 0, 0, 0, 1, 2, 0, 2, 0, 1, 3],
            );
            assert(r@ =~= ih20());
            r
        },
        21 => {
            let r = ttd(
                2, 6, 5, 3,
                vec![S, J, J],
                vec![false, false, false, false, false, true, false, false, false, true],
                vec![0, 1, 1, 2, 2],
                vec![0, 1, 0, 1, 0, 1, 0, 0, 0, 0, 0, 0, 1, 2, 0, 2, 0, 1, 3],
            );
            assert(r@ =~= ih21());
            r
        },
        22 => {
            let r = ttd(
                3, 2, 5, 3,
                vec![J, J, I],
                vec![false, false, true, true, false, false, false, false, false, true],
                vec![0, 0, 1, 2, 1],
                vec![0, 1, 0, 0, 0, 0, 0, 0, 0, 0, 0, 0, 2, 0, 1, 0, 1, 2, 3],
            );
            assert(r@ =~= ih22());
            r
        },
        23 => {
            let r = ttd(
                4, 2, 5, 4,
                vec![S, S, J, S],
                vec![false, false, false, false, false, false, false, false, false, true],
                vec![0, 1, 2, 3, 2],
                vec![0, 1, 0, 0, 0, 0, 0, 0, 0, 0, 0, 0, 1, 2, 0, 2, 0, 1, 3],
            );
            assert(r@ =~= ih23());
            r
        },
        24 => {
            let r = ttd(
                4, 4, 5, 4,
                vec![S, S, J, I],
                vec![false, false, false, false, false, false, false, false, false, true],
                vec![0, 1, 2, 3, 2],
                vec![0, 1, 2, 0, 0, 0, 0, 0, 0, 0, 0, 0, 2, 0, 1, 1, 2, 0, 3],
            );
            assert(r@ =~= ih24());
            r
        },
        25 => {
            let r = ttd(
                3, 4, 5, 3,
                vec![J, J, S],
                vec![false, false, true, true, false, false, false, false, false, true],
                vec![0, 0, 1, 2, 1],
                vec![0, 1, 2, 0, 0, 0, 0, 0, 0, 0, 0, 0, 2, 0, 1, 0, 1, 2, 3],
            );
            assert(r@ =~= ih25());
            r
        },
        26 => {
            let r = ttd(
                2, 2, 5, 3,
                vec![S, I, I],
                vec![false, false, true, false, false, false, false, false, true, false],
                vec![0, 0, 1, 2, 1],
                vec![0, 1, 0, 0, 0, 0, 0, 0, 0, 0, 0, 0, 1, 2, 0, 0, 1, 2, 3],
            );
            assert(r@ =~= ih26());
            r
        },
        27 => {
            let r = ttd(
                3, 4, 5, 3,
                vec![S, J, J],
                vec![false, false, false, false, false, false, true, true, true, true],
                vec![0, 1, 2, 1, 2],
                vec![0, 1, 2, 2, 0, 0, 0, 0, 0, 0, 0, 0, 0, 1, 2, 1, 2, 0, 3],
            );
            assert(r@ =~= ih27());
            r
        },
        28 => {
            let r = ttd(
                2, 4, 5, 3,
                vec![S, J, J],
                vec![false, false, false, false, false, true, false, false, false, true],
                vec![0, 1, 1, 2, 2],
                vec![0, 1, 2, 0, 0, 0, 0, 0, 0, 0, 0, 0, 1, 2, 0, 0, 1, 2, 3],
            );
            assert(r@ =~= ih28());
            r
        },
        29 => {
            let r = ttd(
                1, 4, 5, 2,
                vec![I, J],
                vec![false, false, false, false, false, true, true, true, true, false],
                vec![0, 1, 1, 1, 1],
                vec![0, 1, 2, 2, 0, 0, 0, 0, 0, 0, 0, 0, 1, 2, 0, 0, 1, 2, 3],
            );
            assert(r@ =~= ih29());
            r
        },
        30 => {
            let r = ttd(
                1, 6, 4, 3,
                vec![J, I, I],
                vec![false, false, false, false, false, false, false, true],
                vec![0, 1, 2, 0],
                vec![0, 1, 2, 1, 2, 0, 0, 0, 0, 0, 0, 0, 1, 2, 0, 2, 0, 1, 3],
            );
            assert(r@ =~= ih30());
            r
        },
        31 => {
            let r = ttd(
                0, 6, 4, 2,
                vec![J, J],
                vec![false, false, false, false, false, true, false, true],
                vec![0, 1, 1, 0],
                vec![0, 1, 2, 0, 1, 2, 0, 0, 0, 0, 0, 0, 0, 1, 2, 0, 1, 2, 3],
            );
            assert(r@ =~= ih31());
            r
        },
        32 => {
            let r = ttd(
                0, 6, 4, 2,
                vec![I, I],
                vec![false, false, false, false, true, false, true, false],
                vec![0, 1, 1, 0],
                vec![0, 2, 1, 1, 0, 2, 0, 0, 0, 0, 0, 0, 1, 2, 0, 2, 0, 1, 3],
            );
            assert(r@ =~= ih32());
            r
        },
        33 => {
            let r = ttd(
                0, 3, 4, 2,
                vec![J, J],
                vec![false, false, false, false, false, true, false, true],
                vec![0, 1, 1, 0],
                vec![0, 1, 2, 0, 0, 0, 0, 0, 0, 0, 0, 0, 0, 1, 2, 0, 1, 2, 3],
            );
            assert(r@ =~= ih33());
            r
        },
        34 => {
            let r = ttd(
                0, 3, 4, 1,
                vec![J],
                vec![false, false, false, true, false, false, false, true],
                vec![0, 0, 0, 0],
                vec![0, 1, 2, 0, 0, 0, 0, 0, 0, 0, 0, 0, 0, 1, 2, 0, 1, 2, 3],
            );
            assert(r@ =~= ih34());
            r
        },
        36 => {
            let r = ttd(
                0, 3, 4, 1,
                vec![J],
                vec![false, false, true, false, true, true, false, true],
                vec![0, 0, 0, 0],
                vec![0, 1, 2, 0, 0, 0, 0, 0, 0, 0, 0, 0, 0, 1, 2, 0, 1, 2, 3],
            );
            assert(r@ =~= ih36());
            r
        },
        37 => {
            let r = ttd(
                0, 3, 4, 1,
                vec![I],
                vec![false, false, true, false, false, false, true, false],
                vec![0, 0, 0, 0],
                vec![0, 1, 2, 0, 0, 0, 0, 0, 0, 0, 0, 0, 0, 1, 2, 0, 1, 2, 3],
            );
            assert(r@ =~= ih37());
            r
        },
        38 => {
            let r = ttd(
                0, 6, 3, 2,
                vec![J, I],
                vec![false, false, false, false, false, true],
                vec![0, 1, 0],
                vec![0, 2, 1, 1, 0, 2, 0, 0, 0, 0, 0, 0, 1, 2, 0, 2, 0, 1, 3],
            );
            assert(r@ =~= ih38());
            r
        },
        39 => {
            let r = ttd(
                0, 6, 3, 2,
                vec![J, S],
                vec![false, false, false, false, false, true],
                vec![0, 1, 0],
                vec![0, 2, 1, 0, 1, 2, 0, 0, 0, 0, 0, 0, 2, 0, 1, 1, 2, 0, 3],
            );
            assert(r@ =~= ih39());
            r
        },
        40 => {
            let r = ttd(
                0, 6, 3, 2,
                vec![I, I],
                vec![false, false, false, false, true, false],
                vec![0, 1, 0],
                vec![1, 0, 2, 2, 0, 1, 0, 0, 0, 0, 0, 0, 1, 2, 0, 2, 0, 1, 3],
            );
            assert(r@ =~= ih40());
            r
        },
        41 => {
            let r = ttd(
                2, 1, 4, 2,
                vec![J, J],
                vec![false, false, false, false, false, true, false, true],
                vec![0, 1, 0, 1],
                vec![0, 0, 0, 0, 0, 0, 0, 0, 0, 0, 0, 0, 1, 0, 2, 1, 0, 2, 2],
            );
            assert(r@ =~= ih41());
            r
        },
        42 => {
            let r = ttd(
                2, 2, 4, 3,
                vec![J, I, I],
                vec![false, false, false, false, false, true, false, false],
                vec![0, 1, 0, 2],
                vec![0, 1, 0, 0, 0, 0, 0, 0, 0, 0, 0, 0, 1, 0, 2, 0, 1, 2, 2],
            );
            assert(r@ =~= ih42());
            r
        },
        43 => {
            let r = ttd(
                2, 2, 4, 2,
                vec![J, J],
                vec![false, false, false, false, false, true, true, true],
                vec![0, 1, 0, 1],
                vec![0, 1, 0, 0, 0, 0, 0, 0, 0, 0, 0, 0, 1, 0, 2, 0, 1, 2, 2],
            );
            assert(r@ =~= ih43());
            r
        },
        44 => {
            let r = ttd(
                2, 2, 4, 2,
                vec![J, J],
                vec![false, false, true, true, false, false, true, true],
                vec![0, 0, 1, 1],
                vec![0, 1, 0, 0, 0, 0, 0, 0, 0, 0, 0, 0, 0, 1, 2, 0, 1, 2, 2],
            );
            assert(r@ =~= ih44());
            r
        },
        45 => {
            let r = ttd(
                2, 2, 4, 3,
                vec![J, I, I],
                vec![false, false, false, false, true, true, false, false],
                vec![0, 1, 0, 2],
                vec![0, 1, 0, 0, 0, 0, 0, 0, 0, 0, 0, 0, 0, 1, 2, 0, 1, 2, 2],
            );
            assert(r@ =~= ih45());
            r
        },
        46 => {
            let r = ttd(
                4, 2, 4, 4,
                vec![S, S, S, S],
                vec![false, false, false, false, false, false, false, false],
                vec![0, 1, 2, 3],
                vec![0, 1, 0, 0, 0, 0, 0, 0, 0, 0, 0, 0, 0, 1, 2, 0, 1, 2, 2],
            );
            assert(r@ =~= ih46());
            r
        },
        47 => {
            let r = ttd(
                2, 2, 4, 3,
                vec![J, S, S],
                vec![false, false, false, false, false, true, false, false],
                vec![0, 1, 0, 2],
                vec![0, 1, 0, 0, 0, 0, 0, 0, 0, 0, 0, 0, 1, 0, 2, 0, 1, 2, 2],
            );
            assert(r@ =~= ih47());
            r
        },
        49 => {
            let r = ttd(
                3, 4, 4, 4,
                vec![I, S, I, S],
                vec![false, false, false, false, false, false, false, false],
                vec![0, 1, 2, 3],
                vec![0, 1, 1, 0, 0, 0, 0, 0, 0, 0, 0, 0, 0, 1, 2, 0, 1, 2, 2],
            );
            assert(r@ =~= ih49());
            r
        },
        50 => {
            let r = ttd(
                2, 4, 4, 3,
                vec![J, I, S],
                vec![false, false, false, false, false, true, false, false],
                vec![0, 1, 0, 2],
                vec![0, 1, 1, 0, 0, 0, 0, 0, 0, 0, 0, 0, 0, 1, 2, 1, 0, 2, 2],
            );
            assert(r@ =~= ih50());
            r
        },
        51 => {
            let r = ttd(
                3, 4, 4, 3,
                vec![J, S, S],
                vec![false, false, false, false, true, true, false, false],
                vec![0, 1, 0, 2],
                vec![0, 1, 1, 0, 0, 0, 0, 0, 0, 0, 0, 0, 0, 1, 2, 0, 1, 2, 2],
            );
            assert(r@ =~= ih51());
            r
        },
        52 => {
            let r = ttd(
                1, 4, 4, 2,
                vec![J, J],
                vec![false, false, false, false, true, true, true, true],
                vec![0, 1, 0, 1],
                vec![0, 0, 1, 1, 0, 0, 0, 0, 0, 0, 0, 0, 0, 1, 2, 0, 1, 2, 2],
            );
            assert(r@ =~= ih52());
            r
        },
        53 => {
            let r = ttd(
                3, 4, 4, 3,
                vec![J, S, S],
                vec![false, false, true, true, false, false, false, false],
                vec![0, 0, 1, 2],
                vec![0, 1, 1, 0, 0, 0, 0, 0, 0, 0, 0, 0, 0, 1, 2, 0, 1, 2, 2],
            );
            assert(r@ =~= ih53());
            r
        },
        54 => {
            let r = ttd(
                2, 4, 4, 4,
                vec![I, I, I, S],
                vec![false, false, false, false, false, false, false, false],
                vec![0, 1, 2, 3],
                vec![0, 1, 1, 0, 0, 0, 0, 0, 0, 0, 0, 0, 0, 1, 2, 1, 0, 2, 2],
            );
            assert(r@ =~= ih54());
            r
        },
        55 => {
            let r = ttd(
                0, 4, 4, 2,
                vec![J, J],
                vec![false, false, false, true, false, false, false, true],
                vec![0, 0, 1, 1],
                vec![0, 1, 0, 1, 0, 0, 0, 0, 0, 0, 0, 0, 0, 1, 2, 0, 1, 2, 2],
            );
            assert(r@ =~= ih55());
            r
        },
        56 => {
            let r = ttd(
                1, 8, 4, 3,
                vec![J, I, I],
                vec![false, false, false, true, false, false, false, false],
                vec![0, 0, 1, 2],
                vec![0, 1, 0, 1, 1, 0, 1, 0, 0, 0, 0, 0, 0, 1, 2, 0, 1, 2, 2],
            );
            assert(r@ =~= ih56());
            r
        },
        57 => {
            let r = ttd(
                2, 1, 4, 2,
                vec![S, S],
                vec![false, false, false, false, false, false, false, false],
                vec![0, 1, 0, 1],
                vec![0, 0, 0, 0, 0, 0, 0, 0, 0, 0, 0, 0, 1, 0, 2, 1, 0, 2, 2],
            );
            assert(r@ =~= ih57());
            r
        },
        58 => {
            let r = ttd(
                2, 2, 4, 2,
                vec![S, I],
                vec![false, false, false, false, false, false, false, false],
                vec![0, 1, 0, 1],
                vec![0, 1, 0, 0, 0, 0, 0, 0, 0, 0, 0, 0, 1, 0, 2, 0, 1, 2, 2],
            );
            assert(r@ =~= ih58());
            r
        },
        59 => {
            let r = ttd(
                1, 2, 4, 1,
                vec![J],
                vec![false, false, true, true, false, false, true, true],
                vec![0, 0, 0, 0],
                vec![0, 1, 0, 0, 0, 0, 0, 0, 0, 0, 0, 0, 0, 1, 2, 0, 1, 2, 2],
            );
            assert(r@ =~= ih59());
            r
        },
        61 => {
            let r = ttd(
                0, 2, 4, 1,
                vec![J],
                vec![false, false, false, true, false, false, false, true],
                vec![0, 0, 0, 0],
                vec![0, 1, 0, 0, 0, 0, 0, 0, 0, 0, 0, 0, 0, 1, 2, 0, 1, 2, 2],
            );
            assert(r@ =~= ih61());
            r
        },
        62 => {
            let r = ttd(
                0, 1, 4, 1,
                vec![S],
                vec![false, false, false, false, false, false, false, false],
                vec![0, 0, 0, 0],
                vec![0, 0, 0, 0, 0, 0, 0, 0, 0, 0, 0, 0, 1, 0, 2, 1, 0, 2, 2],
            );
            assert(r@ =~= ih62());
            r
        },
        64 => {
            let r = ttd(
                1, 1, 4, 2,
                vec![U, I],
                vec![false, false, false, false, false, true, true, false],
                vec![0, 1, 0, 1],
                vec![0, 0, 0, 0, 0, 0, 0, 0, 0, 0, 0, 0, 1, 0, 2, 1, 0, 2, 2],
            );
            assert(r@ =~= ih64());
            r
        },
        66 => {
            let r = ttd(
                1, 2, 4, 2,
                vec![U, S],
                vec![false, false, false, false, false, true, true, false],
                vec![0, 1, 0, 1],
                vec![0, 1, 0, 0, 0, 0, 0, 0, 0, 0, 0, 0, 1, 0, 2, 0, 1, 2, 2],
            );
            assert(r@ =~= ih66());
            r
        },
        67 => {
            let r = ttd(
                2, 2, 4, 3,
                vec![S, I, I],
                vec![false, false, false, false, true, false, false, false],
                vec![0, 1, 0, 2],
                vec![0, 1, 0, 0, 0, 0, 0, 0, 0, 0, 0, 0, 0, 1, 2, 0, 1, 2, 2],
            );
            assert(r@ =~= ih67());
            r
        },
        68 => {
            let r = ttd(
                1, 1, 4, 1,
                vec![J],
                vec![false, false, true, true, false, true, true, false],
                vec![0, 0, 0, 0],
                vec![0, 0, 0, 0, 0, 0, 0, 0, 0, 0, 0, 0, 1, 0, 2, 1, 0, 2, 2],
            );
            assert(r@ =~= ih68());
            r
        },
        69 => {
            let r = ttd(
                2, 2, 4, 2,
                vec![S, S],
                vec![false, false, true, false, false, false, true, false],
                vec![0, 0, 1, 1],
                vec![0, 1, 0, 0, 0, 0, 0, 0, 0, 0, 0, 0, 0, 1, 2, 0, 1, 2, 2],
            );
            assert(r@ =~= ih69());
            r
        },
        71 => {
            let r = ttd(
                0, 4, 4, 1,
                vec![J],
                vec![false, false, false, true, true, true, true, false],
                vec![0, 0, 0, 0],
                vec![0, 1, 0, 1, 0, 0, 0, 0, 0, 0, 0, 0, 0, 1, 2, 0, 1, 2, 2],
            );
            assert(r@ =~= ih71());
            r
        },
        72 => {
            let r = ttd(
                1, 1, 4, 2,
                vec![I, I],
                vec![false, false, false, false, false, false, false, false],
                vec![0, 1, 0, 1],
                vec![0, 0, 0, 0, 0, 0, 0, 0, 0, 0, 0, 0, 1, 0, 2, 1, 0, 2, 2],
            );
            assert(r@ =~= ih72());
            r
        },
        73 => {
            let r = ttd(
                0, 2, 4, 1,
                vec![U],
                vec![false, false, false, true, false, false, false, true],
                vec![0, 0, 0, 0],
                vec![0, 1, 0, 0, 0, 0, 0, 0, 0, 0, 0, 0, 0, 1, 2, 0, 1, 2, 2],
            );
            assert(r@ =~= ih73());
            r
        },
        74 => {
            let r = ttd(
                1, 1, 4, 1,
                vec![S],
                vec![false, false, true, false, false, false, true, false],
                vec![0, 0, 0, 0],
                vec![0, 0, 0, 0, 0, 0, 0, 0, 0, 0, 0, 0, 1, 0, 2, 1, 0, 2, 2],
            );
            assert(r@ =~= ih74());
            r
        },
        76 => {
            let r = ttd(
                0, 1, 4, 1,
                vec![I],
                vec![false, false, false, false, false, false, false, false],
                vec![0, 0, 0, 0],
                vec![0, 0, 0, 0, 0, 0, 0, 0, 0, 0, 0, 0, 1, 0, 2, 1, 0, 2, 2],
            );
            assert(r@ =~= ih76());
            r
        },
        77 => {
            let r = ttd(
                0, 12, 3, 3,
                vec![I, I, I],
                vec![false, false, false, false, false, false],
                vec![0, 1, 2],
                vec![0, 0, 0, 0, 0, 0, 1, 1, 1, 1, 1, 1, 0, 1, 2, 0, 1, 2, 2],
            );
            assert(r@ =~= ih77());
            r
        },
        78 => {
            let r = ttd(
                1, 4, 3, 3,
                vec![I, S, I],
                vec![false, false, false, false, false, false],
                vec![0, 1, 2],
                vec![0, 1, 1, 0, 0, 0, 0, 0, 0, 0, 0, 0, 0, 1, 2, 1, 0, 2, 2],
            );
            assert(r@ =~= ih78());
            r
        },
        79 => {
            let r = ttd(
                0, 4, 3, 2,
                vec![J, S],
                vec![false, false, false, false, false, true],
                vec![0, 1, 0],
                vec![0, 1, 0, 1, 0, 0, 0, 0, 0, 0, 0, 0, 1, 0, 2, 1, 0, 2, 2],
            );
            assert(r@ =~= ih79());
            r
        },
        81 => {
            let r = ttd(
                0, 8, 3, 2,
                vec![J, I],
                vec![false, false, false, false, false, true],
                vec![0, 1, 0],
                vec![0, 1, 0, 1, 1, 0, 1, 0, 0, 0, 0, 0, 0, 1, 2, 0, 1, 2, 2],
            );
            assert(r@ =~= ih81());
            r
        },
        82 => {
            let r = ttd(
                0, 4, 3, 2,
                vec![I, I],
                vec![false, false, false, false, true, false],
                vec![0, 1, 0],
                vec![0, 1, 0, 1, 0, 0, 0, 0, 0, 0, 0, 0, 1, 0, 2, 1, 0, 2, 2],
            );
            assert(r@ =~= ih82());
            r
        },
        83 => {
            let r = ttd(
                1, 2, 3, 2,
                vec![J, I],
                vec![false, false, true, true, false, false],
                vec![0, 0, 1],
                vec![0, 1, 0, 0, 0, 0, 0, 0, 0, 0, 0, 0, 0, 1, 2, 0, 1, 2, 2],
            );
            assert(r@ =~= ih83());
            r
        },
        84 => {
            let r = ttd(
                2, 2, 3, 3,
                vec![S, S, S],
                vec![false, false, false, false, false, false],
                vec![0, 1, 2],
                vec![0, 1, 0, 0, 0, 0, 0, 0, 0, 0, 0, 0, 0, 1, 2, 0, 1, 2, 2],
            );
            assert(r@ =~= ih84());
            r
        },
        85 => {
            let r = ttd(
                2, 4, 3, 3,
                vec![I, S, S],
                vec![false, false, false, false, false, false],
                vec![0, 1, 2],
                vec![0, 1, 1, 0, 0, 0, 0, 0, 0, 0, 0, 0, 0, 1, 2, 0, 1, 2, 2],
            );
            assert(r@ =~= ih85());
            r
        },
        86 => {
            let r = ttd(
                1, 4, 3, 2,
                vec![J, S],
                vec![false, false, true, true, false, false],
                vec![0, 0, 1],
                vec![0, 1, 1, 0, 0, 0, 0, 0, 0, 0, 0, 0, 0, 1, 2, 0, 1, 2, 2],
            );
            assert(r@ =~= ih86());
            r
        },
        88 => {
            let r = ttd(
                0, 6, 3, 2,
                vec![J, S],
                vec![false, false, false, true, false, false],
                vec![0, 0, 1],
                vec![0, 1, 0, 1, 0, 1, 0, 0, 0, 0, 0, 0, 0, 1, 2, 0, 1, 2, 2],
            );
            assert(r@ =~= ih88());
            r
        },
        90 => {
            let r = ttd(
                0, 2, 3, 1,
                vec![S],
                vec![false, false, false, false, false, false],
                vec![0, 0, 0],
                vec![0, 1, 0, 0, 0, 0, 0, 0, 0, 0, 0, 0, 0, 1, 2, 0, 1, 2, 2],
            );
            assert(r@ =~= ih90());
            r
        },
        91 => {
            let r = ttd(
                1, 2, 3, 2,
                vec![S, I],
                vec![false, false, true, false, false, false],
                vec![0, 0, 1],
                vec![0, 1, 0, 0, 0, 0, 0, 0, 0, 0, 0, 0, 0, 1, 2, 0, 1, 2, 2],
            );
            assert(r@ =~= ih91());
            r
        },
        93 => {
            let r = ttd(
                0, 2, 3, 1,
                vec![I],
                vec![false, false, false, false, false, false],
                vec![0, 0, 0],
                vec![0, 1, 0, 0, 0, 0, 0, 0, 0, 0, 0, 0, 0, 1, 2, 0, 1, 2, 2],
            );
            assert(r@ =~= ih93());
            r
        },
        _ => ttd_null(),
    }
}

} // verus!
