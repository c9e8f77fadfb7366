//! Starting formations: the four named layouts a participant can choose,
//! their wire names, and the piece positions each one places on the board.
//! Coordinates are in the same fixed-point milli-units as recorded piece
//! positions, and the left-hand side plays the mirrored layout.

use vstd::prelude::*;
use vstd::string::StringExecFns;

verus! {

/// The four selectable starting layouts.
#[derive(Clone, Copy, PartialEq, Eq, Structural, Debug)]
pub enum Formation {
    Rombo1211,
    Muro221,
    Ofensiva113,
    Diamante2111,
}

impl Formation {
    /// The layout's name on the wire.
    pub fn as_str(&self) -> (r: &'static str)
        ensures
            r@ == spec_formation_name(*self),
    {
        match self {
            Formation::Rombo1211 => "1-2-1-1",
            Formation::Muro221 => "2-2-1",
            Formation::Ofensiva113 => "1-1-3",
            Formation::Diamante2111 => "2-1-1-1",
        }
    }
}

/// The wire name of each layout.
pub open spec fn spec_formation_name(f: Formation) -> Seq<char> {
    match f {
        Formation::Rombo1211 => "1-2-1-1"@,
        Formation::Muro221 => "2-2-1"@,
        Formation::Ofensiva113 => "1-1-3"@,
        Formation::Diamante2111 => "2-1-1-1"@,
    }
}

/// Which layout a wire name denotes; an unknown name falls back to the
/// default layout, so a stale or mistyped record still renders a board.
pub open spec fn spec_parse_formation(s: Seq<char>) -> Formation {
    if s == "1-2-1-1"@ {
        Formation::Rombo1211
    } else if s == "2-2-1"@ {
        Formation::Muro221
    } else if s == "1-1-3"@ {
        Formation::Ofensiva113
    } else if s == "2-1-1-1"@ {
        Formation::Diamante2111
    } else {
        Formation::Rombo1211
    }
}

/// Parses a layout name from the wire.
pub fn parse_formation(s: &String) -> (f: Formation)
    ensures
        f == spec_parse_formation(s@),
{
    if *s == String::from_str("1-2-1-1") {
        Formation::Rombo1211
    } else if *s == String::from_str("2-2-1") {
        Formation::Muro221
    } else if *s == String::from_str("1-1-3") {
        Formation::Ofensiva113
    } else if *s == String::from_str("2-1-1-1") {
        Formation::Diamante2111
    } else {
        Formation::Rombo1211
    }
}

/// The five piece positions of each layout, for the right-hand side, in
/// milli-units.
pub open spec fn base_positions(f: Formation) -> Seq<(i64, i64)> {
    match f {
        Formation::Rombo1211 => seq![
            (400000i64, 0i64),
            (300000i64, 100000i64),
            (300000i64, -100000i64),
            (200000i64, 0i64),
            (100000i64, 0i64),
        ],
        Formation::Muro221 => seq![
            (400000i64, 100000i64),
            (400000i64, -100000i64),
            (250000i64, 100000i64),
            (250000i64, -100000i64),
            (100000i64, 0i64),
        ],
        Formation::Ofensiva113 => seq![
            (300000i64, 150000i64),
            (300000i64, 0i64),
            (300000i64, -150000i64),
            (200000i64, 0i64),
            (400000i64, 0i64),
        ],
        Formation::Diamante2111 => seq![
            (400000i64, 100000i64),
            (400000i64, -100000i64),
            (300000i64, 0i64),
            (200000i64, 0i64),
            (100000i64, 0i64),
        ],
    }
}

/// A layout's positions for one side: the left side mirrors the x axis.
pub open spec fn spec_formation_positions(f: Formation, is_left: bool) -> Seq<(i64, i64)> {
    base_positions(f).map_values(
        |p: (i64, i64)|
            if is_left {
                ((-p.0) as i64, p.1)
            } else {
                p
            },
    )
}

/// The positions a formation places on the board, mirrored for the left
/// side.
pub fn get_formation_positions(formation: Formation, is_left: bool) -> (r: Vec<(i64, i64)>)
    ensures
        r@ == spec_formation_positions(formation, is_left),
{
    let mut base: Vec<(i64, i64)> = Vec::new();
    match formation {
        Formation::Rombo1211 => {
            base.push((400000, 0));
            base.push((300000, 100000));
            base.push((300000, -100000));
            base.push((200000, 0));
            base.push((100000, 0));
            proof {
                assert(base@ =~= base_positions(Formation::Rombo1211));
            }
        },
        Formation::Muro221 => {
            base.push((400000, 100000));
            base.push((400000, -100000));
            base.push((250000, 100000));
            base.push((250000, -100000));
            base.push((100000, 0));
            proof {
                assert(base@ =~= base_positions(Formation::Muro221));
            }
        },
        Formation::Ofensiva113 => {
            base.push((300000, 150000));
            base.push((300000, 0));
            base.push((300000, -150000));
            base.push((200000, 0));
            base.push((400000, 0));
            proof {
                assert(base@ =~= base_positions(Formation::Ofensiva113));
            }
        },
        Formation::Diamante2111 => {
            base.push((400000, 100000));
            base.push((400000, -100000));
            base.push((300000, 0));
            base.push((200000, 0));
            base.push((100000, 0));
            proof {
                assert(base@ =~= base_positions(Formation::Diamante2111));
            }
        },
    }
    let mut r: Vec<(i64, i64)> = Vec::new();
    let mut i: usize = 0;
    while i < base.len()
        invariant
            i <= base.len(),
            base@ == base_positions(formation),
            r@ == spec_formation_positions(formation, is_left).subrange(0, i as int),
            forall|j: int|
                0 <= j < base@.len() ==> -1000000 < (#[trigger] base@[j]).0 < 1000000,
        decreases base.len() - i,
    {
        let p = base[i];
        if is_left {
            r.push((-p.0, p.1));
        } else {
            r.push(p);
        }
        proof {
            assert(r@ =~= spec_formation_positions(formation, is_left).subrange(0, i + 1));
        }
        i += 1;
    }
    proof {
        assert(r@ =~= spec_formation_positions(formation, is_left));
    }
    r
}

} // verus!
