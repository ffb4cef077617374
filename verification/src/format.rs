//! Rendering of tensor shapes and dimension lists as text.
//!
//! A shape is either of unknown rank, or an ordered list of dimension slots,
//! each a known non-negative size or unknown. Unknown rank and unknown slots
//! render as the sentinel `-1`; a rank-zero shape renders as the empty string,
//! which keeps it distinguishable from unknown rank.

use vstd::prelude::*;

verus! {

/// The character for one decimal digit.
pub open spec fn digit_char(d: nat) -> char {
    if d == 0 {
        '0'
    } else if d == 1 {
        '1'
    } else if d == 2 {
        '2'
    } else if d == 3 {
        '3'
    } else if d == 4 {
        '4'
    } else if d == 5 {
        '5'
    } else if d == 6 {
        '6'
    } else if d == 7 {
        '7'
    } else if d == 8 {
        '8'
    } else {
        '9'
    }
}

/// The decimal representation of a natural number, most significant digit
/// first, with no leading zeros (a single `'0'` for zero).
pub open spec fn dec_rep(n: nat) -> Seq<char>
    decreases n,
{
    if n < 10 {
        seq![digit_char(n)]
    } else {
        dec_rep(n / 10) + seq![digit_char(n % 10)]
    }
}

fn digit_str(d: u64) -> (r: &'static str)
    requires
        d < 10,
    ensures
        r@ == seq![digit_char(d as nat)],
{
    match d {
        0 => {
            proof {
                reveal_strlit("0");
                assert("0"@ =~= seq![digit_char(0)]);
            }
            "0"
        },
        1 => {
            proof {
                reveal_strlit("1");
                assert("1"@ =~= seq![digit_char(1)]);
            }
            "1"
        },
        2 => {
            proof {
                reveal_strlit("2");
                assert("2"@ =~= seq![digit_char(2)]);
            }
            "2"
        },
        3 => {
            proof {
                reveal_strlit("3");
                assert("3"@ =~= seq![digit_char(3)]);
            }
            "3"
        },
        4 => {
            proof {
                reveal_strlit("4");
                assert("4"@ =~= seq![digit_char(4)]);
            }
            "4"
        },
        5 => {
            proof {
                reveal_strlit("5");
                assert("5"@ =~= seq![digit_char(5)]);
            }
            "5"
        },
        6 => {
            proof {
                reveal_strlit("6");
                assert("6"@ =~= seq![digit_char(6)]);
            }
            "6"
        },
        7 => {
            proof {
                reveal_strlit("7");
                assert("7"@ =~= seq![digit_char(7)]);
            }
            "7"
        },
        8 => {
            proof {
                reveal_strlit("8");
                assert("8"@ =~= seq![digit_char(8)]);
            }
            "8"
        },
        _ => {
            proof {
                reveal_strlit("9");
                assert("9"@ =~= seq![digit_char(9)]);
            }
            "9"
        },
    }
}

/// The decimal rendering of one dimension size.
pub fn format_u64(n: u64) -> (s: String)
    ensures
        s@ == dec_rep(n as nat),
    decreases n,
{
    if n < 10 {
        digit_str(n).to_owned()
    } else {
        let mut s = format_u64(n / 10);
        s.append(digit_str(n % 10));
        proof {
            assert(s@ =~= dec_rep(n as nat));
        }
        s
    }
}

/// The dimension list joined by `'x'`: each size in decimal, an empty list
/// giving the empty string.
pub open spec fn dims_str(dims: Seq<u64>) -> Seq<char>
    decreases dims.len(),
{
    if dims.len() == 0 {
        Seq::empty()
    } else if dims.len() == 1 {
        dec_rep(dims[0] as nat)
    } else {
        dims_str(dims.drop_last()) + seq!['x'] + dec_rep(dims.last() as nat)
    }
}

/// Joins the decimal renderings of the sizes with `"x"`.
pub fn format_dimensions(dims: &[u64]) -> (s: String)
    ensures
        s@ == dims_str(dims@),
{
    let mut s = String::new();
    let mut i: usize = 0;
    while i < dims.len()
        invariant
            i <= dims@.len(),
            s@ == dims_str(dims@.take(i as int)),
        decreases dims@.len() - i,
    {
        if i > 0 {
            s.append("x");
        }
        let d = format_u64(dims[i]);
        s.append(d.as_str());
        proof {
            reveal_strlit("x");
            assert("x"@ =~= seq!['x']);
            assert(dims@.take(i + 1).drop_last() =~= dims@.take(i as int));
            assert(s@ =~= dims_str(dims@.take(i + 1)));
        }
        i = i + 1;
    }
    proof {
        assert(dims@.take(dims@.len() as int) =~= dims@);
    }
    s
}

/// A tensor shape attribute. The rank may be unknown as a whole; when it is
/// known, each dimension slot is either a known non-negative size or unknown.
pub enum TensorShape {
    UnknownRank,
    Dims(Vec<Option<u64>>),
}

/// One dimension slot: its size in decimal, or the sentinel `-1` when unknown.
pub open spec fn slot_str(slot: Option<u64>) -> Seq<char> {
    match slot {
        Option::Some(n) => dec_rep(n as nat),
        Option::None => seq!['-', '1'],
    }
}

/// The slot renderings joined by `", "`; an empty list gives the empty string.
pub open spec fn slots_str(slots: Seq<Option<u64>>) -> Seq<char>
    decreases slots.len(),
{
    if slots.len() == 0 {
        Seq::empty()
    } else if slots.len() == 1 {
        slot_str(slots[0])
    } else {
        slots_str(slots.drop_last()) + seq![',', ' '] + slot_str(slots.last())
    }
}

/// The canonical rendering of a shape: `-1` for unknown rank, otherwise the
/// slots joined by `", "`.
pub open spec fn shape_str(shape: TensorShape) -> Seq<char> {
    match shape {
        TensorShape::UnknownRank => seq!['-', '1'],
        TensorShape::Dims(slots) => slots_str(slots@),
    }
}

fn slot_string(slot: Option<u64>) -> (s: String)
    ensures
        s@ == slot_str(slot),
{
    match slot {
        Option::Some(n) => format_u64(n),
        Option::None => {
            proof {
                reveal_strlit("-1");
                assert("-1"@ =~= seq!['-', '1']);
            }
            "-1".to_owned()
        },
    }
}

/// Renders a shape value as its canonical display string.
pub fn format_shape(shape: &TensorShape) -> (s: String)
    ensures
        s@ == shape_str(*shape),
{
    match shape {
        TensorShape::UnknownRank => {
            proof {
                reveal_strlit("-1");
                assert("-1"@ =~= seq!['-', '1']);
            }
            "-1".to_owned()
        },
        TensorShape::Dims(slots) => {
            let mut s = String::new();
            let mut i: usize = 0;
            while i < slots.len()
                invariant
                    i <= slots@.len(),
                    s@ == slots_str(slots@.take(i as int)),
                decreases slots@.len() - i,
            {
                if i > 0 {
                    s.append(", ");
                }
                let rendered = slot_string(slots[i]);
                s.append(rendered.as_str());
                proof {
                    reveal_strlit(", ");
                    assert(", "@ =~= seq![',', ' ']);
                    assert(slots@.take(i + 1).drop_last() =~= slots@.take(i as int));
                    assert(s@ =~= slots_str(slots@.take(i + 1)));
                }
                i = i + 1;
            }
            proof {
                assert(slots@.take(slots@.len() as int) =~= slots@);
            }
            s
        },
    }
}

/// Unknown rank and a rank-zero shape never render alike: the first is the
/// sentinel `-1`, the second the empty string.
pub proof fn lemma_unknown_rank_distinct_from_rank_zero(slots: Vec<Option<u64>>)
    requires
        slots@.len() == 0,
    ensures
        shape_str(TensorShape::UnknownRank) != shape_str(TensorShape::Dims(slots)),
{
    assert(shape_str(TensorShape::UnknownRank).len() == 2);
    assert(shape_str(TensorShape::Dims(slots)).len() == 0);
}

/// Shape rendering is a pure function of the shape value: any two renderings
/// of the same shape are the same text, so formatting twice changes nothing.
pub proof fn lemma_format_shape_deterministic(shape: TensorShape, r1: Seq<char>, r2: Seq<char>)
    requires
        r1 == shape_str(shape),
        r2 == shape_str(shape),
    ensures
        r1 == r2,
{
}

} // verus!
