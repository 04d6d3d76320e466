//! The precision of a range input's step.
//!
//! After a value has been snapped to a step, it is rounded to as many
//! decimal places as the step's shortest round-trip representation has, so
//! that step `0.01` gives `1.65` rather than `1.6500000000000001`. The
//! representation is handed over as its bytes (ASCII digits, an optional
//! `.`, possibly an exponent).
use vstd::prelude::*;

verus! {

/// The byte `.`.
pub const DOT: u8 = 0x2e;

/// Rounding is done only to fewer decimal places than this.
pub const MAX_ROUNDING_DECIMALS: usize = 16;

/// The number of bytes after the first `.` of `s`, or 0 when it has none.
pub open spec fn decimal_places_of(s: Seq<u8>) -> nat
    decreases s.len(),
{
    if s.len() == 0 {
        0
    } else if s[0] == DOT {
        (s.len() - 1) as nat
    } else {
        decimal_places_of(s.drop_first())
    }
}

/// The number of decimal places of a number's representation: the bytes
/// after its first `.`, 0 when it has none.
pub fn decimal_places(repr: &[u8]) -> (r: usize)
    ensures
        r == decimal_places_of(repr@),
        (forall|j: int| 0 <= j < repr@.len() ==> repr@[j] != DOT) ==> r == 0,
        forall|i: int|
            0 <= i < repr@.len() && repr@[i] == DOT && (forall|j: int| 0 <= j < i ==> repr@[j] != DOT)
                ==> r == repr@.len() - i - 1,
{
    let mut i: usize = 0;
    assert(repr@.subrange(0, repr@.len() as int) =~= repr@);
    while i < repr.len()
        invariant
            i <= repr@.len(),
            forall|j: int| 0 <= j < i ==> repr@[j] != DOT,
            decimal_places_of(repr@) == decimal_places_of(repr@.subrange(i as int, repr@.len() as int)),
        decreases repr@.len() - i,
    {
        let rest = Ghost(repr@.subrange(i as int, repr@.len() as int));
        if repr[i] == DOT {
            assert(rest@[0] == DOT);
            return repr.len() - i - 1;
        }
        assert(rest@.drop_first() =~= repr@.subrange(i + 1 as int, repr@.len() as int));
        i = i + 1;
    }
    assert(repr@.subrange(i as int, repr@.len() as int) =~= Seq::<u8>::empty());
    0
}

/// The number of decimal places to round a stepped value to, given the
/// representation of the step: its decimal places when they are fewer than
/// `MAX_ROUNDING_DECIMALS`, else `None` (no rounding).
pub fn step_rounding_decimals(step_repr: &[u8]) -> (r: Option<usize>)
    ensures
        r == (if decimal_places_of(step_repr@) < MAX_ROUNDING_DECIMALS {
            Some(decimal_places_of(step_repr@) as usize)
        } else {
            None::<usize>
        }),
{
    let decimals = decimal_places(step_repr);
    if decimals < MAX_ROUNDING_DECIMALS {
        Some(decimals)
    } else {
        None
    }
}

} // verus!
