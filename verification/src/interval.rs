//! Named intervals and their letter-correct resolution against a root note.
//!
//! An interval is resolved by chaining the note algebra's half-step and
//! whole-step primitives from the canonicalized root, rather than by adding
//! a fixed chromatic offset: this is what makes the resulting spelling
//! letter-correct (the major scale of D♭ reaches G♭, not F♯).

use crate::note::canonical_form;
use crate::note::half_step_canon;
use crate::note::half_step_of;
use crate::note::is_canonical;
use crate::note::is_letter;
use crate::note::lemma_canonical_form;
use crate::note::lemma_half_step_of;
use crate::note::lemma_note_id_range;
use crate::note::lemma_sharp_of;
use crate::note::lemma_sharpened_canonical;
use crate::note::lemma_whole_step_of;
use crate::note::letter_index;
use crate::note::note_id;
use crate::note::sharp_canon;
use crate::note::sharp_of;
use crate::note::sharpened;
use crate::note::whole_step_canon;
use crate::note::whole_step_of;
use crate::note::Note;
use vstd::prelude::*;
use vstd::string::StrSliceExecFns;

verus! {

/// The twelve named semitone distances from unison to major seventh.
#[allow(non_camel_case_types)]
#[derive(Debug, Clone, Copy, PartialEq, Eq)]
pub enum Interval {
    P1,
    m2,
    M2,
    m3,
    M3,
    P4,
    d5,
    P5,
    A5,
    M6,
    m7,
    M7,
}

/// Chromatic distance of an interval, in semitones.
pub open spec fn semitone_distance(iv: Interval) -> int {
    match iv {
        Interval::P1 => 0,
        Interval::m2 => 1,
        Interval::M2 => 2,
        Interval::m3 => 3,
        Interval::M3 => 4,
        Interval::P4 => 5,
        Interval::d5 => 6,
        Interval::P5 => 7,
        Interval::A5 => 8,
        Interval::M6 => 9,
        Interval::m7 => 10,
        Interval::M7 => 11,
    }
}

/// Nominal diatonic letter advance of an interval: a second moves one
/// letter, a third two, and so on; the diminished and augmented fifths are
/// altered fifths and share the perfect fifth's count.
pub open spec fn letter_steps(iv: Interval) -> int {
    match iv {
        Interval::P1 => 0,
        Interval::m2 => 1,
        Interval::M2 => 1,
        Interval::m3 => 2,
        Interval::M3 => 2,
        Interval::P4 => 3,
        Interval::d5 => 4,
        Interval::P5 => 4,
        Interval::A5 => 4,
        Interval::M6 => 5,
        Interval::m7 => 6,
        Interval::M7 => 6,
    }
}

/// The note an interval reaches from a root: the root is canonicalized,
/// then half steps and whole steps are chained (a second from the unison, a
/// third from the second, a fourth from the major third, the fifths from
/// the fourth, the major sixth from the perfect fifth, sevenths from the
/// major sixth); the augmented fifth sharpens the perfect fifth, keeping
/// its letter.
pub open spec fn resolve_spec(iv: Interval, root: Note) -> Note {
    let p1 = canonical_form(root);
    match iv {
        Interval::P1 => p1,
        Interval::m2 => half_step_of(p1),
        Interval::M2 => whole_step_of(p1),
        Interval::m3 => half_step_of(whole_step_of(p1)),
        Interval::M3 => whole_step_of(whole_step_of(p1)),
        Interval::P4 => half_step_of(whole_step_of(whole_step_of(p1))),
        Interval::d5 => half_step_of(half_step_of(whole_step_of(whole_step_of(p1)))),
        Interval::P5 => whole_step_of(half_step_of(whole_step_of(whole_step_of(p1)))),
        Interval::A5 => sharp_of(
            whole_step_of(half_step_of(whole_step_of(whole_step_of(p1)))),
        ),
        Interval::M6 => whole_step_of(
            whole_step_of(half_step_of(whole_step_of(whole_step_of(p1)))),
        ),
        Interval::m7 => half_step_of(
            whole_step_of(whole_step_of(half_step_of(whole_step_of(whole_step_of(p1))))),
        ),
        Interval::M7 => whole_step_of(
            whole_step_of(whole_step_of(half_step_of(whole_step_of(whole_step_of(p1))))),
        ),
    }
}

/// Adding one more bounded step under a modulus of 12 collapses into one
/// sum.
pub(crate) proof fn lemma_mod12_shift(x: int, a: int, b: int)
    requires
        0 <= x < 12,
        0 <= a,
        0 <= b,
        a + b <= 11,
    ensures
        ((x + a) % 12 + b) % 12 == (x + a + b) % 12,
{
}

/// Resolution is chromatically exact: the resolved note's id is the root's
/// id plus the interval's semitone distance, modulo 12, and the result is
/// canonical.
pub proof fn lemma_resolve_spec_id(iv: Interval, root: Note)
    ensures
        is_canonical(resolve_spec(iv, root)),
        note_id(resolve_spec(iv, root)) == (note_id(root) + semitone_distance(iv)) % 12,
{
    lemma_note_id_range(root);
    lemma_canonical_form(root);
    let x = note_id(root);
    let p1 = canonical_form(root);
    lemma_whole_step_of(p1);
    let s2 = whole_step_of(p1);
    lemma_mod12_shift(x, 2, 2);
    lemma_whole_step_of(s2);
    let s3 = whole_step_of(s2);
    assert(note_id(s3) == (x + 4) % 12);
    lemma_mod12_shift(x, 4, 1);
    lemma_half_step_of(s3);
    let s4 = half_step_of(s3);
    assert(note_id(s4) == (x + 5) % 12);
    lemma_mod12_shift(x, 5, 2);
    lemma_whole_step_of(s4);
    let s5 = whole_step_of(s4);
    assert(note_id(s5) == (x + 7) % 12);
    lemma_mod12_shift(x, 7, 2);
    lemma_whole_step_of(s5);
    let s6 = whole_step_of(s5);
    assert(note_id(s6) == (x + 9) % 12);
    match iv {
        Interval::P1 => {},
        Interval::m2 => {
            lemma_half_step_of(p1);
        },
        Interval::M2 => {},
        Interval::m3 => {
            lemma_mod12_shift(x, 2, 1);
            lemma_half_step_of(s2);
        },
        Interval::M3 => {},
        Interval::P4 => {},
        Interval::d5 => {
            lemma_mod12_shift(x, 5, 1);
            lemma_half_step_of(s4);
        },
        Interval::P5 => {},
        Interval::A5 => {
            lemma_mod12_shift(x, 7, 1);
            lemma_sharp_of(s5);
        },
        Interval::M6 => {},
        Interval::m7 => {
            lemma_mod12_shift(x, 9, 1);
            lemma_half_step_of(s6);
        },
        Interval::M7 => {
            lemma_mod12_shift(x, 9, 2);
            lemma_whole_step_of(s6);
        },
    }
}

/// The augmented fifth is the sharpened perfect fifth: the same resolved
/// note raised one semitone, with its letter kept.
pub proof fn lemma_aug_fifth_sharpens_fifth(root: Note)
    ensures
        resolve_spec(Interval::A5, root) == sharpened(resolve_spec(Interval::P5, root)),
{
    lemma_resolve_spec_id(Interval::P5, root);
    lemma_sharpened_canonical(resolve_spec(Interval::P5, root));
}

/// Letter correctness from a natural root: resolving an interval from a
/// letter name advances the letter by the interval's nominal diatonic step
/// count. The one exception is the augmented fifth of B: its perfect fifth
/// is already F♯, and sharpening that collapses the double sharp to G.
pub proof fn lemma_resolve_letter_steps(iv: Interval, root: Note)
    requires
        is_letter(root),
        !(iv == Interval::A5 && root == Note::B),
    ensures
        letter_index(resolve_spec(iv, root)) == (letter_index(root) + letter_steps(iv)) % 7,
{
    reveal_with_fuel(letter_index, 3);
    match root {
        Note::Sharp(_) => {},
        Note::Flat(_) => {},
        _ => {},
    }
}

/// The rejection raised when an interval is constructed from an
/// unrecognized token.
#[derive(Debug, Clone, Copy, PartialEq, Eq)]
pub struct InvalidIntervalError;

/// Which interval a construction token denotes, if any.
pub open spec fn interval_of_token(s: Seq<char>) -> Option<Interval> {
    if s == "P1"@ {
        Some(Interval::P1)
    } else if s == "m2"@ {
        Some(Interval::m2)
    } else if s == "M2"@ {
        Some(Interval::M2)
    } else if s == "m3"@ {
        Some(Interval::m3)
    } else if s == "M3"@ {
        Some(Interval::M3)
    } else if s == "P4"@ {
        Some(Interval::P4)
    } else if s == "d5"@ {
        Some(Interval::d5)
    } else if s == "P5"@ {
        Some(Interval::P5)
    } else if s == "A5"@ {
        Some(Interval::A5)
    } else if s == "M6"@ {
        Some(Interval::M6)
    } else if s == "m7"@ {
        Some(Interval::m7)
    } else if s == "M7"@ {
        Some(Interval::M7)
    } else {
        None
    }
}

/// Character-by-character equality of two string slices.
pub(crate) fn str_eq(a: &str, b: &str) -> (r: bool)
    ensures
        r == (a@ == b@),
{
    let alen = a.unicode_len();
    let blen = b.unicode_len();
    if alen != blen {
        return false;
    }
    let mut i: usize = 0;
    while i < alen
        invariant
            alen == a@.len(),
            blen == b@.len(),
            alen == blen,
            i <= alen,
            forall|j: int| 0 <= j < i ==> a@[j] == b@[j],
        decreases alen - i,
    {
        let ca = a.get_char(i);
        let cb = b.get_char(i);
        if ca != cb {
            return false;
        }
        i = i + 1;
    }
    proof {
        assert(a@ =~= b@);
    }
    true
}

impl Interval {
    /// Construct an interval from its token, rejecting unrecognized tokens
    /// at construction time.
    pub fn from_token(token: &str) -> (r: Result<Interval, InvalidIntervalError>)
        ensures
            interval_of_token(token@) matches Some(iv) ==> r == Ok::<
                Interval,
                InvalidIntervalError,
            >(iv),
            interval_of_token(token@) is None ==> r == Err::<
                Interval,
                InvalidIntervalError,
            >(InvalidIntervalError),
    {
        if str_eq(token, "P1") {
            Ok(Interval::P1)
        } else if str_eq(token, "m2") {
            Ok(Interval::m2)
        } else if str_eq(token, "M2") {
            Ok(Interval::M2)
        } else if str_eq(token, "m3") {
            Ok(Interval::m3)
        } else if str_eq(token, "M3") {
            Ok(Interval::M3)
        } else if str_eq(token, "P4") {
            Ok(Interval::P4)
        } else if str_eq(token, "d5") {
            Ok(Interval::d5)
        } else if str_eq(token, "P5") {
            Ok(Interval::P5)
        } else if str_eq(token, "A5") {
            Ok(Interval::A5)
        } else if str_eq(token, "M6") {
            Ok(Interval::M6)
        } else if str_eq(token, "m7") {
            Ok(Interval::m7)
        } else if str_eq(token, "M7") {
            Ok(Interval::M7)
        } else {
            Err(InvalidIntervalError)
        }
    }

    /// Resolve this interval from a root note: the result is canonical,
    /// sits exactly `semitone_distance` semitones above the root's pitch
    /// class, and (from a natural root) advances the letter name by the
    /// interval's nominal diatonic step count.
    pub fn resolve(&self, root: &Note) -> (r: Note)
        ensures
            r == resolve_spec(*self, *root),
            is_canonical(r),
            note_id(r) == (note_id(*root) + semitone_distance(*self)) % 12,
    {
        proof {
            lemma_resolve_spec_id(*self, *root);
        }
        let p1 = root.canonical();
        match self {
            Interval::P1 => p1,
            Interval::m2 => half_step_canon(p1),
            Interval::M2 => whole_step_canon(p1),
            Interval::m3 => half_step_canon(whole_step_canon(p1)),
            Interval::M3 => whole_step_canon(whole_step_canon(p1)),
            Interval::P4 => half_step_canon(whole_step_canon(whole_step_canon(p1))),
            Interval::d5 => half_step_canon(
                half_step_canon(whole_step_canon(whole_step_canon(p1))),
            ),
            Interval::P5 => whole_step_canon(
                half_step_canon(whole_step_canon(whole_step_canon(p1))),
            ),
            Interval::A5 => sharp_canon(
                whole_step_canon(half_step_canon(whole_step_canon(whole_step_canon(p1)))),
            ),
            Interval::M6 => whole_step_canon(
                whole_step_canon(half_step_canon(whole_step_canon(whole_step_canon(p1)))),
            ),
            Interval::m7 => half_step_canon(
                whole_step_canon(
                    whole_step_canon(half_step_canon(whole_step_canon(whole_step_canon(p1)))),
                ),
            ),
            Interval::M7 => whole_step_canon(
                whole_step_canon(
                    whole_step_canon(half_step_canon(whole_step_canon(whole_step_canon(p1)))),
                ),
            ),
        }
    }
}

} // verus!
