//! Isohedral tilings of the plane: the combinatorial catalogue of the tiling
//! types, the edge structure of each prototile and the colouring of its copies.
use vstd::prelude::*;

pub mod data;
pub mod tiling;

verus! {

/// The constraint that an edge of a prototile must follow when it is deformed.
#[derive(Debug, Clone, Copy, PartialEq, Eq, Structural)]
pub enum EdgeShape {
    /// Edges that can be of any shape.
    J,
    /// Edges that look the same after a reflection across their length (like the letter `U`).
    U,
    /// Edges that look the same after a half turn (like the letter `S`).
    S,
    /// Edges that look the same after both a half turn and a reflection (like the letter `I`).
    I,
}

/// The indices, in increasing order, of the tiling types that the catalogue defines.
pub open spec fn valid_types() -> Seq<usize> {
    seq![
        1, 2, 3, 4, 5, 6, 7, 8, 9, 10, 11, 12, 13, 14, 15, 16, 17, 18, 20, 21, 22, 23, 24, 25, 26,
        27, 28, 29, 30, 31, 32, 33, 34, 36, 37, 38, 39, 40, 41, 42, 43, 44, 45, 46, 47, 49, 50, 51,
        52, 53, 54, 55, 56, 57, 58, 59, 61, 62, 64, 66, 67, 68, 69, 71, 72, 73, 74, 76, 77, 78, 79,
        81, 82, 83, 84, 85, 86, 88, 90, 91, 93,
    ]
}

/// Number of tiling types that can be selected.
pub const NUM_TILING_TYPES: usize = 81;

/// Number of slots in the catalogue, the undefined ones included.
pub const NUM_CATALOGUE_SLOTS: usize = 94;

/// One of the isohedral tiling types, by its slot in the catalogue.
#[derive(Debug, Clone, Copy, PartialEq, Eq, Structural)]
pub struct TilingType(pub usize);

impl TilingType {
    /// The slot of this type in the catalogue.
    pub fn index(&self) -> (r: usize)
        ensures
            r == self.0,
    {
        self.0
    }

    /// The conventional name of the type: `IH` followed by its slot on at least two digits.
    pub fn to_string(&self) -> (r: String)
        requires
            self.0 < 100,
        ensures
            r@ == seq!['I', 'H', digit_char(self.0 / 10), digit_char(self.0 % 10)],
    {
        let tens = digit(self.0 / 10);
        let ones = digit(self.0 % 10);
        let mut r = String::new();
        push_char(&mut r, 'I');
        push_char(&mut r, 'H');
        push_char(&mut r, tens);
        push_char(&mut r, ones);
        assert(r@ =~= seq!['I', 'H', tens, ones]);
        r
    }
}

/// The decimal digit `d` as a character.
pub open spec fn digit_char(d: usize) -> char
    recommends
        d < 10,
{
    ((d + '0' as u32) as u32) as char
}

/// Relies on `String::push`, which appends one character at the end of the string.
#[verifier::external_body]
fn push_char(s: &mut String, c: char)
    ensures
        final(s)@ == old(s)@.push(c),
{
    s.push(c)
}

fn digit(d: usize) -> (c: char)
    requires
        d < 10,
    ensures
        c == digit_char(d),
{
    match d {
        0 => '0',
        1 => '1',
        2 => '2',
        3 => '3',
        4 => '4',
        5 => '5',
        6 => '6',
        7 => '7',
        8 => '8',
        _ => '9',
    }
}

/// Returns the `n`-th tiling type among those that the catalogue defines.
pub fn get_tiling_type(n: usize) -> (r: TilingType)
    requires
        n < NUM_TILING_TYPES,
    ensures
        r.0 == valid_types()[n as int],
{
    let types: [usize; 81] = [
        1, 2, 3, 4, 5, 6, 7, 8, 9, 10, 11, 12, 13, 14, 15, 16, 17, 18, 20, 21, 22, 23, 24, 25, 26,
        27, 28, 29, 30, 31, 32, 33, 34, 36, 37, 38, 39, 40, 41, 42, 43, 44, 45, 46, 47, 49, 50, 51,
        52, 53, 54, 55, 56, 57, 58, 59, 61, 62, 64, 66, 67, 68, 69, 71, 72, 73, 74, 76, 77, 78, 79,
        81, 82, 83, 84, 85, 86, 88, 90, 91, 93,
    ];
    assert(types@ =~= valid_types());
    TilingType(types[n])
}

/// Whether catalogue slot `t` holds one of the defined tiling types.
pub fn is_valid_type(t: usize) -> (r: bool)
    ensures
        r == valid_types().contains(t),
{
    let mut n: usize = 0;
    while n < NUM_TILING_TYPES
        invariant
            n <= NUM_TILING_TYPES,
            forall|j: int| 0 <= j < n ==> valid_types()[j] != t,
        decreases NUM_TILING_TYPES - n,
    {
        if get_tiling_type(n).0 == t {
            return true;
        }
        n = n + 1;
    }
    assert(!valid_types().contains(t));
    false
}

} // verus!
