//! Names for fields that have none of their own.
//!
//! A positional field is named after its place: `first`, `second`, and so
//! on. The field in the last place is always `last`, so that it can be
//! reached by the same name however many fields come before it. A field
//! that stands alone is `first`.

use crate::error::GettersError;
use vstd::prelude::*;

verus! {

/// The largest number of positional fields that one struct or variant may
/// have.
pub const MAX_POSITIONAL_FIELDS: usize = 20;

/// The ordinal word of a place that is not the last one. The table ends at
/// `nineteenth`: with at most twenty fields, the twentieth is `last`.
pub open spec fn ordinal_word(position: int) -> Seq<char> {
    if position == 0 {
        "first"@
    } else if position == 1 {
        "second"@
    } else if position == 2 {
        "third"@
    } else if position == 3 {
        "fourth"@
    } else if position == 4 {
        "fifth"@
    } else if position == 5 {
        "sixth"@
    } else if position == 6 {
        "seventh"@
    } else if position == 7 {
        "eighth"@
    } else if position == 8 {
        "ninth"@
    } else if position == 9 {
        "tenth"@
    } else if position == 10 {
        "eleventh"@
    } else if position == 11 {
        "twelfth"@
    } else if position == 12 {
        "thirteenth"@
    } else if position == 13 {
        "fourteenth"@
    } else if position == 14 {
        "fifteenth"@
    } else if position == 15 {
        "sixteenth"@
    } else if position == 16 {
        "seventeenth"@
    } else if position == 17 {
        "eighteenth"@
    } else {
        "nineteenth"@
    }
}

/// Whether the field at `position` among `field_count` fields can be named:
/// it stands alone, it is the last one, or the table of ordinal words
/// reaches it.
pub open spec fn nameable(position: int, field_count: int) -> bool {
    field_count == 1 || position == field_count - 1 || position < 19
}

/// The name of the field at `position` among `field_count` fields.
pub open spec fn ordinal_name(position: int, field_count: int) -> Seq<char> {
    if field_count == 1 {
        "first"@
    } else if position == field_count - 1 {
        "last"@
    } else {
        ordinal_word(position)
    }
}

/// The name of the field at `position` among `field_count` fields, where it
/// has one.
pub open spec fn name_for(position: int, field_count: int) -> Option<Seq<char>> {
    if nameable(position, field_count) {
        Some(ordinal_name(position, field_count))
    } else {
        None
    }
}

/// The name that a pattern binds to the element at `index` of a tuple
/// variant: `a` for the first, `t` for the twentieth.
pub open spec fn element_name(index: int) -> Seq<char> {
    if index == 0 {
        "a"@
    } else if index == 1 {
        "b"@
    } else if index == 2 {
        "c"@
    } else if index == 3 {
        "d"@
    } else if index == 4 {
        "e"@
    } else if index == 5 {
        "f"@
    } else if index == 6 {
        "g"@
    } else if index == 7 {
        "h"@
    } else if index == 8 {
        "i"@
    } else if index == 9 {
        "j"@
    } else if index == 10 {
        "k"@
    } else if index == 11 {
        "l"@
    } else if index == 12 {
        "m"@
    } else if index == 13 {
        "n"@
    } else if index == 14 {
        "o"@
    } else if index == 15 {
        "p"@
    } else if index == 16 {
        "q"@
    } else if index == 17 {
        "r"@
    } else if index == 18 {
        "s"@
    } else {
        "t"@
    }
}

/// The ordinal word of a place below the twentieth.
fn ordinal(position: usize) -> (word: &'static str)
    requires
        position < 19,
    ensures
        word@ == ordinal_word(position as int),
{
    match position {
        0 => "first",
        1 => "second",
        2 => "third",
        3 => "fourth",
        4 => "fifth",
        5 => "sixth",
        6 => "seventh",
        7 => "eighth",
        8 => "ninth",
        9 => "tenth",
        10 => "eleventh",
        11 => "twelfth",
        12 => "thirteenth",
        13 => "fourteenth",
        14 => "fifteenth",
        15 => "sixteenth",
        16 => "seventeenth",
        17 => "eighteenth",
        _ => "nineteenth",
    }
}

/// Names the positional field at place `i` (counted from zero) among `max`
/// fields.
///
/// A field that stands alone is `first`; otherwise the field in the last
/// place is `last`; otherwise the field takes the ordinal word of its place.
/// The words end at `nineteenth`: a place from the twentieth on that is not
/// the last one has no name, and the call fails with
/// [`GettersError::PositionOutOfRange`].
pub fn method_name(i: usize, max: usize) -> (name: Result<&'static str, GettersError>)
    ensures
        match name {
            Ok(word) => name_for(i as int, max as int) == Some(word@),
            Err(e) => e == GettersError::PositionOutOfRange && name_for(i as int, max as int)
                is None,
        },
{
    if max == 1 {
        Ok("first")
    } else if max > 0 && i == max - 1 {
        Ok("last")
    } else if i < 19 {
        Ok(ordinal(i))
    } else {
        Err(GettersError::PositionOutOfRange)
    }
}

/// The name bound to element `index` of a tuple variant in a pattern.
pub fn tuple_element_name(index: usize) -> (name: &'static str)
    requires
        index < MAX_POSITIONAL_FIELDS,
    ensures
        name@ == element_name(index as int),
{
    match index {
        0 => "a",
        1 => "b",
        2 => "c",
        3 => "d",
        4 => "e",
        5 => "f",
        6 => "g",
        7 => "h",
        8 => "i",
        9 => "j",
        10 => "k",
        11 => "l",
        12 => "m",
        13 => "n",
        14 => "o",
        15 => "p",
        16 => "q",
        17 => "r",
        18 => "s",
        _ => "t",
    }
}

/// The last of two or more positional fields is named `last`.
pub proof fn lemma_terminal_is_last(field_count: int)
    requires
        field_count > 1,
    ensures
        name_for(field_count - 1, field_count) == Some("last"@),
{
}

/// A positional field that stands alone is named `first`, not `last`.
pub proof fn lemma_sole_is_first()
    ensures
        name_for(0, 1) == Some("first"@),
        name_for(0, 1) != Some("last"@),
{
    reveal_strlit("first");
    reveal_strlit("last");
    assert("first"@.len() == 5);
    assert("last"@.len() == 4);
}

/// Every field of a struct or variant with at most twenty fields has a
/// name.
pub proof fn lemma_twenty_are_nameable(position: int, field_count: int)
    requires
        0 <= position < field_count <= MAX_POSITIONAL_FIELDS,
    ensures
        name_for(position, field_count) is Some,
{
}

} // verus!
