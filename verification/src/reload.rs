//! The extension gate for drag-and-drop reloads.
//!
//! A file dropped onto the viewer replaces the current model only when its
//! name ends in an `obj` extension; anything else is ignored and the
//! current model stays. The extension letters match regardless of ASCII
//! case, so `model.obj` and `model.OBJ` both pass. As with the platform's
//! notion of an extension, a leading dot alone does not make one: a name
//! needs at least one character before the dot.

use vstd::prelude::*;

verus! {

/// The byte values of the dot and of the three extension letters, lower
/// and upper.
pub const DOT: u8 = 46;

pub const LOWER_O: u8 = 111;

pub const UPPER_O: u8 = 79;

pub const LOWER_B: u8 = 98;

pub const UPPER_B: u8 = 66;

pub const LOWER_J: u8 = 106;

pub const UPPER_J: u8 = 74;

/// A file name, given as bytes, ends in an `obj` extension: its last four
/// bytes are a dot and the three letters, in either case, with at least
/// one byte before them.
pub open spec fn has_obj_extension(name: Seq<u8>) -> bool {
    &&& name.len() >= 5
    &&& name[name.len() - 4] == DOT
    &&& (name[name.len() - 3] == LOWER_O || name[name.len() - 3] == UPPER_O)
    &&& (name[name.len() - 2] == LOWER_B || name[name.len() - 2] == UPPER_B)
    &&& (name[name.len() - 1] == LOWER_J || name[name.len() - 1] == UPPER_J)
}

/// Decide whether a dropped file may replace the current model: true
/// exactly for names with an `obj` extension in any ASCII case.
pub fn accepts_obj_extension(name: &Vec<u8>) -> (r: bool)
    ensures
        r == has_obj_extension(name@),
{
    let n = name.len();
    if n < 5 {
        return false;
    }
    name[n - 4] == DOT && (name[n - 3] == LOWER_O || name[n - 3] == UPPER_O) && (name[n - 2]
        == LOWER_B || name[n - 2] == UPPER_B) && (name[n - 1] == LOWER_J || name[n - 1] == UPPER_J)
}

} // verus!
