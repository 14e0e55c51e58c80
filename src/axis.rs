use vstd::prelude::*;
use vstd::string::*;

verus! {

/// One of the three orthogonal axes of Euclidean space.
///
/// `X`, `Y` and `Z` run along the unit vectors i, j and k. A 2D vector uses
/// `X` and `Y` only.
#[derive(Clone, Copy, Debug, PartialEq, Eq, Structural)]
pub enum Axis {
    X,
    Y,
    Z,
}

/// Whether a label is exactly the one character `c`.
pub open spec fn is_single(label: Seq<char>, c: char) -> bool {
    label.len() == 1 && label[0] == c
}

/// The axis that a label names for a 2D vector: "i" or "x" name `X`, "j" or
/// "y" name `Y`; every other text (case-sensitive, exact) names none.
pub open spec fn label_axis_2d(label: Seq<char>) -> Option<Axis> {
    if is_single(label, 'i') || is_single(label, 'x') {
        Some(Axis::X)
    } else if is_single(label, 'j') || is_single(label, 'y') {
        Some(Axis::Y)
    } else {
        None
    }
}

/// The axis that a label names for a 3D vector: the 2D labels, and "k" or "z"
/// for `Z`.
pub open spec fn label_axis_3d(label: Seq<char>) -> Option<Axis> {
    if is_single(label, 'k') || is_single(label, 'z') {
        Some(Axis::Z)
    } else {
        label_axis_2d(label)
    }
}

/// The axis at a component position of a 3D vector: 0, 1 and 2 are `X`, `Y`
/// and `Z`; there is no other position.
pub open spec fn index_axis(index: int) -> Option<Axis> {
    if index == 0 {
        Some(Axis::X)
    } else if index == 1 {
        Some(Axis::Y)
    } else if index == 2 {
        Some(Axis::Z)
    } else {
        None
    }
}

impl Axis {
    /// Reads a 2D axis label; `None` for anything but "i", "x", "j", "y".
    pub fn from_label_2d(label: &str) -> (r: Option<Axis>)
        ensures
            r == label_axis_2d(label@),
    {
        if label.unicode_len() != 1 {
            return None;
        }
        let c = label.get_char(0);
        if c == 'i' || c == 'x' {
            Some(Axis::X)
        } else if c == 'j' || c == 'y' {
            Some(Axis::Y)
        } else {
            None
        }
    }

    /// Reads a 3D axis label; `None` for anything but "i", "x", "j", "y", "k",
    /// "z".
    pub fn from_label_3d(label: &str) -> (r: Option<Axis>)
        ensures
            r == label_axis_3d(label@),
    {
        if label.unicode_len() != 1 {
            return None;
        }
        let c = label.get_char(0);
        if c == 'k' || c == 'z' {
            Some(Axis::Z)
        } else {
            Axis::from_label_2d(label)
        }
    }

    /// The axis at a component position of a 3D vector; `None` past the last
    /// one.
    pub fn from_index(index: usize) -> (r: Option<Axis>)
        ensures
            r == index_axis(index as int),
    {
        match index {
            0 => Some(Axis::X),
            1 => Some(Axis::Y),
            2 => Some(Axis::Z),
            _ => None,
        }
    }
}

} // verus!
