use vstd::prelude::*;

verus! {

/// Sum of two sizes; the caller keeps it within `usize`.
pub fn add(left: usize, right: usize) -> (r: usize)
    requires
        left + right <= usize::MAX,
    ensures
        r == left + right,
{
    left + right
}

/// An axis-aligned rectangle given by its side lengths.
pub struct Rectangle {
    pub width: u32,
    pub height: u32,
}

impl Rectangle {
    /// Whether `other` fits strictly inside this rectangle, side by side.
    pub open spec fn holds(&self, other: &Rectangle) -> bool {
        self.width > other.width && self.height > other.height
    }

    pub fn can_hold(&self, other: &Rectangle) -> (r: bool)
        ensures
            r == self.holds(other),
    {
        self.width > other.width && self.height > other.height
    }
}

/// The text of a greeting addressed to `name`.
pub open spec fn greeting_text(name: Seq<char>) -> Seq<char> {
    "Hello "@ + name + "!"@
}

pub fn greeting(name: &str) -> (r: String)
    ensures
        r@ == greeting_text(name@),
{
    let mut s = "Hello ".to_owned();
    s.append(name);
    s.append("!");
    s
}

} // verus!
