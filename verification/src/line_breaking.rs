use vstd::prelude::*;

verus! {

/// Options for handling lines of text that are too wide for the available space.
#[derive(Clone, Copy, Debug, PartialEq, Eq, Structural)]
pub enum LineBreaking {
    /// Lines are broken at word boundaries.
    WordWrap,
    /// Lines are truncated to the width of the label.
    Clip,
    /// Lines overflow the label.
    Overflow,
}

impl LineBreaking {
    /// The value that every widget without a setting of its own shares.
    pub fn static_default() -> (value: &'static Self)
        ensures
            *value == LineBreaking::Overflow,
    {
        &Self::Overflow
    }
}

impl Default for LineBreaking {
    fn default() -> (value: Self)
        ensures
            value == LineBreaking::Overflow,
    {
        *Self::static_default()
    }
}

/// A text whose lines are not said to be broken or clipped overflows, whether it is asked for
/// the value that all such texts share or for one of its own.
pub proof fn law_lines_overflow_by_default(shared: &'static LineBreaking, own: LineBreaking)
    requires
        call_ensures(LineBreaking::static_default, (), shared),
        call_ensures(<LineBreaking as Default>::default, (), own),
    ensures
        own == *shared,
        own is Overflow,
{
}

} // verus!
