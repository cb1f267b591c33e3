use vstd::prelude::*;

verus! {

/// Direction of syncing.
#[derive(Clone, Copy, Debug, PartialEq, Eq, Structural)]
pub enum SyncDirection {
    /// Only changes of the left signal are carried over, into the right one.
    LeftToRight,
    /// Only changes of the right signal are carried over, into the left one.
    RightToLeft,
    /// Changes of either signal are carried over into the other.
    Both,
}

impl SyncDirection {
    /// Whether this direction asks for an observer on the left signal.
    pub open spec fn spec_left_to_right(self) -> bool {
        self == SyncDirection::LeftToRight || self == SyncDirection::Both
    }

    /// Whether this direction asks for an observer on the right signal.
    pub open spec fn spec_right_to_left(self) -> bool {
        self == SyncDirection::RightToLeft || self == SyncDirection::Both
    }

    /// Whether this direction asks for an observer on the left signal.
    #[verifier::when_used_as_spec(spec_left_to_right)]
    pub fn left_to_right(self) -> (yes: bool)
        ensures
            yes == self.spec_left_to_right(),
    {
        match self {
            SyncDirection::LeftToRight | SyncDirection::Both => true,
            SyncDirection::RightToLeft => false,
        }
    }

    /// Whether this direction asks for an observer on the right signal.
    #[verifier::when_used_as_spec(spec_right_to_left)]
    pub fn right_to_left(self) -> (yes: bool)
        ensures
            yes == self.spec_right_to_left(),
    {
        match self {
            SyncDirection::RightToLeft | SyncDirection::Both => true,
            SyncDirection::LeftToRight => false,
        }
    }
}

/// Every direction asks for at least one observer, and never for more than
/// the two that exist.
pub proof fn lemma_direction_names_an_observer(direction: SyncDirection)
    ensures
        direction.left_to_right() || direction.right_to_left(),
        direction == SyncDirection::Both <==> direction.left_to_right()
            && direction.right_to_left(),
{
}

} // verus!
