use vstd::prelude::*;

verus! {

/// First vector that is free for hardware devices; everything below is a
/// CPU-defined exception.
pub const FIRST_DEVICE_VECTOR: u8 = 32;

/// Hardware interrupt lines with a fixed vector.
#[derive(Debug, Clone, Copy, PartialEq, Eq, Structural)]
pub enum InterruptIndex {
    Timer,
    Keyboard,
}

impl InterruptIndex {
    /// The vector this line is delivered on.
    pub open spec fn vector(self) -> u8 {
        match self {
            InterruptIndex::Timer => 32,
            InterruptIndex::Keyboard => 33,
        }
    }

    pub fn as_u8(self) -> (v: u8)
        ensures
            v == self.vector(),
            v >= FIRST_DEVICE_VECTOR,
    {
        match self {
            InterruptIndex::Timer => 32,
            InterruptIndex::Keyboard => 33,
        }
    }

    /// The line that owns `vector`, if any.
    pub open spec fn of_vector(vector: u8) -> Option<InterruptIndex> {
        if vector == 32 {
            Some(InterruptIndex::Timer)
        } else if vector == 33 {
            Some(InterruptIndex::Keyboard)
        } else {
            None
        }
    }

    pub fn from_u8(vector: u8) -> (line: Option<InterruptIndex>)
        ensures
            line == Self::of_vector(vector),
            line matches Some(l) ==> l.vector() == vector,
            line is None ==> forall|l: InterruptIndex| l.vector() != vector,
    {
        if vector == 32 {
            Some(InterruptIndex::Timer)
        } else if vector == 33 {
            Some(InterruptIndex::Keyboard)
        } else {
            None
        }
    }
}

} // verus!
