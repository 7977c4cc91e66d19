use vstd::prelude::*;

verus! {

/// The placeholder clear colour of each frame.
#[derive(Clone, Copy, Debug, PartialEq, Eq, Structural)]
pub enum ClearColor {
    Black,
    Red,
    Blue,
    Green,
}

pub open spec fn next_color_spec(c: ClearColor) -> ClearColor {
    match c {
        ClearColor::Black => ClearColor::Red,
        ClearColor::Red => ClearColor::Blue,
        ClearColor::Blue => ClearColor::Green,
        ClearColor::Green => ClearColor::Black,
    }
}

impl ClearColor {
    /// The colour that follows this one: black, red, blue, green, black...
    pub fn next(self) -> (r: ClearColor)
        ensures
            r == next_color_spec(self),
    {
        match self {
            ClearColor::Black => ClearColor::Red,
            ClearColor::Red => ClearColor::Blue,
            ClearColor::Blue => ClearColor::Green,
            ClearColor::Green => ClearColor::Black,
        }
    }

    /// Red, green, blue and alpha, each as a fraction of 255.
    pub fn rgba8(self) -> (r: (u8, u8, u8, u8))
        ensures
            r == rgba8_spec(self),
    {
        match self {
            ClearColor::Black => (0, 0, 0, 255),
            ClearColor::Red => (255, 0, 0, 255),
            ClearColor::Blue => (0, 0, 255, 255),
            ClearColor::Green => (0, 255, 0, 255),
        }
    }
}

pub open spec fn rgba8_spec(c: ClearColor) -> (u8, u8, u8, u8) {
    match c {
        ClearColor::Black => (0, 0, 0, 255),
        ClearColor::Red => (255, 0, 0, 255),
        ClearColor::Blue => (0, 0, 255, 255),
        ClearColor::Green => (0, 255, 0, 255),
    }
}

/// The colours cycle with period four, and the four of one cycle differ.
pub proof fn lemma_color_cycle(c: ClearColor)
    ensures
        next_color_spec(next_color_spec(next_color_spec(next_color_spec(c)))) == c,
        next_color_spec(c) != c,
        next_color_spec(next_color_spec(c)) != c,
        next_color_spec(next_color_spec(next_color_spec(c))) != c,
{
}

} // verus!
