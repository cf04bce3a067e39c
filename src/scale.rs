use vstd::prelude::*;

verus! {

/// The three temperature scales. Kelvin is the canonical one: every
/// conversion between two scales passes through it.
#[derive(Clone, Copy, Debug, PartialEq, Eq, Structural)]
pub enum Scale {
    Celsius,
    Fahrenheit,
    Kelvin,
}

/// The display symbol of a scale, character by character.
pub open spec fn symbol_of(s: Scale) -> Seq<char> {
    match s {
        Scale::Celsius => seq!['\u{b0}', 'C'],
        Scale::Fahrenheit => seq!['\u{b0}', 'F'],
        Scale::Kelvin => seq!['K'],
    }
}

impl Scale {
    /// The symbol shown next to a magnitude on this scale: "°C", "°F" or "K".
    /// It depends on the scale alone, never on a magnitude.
    pub fn symbol(&self) -> (r: &'static str)
        ensures
            r@ == symbol_of(*self),
    {
        match self {
            Scale::Celsius => {
                proof {
                    reveal_strlit("°C");
                }
                "°C"
            },
            Scale::Fahrenheit => {
                proof {
                    reveal_strlit("°F");
                }
                "°F"
            },
            Scale::Kelvin => {
                proof {
                    reveal_strlit("K");
                }
                "K"
            },
        }
    }
}

} // verus!
