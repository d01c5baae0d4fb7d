use vstd::prelude::*;

verus! {

/// One of the two temperature scales.
#[derive(Debug, Clone, Copy, PartialEq, Eq, Structural)]
pub enum TemperatureUnit {
    Celsius,
    Fahrenheit,
}

impl TemperatureUnit {
    /// The letter that follows the degree sign when a temperature is written.
    pub open spec fn symbol_spec(self) -> Seq<char> {
        match self {
            TemperatureUnit::Celsius => seq!['C'],
            TemperatureUnit::Fahrenheit => seq!['F'],
        }
    }

    /// The scale's symbol: `C` for Celsius, `F` for Fahrenheit.
    pub fn symbol(&self) -> (r: &'static str)
        ensures
            r@ == self.symbol_spec(),
    {
        match self {
            TemperatureUnit::Celsius => {
                proof {
                    reveal_strlit("C");
                }
                "C"
            },
            TemperatureUnit::Fahrenheit => {
                proof {
                    reveal_strlit("F");
                }
                "F"
            },
        }
    }
}

} // verus!
