//! The categorical fields of the loading form: seat positions, fuel types and
//! volume units, as the form names them.

use vstd::prelude::*;

verus! {

/// Whether `given` holds exactly the characters of `expected`.
pub fn text_is(given: &str, expected: &str) -> (r: bool)
    ensures
        r == (given@ == expected@),
{
    let a = given.to_owned();
    let b = expected.to_owned();
    a == b
}

/// Where a person sits; each position has its own lever arm.
#[derive(Clone, Copy, Debug, PartialEq, Eq, Structural)]
pub enum Seat {
    Front,
    Middle,
    Back,
}

/// The seat that a form code names: "f" the front, "b" the back, anything else the middle.
pub open spec fn seat_of_code(code: Seq<char>) -> Seat {
    if code == seq!['f'] {
        Seat::Front
    } else if code == seq!['b'] {
        Seat::Back
    } else {
        Seat::Middle
    }
}

impl Seat {
    pub fn from_code(code: &str) -> (r: Seat)
        ensures
            r == seat_of_code(code@),
    {
        proof {
            reveal_strlit("f");
            assert("f"@ =~= seq!['f']);
            reveal_strlit("b");
            assert("b"@ =~= seq!['b']);
        }
        if text_is(code, "f") {
            Seat::Front
        } else if text_is(code, "b") {
            Seat::Back
        } else {
            Seat::Middle
        }
    }

    /// The form code of the seat; reading it back gives the same seat.
    pub fn code(self) -> (r: &'static str)
        ensures
            seat_of_code(r@) == self,
    {
        proof {
            reveal_strlit("f");
            assert("f"@ =~= seq!['f']);
            reveal_strlit("b");
            assert("b"@ =~= seq!['b']);
            reveal_strlit("m");
            assert("m"@ =~= seq!['m']);
            assert("m"@[0] != 'f' && "m"@[0] != 'b' && "b"@[0] != 'f');
        }
        match self {
            Seat::Front => "f",
            Seat::Middle => "m",
            Seat::Back => "b",
        }
    }
}

/// The fuel on board.
#[derive(Clone, Copy, Debug, PartialEq, Eq, Structural)]
pub enum FuelKind {
    Mogas,
    Avgas,
}

/// The fuel that a form name gives: "mogas" or "avgas", nothing else.
pub open spec fn fuel_of_name(name: Seq<char>) -> Option<FuelKind> {
    if name == seq!['m', 'o', 'g', 'a', 's'] {
        Some(FuelKind::Mogas)
    } else if name == seq!['a', 'v', 'g', 'a', 's'] {
        Some(FuelKind::Avgas)
    } else {
        None
    }
}

impl FuelKind {
    pub fn from_name(name: &str) -> (r: Option<FuelKind>)
        ensures
            r == fuel_of_name(name@),
    {
        proof {
            reveal_strlit("mogas");
            assert("mogas"@ =~= seq!['m', 'o', 'g', 'a', 's']);
            reveal_strlit("avgas");
            assert("avgas"@ =~= seq!['a', 'v', 'g', 'a', 's']);
        }
        if text_is(name, "mogas") {
            Some(FuelKind::Mogas)
        } else if text_is(name, "avgas") {
            Some(FuelKind::Avgas)
        } else {
            None
        }
    }

    /// The form name of the fuel; reading it back gives the same fuel.
    pub fn name(self) -> (r: &'static str)
        ensures
            fuel_of_name(r@) == Some(self),
    {
        proof {
            reveal_strlit("mogas");
            assert("mogas"@ =~= seq!['m', 'o', 'g', 'a', 's']);
            reveal_strlit("avgas");
            assert("avgas"@ =~= seq!['a', 'v', 'g', 'a', 's']);
        }
        match self {
            FuelKind::Mogas => "mogas",
            FuelKind::Avgas => "avgas",
        }
    }
}

/// The unit that fuel quantities are entered and shown in.
#[derive(Clone, Copy, Debug, PartialEq, Eq, Structural)]
pub enum VolumeUnit {
    Liter,
    Gallon,
}

/// The unit that a form name gives: "liter" or "gallon", nothing else.
pub open spec fn unit_of_name(name: Seq<char>) -> Option<VolumeUnit> {
    if name == seq!['l', 'i', 't', 'e', 'r'] {
        Some(VolumeUnit::Liter)
    } else if name == seq!['g', 'a', 'l', 'l', 'o', 'n'] {
        Some(VolumeUnit::Gallon)
    } else {
        None
    }
}

impl VolumeUnit {
    pub fn from_name(name: &str) -> (r: Option<VolumeUnit>)
        ensures
            r == unit_of_name(name@),
    {
        proof {
            reveal_strlit("liter");
            assert("liter"@ =~= seq!['l', 'i', 't', 'e', 'r']);
            reveal_strlit("gallon");
            assert("gallon"@ =~= seq!['g', 'a', 'l', 'l', 'o', 'n']);
        }
        if text_is(name, "liter") {
            Some(VolumeUnit::Liter)
        } else if text_is(name, "gallon") {
            Some(VolumeUnit::Gallon)
        } else {
            None
        }
    }

    /// The form name of the unit; reading it back gives the same unit.
    pub fn name(self) -> (r: &'static str)
        ensures
            unit_of_name(r@) == Some(self),
    {
        proof {
            reveal_strlit("liter");
            assert("liter"@ =~= seq!['l', 'i', 't', 'e', 'r']);
            reveal_strlit("gallon");
            assert("gallon"@ =~= seq!['g', 'a', 'l', 'l', 'o', 'n']);
        }
        match self {
            VolumeUnit::Liter => "liter",
            VolumeUnit::Gallon => "gallon",
        }
    }
}

/// The fields that the fuel options of the form are redrawn from.
#[derive(Debug)]
pub struct FuelOptionQueryParams {
    pub fuel_max: Option<String>,
    pub fuel_type: Option<String>,
}

} // verus!
