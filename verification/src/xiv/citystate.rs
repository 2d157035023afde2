//! The cities a retainer can call home.
use vstd::prelude::*;
use crate::text::{digits_in_base, push_digits, push_str};

verus! {

/// A city, by the code the game stores.
#[derive(Copy, Clone, Debug, PartialEq, Eq, Structural)]
pub enum CityState {
    Limsa,
    Gridania,
    Uldah,
    Foundation,
    Kugane,
    Crystarium,
    Unknown(u8),
}

/// The city of a stored code.
pub open spec fn city_of(val: u8) -> CityState {
    if val == 0x1 {
        CityState::Limsa
    } else if val == 0x2 {
        CityState::Gridania
    } else if val == 0x3 {
        CityState::Uldah
    } else if val == 0x4 {
        CityState::Foundation
    } else if val == 0x7 {
        CityState::Kugane
    } else if val == 0xA {
        CityState::Crystarium
    } else {
        CityState::Unknown(val)
    }
}

/// The name shown for a city.
pub open spec fn city_name(c: CityState) -> Seq<char> {
    match c {
        CityState::Limsa => "Limsa Lominsa"@,
        CityState::Gridania => "Gridania"@,
        CityState::Uldah => "Uldah"@,
        CityState::Foundation => "Foundation"@,
        CityState::Kugane => "Kugane"@,
        CityState::Crystarium => "Crystarium"@,
        CityState::Unknown(v) => "Unknown["@ + digits_in_base(v as nat, 10) + "]"@,
    }
}

impl From<u8> for CityState {
    fn from(val: u8) -> (c: CityState) {
        if val == 0x1 {
            CityState::Limsa
        } else if val == 0x2 {
            CityState::Gridania
        } else if val == 0x3 {
            CityState::Uldah
        } else if val == 0x4 {
            CityState::Foundation
        } else if val == 0x7 {
            CityState::Kugane
        } else if val == 0xA {
            CityState::Crystarium
        } else {
            CityState::Unknown(val)
        }
    }
}

impl vstd::std_specs::convert::FromSpecImpl<u8> for CityState {
    open spec fn obeys_from_spec() -> bool {
        true
    }

    open spec fn from_spec(val: u8) -> CityState {
        city_of(val)
    }
}

impl CityState {
    /// The name shown for the city (`Unknown[code]` for an unknown one).
    pub fn to_display_string(&self) -> (s: String)
        ensures
            s@ == city_name(*self),
    {
        match self {
            CityState::Limsa => "Limsa Lominsa".to_string(),
            CityState::Gridania => "Gridania".to_string(),
            CityState::Uldah => "Uldah".to_string(),
            CityState::Foundation => "Foundation".to_string(),
            CityState::Kugane => "Kugane".to_string(),
            CityState::Crystarium => "Crystarium".to_string(),
            CityState::Unknown(v) => {
                let mut s = "Unknown[".to_string();
                push_digits(&mut s, *v as u64, 10);
                push_str(&mut s, "]");
                s
            },
        }
    }
}

/// A city code is read back unchanged from an unknown city.
pub proof fn lemma_unknown_city_keeps_code(val: u8)
    ensures
        city_of(val) matches CityState::Unknown(v) ==> v == val,
        city_of(val) is Unknown <==> !(val == 1 || val == 2 || val == 3 || val == 4 || val == 7
            || val == 10),
{
}

} // verus!
