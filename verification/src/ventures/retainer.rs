//! The retainer table as the venture assistant reads it.
use vstd::prelude::*;
use crate::process::UnknownField;
use crate::text::{digits_in_base, push_digits, push_str, string_from_utf8_lossy, utf8_lossy};
use crate::xiv::citystate::CityState;
use crate::xiv::remote::retainer::c_string;

verus! {

/// The offset of the retainer table in the game's module.
pub const OFFSET: u64 = 0x1d60eb0;

/// The retainers, the order the bell shows them in, and how many there are.
#[derive(Copy, Clone, Debug)]
pub struct RetainerTable {
    pub retainer: [RetainerEntry; 10],
    pub display_order: [u8; 10],
    pub ready: u8,
    pub total_retainers: u8,
}

/// A retainer as the game lays it out.
#[derive(Copy, Clone, Debug)]
pub struct RetainerEntry {
    pub __unknown_1: UnknownField<8>,
    pub name: [u8; 32],
    pub available: bool,
    pub classjob: u8,
    pub level: u8,
    pub item_count: u8,
    pub gil: u32,
    pub home_city: u8,
    pub market_count: u8,
    pub __unknown_2: UnknownField<2>,
    pub market_complete: u32,
    pub venture_id: u32,
    pub venture_complete: u32,
    pub __unknown_3: UnknownField<8>,
}

impl RetainerEntry {
    /// The retainer's name: its name bytes up to the first NUL, decoded as
    /// UTF-8 with invalid sequences replaced.
    pub fn name(&self) -> (s: String)
        ensures
            s@ == utf8_lossy(c_string(self.name@)),
    {
        let mut bytes: Vec<u8> = Vec::new();
        let mut i: usize = 0;
        assert(self.name@.skip(0) == self.name@);
        while i < 32 && self.name[i] != 0
            invariant
                i <= 32,
                self.name@.len() == 32,
                c_string(self.name@) == bytes@ + c_string(self.name@.skip(i as int)),
            decreases 32 - i,
        {
            let ghost rest = self.name@.skip(i as int);
            assert(rest.drop_first() == self.name@.skip(i + 1));
            let ghost before = bytes@;
            bytes.push(self.name[i]);
            assert(before + (seq![rest[0]] + c_string(rest.drop_first())) == bytes@ + c_string(rest.drop_first()));
            i += 1;
        }
        assert(c_string(self.name@.skip(i as int)) == Seq::<u8>::empty());
        assert(bytes@ + Seq::<u8>::empty() == bytes@);
        string_from_utf8_lossy(bytes.as_slice())
    }
}

/// The label of a home city in the retainer table: its name, or
/// `Unknown(code)` with the code in hexadecimal.
pub open spec fn city_label_text(c: CityState) -> Seq<char> {
    match c {
        CityState::Limsa => "Limsa Lominsa"@,
        CityState::Gridania => "Gridania"@,
        CityState::Uldah => "Uldah"@,
        CityState::Foundation => "Foundation"@,
        CityState::Kugane => "Kugane"@,
        CityState::Crystarium => "Crystarium"@,
        CityState::Unknown(v) => "Unknown("@ + digits_in_base(v as nat, 16) + ")"@,
    }
}

/// The label of a home city in the retainer table.
pub fn city_label(c: CityState) -> (s: String)
    ensures
        s@ == city_label_text(c),
{
    match c {
        CityState::Limsa => "Limsa Lominsa".to_string(),
        CityState::Gridania => "Gridania".to_string(),
        CityState::Uldah => "Uldah".to_string(),
        CityState::Foundation => "Foundation".to_string(),
        CityState::Kugane => "Kugane".to_string(),
        CityState::Crystarium => "Crystarium".to_string(),
        CityState::Unknown(v) => {
            let mut s = "Unknown(".to_string();
            push_digits(&mut s, v as u64, 16);
            push_str(&mut s, ")");
            s
        },
    }
}

} // verus!
