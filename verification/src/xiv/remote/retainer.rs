//! The retainer table the game keeps in memory.
use vstd::prelude::*;
use crate::process::UnknownField;
use crate::text::{string_from_utf8_lossy, utf8_lossy};
use crate::xiv::Venture;

verus! {

/// How many retainers the table holds.
pub const RETAINER_COUNT: usize = 10;

/// The offset of the retainer table in the game's module.
pub const OFFSET: u64 = 0x1d61eb0;

/// A retainer as the game lays it out.
#[derive(Copy, Clone, Debug)]
pub struct Retainer {
    pub __unknown_1: UnknownField<8>,
    pub name: [u8; 32],
    pub available: bool,
    pub classjob: u8,
    pub level: u8,
    pub item_count: u8,
    pub gil: u32,
    pub home_city: u8,
    pub market_count: u8,
    pub __unknown_2: UnknownField<2>,
    pub market_complete: u32,
    pub venture_id: u32,
    pub venture_complete: u32,
    pub __unknown_3: UnknownField<8>,
}

/// The retainers, the order the retainer bell shows them in, and how many
/// there are.
#[derive(Copy, Clone, Debug)]
pub struct RetainerTable {
    pub retainers: [Retainer; 10],
    pub display_order: [u8; 10],
    pub ready: u8,
    pub count: u8,
}

/// The bytes of a name up to its first NUL byte (all of them where there is
/// none).
pub open spec fn c_string(b: Seq<u8>) -> Seq<u8>
    decreases b.len(),
{
    if b.len() == 0 || b[0] == 0 {
        Seq::empty()
    } else {
        seq![b[0]] + c_string(b.drop_first())
    }
}

/// Whether a retainer is hired: it has a level and is available.
pub open spec fn retainer_valid(r: Retainer) -> bool {
    r.level >= 1 && r.available
}

/// Whether a hired retainer is on a venture.
pub open spec fn retainer_employed(r: Retainer) -> bool {
    retainer_valid(r) && r.venture_id != 0 && r.venture_complete != 0
}

impl Retainer {
    /// The retainer's name: its name bytes up to the first NUL, decoded as
    /// UTF-8 with invalid sequences replaced.
    pub fn name(&self) -> (s: String)
        ensures
            s@ == utf8_lossy(c_string(self.name@)),
    {
        let mut bytes: Vec<u8> = Vec::new();
        let mut i: usize = 0;
        assert(self.name@.skip(0) == self.name@);
        while i < 32 && self.name[i] != 0
            invariant
                i <= 32,
                self.name@.len() == 32,
                c_string(self.name@) == bytes@ + c_string(self.name@.skip(i as int)),
            decreases 32 - i,
        {
            let ghost rest = self.name@.skip(i as int);
            assert(rest.drop_first() == self.name@.skip(i + 1));
            let ghost before = bytes@;
            bytes.push(self.name[i]);
            assert(before + (seq![rest[0]] + c_string(rest.drop_first())) == bytes@ + c_string(rest.drop_first()));
            i += 1;
        }
        assert(c_string(self.name@.skip(i as int)) == Seq::<u8>::empty());
        assert(bytes@ + Seq::<u8>::empty() == bytes@);
        string_from_utf8_lossy(bytes.as_slice())
    }

    /// Whether the retainer is hired.
    pub fn is_valid(&self) -> (r: bool)
        ensures
            r == retainer_valid(*self),
    {
        self.level >= 1 && self.available
    }

    /// Whether the retainer is hired and on a venture.
    pub fn employed(&self) -> (r: bool)
        ensures
            r == retainer_employed(*self),
    {
        self.is_valid() && self.venture_id != 0 && self.venture_complete != 0
    }

    /// The venture the retainer is on.
    pub fn venture(&self) -> (v: Venture)
        ensures
            v.id == self.venture_id,
    {
        Venture::from(self.venture_id)
    }
}

} // verus!
