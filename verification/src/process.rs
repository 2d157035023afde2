//! Reading another process's memory: the error, module and signature types
//! and the padding fields of remote structures.
use vstd::prelude::*;
use crate::text::{char_from_code, digit_char, digits_in_base, push_char, push_digits, push_str};

verus! {

/// Why a process or its modules could not be found.
#[derive(Debug, PartialEq)]
pub enum ProcessError {
    ProcessEnumeration(u32),
    ModuleEnumeration(u32, u32),
    ModuleName(u32, u32),
    ModuleInformation(String, u32),
    NotFound(String),
}

/// Why reading process memory failed.
#[derive(Debug, PartialEq)]
pub enum MemoryError {
    Read(u64, u32, usize),
    IncorrectSize(usize, usize),
    NotFound,
}

/// A module loaded in a process: its name, base address and size.
#[derive(Default, Debug)]
pub struct ProcessModule {
    pub name: String,
    pub base: u64,
    pub size: usize,
}

/// How a signature locates an address.
#[derive(Copy, Debug, Clone, PartialEq, Eq, Structural)]
pub enum SignatureType {
    /// The address of the signature plus `offset`.
    Absolute { offset: i64 },
    /// The address of the signature plus a 32-bit value read at `offset`.
    Relative32 { offset: i64 },
}

impl Default for SignatureType {
    fn default() -> (r: Self)
        ensures
            r == (SignatureType::Absolute { offset: 0 }),
    {
        SignatureType::Absolute { offset: 0 }
    }
}

/// A byte pattern to find in a module (`*` matches any byte), and how it
/// locates an address.
#[derive(Debug)]
pub struct Signature<'a> {
    pub bytes: &'a [&'a str],
    pub sigtype: SignatureType,
}

impl<'a> Default for Signature<'a> {
    fn default() -> (r: Self)
        ensures
            r.bytes@.len() == 0,
            r.sigtype == (SignatureType::Absolute { offset: 0 }),
    {
        Signature { bytes: &[], sigtype: SignatureType::default() }
    }
}

/// `N` bytes of a remote structure whose meaning is not known.
#[derive(Copy, Clone, Debug)]
pub struct UnknownField<const N: usize> {
    data: [u8; N],
}

impl<const N: usize> UnknownField<N> {
    /// The bytes held.
    pub closed spec fn bytes(&self) -> Seq<u8> {
        self.data@
    }
}

/// Two lowercase hexadecimal digits of `b`.
pub open spec fn hex2(b: u8) -> Seq<char> {
    seq![digit_char(b as nat / 16), digit_char(b as nat % 16)]
}

/// The bytes `b` as shown for debugging: a space and two hexadecimal digits
/// each.
pub open spec fn bytes_text(b: Seq<u8>) -> Seq<char>
    decreases b.len(),
{
    if b.len() == 0 {
        Seq::empty()
    } else {
        bytes_text(b.drop_last()) + seq![' '] + hex2(b.last())
    }
}

impl<const N: usize> UnknownField<N> {
    /// The bytes as shown for debugging (` {:02x}` each).
    pub fn to_debug_string(&self) -> (s: String)
        ensures
            s@ == bytes_text(self.bytes()),
    {
        let mut s = String::new();
        let mut i: usize = 0;
        while i < N
            invariant
                i <= N,
                self.data@.len() == N,
                s@ == bytes_text(self.data@.take(i as int)),
            decreases N - i,
        {
            let b = self.data[i];
            let hi = b / 16;
            let lo = b % 16;
            push_char(&mut s, ' ');
            push_char(&mut s, hex_digit(hi));
            push_char(&mut s, hex_digit(lo));
            assert(self.data@.take(i + 1).drop_last() == self.data@.take(i as int));
            assert(self.data@.take(i + 1).last() == b);
            assert(s@ =~= bytes_text(self.data@.take(i + 1)));
            i += 1;
        }
        assert(self.data@.take(N as int) == self.data@);
        s
    }
}

fn hex_digit(d: u8) -> (c: char)
    requires
        d < 16,
    ensures
        c == digit_char(d as nat),
{
    if d < 10 {
        char_from_code(('0' as u32) + (d as u32))
    } else {
        char_from_code(('a' as u32) + (d as u32) - 10)
    }
}

impl<const N: usize> PartialEq for UnknownField<N> {
    fn eq(&self, other: &Self) -> (r: bool) {
        let mut i: usize = 0;
        while i < N
            invariant
                i <= N,
                self.data@.len() == N,
                other.data@.len() == N,
                forall|j: int| 0 <= j < i ==> self.data@[j] == other.data@[j],
            decreases N - i,
        {
            if self.data[i] != other.data[i] {
                return false;
            }
            i += 1;
        }
        assert(self.data@ =~= other.data@);
        true
    }
}

impl<const N: usize> vstd::std_specs::cmp::PartialEqSpecImpl for UnknownField<N> {
    open spec fn obeys_eq_spec() -> bool {
        true
    }

    open spec fn eq_spec(&self, other: &Self) -> bool {
        self.bytes() == other.bytes()
    }
}

impl<const N: usize> Eq for UnknownField<N> {
}

impl<const N: usize> Default for UnknownField<N> {
    fn default() -> (r: Self)
        ensures
            forall|i: int| 0 <= i < N ==> r.bytes()[i] == 0,
            r.bytes().len() == N,
    {
        UnknownField { data: vstd::array::array_fill_for_copy_types(0u8) }
    }
}


/// The decimal text of `n`.
pub open spec fn dec(n: nat) -> Seq<char> {
    digits_in_base(n, 10)
}

/// The small-letter hexadecimal text of `n`.
pub open spec fn hex(n: nat) -> Seq<char> {
    digits_in_base(n, 16)
}

impl ProcessError {
    /// The message that tells what went wrong.
    pub fn message(&self) -> (r: String)
        ensures
            r@ == match self {
                ProcessError::ProcessEnumeration(e) => "Couldn't enumerate processes: "@ + dec(*e as nat),
                ProcessError::ModuleEnumeration(h, e) => "Couldn't enumerate modules for handle "@ + hex(
                    *h as nat,
                ) + ": "@ + dec(*e as nat),
                ProcessError::ModuleName(h, e) => "Failed to get module name for handle "@ + hex(*h as nat)
                    + ": "@ + dec(*e as nat),
                ProcessError::ModuleInformation(name, e) => "Failed to get module information for '"@
                    + name@ + "': "@ + dec(*e as nat),
                ProcessError::NotFound(name) => "Process '"@ + name@ + "' not found"@,
            },
    {
        let mut r = String::new();
        match self {
            ProcessError::ProcessEnumeration(e) => {
                push_str(&mut r, "Couldn't enumerate processes: ");
                push_digits(&mut r, *e as u64, 10);
            },
            ProcessError::ModuleEnumeration(h, e) => {
                push_str(&mut r, "Couldn't enumerate modules for handle ");
                push_digits(&mut r, *h as u64, 16);
                push_str(&mut r, ": ");
                push_digits(&mut r, *e as u64, 10);
            },
            ProcessError::ModuleName(h, e) => {
                push_str(&mut r, "Failed to get module name for handle ");
                push_digits(&mut r, *h as u64, 16);
                push_str(&mut r, ": ");
                push_digits(&mut r, *e as u64, 10);
            },
            ProcessError::ModuleInformation(name, e) => {
                push_str(&mut r, "Failed to get module information for '");
                push_str(&mut r, name.as_str());
                push_str(&mut r, "': ");
                push_digits(&mut r, *e as u64, 10);
            },
            ProcessError::NotFound(name) => {
                push_str(&mut r, "Process '");
                push_str(&mut r, name.as_str());
                push_str(&mut r, "' not found");
            },
        }
        r
    }
}

impl MemoryError {
    /// The message that tells what went wrong.
    pub fn message(&self) -> (r: String)
        ensures
            r@ == match self {
                MemoryError::Read(a, e, n) => "Couldn't read memory at "@ + hex(*a as nat) + ": "@ + dec(
                    *e as nat,
                ) + " (read: "@ + dec(*n as nat) + ")"@,
                MemoryError::IncorrectSize(want, got) => "Incorrect read size (expected: "@ + dec(
                    *want as nat,
                ) + ", actual: "@ + dec(*got as nat) + ")"@,
                MemoryError::NotFound => "Unable to find signature"@,
            },
    {
        let mut r = String::new();
        match self {
            MemoryError::Read(a, e, n) => {
                push_str(&mut r, "Couldn't read memory at ");
                push_digits(&mut r, *a, 16);
                push_str(&mut r, ": ");
                push_digits(&mut r, *e as u64, 10);
                push_str(&mut r, " (read: ");
                push_digits(&mut r, *n as u64, 10);
                push_str(&mut r, ")");
            },
            MemoryError::IncorrectSize(want, got) => {
                push_str(&mut r, "Incorrect read size (expected: ");
                push_digits(&mut r, *want as u64, 10);
                push_str(&mut r, ", actual: ");
                push_digits(&mut r, *got as u64, 10);
                push_str(&mut r, ")");
            },
            MemoryError::NotFound => {
                push_str(&mut r, "Unable to find signature");
            },
        }
        r
    }
}

/// The outcome of reading a remote structure of `expected` bytes at
/// `address`: the read call failing (with the system's error code
/// `last_error`) is a read error, and a read of another size than the
/// structure's is one too.
pub fn read_outcome(address: u64, expected: usize, succeeded: bool, last_error: u32, read: usize) -> (r: Result<
    (),
    MemoryError,
>)
    ensures
        !succeeded ==> r == Err::<(), MemoryError>(MemoryError::Read(address, last_error, read)),
        succeeded && read != expected ==> r == Err::<(), MemoryError>(MemoryError::IncorrectSize(expected, read)),
        succeeded && read == expected ==> r is Ok,
{
    if !succeeded {
        Err(MemoryError::Read(address, last_error, read))
    } else if read != expected {
        Err(MemoryError::IncorrectSize(expected, read))
    } else {
        Ok(())
    }
}

} // verus!
