//! Software breakpoints: ids, addresses, records, and the int3 patch.

use vstd::prelude::*;

use crate::error::{DebugError, ParseError};
use crate::lexer::{i32_of, parse_i32, parse_u64, u64_of};
use crate::registers::RegisterValue;

verus! {

/// The identifier of a breakpoint.
#[derive(Clone, Copy, Debug, PartialEq, Eq, Structural, Hash, PartialOrd, Ord)]
pub struct StoppointId {
    pub id: i32,
}

/// A byte in the tracee's virtual address space.
#[derive(Clone, Copy, Debug, PartialEq, Eq, Structural, Hash, PartialOrd, Ord)]
pub struct VirtualAddress {
    pub address: u64,
}

/// The id that a command's single argument spells.
pub open spec fn id_from_args(args: Seq<Seq<char>>) -> Result<StoppointId, ParseError> {
    if args.len() != 1 {
        Err(ParseError::WrongArity)
    } else {
        match i32_of(args[0]) {
            Some(id) => Ok(StoppointId { id }),
            None => Err(ParseError::BadNumber),
        }
    }
}

/// The address that a command's single argument spells.
pub open spec fn address_from_args(args: Seq<Seq<char>>) -> Result<VirtualAddress, ParseError> {
    if args.len() != 1 {
        Err(ParseError::WrongArity)
    } else {
        match u64_of(args[0]) {
            Some(address) => Ok(VirtualAddress { address }),
            None => Err(ParseError::BadNumber),
        }
    }
}

/// The views of a list of strings.
pub open spec fn texts(v: Seq<String>) -> Seq<Seq<char>> {
    v.map_values(|s: String| s@)
}

impl StoppointId {
    /// Reads an id from the arguments of a command: exactly one signed 32-bit decimal.
    pub fn from_args(args: &Vec<String>) -> (r: Result<StoppointId, ParseError>)
        ensures
            r == id_from_args(texts(args@)),
    {
        if args.len() != 1 {
            return Err(ParseError::WrongArity);
        }
        match parse_i32(args[0].as_str()) {
            Some(id) => Ok(StoppointId { id }),
            None => Err(ParseError::BadNumber),
        }
    }
}

impl VirtualAddress {
    /// Reads an address from the arguments of a command: exactly one unsigned
    /// 64-bit decimal.
    pub fn from_args(args: &Vec<String>) -> (r: Result<VirtualAddress, ParseError>)
        ensures
            r == address_from_args(texts(args@)),
    {
        if args.len() != 1 {
            return Err(ParseError::WrongArity);
        }
        match parse_u64(args[0].as_str()) {
            Some(address) => Ok(VirtualAddress { address }),
            None => Err(ParseError::BadNumber),
        }
    }

    pub fn new(address: u64) -> (r: VirtualAddress)
        ensures
            r.address == address,
    {
        VirtualAddress { address }
    }

    /// An address held in a register: only a 64-bit unsigned value is one.
    pub fn from_register_value(value: RegisterValue) -> (r: Result<VirtualAddress, DebugError>)
        ensures
            match value {
                RegisterValue::Uint64(a) => r == Ok::<VirtualAddress, DebugError>(
                    VirtualAddress { address: a },
                ),
                _ => r == Err::<VirtualAddress, DebugError>(DebugError::BadConversion),
            },
    {
        match value {
            RegisterValue::Uint64(address) => Ok(VirtualAddress { address }),
            _ => Err(DebugError::BadConversion),
        }
    }

    /// The address as a register value.
    pub fn to_register_value(&self) -> (r: RegisterValue)
        ensures
            r == RegisterValue::Uint64(self.address),
    {
        RegisterValue::Uint64(self.address)
    }

    pub fn addr(&self) -> (r: u64)
        ensures
            r == self.address,
    {
        self.address
    }
}

/// The `int3` instruction, which makes the tracee trap.
pub const INTERRUPT_INSTRUCTION: u8 = 0xCC;

/// The low byte of a machine word: the byte at the word's address.
pub open spec fn low_byte_of(word: i64) -> u8 {
    (word & 0xff) as u8
}

/// `word` with its low byte replaced by `byte`.
pub open spec fn spliced(word: i64, byte: u8) -> i64 {
    (word & !0xffi64) | (byte as i64)
}

/// The byte at a word's address.
pub fn low_byte(word: i64) -> (r: u8)
    ensures
        r == low_byte_of(word),
{
    (word & 0xff) as u8
}

/// `word` with the byte at its address replaced by `byte`; the other bytes are kept.
pub fn splice_low_byte(word: i64, byte: u8) -> (r: i64)
    ensures
        r == spliced(word, byte),
        low_byte_of(r) == byte,
{
    let r = (word & !0xffi64) | (byte as i64);
    proof {
        lemma_spliced_low_byte(word, byte);
    }
    r
}

/// Splicing a byte in makes it the low byte.
pub proof fn lemma_spliced_low_byte(word: i64, byte: u8)
    ensures
        low_byte_of(spliced(word, byte)) == byte,
{
    let b = byte as i64;
    assert(0 <= b < 256);
    assert(0 <= (((word & !0xffi64) | b) & 0xff) < 256) by (bit_vector);
    assert((((word & !0xffi64) | b) & 0xff) == b) by (bit_vector)
        requires
            0 <= b < 256,
    ;
}

/// Splicing a byte in and then the word's own low byte back gives the word again.
pub proof fn lemma_splice_restores(word: i64, byte: u8)
    ensures
        spliced(spliced(word, byte), low_byte_of(word)) == word,
{
    let b = byte as i64;
    assert(0 <= (word & 0xff) < 256) by (bit_vector);
    assert(low_byte_of(word) as i64 == (word & 0xff));
    assert((((((word & !0xffi64) | b) & !0xffi64)) | (word & 0xff)) == word) by (bit_vector)
        requires
            0 <= b < 256,
    ;
}

/// Whether a breakpoint is meant to trap.
#[derive(Clone, Copy, Debug, PartialEq, Eq, Structural)]
pub enum StoppointState {
    Enabled,
    Disabled,
}

/// A software breakpoint record.
#[derive(Clone, Copy, Debug, PartialEq, Eq, Structural)]
pub struct BreakpointSite {
    pub id: StoppointId,
    pub address: VirtualAddress,
    pub state: StoppointState,
}

impl BreakpointSite {
    /// A disabled breakpoint with id `id` at `address`.
    pub fn new(id: StoppointId, address: VirtualAddress) -> (r: BreakpointSite)
        ensures
            r == (BreakpointSite { id, address, state: StoppointState::Disabled }),
    {
        BreakpointSite { id, address, state: StoppointState::Disabled }
    }

    pub fn id(&self) -> (r: StoppointId)
        ensures
            r == self.id,
    {
        self.id
    }

    pub fn enable(&mut self)
        ensures
            *final(self) == (BreakpointSite { state: StoppointState::Enabled, ..*old(self) }),
    {
        self.state = StoppointState::Enabled;
    }

    pub fn disable(&mut self)
        ensures
            *final(self) == (BreakpointSite { state: StoppointState::Disabled, ..*old(self) }),
    {
        self.state = StoppointState::Disabled;
    }

    pub fn is_enabled(&self) -> (r: bool)
        ensures
            r == (self.state == StoppointState::Enabled),
    {
        matches!(self.state, StoppointState::Enabled)
    }

    pub fn address(&self) -> (r: VirtualAddress)
        ensures
            r == self.address,
    {
        self.address
    }

    pub fn at_address(&self, address: VirtualAddress) -> (r: bool)
        ensures
            r == (self.address == address),
    {
        self.address.address == address.address
    }

    /// Whether the breakpoint lies in `[low, high)`.
    pub fn in_range(&self, low: VirtualAddress, high: VirtualAddress) -> (r: bool)
        ensures
            r == (low.address <= self.address.address && self.address.address < high.address),
    {
        low.address <= self.address.address && high.address > self.address.address
    }
}

} // verus!
