//! Register values and point-in-time snapshots of a stopped tracee's register files.

use vstd::prelude::*;

use crate::error::DebugError;
use crate::register_info::{
    backing_area, format_bytes, info_of, register_info, Location, Register, RegisterFormat,
    RegisterInfo, RegisterType, USER_DEBUGREG_SIZE, USER_FPREGS_SIZE, USER_REGS_SIZE,
};

verus! {

/// `256` raised to `n`.
pub open spec fn pow256(n: nat) -> nat
    decreases n,
{
    if n == 0 {
        1
    } else {
        256 * pow256((n - 1) as nat)
    }
}

/// The unsigned number whose little-endian bytes are `s`.
pub open spec fn le_value(s: Seq<u8>) -> nat
    decreases s.len(),
{
    if s.len() == 0 {
        0
    } else {
        s[0] as nat + 256 * le_value(s.drop_first())
    }
}

/// The two's complement reading of `v` as an `n`-byte pattern.
pub open spec fn signed_of(v: nat, n: nat) -> int {
    if v >= pow256(n) / 2 {
        v - pow256(n)
    } else {
        v as int
    }
}

/// A register's value in its native representation. The floating-point
/// variants carry the IEEE-754 bit pattern of the number.
#[derive(Clone, Copy, Debug)]
pub enum RegisterValue {
    Uint8(u8),
    Uint16(u16),
    Uint32(u32),
    Uint64(u64),
    Int8(i8),
    Int16(i16),
    Int32(i32),
    Int64(i64),
    Float(u32),
    Double(u64),
    /// The 80-bit extended precision of the x87 stack.
    LongDouble([u8; 10]),
    Byte64([u8; 8]),
    Byte128([u8; 16]),
}

/// The format tag of a value's variant.
pub open spec fn format_of(v: RegisterValue) -> RegisterFormat {
    match v {
        RegisterValue::Uint8(_) => RegisterFormat::Uint8,
        RegisterValue::Uint16(_) => RegisterFormat::Uint16,
        RegisterValue::Uint32(_) => RegisterFormat::Uint32,
        RegisterValue::Uint64(_) => RegisterFormat::Uint64,
        RegisterValue::Int8(_) => RegisterFormat::Int8,
        RegisterValue::Int16(_) => RegisterFormat::Int16,
        RegisterValue::Int32(_) => RegisterFormat::Int32,
        RegisterValue::Int64(_) => RegisterFormat::Int64,
        RegisterValue::Float(_) => RegisterFormat::Float,
        RegisterValue::Double(_) => RegisterFormat::Double,
        RegisterValue::LongDouble(_) => RegisterFormat::LongDouble,
        RegisterValue::Byte64(_) => RegisterFormat::Byte64,
        RegisterValue::Byte128(_) => RegisterFormat::Byte128,
    }
}

/// `v` is what the leading bytes of `bytes` read as in format `f`
/// (little-endian for every multi-byte number).
pub open spec fn decodes_to(f: RegisterFormat, bytes: Seq<u8>, v: RegisterValue) -> bool {
    let n = format_bytes(f);
    let b = bytes.take(n as int);
    &&& format_of(v) == f
    &&& match v {
        RegisterValue::Uint8(x) => x as nat == le_value(b),
        RegisterValue::Uint16(x) => x as nat == le_value(b),
        RegisterValue::Uint32(x) => x as nat == le_value(b),
        RegisterValue::Uint64(x) => x as nat == le_value(b),
        RegisterValue::Int8(x) => x as int == signed_of(le_value(b), 1),
        RegisterValue::Int16(x) => x as int == signed_of(le_value(b), 2),
        RegisterValue::Int32(x) => x as int == signed_of(le_value(b), 4),
        RegisterValue::Int64(x) => x as int == signed_of(le_value(b), 8),
        RegisterValue::Float(x) => x as nat == le_value(b),
        RegisterValue::Double(x) => x as nat == le_value(b),
        RegisterValue::LongDouble(a) => a@ == b,
        RegisterValue::Byte64(a) => a@ == b,
        RegisterValue::Byte128(a) => a@ == b,
    }
}

/// Bytes read as one value only: two reads of the same snapshot agree.
pub proof fn lemma_decoding_is_unique(f: RegisterFormat, bytes: Seq<u8>, v1: RegisterValue, v2: RegisterValue)
    requires
        decodes_to(f, bytes, v1),
        decodes_to(f, bytes, v2),
    ensures
        v1 == v2,
{
    broadcast use vstd::array::axiom_array_ext_equal;

    match (v1, v2) {
        (RegisterValue::LongDouble(a), RegisterValue::LongDouble(b)) => {
            assert(a =~= b);
        },
        (RegisterValue::Byte64(a), RegisterValue::Byte64(b)) => {
            assert(a =~= b);
        },
        (RegisterValue::Byte128(a), RegisterValue::Byte128(b)) => {
            assert(a =~= b);
        },
        _ => {},
    }
}

proof fn lemma_le_value_step(s: Seq<u8>, i: int, j: int)
    requires
        0 <= i < j <= s.len(),
    ensures
        le_value(s.subrange(i, j)) == s[i] as nat + 256 * le_value(s.subrange(i + 1, j)),
{
    assert(s.subrange(i, j).drop_first() =~= s.subrange(i + 1, j));
}

/// The unsigned little-endian number held by `bytes[start..start + n]`.
fn le_unsigned(bytes: &Vec<u8>, start: usize, n: usize) -> (r: u64)
    requires
        n <= 8,
        start + n <= bytes@.len(),
    ensures
        r as nat == le_value(bytes@.subrange(start as int, start + n)),
        (r as nat) < pow256(n as nat),
{
    let len = bytes.len();
    let mut v: u64 = 0;
    let mut k: usize = n;
    proof {
        assert(bytes@.subrange(start + n, start + n) =~= Seq::<u8>::empty());
        reveal_with_fuel(pow256, 9);
        assert(pow256(8) == 0x1_0000_0000_0000_0000);
    }
    while k > 0
        invariant
            n <= 8,
            k <= n,
            start + n <= bytes@.len(),
            len == bytes@.len(),
            v as nat == le_value(bytes@.subrange(start + k, start + n)),
            (v as nat) < pow256((n - k) as nat),
            pow256(8) == 0x1_0000_0000_0000_0000,
        decreases k,
    {
        proof {
            lemma_pow256_monotone((n - k + 1) as nat, 8);
            lemma_le_value_step(bytes@, start + k - 1, start + n as int);
        }
        let b = bytes[start + k - 1];
        proof {
            let m = (n - k) as nat;
            assert(pow256(m + 1) == 256 * pow256(m));
            assert(v * 256 + b < 256 * pow256(m)) by (nonlinear_arith)
                requires
                    v < pow256(m),
                    b < 256,
            ;
        }
        v = v * 256 + b as u64;
        k = k - 1;
    }
    proof {
        assert(bytes@.subrange(start as int, start + n) =~= bytes@.subrange(start + k, start + n));
    }
    v
}

proof fn lemma_pow256_monotone(a: nat, b: nat)
    requires
        a <= b,
    ensures
        pow256(a) <= pow256(b),
    decreases b,
{
    if a < b {
        lemma_pow256_monotone(a, (b - 1) as nat);
    }
}

/// The bytes `bytes[start..start + N]` as an array.
fn copy_array<const N: usize>(bytes: &Vec<u8>, start: usize) -> (a: [u8; N])
    requires
        start + N <= bytes@.len(),
    ensures
        a@ == bytes@.subrange(start as int, start + N),
{
    let len = bytes.len();
    let mut a = [0u8; N];
    let mut k: usize = 0;
    while k < N
        invariant
            k <= N,
            start + N <= bytes@.len(),
            len == bytes@.len(),
            a@.len() == N,
            forall|j: int| 0 <= j < k ==> a@[j] == bytes@[start + j],
        decreases N - k,
    {
        a[k] = bytes[start + k];
        k = k + 1;
    }
    proof {
        assert(a@ =~= bytes@.subrange(start as int, start + N));
    }
    a
}

/// Reads the value of format `format` from the leading bytes of
/// `bytes[start..start + size]`.
fn value_from_bytes(bytes: &Vec<u8>, start: usize, size: usize, format: RegisterFormat) -> (v:
    RegisterValue)
    requires
        start + size <= bytes@.len(),
        format_bytes(format) <= size,
    ensures
        decodes_to(format, bytes@.subrange(start as int, start + size), v),
{
    let ghost s = bytes@.subrange(start as int, start + size);
    let ghost n = format_bytes(format);
    proof {
        assert(s.take(n as int) =~= bytes@.subrange(start as int, start + n));
        reveal_with_fuel(pow256, 9);
    }
    match format {
        RegisterFormat::Uint8 => RegisterValue::Uint8(le_unsigned(bytes, start, 1) as u8),
        RegisterFormat::Uint16 => RegisterValue::Uint16(le_unsigned(bytes, start, 2) as u16),
        RegisterFormat::Uint32 => RegisterValue::Uint32(le_unsigned(bytes, start, 4) as u32),
        RegisterFormat::Uint64 => RegisterValue::Uint64(le_unsigned(bytes, start, 8)),
        RegisterFormat::Int8 => {
            let u = le_unsigned(bytes, start, 1);
            let x: i8 = if u >= 0x80 {
                (u as i16 - 0x100) as i8
            } else {
                u as i8
            };
            RegisterValue::Int8(x)
        },
        RegisterFormat::Int16 => {
            let u = le_unsigned(bytes, start, 2);
            let x: i16 = if u >= 0x8000 {
                (u as i32 - 0x1_0000) as i16
            } else {
                u as i16
            };
            RegisterValue::Int16(x)
        },
        RegisterFormat::Int32 => {
            let u = le_unsigned(bytes, start, 4);
            let x: i32 = if u >= 0x8000_0000 {
                (u as i64 - 0x1_0000_0000) as i32
            } else {
                u as i32
            };
            RegisterValue::Int32(x)
        },
        RegisterFormat::Int64 => {
            let u = le_unsigned(bytes, start, 8);
            let x: i64 = if u >= 0x8000_0000_0000_0000 {
                (u - 0x8000_0000_0000_0000) as i64 + i64::MIN
            } else {
                u as i64
            };
            RegisterValue::Int64(x)
        },
        RegisterFormat::Float => RegisterValue::Float(le_unsigned(bytes, start, 4) as u32),
        RegisterFormat::Double => RegisterValue::Double(le_unsigned(bytes, start, 8)),
        RegisterFormat::LongDouble => RegisterValue::LongDouble(copy_array::<10>(bytes, start)),
        RegisterFormat::Byte64 => RegisterValue::Byte64(copy_array::<8>(bytes, start)),
        RegisterFormat::Byte128 => RegisterValue::Byte128(copy_array::<16>(bytes, start)),
    }
}

/// The register files of a snapshot as plain bytes.
pub struct SnapshotView {
    pub pid: int,
    /// The general-purpose save area (`struct user_regs_struct`).
    pub gp: Seq<u8>,
    /// The floating-point save area (`struct user_fpregs_struct`).
    pub fp: Seq<u8>,
    /// The eight debug registers, as little-endian words.
    pub debug: Seq<u8>,
}

/// The save area of a snapshot that holds a register stored at `loc`.
pub open spec fn area_of(s: SnapshotView, loc: Location) -> Seq<u8> {
    match loc {
        Location::Regs(_) => s.gp,
        Location::Fpu(_) | Location::FpuArray(_, _) => s.fp,
        Location::UserArray(_, _) => s.debug,
    }
}

/// The bytes of the register described by `info` within a snapshot.
pub open spec fn register_bytes(s: SnapshotView, info: RegisterInfo) -> Seq<u8> {
    let start = info.offset - backing_area(info.loc).0;
    area_of(s, info.loc).subrange(start, start + info.size)
}

/// A point-in-time copy of a stopped tracee's general-purpose, floating-point
/// and debug register files.
pub struct RegisterSnapshot {
    pid: i32,
    user_gp: Vec<u8>,
    user_fp: Vec<u8>,
    debug_regs: Vec<u8>,
}

impl View for RegisterSnapshot {
    type V = SnapshotView;

    closed spec fn view(&self) -> SnapshotView {
        SnapshotView {
            pid: self.pid as int,
            gp: self.user_gp@,
            fp: self.user_fp@,
            debug: self.debug_regs@,
        }
    }
}

/// Each save area has the size of the kernel structure it copies.
pub open spec fn areas_sized(s: SnapshotView) -> bool {
    &&& s.gp.len() == USER_REGS_SIZE
    &&& s.fp.len() == USER_FPREGS_SIZE
    &&& s.debug.len() == USER_DEBUGREG_SIZE
}

impl RegisterSnapshot {
    #[verifier::type_invariant]
    spec fn sized(&self) -> bool {
        areas_sized(self@)
    }

    /// A snapshot of the register files of tracee `pid`, taken from the bytes of
    /// its general-purpose and floating-point save areas and of its eight debug
    /// registers. None when an area does not have the size of its structure.
    pub fn new(pid: i32, user_gp: Vec<u8>, user_fp: Vec<u8>, debug_regs: Vec<u8>) -> (r: Option<
        RegisterSnapshot,
    >)
        ensures
            r is Some <==> (user_gp@.len() == USER_REGS_SIZE && user_fp@.len() == USER_FPREGS_SIZE
                && debug_regs@.len() == USER_DEBUGREG_SIZE),
            r matches Some(s) ==> s@ == (SnapshotView {
                pid: pid as int,
                gp: user_gp@,
                fp: user_fp@,
                debug: debug_regs@,
            }),
    {
        if user_gp.len() == USER_REGS_SIZE && user_fp.len() == USER_FPREGS_SIZE && debug_regs.len()
            == USER_DEBUGREG_SIZE {
            Some(RegisterSnapshot { pid, user_gp, user_fp, debug_regs })
        } else {
            None
        }
    }

    /// The tracee the snapshot was taken from.
    pub fn pid(&self) -> (r: i32)
        ensures
            r as int == self@.pid,
    {
        self.pid
    }

    /// The value of `register`, read from its bytes in the save area that holds
    /// it, in the register's declared format.
    pub fn read(&self, register: &Register) -> (v: RegisterValue)
        ensures
            decodes_to(info_of(*register).format, register_bytes(self@, info_of(*register)), v),
            format_of(v) == info_of(*register).format,
    {
        proof {
            use_type_invariant(self);
        }
        let info = register_info(*register);
        match info.loc {
            Location::Regs(_) => value_from_bytes(
                &self.user_gp,
                info.offset - crate::register_info::USER_REGS_OFFSET,
                info.size,
                info.format,
            ),
            Location::Fpu(_) | Location::FpuArray(_, _) => value_from_bytes(
                &self.user_fp,
                info.offset - crate::register_info::USER_FPREGS_OFFSET,
                info.size,
                info.format,
            ),
            Location::UserArray(_, _) => value_from_bytes(
                &self.debug_regs,
                info.offset - crate::register_info::USER_DEBUGREG_OFFSET,
                info.size,
                info.format,
            ),
        }
    }
}

/// A value as a signed 64-bit integer: unsigned values are zero-extended
/// (a 64-bit one reinterpreted as two's complement), signed ones
/// sign-extended; floating-point values and byte blobs have none.
pub open spec fn i64_of(v: RegisterValue) -> Option<int> {
    match v {
        RegisterValue::Uint8(x) => Some(x as int),
        RegisterValue::Uint16(x) => Some(x as int),
        RegisterValue::Uint32(x) => Some(x as int),
        RegisterValue::Uint64(x) => Some(signed_of(x as nat, 8)),
        RegisterValue::Int8(x) => Some(x as int),
        RegisterValue::Int16(x) => Some(x as int),
        RegisterValue::Int32(x) => Some(x as int),
        RegisterValue::Int64(x) => Some(x as int),
        _ => None,
    }
}

impl RegisterValue {
    /// The value as a signed 64-bit integer; BadConversion for a
    /// floating-point value or a byte blob.
    pub fn to_i64(&self) -> (r: Result<i64, DebugError>)
        ensures
            match i64_of(*self) {
                Some(x) => r matches Ok(y) && y as int == x,
                None => r == Err::<i64, DebugError>(DebugError::BadConversion),
            },
    {
        proof {
            reveal_with_fuel(pow256, 9);
        }
        match *self {
            RegisterValue::Uint8(x) => Ok(x as i64),
            RegisterValue::Uint16(x) => Ok(x as i64),
            RegisterValue::Uint32(x) => Ok(x as i64),
            RegisterValue::Uint64(x) => if x >= 0x8000_0000_0000_0000 {
                Ok((x - 0x8000_0000_0000_0000) as i64 + i64::MIN)
            } else {
                Ok(x as i64)
            },
            RegisterValue::Int8(x) => Ok(x as i64),
            RegisterValue::Int16(x) => Ok(x as i64),
            RegisterValue::Int32(x) => Ok(x as i64),
            RegisterValue::Int64(x) => Ok(x),
            _ => Err(DebugError::BadConversion),
        }
    }
}

/// The `n` little-endian bytes of `x`.
pub open spec fn le_bytes(x: nat, n: nat) -> Seq<u8>
    decreases n,
{
    if n == 0 {
        Seq::empty()
    } else {
        seq![(x % 256) as u8] + le_bytes(x / 256, (n - 1) as nat)
    }
}

/// The `n`-byte two's complement pattern of `x`.
pub open spec fn unsigned_of(x: int, n: nat) -> nat {
    if x < 0 {
        (x + pow256(n)) as nat
    } else {
        x as nat
    }
}

/// The bytes that hold a value, little-endian.
pub open spec fn value_bytes(v: RegisterValue) -> Seq<u8> {
    match v {
        RegisterValue::Uint8(x) => le_bytes(x as nat, 1),
        RegisterValue::Uint16(x) => le_bytes(x as nat, 2),
        RegisterValue::Uint32(x) => le_bytes(x as nat, 4),
        RegisterValue::Uint64(x) => le_bytes(x as nat, 8),
        RegisterValue::Int8(x) => le_bytes(unsigned_of(x as int, 1), 1),
        RegisterValue::Int16(x) => le_bytes(unsigned_of(x as int, 2), 2),
        RegisterValue::Int32(x) => le_bytes(unsigned_of(x as int, 4), 4),
        RegisterValue::Int64(x) => le_bytes(unsigned_of(x as int, 8), 8),
        RegisterValue::Float(x) => le_bytes(x as nat, 4),
        RegisterValue::Double(x) => le_bytes(x as nat, 8),
        RegisterValue::LongDouble(a) => a@,
        RegisterValue::Byte64(a) => a@,
        RegisterValue::Byte128(a) => a@,
    }
}

/// The `n` little-endian bytes of `x`.
fn encode_le(x: u64, n: usize) -> (r: Vec<u8>)
    ensures
        r@ == le_bytes(x as nat, n as nat),
{
    let mut r: Vec<u8> = Vec::new();
    let mut v: u64 = x;
    let mut k: usize = 0;
    while k < n
        invariant
            k <= n,
            r@ + le_bytes(v as nat, (n - k) as nat) == le_bytes(x as nat, n as nat),
        decreases n - k,
    {
        let ghost rest = le_bytes((v / 256) as nat, (n - k - 1) as nat);
        proof {
            assert(le_bytes(v as nat, (n - k) as nat) == seq![(v % 256) as u8] + rest);
            assert(r@.push((v % 256) as u8) + rest =~= r@ + (seq![(v % 256) as u8] + rest));
        }
        r.push((v % 256) as u8);
        v = v / 256;
        k = k + 1;
    }
    proof {
        assert(r@ + Seq::<u8>::empty() =~= r@);
    }
    r
}

/// The bytes of an array, in a vector.
fn array_bytes<const N: usize>(a: &[u8; N]) -> (r: Vec<u8>)
    ensures
        r@ == a@,
{
    let mut r: Vec<u8> = Vec::new();
    let mut k: usize = 0;
    while k < N
        invariant
            k <= N,
            a@.len() == N,
            r@ == a@.take(k as int),
        decreases N - k,
    {
        r.push(a[k]);
        proof {
            assert(r@ =~= a@.take(k + 1));
        }
        k = k + 1;
    }
    proof {
        assert(a@.take(N as int) =~= a@);
    }
    r
}

/// The bytes that hold a value, little-endian.
pub fn encode_value(v: RegisterValue) -> (r: Vec<u8>)
    ensures
        r@ == value_bytes(v),
{
    proof {
        reveal_with_fuel(pow256, 9);
    }
    match v {
        RegisterValue::Uint8(x) => encode_le(x as u64, 1),
        RegisterValue::Uint16(x) => encode_le(x as u64, 2),
        RegisterValue::Uint32(x) => encode_le(x as u64, 4),
        RegisterValue::Uint64(x) => encode_le(x, 8),
        RegisterValue::Int8(x) => encode_le(if x < 0 { (x as i64 + 0x100) as u64 } else { x as u64 }, 1),
        RegisterValue::Int16(x) => encode_le(if x < 0 { (x as i64 + 0x1_0000) as u64 } else { x as u64 }, 2),
        RegisterValue::Int32(x) => encode_le(if x < 0 { (x as i64 + 0x1_0000_0000) as u64 } else { x as u64 }, 4),
        RegisterValue::Int64(x) => encode_le(if x < 0 { ((x + 1 + i64::MAX) as u64) + 0x8000_0000_0000_0000 } else { x as u64 }, 8),
        RegisterValue::Float(x) => encode_le(x as u64, 4),
        RegisterValue::Double(x) => encode_le(x, 8),
        RegisterValue::LongDouble(a) => array_bytes(&a),
        RegisterValue::Byte64(a) => array_bytes(&a),
        RegisterValue::Byte128(a) => array_bytes(&a),
    }
}

/// `area` with `bytes` in place of the bytes from `start` on.
pub open spec fn overwritten(area: Seq<u8>, start: int, bytes: Seq<u8>) -> Seq<u8> {
    area.take(start) + bytes + area.skip(start + bytes.len())
}

/// A snapshot with the register described by `info` holding `bytes` at its start.
pub open spec fn written(s: SnapshotView, info: RegisterInfo, bytes: Seq<u8>) -> SnapshotView {
    let start = info.offset - backing_area(info.loc).0;
    match info.loc {
        Location::Regs(_) => SnapshotView { gp: overwritten(s.gp, start, bytes), ..s },
        Location::Fpu(_) | Location::FpuArray(_, _) => SnapshotView { fp: overwritten(s.fp, start, bytes), ..s },
        Location::UserArray(_, _) => SnapshotView { debug: overwritten(s.debug, start, bytes), ..s },
    }
}

/// What writing a register asks of the tracee.
#[derive(Clone, Debug)]
pub enum RegisterWrite {
    /// Write the whole floating-point save area back in one operation: the
    /// kernel does not take single words of the x87 state.
    FloatingPointArea(Vec<u8>),
    /// Poke this 64-bit word at this byte offset of `struct user`.
    UserWord { offset: usize, word: u64 },
}

/// Copies `bytes` into `area` from `start` on.
fn put_bytes(area: &mut Vec<u8>, start: usize, bytes: &Vec<u8>)
    requires
        start + bytes@.len() <= old(area)@.len(),
    ensures
        final(area)@ == overwritten(old(area)@, start as int, bytes@),
    no_unwind
{
    let len = area.len();
    let mut k: usize = 0;
    while k < bytes.len()
        invariant
            len == area@.len(),
            k <= bytes@.len(),
            start + bytes@.len() <= area@.len(),
            area@.len() == old(area)@.len(),
            forall|j: int| 0 <= j < area@.len() ==> #[trigger] area@[j] == if start <= j < start + k {
                bytes@[j - start]
            } else {
                old(area)@[j]
            },
        decreases bytes@.len() - k,
    {
        area[start + k] = bytes[k];
        k = k + 1;
    }
    proof {
        assert(area@ =~= overwritten(old(area)@, start as int, bytes@));
    }
}

impl RegisterSnapshot {
    /// Writes `value` into `register` of the snapshot and says what the tracee
    /// needs: a floating-point register sends the whole floating-point area
    /// back; any other is poked one 64-bit word at a time, at its offset aligned
    /// down to 8, with the register's bytes in place and the word's other bytes
    /// as the snapshot holds them. A value whose variant is not the register's
    /// format is a BadConversion and changes nothing.
    pub fn write(&mut self, register: Register, value: RegisterValue) -> (r: Result<RegisterWrite, DebugError>)
        ensures
            format_of(value) != info_of(register).format ==> r == Err::<RegisterWrite, DebugError>(DebugError::BadConversion) && final(self)@ == old(self)@,
            format_of(value) == info_of(register).format ==> {
                let info = info_of(register);
                let s = final(self)@;
                &&& s == written(old(self)@, info, value_bytes(value))
                &&& info.register_type == RegisterType::FloatingPoint ==> (r matches Ok(RegisterWrite::FloatingPointArea(b)) && b@ == s.fp)
                &&& info.register_type != RegisterType::FloatingPoint ==> (r matches Ok(RegisterWrite::UserWord { offset, word }) && {
                    let base = backing_area(info.loc).0;
                    &&& offset == info.offset - info.offset % 8
                    &&& word as nat == le_value(area_of(s, info.loc).subrange(offset - base, offset - base + 8))
                })
            },
    {
        proof {
            use_type_invariant(&*self);
        }
        let info = register_info(register);
        if !same_format(value, info.format) {
            return Err(DebugError::BadConversion);
        }
        let bytes = encode_value(value);
        proof {
            lemma_value_bytes_len(value);
        }
        match info.loc {
            Location::Regs(_) => {
                let start = info.offset - crate::register_info::USER_REGS_OFFSET;
                put_bytes(&mut self.user_gp, start, &bytes);
                let aligned = info.offset - info.offset % 8;
                let word = le_unsigned(&self.user_gp, aligned - crate::register_info::USER_REGS_OFFSET, 8);
                Ok(RegisterWrite::UserWord { offset: aligned, word })
            },
            Location::UserArray(_, _) => {
                let start = info.offset - crate::register_info::USER_DEBUGREG_OFFSET;
                put_bytes(&mut self.debug_regs, start, &bytes);
                let aligned = info.offset - info.offset % 8;
                let word = le_unsigned(&self.debug_regs, aligned - crate::register_info::USER_DEBUGREG_OFFSET, 8);
                Ok(RegisterWrite::UserWord { offset: aligned, word })
            },
            Location::Fpu(_) | Location::FpuArray(_, _) => {
                let start = info.offset - crate::register_info::USER_FPREGS_OFFSET;
                put_bytes(&mut self.user_fp, start, &bytes);
                Ok(RegisterWrite::FloatingPointArea(self.user_fp.clone()))
            },
        }
    }
}

/// A value's bytes are as many as its format takes.
proof fn lemma_value_bytes_len(v: RegisterValue)
    ensures
        value_bytes(v).len() == format_bytes(format_of(v)),
{
    reveal_with_fuel(le_bytes, 9);
}

/// Whether a value's variant is the format `f`.
fn same_format(v: RegisterValue, f: RegisterFormat) -> (r: bool)
    ensures
        r == (format_of(v) == f),
{
    let g = match v {
        RegisterValue::Uint8(_) => RegisterFormat::Uint8,
        RegisterValue::Uint16(_) => RegisterFormat::Uint16,
        RegisterValue::Uint32(_) => RegisterFormat::Uint32,
        RegisterValue::Uint64(_) => RegisterFormat::Uint64,
        RegisterValue::Int8(_) => RegisterFormat::Int8,
        RegisterValue::Int16(_) => RegisterFormat::Int16,
        RegisterValue::Int32(_) => RegisterFormat::Int32,
        RegisterValue::Int64(_) => RegisterFormat::Int64,
        RegisterValue::Float(_) => RegisterFormat::Float,
        RegisterValue::Double(_) => RegisterFormat::Double,
        RegisterValue::LongDouble(_) => RegisterFormat::LongDouble,
        RegisterValue::Byte64(_) => RegisterFormat::Byte64,
        RegisterValue::Byte128(_) => RegisterFormat::Byte128,
    };
    g == f
}

} // verus!
