//! The x86-64 register catalog: where every supported register lives in the
//! kernel's `struct user` save area, how wide it is and how its bytes read.

use vstd::prelude::*;

verus! {

/// Byte offset of the general-purpose save area (`regs`) inside `struct user`.
pub const USER_REGS_OFFSET: usize = 0;

/// Size in bytes of the general-purpose save area (`struct user_regs_struct`).
pub const USER_REGS_SIZE: usize = 216;

/// Byte offset of the floating-point save area (`i387`) inside `struct user`.
pub const USER_FPREGS_OFFSET: usize = 224;

/// Size in bytes of the floating-point save area (`struct user_fpregs_struct`).
pub const USER_FPREGS_SIZE: usize = 512;

/// Byte offset of the debug-register array (`u_debugreg`) inside `struct user`.
pub const USER_DEBUGREG_OFFSET: usize = 848;

/// Size in bytes of the debug-register array: eight 64-bit words.
pub const USER_DEBUGREG_SIZE: usize = 64;

/// Broad grouping for registers, used for display and filtering.
#[derive(Clone, Copy, Debug, Hash, PartialEq, Eq, Structural)]
pub enum RegisterType {
    GeneralPurpose,
    SubGeneralPurpose,
    FloatingPoint,
    Debug,
}

/// How the bytes of a register are read: one tag per `RegisterValue` variant.
#[derive(Clone, Copy, Debug, Hash, PartialEq, Eq, Structural)]
pub enum RegisterFormat {
    Uint8,
    Uint16,
    Uint32,
    Uint64,
    Int8,
    Int16,
    Int32,
    Int64,
    Float,
    Double,
    LongDouble,
    Byte64,
    Byte128,
}

/// Canonical width of a register or subregister.
#[derive(Clone, Copy, Debug, Hash, PartialEq, Eq, Structural)]
pub enum RegisterWidth {
    W128,
    /// The 80-bit extended precision of the x87 stack (`st0`..`st7`).
    W80,
    W64,
    W32,
    W16,
    /// The high byte of a 16-bit register (`ah`, `bh`, `ch`, `dh`).
    W8H,
    W8L,
}

impl RegisterWidth {
    pub open spec fn spec_bits(self) -> nat {
        match self {
            RegisterWidth::W128 => 128,
            RegisterWidth::W80 => 80,
            RegisterWidth::W64 => 64,
            RegisterWidth::W32 => 32,
            RegisterWidth::W16 => 16,
            RegisterWidth::W8H | RegisterWidth::W8L => 8,
        }
    }

    pub open spec fn spec_bytes(self) -> nat {
        self.spec_bits() / 8
    }

    pub open spec fn spec_sub_offset(self) -> nat {
        match self {
            RegisterWidth::W8H => 1,
            _ => 0,
        }
    }

    /// Register width in bits.
    pub fn bits(&self) -> (r: usize)
        ensures
            r == self.spec_bits(),
    {
        match self {
            RegisterWidth::W128 => 128,
            RegisterWidth::W80 => 80,
            RegisterWidth::W64 => 64,
            RegisterWidth::W32 => 32,
            RegisterWidth::W16 => 16,
            RegisterWidth::W8H | RegisterWidth::W8L => 8,
        }
    }

    /// Register width in bytes.
    pub fn bytes(&self) -> (r: usize)
        ensures
            r == self.spec_bytes(),
    {
        self.bits() / 8
    }

    /// Offset of a subregister within its parent's storage.
    pub fn sub_offset(&self) -> (r: usize)
        ensures
            r == self.spec_sub_offset(),
    {
        match self {
            RegisterWidth::W8H => 1,
            _ => 0,
        }
    }
}

/// Field of `struct user_regs_struct` that holds a register.
#[derive(Clone, Copy, Debug, Hash, PartialEq, Eq, Structural)]
pub enum RegsField {
    Rax,
    Rdx,
    Rcx,
    Rbx,
    Rsi,
    Rdi,
    Rbp,
    Rsp,
    R8,
    R9,
    R10,
    R11,
    R12,
    R13,
    R14,
    R15,
    Rip,
    Eflags,
    Cs,
    Fs,
    Gs,
    Ss,
    Ds,
    Es,
    OrigRax,
}

impl RegsField {
    /// Byte offset of the field within `struct user_regs_struct`.
    pub open spec fn spec_offset(self) -> nat {
        match self {
            RegsField::R15 => 0,
            RegsField::R14 => 8,
            RegsField::R13 => 16,
            RegsField::R12 => 24,
            RegsField::Rbp => 32,
            RegsField::Rbx => 40,
            RegsField::R11 => 48,
            RegsField::R10 => 56,
            RegsField::R9 => 64,
            RegsField::R8 => 72,
            RegsField::Rax => 80,
            RegsField::Rcx => 88,
            RegsField::Rdx => 96,
            RegsField::Rsi => 104,
            RegsField::Rdi => 112,
            RegsField::OrigRax => 120,
            RegsField::Rip => 128,
            RegsField::Cs => 136,
            RegsField::Eflags => 144,
            RegsField::Rsp => 152,
            RegsField::Ss => 160,
            RegsField::Ds => 184,
            RegsField::Es => 192,
            RegsField::Fs => 200,
            RegsField::Gs => 208,
        }
    }

    /// Byte offset of the field within `struct user_regs_struct`.
    pub fn offset(self) -> (r: usize)
        ensures
            r == self.spec_offset(),
    {
        match self {
            RegsField::R15 => 0,
            RegsField::R14 => 8,
            RegsField::R13 => 16,
            RegsField::R12 => 24,
            RegsField::Rbp => 32,
            RegsField::Rbx => 40,
            RegsField::R11 => 48,
            RegsField::R10 => 56,
            RegsField::R9 => 64,
            RegsField::R8 => 72,
            RegsField::Rax => 80,
            RegsField::Rcx => 88,
            RegsField::Rdx => 96,
            RegsField::Rsi => 104,
            RegsField::Rdi => 112,
            RegsField::OrigRax => 120,
            RegsField::Rip => 128,
            RegsField::Cs => 136,
            RegsField::Eflags => 144,
            RegsField::Rsp => 152,
            RegsField::Ss => 160,
            RegsField::Ds => 184,
            RegsField::Es => 192,
            RegsField::Fs => 200,
            RegsField::Gs => 208,
        }
    }
}

/// Scalar field of `struct user_fpregs_struct`.
#[derive(Clone, Copy, Debug, Hash, PartialEq, Eq, Structural)]
pub enum FpuField {
    Cwd,
    Swd,
    Ftw,
    Fop,
    Rip,
    Rdp,
    Mxcsr,
    MxcrMask,
}

impl FpuField {
    /// Byte offset of the field within `struct user_fpregs_struct`.
    pub open spec fn spec_offset(self) -> nat {
        match self {
            FpuField::Cwd => 0,
            FpuField::Swd => 2,
            FpuField::Ftw => 4,
            FpuField::Fop => 6,
            FpuField::Rip => 8,
            FpuField::Rdp => 16,
            FpuField::Mxcsr => 24,
            FpuField::MxcrMask => 28,
        }
    }

    /// Byte offset of the field within `struct user_fpregs_struct`.
    pub fn offset(self) -> (r: usize)
        ensures
            r == self.spec_offset(),
    {
        match self {
            FpuField::Cwd => 0,
            FpuField::Swd => 2,
            FpuField::Ftw => 4,
            FpuField::Fop => 6,
            FpuField::Rip => 8,
            FpuField::Rdp => 16,
            FpuField::Mxcsr => 24,
            FpuField::MxcrMask => 28,
        }
    }
}

/// Array field of `struct user_fpregs_struct`.
#[derive(Clone, Copy, Debug, Hash, PartialEq, Eq, Structural)]
pub enum FpuArrayField {
    /// The x87 stack, which the MMX registers share.
    St,
    Xmm,
}

impl FpuArrayField {
    pub open spec fn spec_offset(self) -> nat {
        match self {
            FpuArrayField::St => 32,
            FpuArrayField::Xmm => 160,
        }
    }

    pub open spec fn spec_stride(self) -> nat {
        16
    }

    /// Byte offset of the array within `struct user_fpregs_struct`.
    pub fn offset(self) -> (r: usize)
        ensures
            r == self.spec_offset(),
    {
        match self {
            FpuArrayField::St => 32,
            FpuArrayField::Xmm => 160,
        }
    }

    /// Size in bytes of one slot of the array: x87/MMX and XMM slots are 16 bytes each.
    pub fn stride(self) -> (r: usize)
        ensures
            r == self.spec_stride(),
    {
        match self {
            FpuArrayField::St | FpuArrayField::Xmm => 16,
        }
    }
}

/// Other fields of `struct user`.
#[derive(Clone, Copy, Debug, Hash, PartialEq, Eq, Structural)]
pub enum UserField {
    UDebugReg,
}

impl UserField {
    pub open spec fn spec_offset(self) -> nat {
        USER_DEBUGREG_OFFSET as nat
    }

    /// Byte offset of the field within `struct user`.
    pub fn offset(self) -> (r: usize)
        ensures
            r == self.spec_offset(),
    {
        USER_DEBUGREG_OFFSET
    }
}

/// Where a register is stored within the `struct user` save areas.
#[derive(Clone, Copy, Debug, Hash, PartialEq, Eq, Structural)]
pub enum Location {
    Regs(RegsField),
    Fpu(FpuField),
    FpuArray(FpuArrayField, usize),
    UserArray(UserField, usize),
}

impl Location {
    /// Byte offset within `struct user` of a register of width `width` stored here.
    pub open spec fn spec_offset(self, width: RegisterWidth) -> nat {
        let base: nat = match self {
            Location::Regs(f) => USER_REGS_OFFSET as nat + f.spec_offset(),
            Location::Fpu(f) => USER_FPREGS_OFFSET as nat + f.spec_offset(),
            Location::FpuArray(f, i) => USER_FPREGS_OFFSET as nat + f.spec_offset() + (i as nat) * f.spec_stride(),
            Location::UserArray(f, i) => f.spec_offset() + (i as nat) * width.spec_bytes(),
        };
        base + width.spec_sub_offset()
    }

    /// Byte offset within `struct user` of a register of width `width` stored here.
    pub fn offset(self, width: RegisterWidth) -> (r: usize)
        requires
            self.spec_offset(width) <= usize::MAX,
        ensures
            r == self.spec_offset(width),
    {
        let base = match self {
            Location::Regs(f) => USER_REGS_OFFSET + f.offset(),
            Location::Fpu(f) => USER_FPREGS_OFFSET + f.offset(),
            Location::FpuArray(f, i) => USER_FPREGS_OFFSET + f.offset() + i * f.stride(),
            Location::UserArray(f, i) => f.offset() + i * width.bytes(),
        };
        base + width.sub_offset()
    }
}

/// Declarative metadata describing how to locate and format a register.
#[derive(Clone, Copy, Debug)]
pub struct RegisterDecl {
    pub register: Register,
    pub name: &'static str,
    pub dwarf: i32,
    pub width: RegisterWidth,
    pub reg_type: RegisterType,
    pub loc: Location,
    pub format: RegisterFormat,
}

/// Fully derived register metadata, with computed offset and size.
#[derive(Clone, Copy, Debug)]
pub struct RegisterInfo {
    pub register: Register,
    /// The register's name as it appears in the `struct user` family.
    pub name: &'static str,
    /// DWARF register number, -1 when there is none.
    pub dwarf_id: i32,
    /// Byte offset of the register within `struct user`.
    pub offset: usize,
    /// Size in bytes of the register's value.
    pub size: usize,
    pub width: RegisterWidth,
    pub register_type: RegisterType,
    pub format: RegisterFormat,
    pub loc: Location,
}

/// The metadata that a declaration derives.
pub open spec fn info_from_decl(d: RegisterDecl) -> RegisterInfo {
    RegisterInfo {
        register: d.register,
        name: d.name,
        dwarf_id: d.dwarf,
        offset: d.loc.spec_offset(d.width) as usize,
        size: d.width.spec_bytes() as usize,
        width: d.width,
        register_type: d.reg_type,
        format: d.format,
        loc: d.loc,
    }
}

/// The catalog's metadata for register `r`.
pub open spec fn info_of(r: Register) -> RegisterInfo {
    info_from_decl(decl_of(r))
}

impl RegisterInfo {
    /// Derives the full metadata of a declaration.
    pub fn from_decl(decl: &RegisterDecl) -> (r: RegisterInfo)
        requires
            decl.loc.spec_offset(decl.width) <= usize::MAX,
        ensures
            r == info_from_decl(*decl),
    {
        RegisterInfo {
            register: decl.register,
            name: decl.name,
            dwarf_id: decl.dwarf,
            offset: decl.loc.offset(decl.width),
            size: decl.width.bytes(),
            width: decl.width,
            register_type: decl.reg_type,
            format: decl.format,
            loc: decl.loc,
        }
    }
}

/// The save area that backs a location: its offset in `struct user` and its size.
pub open spec fn backing_area(loc: Location) -> (nat, nat) {
    match loc {
        Location::Regs(_) => (USER_REGS_OFFSET as nat, USER_REGS_SIZE as nat),
        Location::Fpu(_) | Location::FpuArray(_, _) => (USER_FPREGS_OFFSET as nat, USER_FPREGS_SIZE as nat),
        Location::UserArray(_, _) => (USER_DEBUGREG_OFFSET as nat, USER_DEBUGREG_SIZE as nat),
    }
}

/// The register's bytes lie inside the save area that backs it.
pub open spec fn within_backing_area(info: RegisterInfo) -> bool {
    let (start, len) = backing_area(info.loc);
    start <= info.offset && info.offset + info.size <= start + len
}

/// The number of bytes that a value of the format occupies.
pub open spec fn format_bytes(f: RegisterFormat) -> nat {
    match f {
        RegisterFormat::Uint8 | RegisterFormat::Int8 => 1,
        RegisterFormat::Uint16 | RegisterFormat::Int16 => 2,
        RegisterFormat::Uint32 | RegisterFormat::Int32 | RegisterFormat::Float => 4,
        RegisterFormat::Uint64 | RegisterFormat::Int64 | RegisterFormat::Double
        | RegisterFormat::Byte64 => 8,
        RegisterFormat::LongDouble => 10,
        RegisterFormat::Byte128 => 16,
    }
}

/// Metadata of `register`: its catalog entry with offset and size derived.
pub fn register_info(register: Register) -> (r: RegisterInfo)
    ensures
        r == info_of(register),
        within_backing_area(r),
        format_bytes(r.format) <= r.size,
        (r.register_type == RegisterType::FloatingPoint) == (r.loc is Fpu || r.loc is FpuArray),
        r.loc is UserArray ==> r.offset % 8 == 0,
{
    let decl = register_decl(register);
    proof {
        lemma_catalog_entry_fits(register);
    }
    RegisterInfo::from_decl(&decl)
}

/// Every catalog entry has a small slot index, lies inside its save area, and is
/// at least as wide as its format.
pub proof fn lemma_catalog_entry_fits(r: Register)
    ensures
        decl_of(r).loc.spec_offset(decl_of(r).width) <= usize::MAX,
        within_backing_area(info_of(r)),
        format_bytes(info_of(r).format) <= info_of(r).size,
        (info_of(r).register_type == RegisterType::FloatingPoint) == (info_of(r).loc is Fpu
            || info_of(r).loc is FpuArray),
        info_of(r).loc is UserArray ==> info_of(r).offset % 8 == 0,
{
    match r {
        Register::RAX => {},
        Register::RDX => {},
        Register::RCX => {},
        Register::RBX => {},
        Register::RSI => {},
        Register::RDI => {},
        Register::RBP => {},
        Register::RSP => {},
        Register::R8 => {},
        Register::R9 => {},
        Register::R10 => {},
        Register::R11 => {},
        Register::R12 => {},
        Register::R13 => {},
        Register::R14 => {},
        Register::R15 => {},
        Register::RIP => {},
        Register::EFLAGS => {},
        Register::CS => {},
        Register::FS => {},
        Register::GS => {},
        Register::SS => {},
        Register::DS => {},
        Register::ES => {},
        Register::ORIGRAX => {},
        Register::EAX => {},
        Register::EDX => {},
        Register::ECX => {},
        Register::EBX => {},
        Register::ESI => {},
        Register::EDI => {},
        Register::EBP => {},
        Register::ESP => {},
        Register::R8D => {},
        Register::R9D => {},
        Register::R10D => {},
        Register::R11D => {},
        Register::R12D => {},
        Register::R13D => {},
        Register::R14D => {},
        Register::R15D => {},
        Register::AX => {},
        Register::DX => {},
        Register::CX => {},
        Register::SI => {},
        Register::DI => {},
        Register::BP => {},
        Register::SP => {},
        Register::R8W => {},
        Register::R9W => {},
        Register::R10W => {},
        Register::R11W => {},
        Register::R12W => {},
        Register::R13W => {},
        Register::R14W => {},
        Register::R15W => {},
        Register::AH => {},
        Register::DH => {},
        Register::CH => {},
        Register::BH => {},
        Register::AL => {},
        Register::DL => {},
        Register::CL => {},
        Register::BL => {},
        Register::SIL => {},
        Register::DIL => {},
        Register::BPL => {},
        Register::SPL => {},
        Register::R8B => {},
        Register::R9B => {},
        Register::R10B => {},
        Register::R11B => {},
        Register::R12B => {},
        Register::R13B => {},
        Register::R14B => {},
        Register::R15B => {},
        Register::FCW => {},
        Register::FSW => {},
        Register::FTW => {},
        Register::FOP => {},
        Register::FRIP => {},
        Register::FRDP => {},
        Register::MXCSR => {},
        Register::MXCSR_MASK => {},
        Register::ST0 => {},
        Register::ST1 => {},
        Register::ST2 => {},
        Register::ST3 => {},
        Register::ST4 => {},
        Register::ST5 => {},
        Register::ST6 => {},
        Register::ST7 => {},
        Register::MM0 => {},
        Register::MM1 => {},
        Register::MM2 => {},
        Register::MM3 => {},
        Register::MM4 => {},
        Register::MM5 => {},
        Register::MM6 => {},
        Register::MM7 => {},
        Register::XMM0 => {},
        Register::XMM1 => {},
        Register::XMM2 => {},
        Register::XMM3 => {},
        Register::XMM4 => {},
        Register::XMM5 => {},
        Register::XMM6 => {},
        Register::XMM7 => {},
        Register::XMM8 => {},
        Register::XMM9 => {},
        Register::XMM10 => {},
        Register::XMM11 => {},
        Register::XMM12 => {},
        Register::XMM13 => {},
        Register::XMM14 => {},
        Register::XMM15 => {},
        Register::DR0 => {},
        Register::DR1 => {},
        Register::DR2 => {},
        Register::DR3 => {},
        Register::DR4 => {},
        Register::DR5 => {},
        Register::DR6 => {},
        Register::DR7 => {},
    }
}

/// A register's size in bits never exceeds its native width; it equals it for
/// every width but the 80-bit one, whose size is 10 bytes.
pub proof fn lemma_size_within_width(r: Register)
    ensures
        info_of(r).size * 8 <= info_of(r).width.spec_bits(),
        info_of(r).width != RegisterWidth::W80 ==> info_of(r).size * 8 == info_of(r).width.spec_bits(),
        info_of(r).width == RegisterWidth::W80 ==> info_of(r).size == 10,
{
}

/// The metadata of every register, in catalog order.
pub fn registers_info() -> (v: Vec<RegisterInfo>)
    ensures
        v@.len() == REGISTER_COUNT,
        forall|i: int| 0 <= i < v@.len() ==> index_of(#[trigger] v@[i].register) == i,
        forall|i: int| 0 <= i < v@.len() ==> #[trigger] v@[i] == info_of(v@[i].register),
{
    let mut v: Vec<RegisterInfo> = Vec::new();
    let mut i: usize = 0;
    while i < REGISTER_COUNT
        invariant
            i <= REGISTER_COUNT,
            v@.len() == i,
            forall|k: int| 0 <= k < v@.len() ==> index_of(#[trigger] v@[k].register) == k,
            forall|k: int| 0 <= k < v@.len() ==> #[trigger] v@[k] == info_of(v@[k].register),
        decreases REGISTER_COUNT - i,
    {
        match Register::from_index(i) {
            Some(reg) => {
                v.push(register_info(reg));
            },
            None => {},
        }
        i = i + 1;
    }
    v
}

/// Every register the debugger knows on x86-64, in catalog order.
#[derive(Clone, Copy, Debug, Hash, PartialEq, Eq, Structural)]
#[allow(non_camel_case_types)]
pub enum Register {
    RAX,
    RDX,
    RCX,
    RBX,
    RSI,
    RDI,
    RBP,
    RSP,
    R8,
    R9,
    R10,
    R11,
    R12,
    R13,
    R14,
    R15,
    RIP,
    EFLAGS,
    CS,
    FS,
    GS,
    SS,
    DS,
    ES,
    ORIGRAX,
    EAX,
    EDX,
    ECX,
    EBX,
    ESI,
    EDI,
    EBP,
    ESP,
    R8D,
    R9D,
    R10D,
    R11D,
    R12D,
    R13D,
    R14D,
    R15D,
    AX,
    DX,
    CX,
    SI,
    DI,
    BP,
    SP,
    R8W,
    R9W,
    R10W,
    R11W,
    R12W,
    R13W,
    R14W,
    R15W,
    AH,
    DH,
    CH,
    BH,
    AL,
    DL,
    CL,
    BL,
    SIL,
    DIL,
    BPL,
    SPL,
    R8B,
    R9B,
    R10B,
    R11B,
    R12B,
    R13B,
    R14B,
    R15B,
    FCW,
    FSW,
    FTW,
    FOP,
    FRIP,
    FRDP,
    MXCSR,
    MXCSR_MASK,
    ST0,
    ST1,
    ST2,
    ST3,
    ST4,
    ST5,
    ST6,
    ST7,
    MM0,
    MM1,
    MM2,
    MM3,
    MM4,
    MM5,
    MM6,
    MM7,
    XMM0,
    XMM1,
    XMM2,
    XMM3,
    XMM4,
    XMM5,
    XMM6,
    XMM7,
    XMM8,
    XMM9,
    XMM10,
    XMM11,
    XMM12,
    XMM13,
    XMM14,
    XMM15,
    DR0,
    DR1,
    DR2,
    DR3,
    DR4,
    DR5,
    DR6,
    DR7,
}

/// The number of registers in the catalog.
pub const REGISTER_COUNT: usize = 124;

/// The declaration of each register: the catalog itself.
pub open spec fn decl_of(r: Register) -> RegisterDecl {
    match r {
        Register::RAX => RegisterDecl { register: Register::RAX, name: "rax", dwarf: 0, width: RegisterWidth::W64, reg_type: RegisterType::GeneralPurpose, format: RegisterFormat::Uint64, loc: Location::Regs(RegsField::Rax) },
        Register::RDX => RegisterDecl { register: Register::RDX, name: "rdx", dwarf: 1, width: RegisterWidth::W64, reg_type: RegisterType::GeneralPurpose, format: RegisterFormat::Uint64, loc: Location::Regs(RegsField::Rdx) },
        Register::RCX => RegisterDecl { register: Register::RCX, name: "rcx", dwarf: 2, width: RegisterWidth::W64, reg_type: RegisterType::GeneralPurpose, format: RegisterFormat::Uint64, loc: Location::Regs(RegsField::Rcx) },
        Register::RBX => RegisterDecl { register: Register::RBX, name: "rbx", dwarf: 3, width: RegisterWidth::W64, reg_type: RegisterType::GeneralPurpose, format: RegisterFormat::Uint64, loc: Location::Regs(RegsField::Rbx) },
        Register::RSI => RegisterDecl { register: Register::RSI, name: "rsi", dwarf: 4, width: RegisterWidth::W64, reg_type: RegisterType::GeneralPurpose, format: RegisterFormat::Uint64, loc: Location::Regs(RegsField::Rsi) },
        Register::RDI => RegisterDecl { register: Register::RDI, name: "rdi", dwarf: 5, width: RegisterWidth::W64, reg_type: RegisterType::GeneralPurpose, format: RegisterFormat::Uint64, loc: Location::Regs(RegsField::Rdi) },
        Register::RBP => RegisterDecl { register: Register::RBP, name: "rbp", dwarf: 6, width: RegisterWidth::W64, reg_type: RegisterType::GeneralPurpose, format: RegisterFormat::Uint64, loc: Location::Regs(RegsField::Rbp) },
        Register::RSP => RegisterDecl { register: Register::RSP, name: "rsp", dwarf: 7, width: RegisterWidth::W64, reg_type: RegisterType::GeneralPurpose, format: RegisterFormat::Uint64, loc: Location::Regs(RegsField::Rsp) },
        Register::R8 => RegisterDecl { register: Register::R8, name: "r8", dwarf: 8, width: RegisterWidth::W64, reg_type: RegisterType::GeneralPurpose, format: RegisterFormat::Uint64, loc: Location::Regs(RegsField::R8) },
        Register::R9 => RegisterDecl { register: Register::R9, name: "r9", dwarf: 9, width: RegisterWidth::W64, reg_type: RegisterType::GeneralPurpose, format: RegisterFormat::Uint64, loc: Location::Regs(RegsField::R9) },
        Register::R10 => RegisterDecl { register: Register::R10, name: "r10", dwarf: 10, width: RegisterWidth::W64, reg_type: RegisterType::GeneralPurpose, format: RegisterFormat::Uint64, loc: Location::Regs(RegsField::R10) },
        Register::R11 => RegisterDecl { register: Register::R11, name: "r11", dwarf: 11, width: RegisterWidth::W64, reg_type: RegisterType::GeneralPurpose, format: RegisterFormat::Uint64, loc: Location::Regs(RegsField::R11) },
        Register::R12 => RegisterDecl { register: Register::R12, name: "r12", dwarf: 12, width: RegisterWidth::W64, reg_type: RegisterType::GeneralPurpose, format: RegisterFormat::Uint64, loc: Location::Regs(RegsField::R12) },
        Register::R13 => RegisterDecl { register: Register::R13, name: "r13", dwarf: 13, width: RegisterWidth::W64, reg_type: RegisterType::GeneralPurpose, format: RegisterFormat::Uint64, loc: Location::Regs(RegsField::R13) },
        Register::R14 => RegisterDecl { register: Register::R14, name: "r14", dwarf: 14, width: RegisterWidth::W64, reg_type: RegisterType::GeneralPurpose, format: RegisterFormat::Uint64, loc: Location::Regs(RegsField::R14) },
        Register::R15 => RegisterDecl { register: Register::R15, name: "r15", dwarf: 15, width: RegisterWidth::W64, reg_type: RegisterType::GeneralPurpose, format: RegisterFormat::Uint64, loc: Location::Regs(RegsField::R15) },
        Register::RIP => RegisterDecl { register: Register::RIP, name: "rip", dwarf: 16, width: RegisterWidth::W64, reg_type: RegisterType::GeneralPurpose, format: RegisterFormat::Uint64, loc: Location::Regs(RegsField::Rip) },
        Register::EFLAGS => RegisterDecl { register: Register::EFLAGS, name: "eflags", dwarf: 49, width: RegisterWidth::W64, reg_type: RegisterType::GeneralPurpose, format: RegisterFormat::Uint64, loc: Location::Regs(RegsField::Eflags) },
        Register::CS => RegisterDecl { register: Register::CS, name: "cs", dwarf: 51, width: RegisterWidth::W64, reg_type: RegisterType::GeneralPurpose, format: RegisterFormat::Uint64, loc: Location::Regs(RegsField::Cs) },
        Register::FS => RegisterDecl { register: Register::FS, name: "fs", dwarf: 54, width: RegisterWidth::W64, reg_type: RegisterType::GeneralPurpose, format: RegisterFormat::Uint64, loc: Location::Regs(RegsField::Fs) },
        Register::GS => RegisterDecl { register: Register::GS, name: "gs", dwarf: 55, width: RegisterWidth::W64, reg_type: RegisterType::GeneralPurpose, format: RegisterFormat::Uint64, loc: Location::Regs(RegsField::Gs) },
        Register::SS => RegisterDecl { register: Register::SS, name: "ss", dwarf: 52, width: RegisterWidth::W64, reg_type: RegisterType::GeneralPurpose, format: RegisterFormat::Uint64, loc: Location::Regs(RegsField::Ss) },
        Register::DS => RegisterDecl { register: Register::DS, name: "ds", dwarf: 53, width: RegisterWidth::W64, reg_type: RegisterType::GeneralPurpose, format: RegisterFormat::Uint64, loc: Location::Regs(RegsField::Ds) },
        Register::ES => RegisterDecl { register: Register::ES, name: "es", dwarf: 50, width: RegisterWidth::W64, reg_type: RegisterType::GeneralPurpose, format: RegisterFormat::Uint64, loc: Location::Regs(RegsField::Es) },
        Register::ORIGRAX => RegisterDecl { register: Register::ORIGRAX, name: "orig_rax", dwarf: -1i32, width: RegisterWidth::W64, reg_type: RegisterType::GeneralPurpose, format: RegisterFormat::Uint64, loc: Location::Regs(RegsField::OrigRax) },
        Register::EAX => RegisterDecl { register: Register::EAX, name: "eax", dwarf: -1i32, width: RegisterWidth::W32, reg_type: RegisterType::SubGeneralPurpose, format: RegisterFormat::Uint32, loc: Location::Regs(RegsField::Rax) },
        Register::EDX => RegisterDecl { register: Register::EDX, name: "edx", dwarf: -1i32, width: RegisterWidth::W32, reg_type: RegisterType::SubGeneralPurpose, format: RegisterFormat::Uint32, loc: Location::Regs(RegsField::Rdx) },
        Register::ECX => RegisterDecl { register: Register::ECX, name: "ecx", dwarf: -1i32, width: RegisterWidth::W32, reg_type: RegisterType::SubGeneralPurpose, format: RegisterFormat::Uint32, loc: Location::Regs(RegsField::Rcx) },
        Register::EBX => RegisterDecl { register: Register::EBX, name: "ebx", dwarf: -1i32, width: RegisterWidth::W32, reg_type: RegisterType::SubGeneralPurpose, format: RegisterFormat::Uint32, loc: Location::Regs(RegsField::Rbx) },
        Register::ESI => RegisterDecl { register: Register::ESI, name: "esi", dwarf: -1i32, width: RegisterWidth::W32, reg_type: RegisterType::SubGeneralPurpose, format: RegisterFormat::Uint32, loc: Location::Regs(RegsField::Rsi) },
        Register::EDI => RegisterDecl { register: Register::EDI, name: "edi", dwarf: -1i32, width: RegisterWidth::W32, reg_type: RegisterType::SubGeneralPurpose, format: RegisterFormat::Uint32, loc: Location::Regs(RegsField::Rdi) },
        Register::EBP => RegisterDecl { register: Register::EBP, name: "ebp", dwarf: -1i32, width: RegisterWidth::W32, reg_type: RegisterType::SubGeneralPurpose, format: RegisterFormat::Uint32, loc: Location::Regs(RegsField::Rbp) },
        Register::ESP => RegisterDecl { register: Register::ESP, name: "esp", dwarf: -1i32, width: RegisterWidth::W32, reg_type: RegisterType::SubGeneralPurpose, format: RegisterFormat::Uint32, loc: Location::Regs(RegsField::Rsp) },
        Register::R8D => RegisterDecl { register: Register::R8D, name: "r8d", dwarf: -1i32, width: RegisterWidth::W32, reg_type: RegisterType::SubGeneralPurpose, format: RegisterFormat::Uint32, loc: Location::Regs(RegsField::R8) },
        Register::R9D => RegisterDecl { register: Register::R9D, name: "r9d", dwarf: -1i32, width: RegisterWidth::W32, reg_type: RegisterType::SubGeneralPurpose, format: RegisterFormat::Uint32, loc: Location::Regs(RegsField::R9) },
        Register::R10D => RegisterDecl { register: Register::R10D, name: "r10d", dwarf: -1i32, width: RegisterWidth::W32, reg_type: RegisterType::SubGeneralPurpose, format: RegisterFormat::Uint32, loc: Location::Regs(RegsField::R10) },
        Register::R11D => RegisterDecl { register: Register::R11D, name: "r11d", dwarf: -1i32, width: RegisterWidth::W32, reg_type: RegisterType::SubGeneralPurpose, format: RegisterFormat::Uint32, loc: Location::Regs(RegsField::R11) },
        Register::R12D => RegisterDecl { register: Register::R12D, name: "r12d", dwarf: -1i32, width: RegisterWidth::W32, reg_type: RegisterType::SubGeneralPurpose, format: RegisterFormat::Uint32, loc: Location::Regs(RegsField::R12) },
        Register::R13D => RegisterDecl { register: Register::R13D, name: "r13d", dwarf: -1i32, width: RegisterWidth::W32, reg_type: RegisterType::SubGeneralPurpose, format: RegisterFormat::Uint32, loc: Location::Regs(RegsField::R13) },
        Register::R14D => RegisterDecl { register: Register::R14D, name: "r14d", dwarf: -1i32, width: RegisterWidth::W32, reg_type: RegisterType::SubGeneralPurpose, format: RegisterFormat::Uint32, loc: Location::Regs(RegsField::R14) },
        Register::R15D => RegisterDecl { register: Register::R15D, name: "r15d", dwarf: -1i32, width: RegisterWidth::W32, reg_type: RegisterType::SubGeneralPurpose, format: RegisterFormat::Uint32, loc: Location::Regs(RegsField::R15) },
        Register::AX => RegisterDecl { register: Register::AX, name: "ax", dwarf: -1i32, width: RegisterWidth::W16, reg_type: RegisterType::SubGeneralPurpose, format: RegisterFormat::Uint16, loc: Location::Regs(RegsField::Rax) },
        Register::DX => RegisterDecl { register: Register::DX, name: "dx", dwarf: -1i32, width: RegisterWidth::W16, reg_type: RegisterType::SubGeneralPurpose, format: RegisterFormat::Uint16, loc: Location::Regs(RegsField::Rdx) },
        Register::CX => RegisterDecl { register: Register::CX, name: "cx", dwarf: -1i32, width: RegisterWidth::W16, reg_type: RegisterType::SubGeneralPurpose, format: RegisterFormat::Uint16, loc: Location::Regs(RegsField::Rcx) },
        Register::SI => RegisterDecl { register: Register::SI, name: "si", dwarf: -1i32, width: RegisterWidth::W16, reg_type: RegisterType::SubGeneralPurpose, format: RegisterFormat::Uint16, loc: Location::Regs(RegsField::Rsi) },
        Register::DI => RegisterDecl { register: Register::DI, name: "di", dwarf: -1i32, width: RegisterWidth::W16, reg_type: RegisterType::SubGeneralPurpose, format: RegisterFormat::Uint16, loc: Location::Regs(RegsField::Rdi) },
        Register::BP => RegisterDecl { register: Register::BP, name: "bp", dwarf: -1i32, width: RegisterWidth::W16, reg_type: RegisterType::SubGeneralPurpose, format: RegisterFormat::Uint16, loc: Location::Regs(RegsField::Rbp) },
        Register::SP => RegisterDecl { register: Register::SP, name: "sp", dwarf: -1i32, width: RegisterWidth::W16, reg_type: RegisterType::SubGeneralPurpose, format: RegisterFormat::Uint16, loc: Location::Regs(RegsField::Rsp) },
        Register::R8W => RegisterDecl { register: Register::R8W, name: "r8w", dwarf: -1i32, width: RegisterWidth::W16, reg_type: RegisterType::SubGeneralPurpose, format: RegisterFormat::Uint16, loc: Location::Regs(RegsField::R8) },
        Register::R9W => RegisterDecl { register: Register::R9W, name: "r9w", dwarf: -1i32, width: RegisterWidth::W16, reg_type: RegisterType::SubGeneralPurpose, format: RegisterFormat::Uint16, loc: Location::Regs(RegsField::R9) },
        Register::R10W => RegisterDecl { register: Register::R10W, name: "r10w", dwarf: -1i32, width: RegisterWidth::W16, reg_type: RegisterType::SubGeneralPurpose, format: RegisterFormat::Uint16, loc: Location::Regs(RegsField::R10) },
        Register::R11W => RegisterDecl { register: Register::R11W, name: "r11w", dwarf: -1i32, width: RegisterWidth::W16, reg_type: RegisterType::SubGeneralPurpose, format: RegisterFormat::Uint16, loc: Location::Regs(RegsField::R11) },
        Register::R12W => RegisterDecl { register: Register::R12W, name: "r12w", dwarf: -1i32, width: RegisterWidth::W16, reg_type: RegisterType::SubGeneralPurpose, format: RegisterFormat::Uint16, loc: Location::Regs(RegsField::R12) },
        Register::R13W => RegisterDecl { register: Register::R13W, name: "r13w", dwarf: -1i32, width: RegisterWidth::W16, reg_type: RegisterType::SubGeneralPurpose, format: RegisterFormat::Uint16, loc: Location::Regs(RegsField::R13) },
        Register::R14W => RegisterDecl { register: Register::R14W, name: "r14w", dwarf: -1i32, width: RegisterWidth::W16, reg_type: RegisterType::SubGeneralPurpose, format: RegisterFormat::Uint16, loc: Location::Regs(RegsField::R14) },
        Register::R15W => RegisterDecl { register: Register::R15W, name: "r15w", dwarf: -1i32, width: RegisterWidth::W16, reg_type: RegisterType::SubGeneralPurpose, format: RegisterFormat::Uint16, loc: Location::Regs(RegsField::R15) },
        Register::AH => RegisterDecl { register: Register::AH, name: "ah", dwarf: -1i32, width: RegisterWidth::W8H, reg_type: RegisterType::SubGeneralPurpose, format: RegisterFormat::Uint8, loc: Location::Regs(RegsField::Rax) },
        Register::DH => RegisterDecl { register: Register::DH, name: "dh", dwarf: -1i32, width: RegisterWidth::W8H, reg_type: RegisterType::SubGeneralPurpose, format: RegisterFormat::Uint8, loc: Location::Regs(RegsField::Rdx) },
        Register::CH => RegisterDecl { register: Register::CH, name: "ch", dwarf: -1i32, width: RegisterWidth::W8H, reg_type: RegisterType::SubGeneralPurpose, format: RegisterFormat::Uint8, loc: Location::Regs(RegsField::Rcx) },
        Register::BH => RegisterDecl { register: Register::BH, name: "bh", dwarf: -1i32, width: RegisterWidth::W8H, reg_type: RegisterType::SubGeneralPurpose, format: RegisterFormat::Uint8, loc: Location::Regs(RegsField::Rbx) },
        Register::AL => RegisterDecl { register: Register::AL, name: "al", dwarf: -1i32, width: RegisterWidth::W8L, reg_type: RegisterType::SubGeneralPurpose, format: RegisterFormat::Uint8, loc: Location::Regs(RegsField::Rax) },
        Register::DL => RegisterDecl { register: Register::DL, name: "dl", dwarf: -1i32, width: RegisterWidth::W8L, reg_type: RegisterType::SubGeneralPurpose, format: RegisterFormat::Uint8, loc: Location::Regs(RegsField::Rdx) },
        Register::CL => RegisterDecl { register: Register::CL, name: "cl", dwarf: -1i32, width: RegisterWidth::W8L, reg_type: RegisterType::SubGeneralPurpose, format: RegisterFormat::Uint8, loc: Location::Regs(RegsField::Rcx) },
        Register::BL => RegisterDecl { register: Register::BL, name: "bl", dwarf: -1i32, width: RegisterWidth::W8L, reg_type: RegisterType::SubGeneralPurpose, format: RegisterFormat::Uint8, loc: Location::Regs(RegsField::Rbx) },
        Register::SIL => RegisterDecl { register: Register::SIL, name: "sil", dwarf: -1i32, width: RegisterWidth::W8L, reg_type: RegisterType::SubGeneralPurpose, format: RegisterFormat::Uint8, loc: Location::Regs(RegsField::Rsi) },
        Register::DIL => RegisterDecl { register: Register::DIL, name: "dil", dwarf: -1i32, width: RegisterWidth::W8L, reg_type: RegisterType::SubGeneralPurpose, format: RegisterFormat::Uint8, loc: Location::Regs(RegsField::Rdi) },
        Register::BPL => RegisterDecl { register: Register::BPL, name: "bpl", dwarf: -1i32, width: RegisterWidth::W8L, reg_type: RegisterType::SubGeneralPurpose, format: RegisterFormat::Uint8, loc: Location::Regs(RegsField::Rbp) },
        Register::SPL => RegisterDecl { register: Register::SPL, name: "spl", dwarf: -1i32, width: RegisterWidth::W8L, reg_type: RegisterType::SubGeneralPurpose, format: RegisterFormat::Uint8, loc: Location::Regs(RegsField::Rsp) },
        Register::R8B => RegisterDecl { register: Register::R8B, name: "r8b", dwarf: -1i32, width: RegisterWidth::W8L, reg_type: RegisterType::SubGeneralPurpose, format: RegisterFormat::Uint8, loc: Location::Regs(RegsField::R8) },
        Register::R9B => RegisterDecl { register: Register::R9B, name: "r9b", dwarf: -1i32, width: RegisterWidth::W8L, reg_type: RegisterType::SubGeneralPurpose, format: RegisterFormat::Uint8, loc: Location::Regs(RegsField::R9) },
        Register::R10B => RegisterDecl { register: Register::R10B, name: "r10b", dwarf: -1i32, width: RegisterWidth::W8L, reg_type: RegisterType::SubGeneralPurpose, format: RegisterFormat::Uint8, loc: Location::Regs(RegsField::R10) },
        Register::R11B => RegisterDecl { register: Register::R11B, name: "r11b", dwarf: -1i32, width: RegisterWidth::W8L, reg_type: RegisterType::SubGeneralPurpose, format: RegisterFormat::Uint8, loc: Location::Regs(RegsField::R11) },
        Register::R12B => RegisterDecl { register: Register::R12B, name: "r12b", dwarf: -1i32, width: RegisterWidth::W8L, reg_type: RegisterType::SubGeneralPurpose, format: RegisterFormat::Uint8, loc: Location::Regs(RegsField::R12) },
        Register::R13B => RegisterDecl { register: Register::R13B, name: "r13b", dwarf: -1i32, width: RegisterWidth::W8L, reg_type: RegisterType::SubGeneralPurpose, format: RegisterFormat::Uint8, loc: Location::Regs(RegsField::R13) },
        Register::R14B => RegisterDecl { register: Register::R14B, name: "r14b", dwarf: -1i32, width: RegisterWidth::W8L, reg_type: RegisterType::SubGeneralPurpose, format: RegisterFormat::Uint8, loc: Location::Regs(RegsField::R14) },
        Register::R15B => RegisterDecl { register: Register::R15B, name: "r15b", dwarf: -1i32, width: RegisterWidth::W8L, reg_type: RegisterType::SubGeneralPurpose, format: RegisterFormat::Uint8, loc: Location::Regs(RegsField::R15) },
        Register::FCW => RegisterDecl { register: Register::FCW, name: "cwd", dwarf: -1i32, width: RegisterWidth::W16, reg_type: RegisterType::FloatingPoint, format: RegisterFormat::Uint16, loc: Location::Fpu(FpuField::Cwd) },
        Register::FSW => RegisterDecl { register: Register::FSW, name: "swd", dwarf: -1i32, width: RegisterWidth::W16, reg_type: RegisterType::FloatingPoint, format: RegisterFormat::Uint16, loc: Location::Fpu(FpuField::Swd) },
        Register::FTW => RegisterDecl { register: Register::FTW, name: "ftw", dwarf: -1i32, width: RegisterWidth::W16, reg_type: RegisterType::FloatingPoint, format: RegisterFormat::Uint16, loc: Location::Fpu(FpuField::Ftw) },
        Register::FOP => RegisterDecl { register: Register::FOP, name: "fop", dwarf: -1i32, width: RegisterWidth::W16, reg_type: RegisterType::FloatingPoint, format: RegisterFormat::Uint16, loc: Location::Fpu(FpuField::Fop) },
        Register::FRIP => RegisterDecl { register: Register::FRIP, name: "rip", dwarf: -1i32, width: RegisterWidth::W64, reg_type: RegisterType::FloatingPoint, format: RegisterFormat::Uint16, loc: Location::Fpu(FpuField::Rip) },
        Register::FRDP => RegisterDecl { register: Register::FRDP, name: "rdp", dwarf: -1i32, width: RegisterWidth::W64, reg_type: RegisterType::FloatingPoint, format: RegisterFormat::Uint16, loc: Location::Fpu(FpuField::Rdp) },
        Register::MXCSR => RegisterDecl { register: Register::MXCSR, name: "mxcsr", dwarf: -1i32, width: RegisterWidth::W32, reg_type: RegisterType::FloatingPoint, format: RegisterFormat::Uint16, loc: Location::Fpu(FpuField::Mxcsr) },
        Register::MXCSR_MASK => RegisterDecl { register: Register::MXCSR_MASK, name: "mxcr_mask", dwarf: -1i32, width: RegisterWidth::W32, reg_type: RegisterType::FloatingPoint, format: RegisterFormat::Uint16, loc: Location::Fpu(FpuField::MxcrMask) },
        Register::ST0 => RegisterDecl { register: Register::ST0, name: "st0", dwarf: -1i32, width: RegisterWidth::W80, reg_type: RegisterType::FloatingPoint, format: RegisterFormat::LongDouble, loc: Location::FpuArray(FpuArrayField::St, 0) },
        Register::ST1 => RegisterDecl { register: Register::ST1, name: "st1", dwarf: -1i32, width: RegisterWidth::W80, reg_type: RegisterType::FloatingPoint, format: RegisterFormat::LongDouble, loc: Location::FpuArray(FpuArrayField::St, 1) },
        Register::ST2 => RegisterDecl { register: Register::ST2, name: "st2", dwarf: -1i32, width: RegisterWidth::W80, reg_type: RegisterType::FloatingPoint, format: RegisterFormat::LongDouble, loc: Location::FpuArray(FpuArrayField::St, 2) },
        Register::ST3 => RegisterDecl { register: Register::ST3, name: "st3", dwarf: -1i32, width: RegisterWidth::W80, reg_type: RegisterType::FloatingPoint, format: RegisterFormat::LongDouble, loc: Location::FpuArray(FpuArrayField::St, 3) },
        Register::ST4 => RegisterDecl { register: Register::ST4, name: "st4", dwarf: -1i32, width: RegisterWidth::W80, reg_type: RegisterType::FloatingPoint, format: RegisterFormat::LongDouble, loc: Location::FpuArray(FpuArrayField::St, 4) },
        Register::ST5 => RegisterDecl { register: Register::ST5, name: "st5", dwarf: -1i32, width: RegisterWidth::W80, reg_type: RegisterType::FloatingPoint, format: RegisterFormat::LongDouble, loc: Location::FpuArray(FpuArrayField::St, 5) },
        Register::ST6 => RegisterDecl { register: Register::ST6, name: "st6", dwarf: -1i32, width: RegisterWidth::W80, reg_type: RegisterType::FloatingPoint, format: RegisterFormat::LongDouble, loc: Location::FpuArray(FpuArrayField::St, 6) },
        Register::ST7 => RegisterDecl { register: Register::ST7, name: "st7", dwarf: -1i32, width: RegisterWidth::W80, reg_type: RegisterType::FloatingPoint, format: RegisterFormat::LongDouble, loc: Location::FpuArray(FpuArrayField::St, 7) },
        Register::MM0 => RegisterDecl { register: Register::MM0, name: "mm0", dwarf: -1i32, width: RegisterWidth::W64, reg_type: RegisterType::FloatingPoint, format: RegisterFormat::Byte64, loc: Location::FpuArray(FpuArrayField::St, 0) },
        Register::MM1 => RegisterDecl { register: Register::MM1, name: "mm1", dwarf: -1i32, width: RegisterWidth::W64, reg_type: RegisterType::FloatingPoint, format: RegisterFormat::Byte64, loc: Location::FpuArray(FpuArrayField::St, 1) },
        Register::MM2 => RegisterDecl { register: Register::MM2, name: "mm2", dwarf: -1i32, width: RegisterWidth::W64, reg_type: RegisterType::FloatingPoint, format: RegisterFormat::Byte64, loc: Location::FpuArray(FpuArrayField::St, 2) },
        Register::MM3 => RegisterDecl { register: Register::MM3, name: "mm3", dwarf: -1i32, width: RegisterWidth::W64, reg_type: RegisterType::FloatingPoint, format: RegisterFormat::Byte64, loc: Location::FpuArray(FpuArrayField::St, 3) },
        Register::MM4 => RegisterDecl { register: Register::MM4, name: "mm4", dwarf: -1i32, width: RegisterWidth::W64, reg_type: RegisterType::FloatingPoint, format: RegisterFormat::Byte64, loc: Location::FpuArray(FpuArrayField::St, 4) },
        Register::MM5 => RegisterDecl { register: Register::MM5, name: "mm5", dwarf: -1i32, width: RegisterWidth::W64, reg_type: RegisterType::FloatingPoint, format: RegisterFormat::Byte64, loc: Location::FpuArray(FpuArrayField::St, 5) },
        Register::MM6 => RegisterDecl { register: Register::MM6, name: "mm6", dwarf: -1i32, width: RegisterWidth::W64, reg_type: RegisterType::FloatingPoint, format: RegisterFormat::Byte64, loc: Location::FpuArray(FpuArrayField::St, 6) },
        Register::MM7 => RegisterDecl { register: Register::MM7, name: "mm7", dwarf: -1i32, width: RegisterWidth::W64, reg_type: RegisterType::FloatingPoint, format: RegisterFormat::Byte64, loc: Location::FpuArray(FpuArrayField::St, 7) },
        Register::XMM0 => RegisterDecl { register: Register::XMM0, name: "xmm0", dwarf: -1i32, width: RegisterWidth::W128, reg_type: RegisterType::FloatingPoint, format: RegisterFormat::Byte128, loc: Location::FpuArray(FpuArrayField::Xmm, 0) },
        Register::XMM1 => RegisterDecl { register: Register::XMM1, name: "xmm1", dwarf: -1i32, width: RegisterWidth::W128, reg_type: RegisterType::FloatingPoint, format: RegisterFormat::Byte128, loc: Location::FpuArray(FpuArrayField::Xmm, 1) },
        Register::XMM2 => RegisterDecl { register: Register::XMM2, name: "xmm2", dwarf: -1i32, width: RegisterWidth::W128, reg_type: RegisterType::FloatingPoint, format: RegisterFormat::Byte128, loc: Location::FpuArray(FpuArrayField::Xmm, 2) },
        Register::XMM3 => RegisterDecl { register: Register::XMM3, name: "xmm3", dwarf: -1i32, width: RegisterWidth::W128, reg_type: RegisterType::FloatingPoint, format: RegisterFormat::Byte128, loc: Location::FpuArray(FpuArrayField::Xmm, 3) },
        Register::XMM4 => RegisterDecl { register: Register::XMM4, name: "xmm4", dwarf: -1i32, width: RegisterWidth::W128, reg_type: RegisterType::FloatingPoint, format: RegisterFormat::Byte128, loc: Location::FpuArray(FpuArrayField::Xmm, 4) },
        Register::XMM5 => RegisterDecl { register: Register::XMM5, name: "xmm5", dwarf: -1i32, width: RegisterWidth::W128, reg_type: RegisterType::FloatingPoint, format: RegisterFormat::Byte128, loc: Location::FpuArray(FpuArrayField::Xmm, 5) },
        Register::XMM6 => RegisterDecl { register: Register::XMM6, name: "xmm6", dwarf: -1i32, width: RegisterWidth::W128, reg_type: RegisterType::FloatingPoint, format: RegisterFormat::Byte128, loc: Location::FpuArray(FpuArrayField::Xmm, 6) },
        Register::XMM7 => RegisterDecl { register: Register::XMM7, name: "xmm7", dwarf: -1i32, width: RegisterWidth::W128, reg_type: RegisterType::FloatingPoint, format: RegisterFormat::Byte128, loc: Location::FpuArray(FpuArrayField::Xmm, 7) },
        Register::XMM8 => RegisterDecl { register: Register::XMM8, name: "xmm8", dwarf: -1i32, width: RegisterWidth::W128, reg_type: RegisterType::FloatingPoint, format: RegisterFormat::Byte128, loc: Location::FpuArray(FpuArrayField::Xmm, 8) },
        Register::XMM9 => RegisterDecl { register: Register::XMM9, name: "xmm9", dwarf: -1i32, width: RegisterWidth::W128, reg_type: RegisterType::FloatingPoint, format: RegisterFormat::Byte128, loc: Location::FpuArray(FpuArrayField::Xmm, 9) },
        Register::XMM10 => RegisterDecl { register: Register::XMM10, name: "xmm10", dwarf: -1i32, width: RegisterWidth::W128, reg_type: RegisterType::FloatingPoint, format: RegisterFormat::Byte128, loc: Location::FpuArray(FpuArrayField::Xmm, 10) },
        Register::XMM11 => RegisterDecl { register: Register::XMM11, name: "xmm11", dwarf: -1i32, width: RegisterWidth::W128, reg_type: RegisterType::FloatingPoint, format: RegisterFormat::Byte128, loc: Location::FpuArray(FpuArrayField::Xmm, 11) },
        Register::XMM12 => RegisterDecl { register: Register::XMM12, name: "xmm12", dwarf: -1i32, width: RegisterWidth::W128, reg_type: RegisterType::FloatingPoint, format: RegisterFormat::Byte128, loc: Location::FpuArray(FpuArrayField::Xmm, 12) },
        Register::XMM13 => RegisterDecl { register: Register::XMM13, name: "xmm13", dwarf: -1i32, width: RegisterWidth::W128, reg_type: RegisterType::FloatingPoint, format: RegisterFormat::Byte128, loc: Location::FpuArray(FpuArrayField::Xmm, 13) },
        Register::XMM14 => RegisterDecl { register: Register::XMM14, name: "xmm14", dwarf: -1i32, width: RegisterWidth::W128, reg_type: RegisterType::FloatingPoint, format: RegisterFormat::Byte128, loc: Location::FpuArray(FpuArrayField::Xmm, 14) },
        Register::XMM15 => RegisterDecl { register: Register::XMM15, name: "xmm15", dwarf: -1i32, width: RegisterWidth::W128, reg_type: RegisterType::FloatingPoint, format: RegisterFormat::Byte128, loc: Location::FpuArray(FpuArrayField::Xmm, 15) },
        Register::DR0 => RegisterDecl { register: Register::DR0, name: "u_debugreg[0]", dwarf: -1i32, width: RegisterWidth::W64, reg_type: RegisterType::Debug, format: RegisterFormat::Uint64, loc: Location::UserArray(UserField::UDebugReg, 0) },
        Register::DR1 => RegisterDecl { register: Register::DR1, name: "u_debugreg[1]", dwarf: -1i32, width: RegisterWidth::W64, reg_type: RegisterType::Debug, format: RegisterFormat::Uint64, loc: Location::UserArray(UserField::UDebugReg, 1) },
        Register::DR2 => RegisterDecl { register: Register::DR2, name: "u_debugreg[2]", dwarf: -1i32, width: RegisterWidth::W64, reg_type: RegisterType::Debug, format: RegisterFormat::Uint64, loc: Location::UserArray(UserField::UDebugReg, 2) },
        Register::DR3 => RegisterDecl { register: Register::DR3, name: "u_debugreg[3]", dwarf: -1i32, width: RegisterWidth::W64, reg_type: RegisterType::Debug, format: RegisterFormat::Uint64, loc: Location::UserArray(UserField::UDebugReg, 3) },
        Register::DR4 => RegisterDecl { register: Register::DR4, name: "u_debugreg[4]", dwarf: -1i32, width: RegisterWidth::W64, reg_type: RegisterType::Debug, format: RegisterFormat::Uint64, loc: Location::UserArray(UserField::UDebugReg, 4) },
        Register::DR5 => RegisterDecl { register: Register::DR5, name: "u_debugreg[5]", dwarf: -1i32, width: RegisterWidth::W64, reg_type: RegisterType::Debug, format: RegisterFormat::Uint64, loc: Location::UserArray(UserField::UDebugReg, 5) },
        Register::DR6 => RegisterDecl { register: Register::DR6, name: "u_debugreg[6]", dwarf: -1i32, width: RegisterWidth::W64, reg_type: RegisterType::Debug, format: RegisterFormat::Uint64, loc: Location::UserArray(UserField::UDebugReg, 6) },
        Register::DR7 => RegisterDecl { register: Register::DR7, name: "u_debugreg[7]", dwarf: -1i32, width: RegisterWidth::W64, reg_type: RegisterType::Debug, format: RegisterFormat::Uint64, loc: Location::UserArray(UserField::UDebugReg, 7) },
    }
}

/// Position of each register in the catalog.
pub open spec fn index_of(r: Register) -> nat {
    match r {
        Register::RAX => 0,
        Register::RDX => 1,
        Register::RCX => 2,
        Register::RBX => 3,
        Register::RSI => 4,
        Register::RDI => 5,
        Register::RBP => 6,
        Register::RSP => 7,
        Register::R8 => 8,
        Register::R9 => 9,
        Register::R10 => 10,
        Register::R11 => 11,
        Register::R12 => 12,
        Register::R13 => 13,
        Register::R14 => 14,
        Register::R15 => 15,
        Register::RIP => 16,
        Register::EFLAGS => 17,
        Register::CS => 18,
        Register::FS => 19,
        Register::GS => 20,
        Register::SS => 21,
        Register::DS => 22,
        Register::ES => 23,
        Register::ORIGRAX => 24,
        Register::EAX => 25,
        Register::EDX => 26,
        Register::ECX => 27,
        Register::EBX => 28,
        Register::ESI => 29,
        Register::EDI => 30,
        Register::EBP => 31,
        Register::ESP => 32,
        Register::R8D => 33,
        Register::R9D => 34,
        Register::R10D => 35,
        Register::R11D => 36,
        Register::R12D => 37,
        Register::R13D => 38,
        Register::R14D => 39,
        Register::R15D => 40,
        Register::AX => 41,
        Register::DX => 42,
        Register::CX => 43,
        Register::SI => 44,
        Register::DI => 45,
        Register::BP => 46,
        Register::SP => 47,
        Register::R8W => 48,
        Register::R9W => 49,
        Register::R10W => 50,
        Register::R11W => 51,
        Register::R12W => 52,
        Register::R13W => 53,
        Register::R14W => 54,
        Register::R15W => 55,
        Register::AH => 56,
        Register::DH => 57,
        Register::CH => 58,
        Register::BH => 59,
        Register::AL => 60,
        Register::DL => 61,
        Register::CL => 62,
        Register::BL => 63,
        Register::SIL => 64,
        Register::DIL => 65,
        Register::BPL => 66,
        Register::SPL => 67,
        Register::R8B => 68,
        Register::R9B => 69,
        Register::R10B => 70,
        Register::R11B => 71,
        Register::R12B => 72,
        Register::R13B => 73,
        Register::R14B => 74,
        Register::R15B => 75,
        Register::FCW => 76,
        Register::FSW => 77,
        Register::FTW => 78,
        Register::FOP => 79,
        Register::FRIP => 80,
        Register::FRDP => 81,
        Register::MXCSR => 82,
        Register::MXCSR_MASK => 83,
        Register::ST0 => 84,
        Register::ST1 => 85,
        Register::ST2 => 86,
        Register::ST3 => 87,
        Register::ST4 => 88,
        Register::ST5 => 89,
        Register::ST6 => 90,
        Register::ST7 => 91,
        Register::MM0 => 92,
        Register::MM1 => 93,
        Register::MM2 => 94,
        Register::MM3 => 95,
        Register::MM4 => 96,
        Register::MM5 => 97,
        Register::MM6 => 98,
        Register::MM7 => 99,
        Register::XMM0 => 100,
        Register::XMM1 => 101,
        Register::XMM2 => 102,
        Register::XMM3 => 103,
        Register::XMM4 => 104,
        Register::XMM5 => 105,
        Register::XMM6 => 106,
        Register::XMM7 => 107,
        Register::XMM8 => 108,
        Register::XMM9 => 109,
        Register::XMM10 => 110,
        Register::XMM11 => 111,
        Register::XMM12 => 112,
        Register::XMM13 => 113,
        Register::XMM14 => 114,
        Register::XMM15 => 115,
        Register::DR0 => 116,
        Register::DR1 => 117,
        Register::DR2 => 118,
        Register::DR3 => 119,
        Register::DR4 => 120,
        Register::DR5 => 121,
        Register::DR6 => 122,
        Register::DR7 => 123,
    }
}

/// The declaration of `register`, as `decl_of` gives it.
pub fn register_decl(register: Register) -> (d: RegisterDecl)
    ensures
        d == decl_of(register),
{
    match register {
        Register::RAX => return RegisterDecl { register: Register::RAX, name: "rax", dwarf: 0, width: RegisterWidth::W64, reg_type: RegisterType::GeneralPurpose, format: RegisterFormat::Uint64, loc: Location::Regs(RegsField::Rax) },
        Register::RDX => return RegisterDecl { register: Register::RDX, name: "rdx", dwarf: 1, width: RegisterWidth::W64, reg_type: RegisterType::GeneralPurpose, format: RegisterFormat::Uint64, loc: Location::Regs(RegsField::Rdx) },
        Register::RCX => return RegisterDecl { register: Register::RCX, name: "rcx", dwarf: 2, width: RegisterWidth::W64, reg_type: RegisterType::GeneralPurpose, format: RegisterFormat::Uint64, loc: Location::Regs(RegsField::Rcx) },
        Register::RBX => return RegisterDecl { register: Register::RBX, name: "rbx", dwarf: 3, width: RegisterWidth::W64, reg_type: RegisterType::GeneralPurpose, format: RegisterFormat::Uint64, loc: Location::Regs(RegsField::Rbx) },
        Register::RSI => return RegisterDecl { register: Register::RSI, name: "rsi", dwarf: 4, width: RegisterWidth::W64, reg_type: RegisterType::GeneralPurpose, format: RegisterFormat::Uint64, loc: Location::Regs(RegsField::Rsi) },
        Register::RDI => return RegisterDecl { register: Register::RDI, name: "rdi", dwarf: 5, width: RegisterWidth::W64, reg_type: RegisterType::GeneralPurpose, format: RegisterFormat::Uint64, loc: Location::Regs(RegsField::Rdi) },
        Register::RBP => return RegisterDecl { register: Register::RBP, name: "rbp", dwarf: 6, width: RegisterWidth::W64, reg_type: RegisterType::GeneralPurpose, format: RegisterFormat::Uint64, loc: Location::Regs(RegsField::Rbp) },
        Register::RSP => return RegisterDecl { register: Register::RSP, name: "rsp", dwarf: 7, width: RegisterWidth::W64, reg_type: RegisterType::GeneralPurpose, format: RegisterFormat::Uint64, loc: Location::Regs(RegsField::Rsp) },
        Register::R8 => return RegisterDecl { register: Register::R8, name: "r8", dwarf: 8, width: RegisterWidth::W64, reg_type: RegisterType::GeneralPurpose, format: RegisterFormat::Uint64, loc: Location::Regs(RegsField::R8) },
        Register::R9 => return RegisterDecl { register: Register::R9, name: "r9", dwarf: 9, width: RegisterWidth::W64, reg_type: RegisterType::GeneralPurpose, format: RegisterFormat::Uint64, loc: Location::Regs(RegsField::R9) },
        Register::R10 => return RegisterDecl { register: Register::R10, name: "r10", dwarf: 10, width: RegisterWidth::W64, reg_type: RegisterType::GeneralPurpose, format: RegisterFormat::Uint64, loc: Location::Regs(RegsField::R10) },
        Register::R11 => return RegisterDecl { register: Register::R11, name: "r11", dwarf: 11, width: RegisterWidth::W64, reg_type: RegisterType::GeneralPurpose, format: RegisterFormat::Uint64, loc: Location::Regs(RegsField::R11) },
        Register::R12 => return RegisterDecl { register: Register::R12, name: "r12", dwarf: 12, width: RegisterWidth::W64, reg_type: RegisterType::GeneralPurpose, format: RegisterFormat::Uint64, loc: Location::Regs(RegsField::R12) },
        Register::R13 => return RegisterDecl { register: Register::R13, name: "r13", dwarf: 13, width: RegisterWidth::W64, reg_type: RegisterType::GeneralPurpose, format: RegisterFormat::Uint64, loc: Location::Regs(RegsField::R13) },
        Register::R14 => return RegisterDecl { register: Register::R14, name: "r14", dwarf: 14, width: RegisterWidth::W64, reg_type: RegisterType::GeneralPurpose, format: RegisterFormat::Uint64, loc: Location::Regs(RegsField::R14) },
        Register::R15 => return RegisterDecl { register: Register::R15, name: "r15", dwarf: 15, width: RegisterWidth::W64, reg_type: RegisterType::GeneralPurpose, format: RegisterFormat::Uint64, loc: Location::Regs(RegsField::R15) },
        Register::RIP => return RegisterDecl { register: Register::RIP, name: "rip", dwarf: 16, width: RegisterWidth::W64, reg_type: RegisterType::GeneralPurpose, format: RegisterFormat::Uint64, loc: Location::Regs(RegsField::Rip) },
        Register::EFLAGS => return RegisterDecl { register: Register::EFLAGS, name: "eflags", dwarf: 49, width: RegisterWidth::W64, reg_type: RegisterType::GeneralPurpose, format: RegisterFormat::Uint64, loc: Location::Regs(RegsField::Eflags) },
        Register::CS => return RegisterDecl { register: Register::CS, name: "cs", dwarf: 51, width: RegisterWidth::W64, reg_type: RegisterType::GeneralPurpose, format: RegisterFormat::Uint64, loc: Location::Regs(RegsField::Cs) },
        Register::FS => return RegisterDecl { register: Register::FS, name: "fs", dwarf: 54, width: RegisterWidth::W64, reg_type: RegisterType::GeneralPurpose, format: RegisterFormat::Uint64, loc: Location::Regs(RegsField::Fs) },
        Register::GS => return RegisterDecl { register: Register::GS, name: "gs", dwarf: 55, width: RegisterWidth::W64, reg_type: RegisterType::GeneralPurpose, format: RegisterFormat::Uint64, loc: Location::Regs(RegsField::Gs) },
        Register::SS => return RegisterDecl { register: Register::SS, name: "ss", dwarf: 52, width: RegisterWidth::W64, reg_type: RegisterType::GeneralPurpose, format: RegisterFormat::Uint64, loc: Location::Regs(RegsField::Ss) },
        Register::DS => return RegisterDecl { register: Register::DS, name: "ds", dwarf: 53, width: RegisterWidth::W64, reg_type: RegisterType::GeneralPurpose, format: RegisterFormat::Uint64, loc: Location::Regs(RegsField::Ds) },
        Register::ES => return RegisterDecl { register: Register::ES, name: "es", dwarf: 50, width: RegisterWidth::W64, reg_type: RegisterType::GeneralPurpose, format: RegisterFormat::Uint64, loc: Location::Regs(RegsField::Es) },
        Register::ORIGRAX => return RegisterDecl { register: Register::ORIGRAX, name: "orig_rax", dwarf: -1i32, width: RegisterWidth::W64, reg_type: RegisterType::GeneralPurpose, format: RegisterFormat::Uint64, loc: Location::Regs(RegsField::OrigRax) },
        Register::EAX => return RegisterDecl { register: Register::EAX, name: "eax", dwarf: -1i32, width: RegisterWidth::W32, reg_type: RegisterType::SubGeneralPurpose, format: RegisterFormat::Uint32, loc: Location::Regs(RegsField::Rax) },
        Register::EDX => return RegisterDecl { register: Register::EDX, name: "edx", dwarf: -1i32, width: RegisterWidth::W32, reg_type: RegisterType::SubGeneralPurpose, format: RegisterFormat::Uint32, loc: Location::Regs(RegsField::Rdx) },
        Register::ECX => return RegisterDecl { register: Register::ECX, name: "ecx", dwarf: -1i32, width: RegisterWidth::W32, reg_type: RegisterType::SubGeneralPurpose, format: RegisterFormat::Uint32, loc: Location::Regs(RegsField::Rcx) },
        Register::EBX => return RegisterDecl { register: Register::EBX, name: "ebx", dwarf: -1i32, width: RegisterWidth::W32, reg_type: RegisterType::SubGeneralPurpose, format: RegisterFormat::Uint32, loc: Location::Regs(RegsField::Rbx) },
        Register::ESI => return RegisterDecl { register: Register::ESI, name: "esi", dwarf: -1i32, width: RegisterWidth::W32, reg_type: RegisterType::SubGeneralPurpose, format: RegisterFormat::Uint32, loc: Location::Regs(RegsField::Rsi) },
        Register::EDI => return RegisterDecl { register: Register::EDI, name: "edi", dwarf: -1i32, width: RegisterWidth::W32, reg_type: RegisterType::SubGeneralPurpose, format: RegisterFormat::Uint32, loc: Location::Regs(RegsField::Rdi) },
        Register::EBP => return RegisterDecl { register: Register::EBP, name: "ebp", dwarf: -1i32, width: RegisterWidth::W32, reg_type: RegisterType::SubGeneralPurpose, format: RegisterFormat::Uint32, loc: Location::Regs(RegsField::Rbp) },
        Register::ESP => return RegisterDecl { register: Register::ESP, name: "esp", dwarf: -1i32, width: RegisterWidth::W32, reg_type: RegisterType::SubGeneralPurpose, format: RegisterFormat::Uint32, loc: Location::Regs(RegsField::Rsp) },
        Register::R8D => return RegisterDecl { register: Register::R8D, name: "r8d", dwarf: -1i32, width: RegisterWidth::W32, reg_type: RegisterType::SubGeneralPurpose, format: RegisterFormat::Uint32, loc: Location::Regs(RegsField::R8) },
        Register::R9D => return RegisterDecl { register: Register::R9D, name: "r9d", dwarf: -1i32, width: RegisterWidth::W32, reg_type: RegisterType::SubGeneralPurpose, format: RegisterFormat::Uint32, loc: Location::Regs(RegsField::R9) },
        Register::R10D => return RegisterDecl { register: Register::R10D, name: "r10d", dwarf: -1i32, width: RegisterWidth::W32, reg_type: RegisterType::SubGeneralPurpose, format: RegisterFormat::Uint32, loc: Location::Regs(RegsField::R10) },
        Register::R11D => return RegisterDecl { register: Register::R11D, name: "r11d", dwarf: -1i32, width: RegisterWidth::W32, reg_type: RegisterType::SubGeneralPurpose, format: RegisterFormat::Uint32, loc: Location::Regs(RegsField::R11) },
        Register::R12D => return RegisterDecl { register: Register::R12D, name: "r12d", dwarf: -1i32, width: RegisterWidth::W32, reg_type: RegisterType::SubGeneralPurpose, format: RegisterFormat::Uint32, loc: Location::Regs(RegsField::R12) },
        Register::R13D => return RegisterDecl { register: Register::R13D, name: "r13d", dwarf: -1i32, width: RegisterWidth::W32, reg_type: RegisterType::SubGeneralPurpose, format: RegisterFormat::Uint32, loc: Location::Regs(RegsField::R13) },
        Register::R14D => return RegisterDecl { register: Register::R14D, name: "r14d", dwarf: -1i32, width: RegisterWidth::W32, reg_type: RegisterType::SubGeneralPurpose, format: RegisterFormat::Uint32, loc: Location::Regs(RegsField::R14) },
        Register::R15D => return RegisterDecl { register: Register::R15D, name: "r15d", dwarf: -1i32, width: RegisterWidth::W32, reg_type: RegisterType::SubGeneralPurpose, format: RegisterFormat::Uint32, loc: Location::Regs(RegsField::R15) },
        Register::AX => return RegisterDecl { register: Register::AX, name: "ax", dwarf: -1i32, width: RegisterWidth::W16, reg_type: RegisterType::SubGeneralPurpose, format: RegisterFormat::Uint16, loc: Location::Regs(RegsField::Rax) },
        Register::DX => return RegisterDecl { register: Register::DX, name: "dx", dwarf: -1i32, width: RegisterWidth::W16, reg_type: RegisterType::SubGeneralPurpose, format: RegisterFormat::Uint16, loc: Location::Regs(RegsField::Rdx) },
        Register::CX => return RegisterDecl { register: Register::CX, name: "cx", dwarf: -1i32, width: RegisterWidth::W16, reg_type: RegisterType::SubGeneralPurpose, format: RegisterFormat::Uint16, loc: Location::Regs(RegsField::Rcx) },
        Register::SI => return RegisterDecl { register: Register::SI, name: "si", dwarf: -1i32, width: RegisterWidth::W16, reg_type: RegisterType::SubGeneralPurpose, format: RegisterFormat::Uint16, loc: Location::Regs(RegsField::Rsi) },
        Register::DI => return RegisterDecl { register: Register::DI, name: "di", dwarf: -1i32, width: RegisterWidth::W16, reg_type: RegisterType::SubGeneralPurpose, format: RegisterFormat::Uint16, loc: Location::Regs(RegsField::Rdi) },
        Register::BP => return RegisterDecl { register: Register::BP, name: "bp", dwarf: -1i32, width: RegisterWidth::W16, reg_type: RegisterType::SubGeneralPurpose, format: RegisterFormat::Uint16, loc: Location::Regs(RegsField::Rbp) },
        Register::SP => return RegisterDecl { register: Register::SP, name: "sp", dwarf: -1i32, width: RegisterWidth::W16, reg_type: RegisterType::SubGeneralPurpose, format: RegisterFormat::Uint16, loc: Location::Regs(RegsField::Rsp) },
        Register::R8W => return RegisterDecl { register: Register::R8W, name: "r8w", dwarf: -1i32, width: RegisterWidth::W16, reg_type: RegisterType::SubGeneralPurpose, format: RegisterFormat::Uint16, loc: Location::Regs(RegsField::R8) },
        Register::R9W => return RegisterDecl { register: Register::R9W, name: "r9w", dwarf: -1i32, width: RegisterWidth::W16, reg_type: RegisterType::SubGeneralPurpose, format: RegisterFormat::Uint16, loc: Location::Regs(RegsField::R9) },
        Register::R10W => return RegisterDecl { register: Register::R10W, name: "r10w", dwarf: -1i32, width: RegisterWidth::W16, reg_type: RegisterType::SubGeneralPurpose, format: RegisterFormat::Uint16, loc: Location::Regs(RegsField::R10) },
        Register::R11W => return RegisterDecl { register: Register::R11W, name: "r11w", dwarf: -1i32, width: RegisterWidth::W16, reg_type: RegisterType::SubGeneralPurpose, format: RegisterFormat::Uint16, loc: Location::Regs(RegsField::R11) },
        Register::R12W => return RegisterDecl { register: Register::R12W, name: "r12w", dwarf: -1i32, width: RegisterWidth::W16, reg_type: RegisterType::SubGeneralPurpose, format: RegisterFormat::Uint16, loc: Location::Regs(RegsField::R12) },
        Register::R13W => return RegisterDecl { register: Register::R13W, name: "r13w", dwarf: -1i32, width: RegisterWidth::W16, reg_type: RegisterType::SubGeneralPurpose, format: RegisterFormat::Uint16, loc: Location::Regs(RegsField::R13) },
        Register::R14W => return RegisterDecl { register: Register::R14W, name: "r14w", dwarf: -1i32, width: RegisterWidth::W16, reg_type: RegisterType::SubGeneralPurpose, format: RegisterFormat::Uint16, loc: Location::Regs(RegsField::R14) },
        Register::R15W => return RegisterDecl { register: Register::R15W, name: "r15w", dwarf: -1i32, width: RegisterWidth::W16, reg_type: RegisterType::SubGeneralPurpose, format: RegisterFormat::Uint16, loc: Location::Regs(RegsField::R15) },
        Register::AH => return RegisterDecl { register: Register::AH, name: "ah", dwarf: -1i32, width: RegisterWidth::W8H, reg_type: RegisterType::SubGeneralPurpose, format: RegisterFormat::Uint8, loc: Location::Regs(RegsField::Rax) },
        Register::DH => return RegisterDecl { register: Register::DH, name: "dh", dwarf: -1i32, width: RegisterWidth::W8H, reg_type: RegisterType::SubGeneralPurpose, format: RegisterFormat::Uint8, loc: Location::Regs(RegsField::Rdx) },
        Register::CH => return RegisterDecl { register: Register::CH, name: "ch", dwarf: -1i32, width: RegisterWidth::W8H, reg_type: RegisterType::SubGeneralPurpose, format: RegisterFormat::Uint8, loc: Location::Regs(RegsField::Rcx) },
        Register::BH => return RegisterDecl { register: Register::BH, name: "bh", dwarf: -1i32, width: RegisterWidth::W8H, reg_type: RegisterType::SubGeneralPurpose, format: RegisterFormat::Uint8, loc: Location::Regs(RegsField::Rbx) },
        Register::AL => return RegisterDecl { register: Register::AL, name: "al", dwarf: -1i32, width: RegisterWidth::W8L, reg_type: RegisterType::SubGeneralPurpose, format: RegisterFormat::Uint8, loc: Location::Regs(RegsField::Rax) },
        Register::DL => return RegisterDecl { register: Register::DL, name: "dl", dwarf: -1i32, width: RegisterWidth::W8L, reg_type: RegisterType::SubGeneralPurpose, format: RegisterFormat::Uint8, loc: Location::Regs(RegsField::Rdx) },
        Register::CL => return RegisterDecl { register: Register::CL, name: "cl", dwarf: -1i32, width: RegisterWidth::W8L, reg_type: RegisterType::SubGeneralPurpose, format: RegisterFormat::Uint8, loc: Location::Regs(RegsField::Rcx) },
        Register::BL => return RegisterDecl { register: Register::BL, name: "bl", dwarf: -1i32, width: RegisterWidth::W8L, reg_type: RegisterType::SubGeneralPurpose, format: RegisterFormat::Uint8, loc: Location::Regs(RegsField::Rbx) },
        Register::SIL => return RegisterDecl { register: Register::SIL, name: "sil", dwarf: -1i32, width: RegisterWidth::W8L, reg_type: RegisterType::SubGeneralPurpose, format: RegisterFormat::Uint8, loc: Location::Regs(RegsField::Rsi) },
        Register::DIL => return RegisterDecl { register: Register::DIL, name: "dil", dwarf: -1i32, width: RegisterWidth::W8L, reg_type: RegisterType::SubGeneralPurpose, format: RegisterFormat::Uint8, loc: Location::Regs(RegsField::Rdi) },
        Register::BPL => return RegisterDecl { register: Register::BPL, name: "bpl", dwarf: -1i32, width: RegisterWidth::W8L, reg_type: RegisterType::SubGeneralPurpose, format: RegisterFormat::Uint8, loc: Location::Regs(RegsField::Rbp) },
        Register::SPL => return RegisterDecl { register: Register::SPL, name: "spl", dwarf: -1i32, width: RegisterWidth::W8L, reg_type: RegisterType::SubGeneralPurpose, format: RegisterFormat::Uint8, loc: Location::Regs(RegsField::Rsp) },
        Register::R8B => return RegisterDecl { register: Register::R8B, name: "r8b", dwarf: -1i32, width: RegisterWidth::W8L, reg_type: RegisterType::SubGeneralPurpose, format: RegisterFormat::Uint8, loc: Location::Regs(RegsField::R8) },
        Register::R9B => return RegisterDecl { register: Register::R9B, name: "r9b", dwarf: -1i32, width: RegisterWidth::W8L, reg_type: RegisterType::SubGeneralPurpose, format: RegisterFormat::Uint8, loc: Location::Regs(RegsField::R9) },
        Register::R10B => return RegisterDecl { register: Register::R10B, name: "r10b", dwarf: -1i32, width: RegisterWidth::W8L, reg_type: RegisterType::SubGeneralPurpose, format: RegisterFormat::Uint8, loc: Location::Regs(RegsField::R10) },
        Register::R11B => return RegisterDecl { register: Register::R11B, name: "r11b", dwarf: -1i32, width: RegisterWidth::W8L, reg_type: RegisterType::SubGeneralPurpose, format: RegisterFormat::Uint8, loc: Location::Regs(RegsField::R11) },
        Register::R12B => return RegisterDecl { register: Register::R12B, name: "r12b", dwarf: -1i32, width: RegisterWidth::W8L, reg_type: RegisterType::SubGeneralPurpose, format: RegisterFormat::Uint8, loc: Location::Regs(RegsField::R12) },
        Register::R13B => return RegisterDecl { register: Register::R13B, name: "r13b", dwarf: -1i32, width: RegisterWidth::W8L, reg_type: RegisterType::SubGeneralPurpose, format: RegisterFormat::Uint8, loc: Location::Regs(RegsField::R13) },
        Register::R14B => return RegisterDecl { register: Register::R14B, name: "r14b", dwarf: -1i32, width: RegisterWidth::W8L, reg_type: RegisterType::SubGeneralPurpose, format: RegisterFormat::Uint8, loc: Location::Regs(RegsField::R14) },
        Register::R15B => return RegisterDecl { register: Register::R15B, name: "r15b", dwarf: -1i32, width: RegisterWidth::W8L, reg_type: RegisterType::SubGeneralPurpose, format: RegisterFormat::Uint8, loc: Location::Regs(RegsField::R15) },
        Register::FCW => return RegisterDecl { register: Register::FCW, name: "cwd", dwarf: -1i32, width: RegisterWidth::W16, reg_type: RegisterType::FloatingPoint, format: RegisterFormat::Uint16, loc: Location::Fpu(FpuField::Cwd) },
        Register::FSW => return RegisterDecl { register: Register::FSW, name: "swd", dwarf: -1i32, width: RegisterWidth::W16, reg_type: RegisterType::FloatingPoint, format: RegisterFormat::Uint16, loc: Location::Fpu(FpuField::Swd) },
        Register::FTW => return RegisterDecl { register: Register::FTW, name: "ftw", dwarf: -1i32, width: RegisterWidth::W16, reg_type: RegisterType::FloatingPoint, format: RegisterFormat::Uint16, loc: Location::Fpu(FpuField::Ftw) },
        Register::FOP => return RegisterDecl { register: Register::FOP, name: "fop", dwarf: -1i32, width: RegisterWidth::W16, reg_type: RegisterType::FloatingPoint, format: RegisterFormat::Uint16, loc: Location::Fpu(FpuField::Fop) },
        Register::FRIP => return RegisterDecl { register: Register::FRIP, name: "rip", dwarf: -1i32, width: RegisterWidth::W64, reg_type: RegisterType::FloatingPoint, format: RegisterFormat::Uint16, loc: Location::Fpu(FpuField::Rip) },
        Register::FRDP => return RegisterDecl { register: Register::FRDP, name: "rdp", dwarf: -1i32, width: RegisterWidth::W64, reg_type: RegisterType::FloatingPoint, format: RegisterFormat::Uint16, loc: Location::Fpu(FpuField::Rdp) },
        Register::MXCSR => return RegisterDecl { register: Register::MXCSR, name: "mxcsr", dwarf: -1i32, width: RegisterWidth::W32, reg_type: RegisterType::FloatingPoint, format: RegisterFormat::Uint16, loc: Location::Fpu(FpuField::Mxcsr) },
        Register::MXCSR_MASK => return RegisterDecl { register: Register::MXCSR_MASK, name: "mxcr_mask", dwarf: -1i32, width: RegisterWidth::W32, reg_type: RegisterType::FloatingPoint, format: RegisterFormat::Uint16, loc: Location::Fpu(FpuField::MxcrMask) },
        Register::ST0 => return RegisterDecl { register: Register::ST0, name: "st0", dwarf: -1i32, width: RegisterWidth::W80, reg_type: RegisterType::FloatingPoint, format: RegisterFormat::LongDouble, loc: Location::FpuArray(FpuArrayField::St, 0) },
        Register::ST1 => return RegisterDecl { register: Register::ST1, name: "st1", dwarf: -1i32, width: RegisterWidth::W80, reg_type: RegisterType::FloatingPoint, format: RegisterFormat::LongDouble, loc: Location::FpuArray(FpuArrayField::St, 1) },
        Register::ST2 => return RegisterDecl { register: Register::ST2, name: "st2", dwarf: -1i32, width: RegisterWidth::W80, reg_type: RegisterType::FloatingPoint, format: RegisterFormat::LongDouble, loc: Location::FpuArray(FpuArrayField::St, 2) },
        Register::ST3 => return RegisterDecl { register: Register::ST3, name: "st3", dwarf: -1i32, width: RegisterWidth::W80, reg_type: RegisterType::FloatingPoint, format: RegisterFormat::LongDouble, loc: Location::FpuArray(FpuArrayField::St, 3) },
        Register::ST4 => return RegisterDecl { register: Register::ST4, name: "st4", dwarf: -1i32, width: RegisterWidth::W80, reg_type: RegisterType::FloatingPoint, format: RegisterFormat::LongDouble, loc: Location::FpuArray(FpuArrayField::St, 4) },
        Register::ST5 => return RegisterDecl { register: Register::ST5, name: "st5", dwarf: -1i32, width: RegisterWidth::W80, reg_type: RegisterType::FloatingPoint, format: RegisterFormat::LongDouble, loc: Location::FpuArray(FpuArrayField::St, 5) },
        Register::ST6 => return RegisterDecl { register: Register::ST6, name: "st6", dwarf: -1i32, width: RegisterWidth::W80, reg_type: RegisterType::FloatingPoint, format: RegisterFormat::LongDouble, loc: Location::FpuArray(FpuArrayField::St, 6) },
        Register::ST7 => return RegisterDecl { register: Register::ST7, name: "st7", dwarf: -1i32, width: RegisterWidth::W80, reg_type: RegisterType::FloatingPoint, format: RegisterFormat::LongDouble, loc: Location::FpuArray(FpuArrayField::St, 7) },
        Register::MM0 => return RegisterDecl { register: Register::MM0, name: "mm0", dwarf: -1i32, width: RegisterWidth::W64, reg_type: RegisterType::FloatingPoint, format: RegisterFormat::Byte64, loc: Location::FpuArray(FpuArrayField::St, 0) },
        Register::MM1 => return RegisterDecl { register: Register::MM1, name: "mm1", dwarf: -1i32, width: RegisterWidth::W64, reg_type: RegisterType::FloatingPoint, format: RegisterFormat::Byte64, loc: Location::FpuArray(FpuArrayField::St, 1) },
        Register::MM2 => return RegisterDecl { register: Register::MM2, name: "mm2", dwarf: -1i32, width: RegisterWidth::W64, reg_type: RegisterType::FloatingPoint, format: RegisterFormat::Byte64, loc: Location::FpuArray(FpuArrayField::St, 2) },
        Register::MM3 => return RegisterDecl { register: Register::MM3, name: "mm3", dwarf: -1i32, width: RegisterWidth::W64, reg_type: RegisterType::FloatingPoint, format: RegisterFormat::Byte64, loc: Location::FpuArray(FpuArrayField::St, 3) },
        Register::MM4 => return RegisterDecl { register: Register::MM4, name: "mm4", dwarf: -1i32, width: RegisterWidth::W64, reg_type: RegisterType::FloatingPoint, format: RegisterFormat::Byte64, loc: Location::FpuArray(FpuArrayField::St, 4) },
        Register::MM5 => return RegisterDecl { register: Register::MM5, name: "mm5", dwarf: -1i32, width: RegisterWidth::W64, reg_type: RegisterType::FloatingPoint, format: RegisterFormat::Byte64, loc: Location::FpuArray(FpuArrayField::St, 5) },
        Register::MM6 => return RegisterDecl { register: Register::MM6, name: "mm6", dwarf: -1i32, width: RegisterWidth::W64, reg_type: RegisterType::FloatingPoint, format: RegisterFormat::Byte64, loc: Location::FpuArray(FpuArrayField::St, 6) },
        Register::MM7 => return RegisterDecl { register: Register::MM7, name: "mm7", dwarf: -1i32, width: RegisterWidth::W64, reg_type: RegisterType::FloatingPoint, format: RegisterFormat::Byte64, loc: Location::FpuArray(FpuArrayField::St, 7) },
        Register::XMM0 => return RegisterDecl { register: Register::XMM0, name: "xmm0", dwarf: -1i32, width: RegisterWidth::W128, reg_type: RegisterType::FloatingPoint, format: RegisterFormat::Byte128, loc: Location::FpuArray(FpuArrayField::Xmm, 0) },
        Register::XMM1 => return RegisterDecl { register: Register::XMM1, name: "xmm1", dwarf: -1i32, width: RegisterWidth::W128, reg_type: RegisterType::FloatingPoint, format: RegisterFormat::Byte128, loc: Location::FpuArray(FpuArrayField::Xmm, 1) },
        Register::XMM2 => return RegisterDecl { register: Register::XMM2, name: "xmm2", dwarf: -1i32, width: RegisterWidth::W128, reg_type: RegisterType::FloatingPoint, format: RegisterFormat::Byte128, loc: Location::FpuArray(FpuArrayField::Xmm, 2) },
        Register::XMM3 => return RegisterDecl { register: Register::XMM3, name: "xmm3", dwarf: -1i32, width: RegisterWidth::W128, reg_type: RegisterType::FloatingPoint, format: RegisterFormat::Byte128, loc: Location::FpuArray(FpuArrayField::Xmm, 3) },
        Register::XMM4 => return RegisterDecl { register: Register::XMM4, name: "xmm4", dwarf: -1i32, width: RegisterWidth::W128, reg_type: RegisterType::FloatingPoint, format: RegisterFormat::Byte128, loc: Location::FpuArray(FpuArrayField::Xmm, 4) },
        Register::XMM5 => return RegisterDecl { register: Register::XMM5, name: "xmm5", dwarf: -1i32, width: RegisterWidth::W128, reg_type: RegisterType::FloatingPoint, format: RegisterFormat::Byte128, loc: Location::FpuArray(FpuArrayField::Xmm, 5) },
        Register::XMM6 => return RegisterDecl { register: Register::XMM6, name: "xmm6", dwarf: -1i32, width: RegisterWidth::W128, reg_type: RegisterType::FloatingPoint, format: RegisterFormat::Byte128, loc: Location::FpuArray(FpuArrayField::Xmm, 6) },
        Register::XMM7 => return RegisterDecl { register: Register::XMM7, name: "xmm7", dwarf: -1i32, width: RegisterWidth::W128, reg_type: RegisterType::FloatingPoint, format: RegisterFormat::Byte128, loc: Location::FpuArray(FpuArrayField::Xmm, 7) },
        Register::XMM8 => return RegisterDecl { register: Register::XMM8, name: "xmm8", dwarf: -1i32, width: RegisterWidth::W128, reg_type: RegisterType::FloatingPoint, format: RegisterFormat::Byte128, loc: Location::FpuArray(FpuArrayField::Xmm, 8) },
        Register::XMM9 => return RegisterDecl { register: Register::XMM9, name: "xmm9", dwarf: -1i32, width: RegisterWidth::W128, reg_type: RegisterType::FloatingPoint, format: RegisterFormat::Byte128, loc: Location::FpuArray(FpuArrayField::Xmm, 9) },
        Register::XMM10 => return RegisterDecl { register: Register::XMM10, name: "xmm10", dwarf: -1i32, width: RegisterWidth::W128, reg_type: RegisterType::FloatingPoint, format: RegisterFormat::Byte128, loc: Location::FpuArray(FpuArrayField::Xmm, 10) },
        Register::XMM11 => return RegisterDecl { register: Register::XMM11, name: "xmm11", dwarf: -1i32, width: RegisterWidth::W128, reg_type: RegisterType::FloatingPoint, format: RegisterFormat::Byte128, loc: Location::FpuArray(FpuArrayField::Xmm, 11) },
        Register::XMM12 => return RegisterDecl { register: Register::XMM12, name: "xmm12", dwarf: -1i32, width: RegisterWidth::W128, reg_type: RegisterType::FloatingPoint, format: RegisterFormat::Byte128, loc: Location::FpuArray(FpuArrayField::Xmm, 12) },
        Register::XMM13 => return RegisterDecl { register: Register::XMM13, name: "xmm13", dwarf: -1i32, width: RegisterWidth::W128, reg_type: RegisterType::FloatingPoint, format: RegisterFormat::Byte128, loc: Location::FpuArray(FpuArrayField::Xmm, 13) },
        Register::XMM14 => return RegisterDecl { register: Register::XMM14, name: "xmm14", dwarf: -1i32, width: RegisterWidth::W128, reg_type: RegisterType::FloatingPoint, format: RegisterFormat::Byte128, loc: Location::FpuArray(FpuArrayField::Xmm, 14) },
        Register::XMM15 => return RegisterDecl { register: Register::XMM15, name: "xmm15", dwarf: -1i32, width: RegisterWidth::W128, reg_type: RegisterType::FloatingPoint, format: RegisterFormat::Byte128, loc: Location::FpuArray(FpuArrayField::Xmm, 15) },
        Register::DR0 => return RegisterDecl { register: Register::DR0, name: "u_debugreg[0]", dwarf: -1i32, width: RegisterWidth::W64, reg_type: RegisterType::Debug, format: RegisterFormat::Uint64, loc: Location::UserArray(UserField::UDebugReg, 0) },
        Register::DR1 => return RegisterDecl { register: Register::DR1, name: "u_debugreg[1]", dwarf: -1i32, width: RegisterWidth::W64, reg_type: RegisterType::Debug, format: RegisterFormat::Uint64, loc: Location::UserArray(UserField::UDebugReg, 1) },
        Register::DR2 => return RegisterDecl { register: Register::DR2, name: "u_debugreg[2]", dwarf: -1i32, width: RegisterWidth::W64, reg_type: RegisterType::Debug, format: RegisterFormat::Uint64, loc: Location::UserArray(UserField::UDebugReg, 2) },
        Register::DR3 => return RegisterDecl { register: Register::DR3, name: "u_debugreg[3]", dwarf: -1i32, width: RegisterWidth::W64, reg_type: RegisterType::Debug, format: RegisterFormat::Uint64, loc: Location::UserArray(UserField::UDebugReg, 3) },
        Register::DR4 => return RegisterDecl { register: Register::DR4, name: "u_debugreg[4]", dwarf: -1i32, width: RegisterWidth::W64, reg_type: RegisterType::Debug, format: RegisterFormat::Uint64, loc: Location::UserArray(UserField::UDebugReg, 4) },
        Register::DR5 => return RegisterDecl { register: Register::DR5, name: "u_debugreg[5]", dwarf: -1i32, width: RegisterWidth::W64, reg_type: RegisterType::Debug, format: RegisterFormat::Uint64, loc: Location::UserArray(UserField::UDebugReg, 5) },
        Register::DR6 => return RegisterDecl { register: Register::DR6, name: "u_debugreg[6]", dwarf: -1i32, width: RegisterWidth::W64, reg_type: RegisterType::Debug, format: RegisterFormat::Uint64, loc: Location::UserArray(UserField::UDebugReg, 6) },
        Register::DR7 => return RegisterDecl { register: Register::DR7, name: "u_debugreg[7]", dwarf: -1i32, width: RegisterWidth::W64, reg_type: RegisterType::Debug, format: RegisterFormat::Uint64, loc: Location::UserArray(UserField::UDebugReg, 7) },
    }
}

impl Register {
    /// The register at position `i` of the catalog, if there is one.
    pub fn from_index(i: usize) -> (r: Option<Register>)
        ensures
            r is Some <==> i < REGISTER_COUNT,
            r matches Some(reg) ==> index_of(reg) == i,
    {
        match i {
            0 => Some(Register::RAX),
            1 => Some(Register::RDX),
            2 => Some(Register::RCX),
            3 => Some(Register::RBX),
            4 => Some(Register::RSI),
            5 => Some(Register::RDI),
            6 => Some(Register::RBP),
            7 => Some(Register::RSP),
            8 => Some(Register::R8),
            9 => Some(Register::R9),
            10 => Some(Register::R10),
            11 => Some(Register::R11),
            12 => Some(Register::R12),
            13 => Some(Register::R13),
            14 => Some(Register::R14),
            15 => Some(Register::R15),
            16 => Some(Register::RIP),
            17 => Some(Register::EFLAGS),
            18 => Some(Register::CS),
            19 => Some(Register::FS),
            20 => Some(Register::GS),
            21 => Some(Register::SS),
            22 => Some(Register::DS),
            23 => Some(Register::ES),
            24 => Some(Register::ORIGRAX),
            25 => Some(Register::EAX),
            26 => Some(Register::EDX),
            27 => Some(Register::ECX),
            28 => Some(Register::EBX),
            29 => Some(Register::ESI),
            30 => Some(Register::EDI),
            31 => Some(Register::EBP),
            32 => Some(Register::ESP),
            33 => Some(Register::R8D),
            34 => Some(Register::R9D),
            35 => Some(Register::R10D),
            36 => Some(Register::R11D),
            37 => Some(Register::R12D),
            38 => Some(Register::R13D),
            39 => Some(Register::R14D),
            40 => Some(Register::R15D),
            41 => Some(Register::AX),
            42 => Some(Register::DX),
            43 => Some(Register::CX),
            44 => Some(Register::SI),
            45 => Some(Register::DI),
            46 => Some(Register::BP),
            47 => Some(Register::SP),
            48 => Some(Register::R8W),
            49 => Some(Register::R9W),
            50 => Some(Register::R10W),
            51 => Some(Register::R11W),
            52 => Some(Register::R12W),
            53 => Some(Register::R13W),
            54 => Some(Register::R14W),
            55 => Some(Register::R15W),
            56 => Some(Register::AH),
            57 => Some(Register::DH),
            58 => Some(Register::CH),
            59 => Some(Register::BH),
            60 => Some(Register::AL),
            61 => Some(Register::DL),
            62 => Some(Register::CL),
            63 => Some(Register::BL),
            64 => Some(Register::SIL),
            65 => Some(Register::DIL),
            66 => Some(Register::BPL),
            67 => Some(Register::SPL),
            68 => Some(Register::R8B),
            69 => Some(Register::R9B),
            70 => Some(Register::R10B),
            71 => Some(Register::R11B),
            72 => Some(Register::R12B),
            73 => Some(Register::R13B),
            74 => Some(Register::R14B),
            75 => Some(Register::R15B),
            76 => Some(Register::FCW),
            77 => Some(Register::FSW),
            78 => Some(Register::FTW),
            79 => Some(Register::FOP),
            80 => Some(Register::FRIP),
            81 => Some(Register::FRDP),
            82 => Some(Register::MXCSR),
            83 => Some(Register::MXCSR_MASK),
            84 => Some(Register::ST0),
            85 => Some(Register::ST1),
            86 => Some(Register::ST2),
            87 => Some(Register::ST3),
            88 => Some(Register::ST4),
            89 => Some(Register::ST5),
            90 => Some(Register::ST6),
            91 => Some(Register::ST7),
            92 => Some(Register::MM0),
            93 => Some(Register::MM1),
            94 => Some(Register::MM2),
            95 => Some(Register::MM3),
            96 => Some(Register::MM4),
            97 => Some(Register::MM5),
            98 => Some(Register::MM6),
            99 => Some(Register::MM7),
            100 => Some(Register::XMM0),
            101 => Some(Register::XMM1),
            102 => Some(Register::XMM2),
            103 => Some(Register::XMM3),
            104 => Some(Register::XMM4),
            105 => Some(Register::XMM5),
            106 => Some(Register::XMM6),
            107 => Some(Register::XMM7),
            108 => Some(Register::XMM8),
            109 => Some(Register::XMM9),
            110 => Some(Register::XMM10),
            111 => Some(Register::XMM11),
            112 => Some(Register::XMM12),
            113 => Some(Register::XMM13),
            114 => Some(Register::XMM14),
            115 => Some(Register::XMM15),
            116 => Some(Register::DR0),
            117 => Some(Register::DR1),
            118 => Some(Register::DR2),
            119 => Some(Register::DR3),
            120 => Some(Register::DR4),
            121 => Some(Register::DR5),
            122 => Some(Register::DR6),
            123 => Some(Register::DR7),
            _ => None,
        }
    }
}

} // verus!
