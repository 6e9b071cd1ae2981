//! The register file that contract operations read and write.
//!
//! The registers are those of an `aluvm` core. What they hold is described by
//! four names: the integer registers that contract operations use, the
//! byte-string registers, the status flag `st0`, and everything else.
//! [`RegFile`] puts the four together.
use aluvm::data::{ByteStr, Number};
use aluvm::reg::CoreRegs;
use amplify::num::u5;
use vstd::prelude::*;

verus! {

/// Register file of one `aluvm` core.
#[verifier::external_type_specification]
#[verifier::external_body]
pub struct ExCoreRegs(CoreRegs);

/// A bank of integer registers; each bank has 32 registers.
#[derive(Clone, Copy, Debug, PartialEq, Eq, Structural)]
pub enum RegA {
    /// 8-bit registers.
    A8,
    /// 16-bit registers.
    A16,
    /// 32-bit registers.
    A32,
    /// 64-bit registers.
    A64,
}

/// Index of an integer register.
#[derive(Clone, Copy, Debug, PartialEq, Eq)]
pub struct Reg32 {
    index: u8,
}

impl Reg32 {
    #[verifier::type_invariant]
    spec fn in_bank(self) -> bool {
        self.index < 32
    }

    /// The index as a number.
    pub closed spec fn index(self) -> u8 {
        self.index
    }

    /// The register with a given index.
    pub fn with(index: u8) -> (reg: Reg32)
        requires
            index < 32,
        ensures
            reg.index() == index,
    {
        Reg32 { index }
    }

    /// The index as a number.
    pub fn to_u8(self) -> (index: u8)
        ensures
            index == self.index(),
            index < 32,
    {
        proof {
            use_type_invariant(&self);
        }
        self.index
    }
}

/// Index of one of the first 16 integer registers.
#[derive(Clone, Copy, Debug, PartialEq, Eq)]
pub struct Reg16 {
    index: u8,
}

impl Reg16 {
    #[verifier::type_invariant]
    spec fn in_bank(self) -> bool {
        self.index < 16
    }

    /// The index as a number.
    pub closed spec fn index(self) -> u8 {
        self.index
    }

    /// The register with a given index.
    pub fn with(index: u8) -> (reg: Reg16)
        requires
            index < 16,
        ensures
            reg.index() == index,
    {
        Reg16 { index }
    }

    /// The index as a number.
    pub fn to_u8(self) -> (index: u8)
        ensures
            index == self.index(),
            index < 16,
    {
        proof {
            use_type_invariant(&self);
        }
        self.index
    }
}

/// Index of a byte-string register.
#[derive(Clone, Copy, Debug, PartialEq, Eq)]
pub struct RegS {
    index: u8,
}

impl RegS {
    #[verifier::type_invariant]
    spec fn in_bank(self) -> bool {
        self.index < 16
    }

    /// The index as a number.
    pub closed spec fn index(self) -> u8 {
        self.index
    }

    /// The register with a given index, counted modulo 16.
    pub fn from(index: u8) -> (reg: RegS)
        ensures
            reg.index() == index % 16,
    {
        RegS { index: index % 16 }
    }

    /// The index as a number.
    pub fn to_u8(self) -> (index: u8)
        ensures
            index == self.index(),
            index < 16,
    {
        proof {
            use_type_invariant(&self);
        }
        self.index
    }
}

/// What the set integer registers of the banks in [`RegA`] hold, by bank and
/// index. A register that is not set has no entry.
pub uninterp spec fn int_registers(regs: CoreRegs) -> Map<(RegA, u8), u64>;

/// What the set byte-string registers hold, by index. A register that is not
/// set has no entry.
pub uninterp spec fn str_registers(regs: CoreRegs) -> Map<u8, Seq<u8>>;

/// The value of the status register `st0`.
pub uninterp spec fn status_register(regs: CoreRegs) -> bool;

/// What the rest of a register file holds, as bytes: the wider integer
/// registers, the floating-point and the `r` registers, the counters and limits
/// of complexity and jumps, and the call stack, by bank and index. What stands
/// as it does in a new register file has no entry.
pub uninterp spec fn other_registers(regs: CoreRegs) -> Map<(nat, nat), Seq<u8>>;

/// What a register file holds.
#[verifier::ext_equal]
pub ghost struct RegFile {
    /// Set integer registers.
    pub ints: Map<(RegA, u8), u64>,
    /// Set byte-string registers.
    pub strs: Map<u8, Seq<u8>>,
    /// The status flag `st0`.
    pub st0: bool,
    /// Everything else.
    pub rest: Map<(nat, nat), Seq<u8>>,
}

/// What `regs` holds.
pub open spec fn reg_file(regs: CoreRegs) -> RegFile {
    RegFile {
        ints: int_registers(regs),
        strs: str_registers(regs),
        st0: status_register(regs),
        rest: other_registers(regs),
    }
}

impl RegFile {
    /// A new register file: all registers unset and the status flag raised.
    pub open spec fn initial() -> RegFile {
        RegFile { ints: Map::empty(), strs: Map::empty(), st0: true, rest: Map::empty() }
    }

    /// What an integer register holds.
    pub open spec fn number(self, bank: RegA, index: u8) -> Option<u64> {
        self.ints.get((bank, index))
    }

    /// The registers after an integer register was set, or cleared by `None`.
    pub open spec fn with_int(self, bank: RegA, index: u8, value: Option<u64>) -> RegFile {
        RegFile {
            ints: match value {
                Some(n) => self.ints.insert((bank, index), n),
                None => self.ints.remove((bank, index)),
            },
            ..self
        }
    }

    /// The registers after a byte-string register was set.
    pub open spec fn with_str(self, index: u8, bytes: Seq<u8>) -> RegFile {
        RegFile { strs: self.strs.insert(index, bytes), ..self }
    }

    /// The registers after the status flag was lowered.
    pub open spec fn failed(self) -> RegFile {
        RegFile { st0: false, ..self }
    }
}

impl RegA {
    /// Largest number that a register of the bank can hold.
    pub open spec fn max(self) -> u64 {
        match self {
            RegA::A8 => 0xFF,
            RegA::A16 => 0xFFFF,
            RegA::A32 => 0xFFFF_FFFF,
            RegA::A64 => 0xFFFF_FFFF_FFFF_FFFF,
        }
    }
}

/// `CoreRegs::default`: every register is unset, `st0` is `true`, and the
/// counters and the call stack are those of a new register file.
#[verifier::external_body]
pub(crate) fn default_regs() -> (regs: CoreRegs)
    ensures
        reg_file(regs) == RegFile::initial(),
{
    CoreRegs::default()
}

/// `CoreRegs::get_n`: the number in an integer register, `None` if it is not
/// set. The number fits the width of its bank.
#[verifier::external_body]
pub(crate) fn get_n(regs: &CoreRegs, bank: RegA, index: u8) -> (value: Option<u64>)
    requires
        index < 32,
    ensures
        value == int_registers(*regs).get((bank, index)),
        value matches Some(n) ==> n <= bank.max(),
{
    let bank = match bank {
        RegA::A8 => aluvm::reg::RegA::A8,
        RegA::A16 => aluvm::reg::RegA::A16,
        RegA::A32 => aluvm::reg::RegA::A32,
        RegA::A64 => aluvm::reg::RegA::A64,
    };
    let value: Option<Number> = regs.get_n(bank, u5::with(index)).into();
    value.map(u64::from)
}

/// `CoreRegs::set_n`: puts a number into an integer register, or clears the
/// register when given `None`; no other register changes. A number that needs
/// more bits than the register has is left out: the call panics on it.
#[verifier::external_body]
pub(crate) fn set_n(regs: &mut CoreRegs, bank: RegA, index: u8, value: Option<u64>)
    requires
        index < 32,
        value matches Some(n) ==> n <= bank.max(),
    ensures
        int_registers(*final(regs)) == (match value {
            Some(n) => int_registers(*old(regs)).insert((bank, index), n),
            None => int_registers(*old(regs)).remove((bank, index)),
        }),
        str_registers(*final(regs)) == str_registers(*old(regs)),
        status_register(*final(regs)) == status_register(*old(regs)),
        other_registers(*final(regs)) == other_registers(*old(regs)),
{
    let bank = match bank {
        RegA::A8 => aluvm::reg::RegA::A8,
        RegA::A16 => aluvm::reg::RegA::A16,
        RegA::A32 => aluvm::reg::RegA::A32,
        RegA::A64 => aluvm::reg::RegA::A64,
    };
    regs.set_n(bank, u5::with(index), value);
}

/// `CoreRegs::set_s16`: puts bytes into a byte-string register; no other
/// register changes. The bytes go through `ByteStr::with`, which panics on
/// more than 65535 of them.
#[verifier::external_body]
pub(crate) fn set_s16(regs: &mut CoreRegs, index: u8, bytes: &Vec<u8>)
    requires
        index < 16,
        bytes@.len() <= 65535,
    ensures
        str_registers(*final(regs)) == str_registers(*old(regs)).insert(index, bytes@),
        int_registers(*final(regs)) == int_registers(*old(regs)),
        status_register(*final(regs)) == status_register(*old(regs)),
        other_registers(*final(regs)) == other_registers(*old(regs)),
{
    regs.set_s16(aluvm::reg::RegS::from(index), ByteStr::with(bytes));
}

/// `CoreRegs::status`: the value of `st0`.
#[verifier::external_body]
pub(crate) fn status(regs: &CoreRegs) -> (st0: bool)
    ensures
        st0 == status_register(*regs),
{
    regs.status()
}

/// `CoreRegs::set_failure`: lowers `st0`, changes no other register and
/// returns the value that `st0` had.
#[verifier::external_body]
pub(crate) fn set_failure(regs: &mut CoreRegs) -> (before: bool)
    ensures
        before == status_register(*old(regs)),
        !status_register(*final(regs)),
        int_registers(*final(regs)) == int_registers(*old(regs)),
        str_registers(*final(regs)) == str_registers(*old(regs)),
        other_registers(*final(regs)) == other_registers(*old(regs)),
{
    regs.set_failure()
}

/// A register holds what was last put into it; every other register, the status
/// flag and the rest of the machine stay as they were. A cleared register holds
/// nothing.
pub proof fn law_registers_hold_what_was_set(
    regs: RegFile,
    bank: RegA,
    index: u8,
    value: Option<u64>,
    slot: u8,
    bytes: Seq<u8>,
)
    ensures
        ({
            let after = regs.with_int(bank, index, value);
            &&& after.number(bank, index) == value
            &&& forall|b: RegA, i: u8|
                b != bank || i != index ==> #[trigger] after.number(b, i) == regs.number(b, i)
            &&& after.strs == regs.strs
            &&& after.st0 == regs.st0
            &&& after.rest == regs.rest
        }),
        ({
            let after = regs.with_str(slot, bytes);
            &&& after.strs.contains_key(slot) && after.strs[slot] == bytes
            &&& after.strs.remove(slot) == regs.strs.remove(slot)
            &&& after.ints == regs.ints
            &&& after.st0 == regs.st0
            &&& after.rest == regs.rest
        }),
        forall|b: RegA, i: u8| #[trigger]
            regs.number(b, i) is Some == regs.ints.contains_key((b, i)),
        forall|b: RegA, i: u8|
            regs.ints.contains_key((b, i)) ==> #[trigger] regs.number(b, i) == Some(
                regs.ints[(b, i)],
            ),
{
}

/// A failure lowers the status flag and keeps everything else. In a new machine
/// the flag is raised and nothing is set.
pub proof fn law_status_flag(regs: RegFile)
    ensures
        !regs.failed().st0,
        regs.failed().ints == regs.ints,
        regs.failed().strs == regs.strs,
        regs.failed().rest == regs.rest,
        RegFile::initial().st0,
        forall|bank: RegA, index: u8| !RegFile::initial().ints.contains_key((bank, index)),
        forall|index: u8| !RegFile::initial().strs.contains_key(index),
        forall|place: (nat, nat)| !RegFile::initial().rest.contains_key(place),
{
}

/// What a register file holds is what its registers hold.
pub proof fn law_register_file(regs: CoreRegs)
    ensures
        reg_file(regs).ints == int_registers(regs),
        reg_file(regs).strs == str_registers(regs),
        reg_file(regs).st0 == status_register(regs),
        reg_file(regs).rest == other_registers(regs),
{
}

/// The banks hold numbers of 8, 16, 32 and 64 bits.
pub proof fn law_bank_width()
    ensures
        RegA::A8.max() == u8::MAX,
        RegA::A16.max() == u16::MAX,
        RegA::A32.max() == u32::MAX,
        RegA::A64.max() == u64::MAX,
{
}

} // verus!
