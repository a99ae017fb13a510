//! Typed views over individual control and status registers.
//!
//! Each view pairs one register address with a bit layout: the hart
//! identifier (a plain integer), the ISA capability register (one presence
//! bit per standard extension plus a native-width field), and the supervisor
//! address-translation control register. The layouts here are the 64-bit
//! native-width encodings; the narrower native width uses architecturally
//! distinct encodings and would be a different build of this crate, never a
//! runtime branch.

use vstd::prelude::*;
use crate::machine::{Machine, written, MHARTID, MISA, SATP};

verus! {

/// An integer ID of a hardware thread.
#[derive(Debug, Default, Clone, Copy, PartialEq, Eq, Structural)]
pub struct MHartId(pub usize);

impl From<usize> for MHartId {
    fn from(value: usize) -> (r: MHartId)
        ensures
            r == MHartId(value),
    {
        MHartId(value)
    }
}

impl vstd::std_specs::convert::FromSpecImpl<usize> for MHartId {
    open spec fn obeys_from_spec() -> bool {
        true
    }

    open spec fn from_spec(value: usize) -> MHartId {
        MHartId(value)
    }
}

impl MHartId {
    /// Get the inner ID.
    pub fn id(self) -> (r: usize)
        ensures
            r == self.0,
    {
        self.0
    }

    /// Read the hart identifier from its register. On hardware this is valid
    /// only in Machine mode; the model carries no privilege level, so the
    /// caller answers for that context.
    pub fn read(m: &Machine) -> (r: MHartId)
        requires
            m.wf(),
        ensures
            r == MHartId(m.csr(MHARTID) as usize),
    {
        MHartId(m.read(MHARTID) as usize)
    }
}

/// Index of the supervisor-extension presence bit in the capability word.
pub const MISA_SUPERVISOR_BIT: u64 = 18;

/// Index of the user-extension presence bit in the capability word.
pub const MISA_USER_BIT: u64 = 20;

/// The extension-presence field of [`Misa`]: twenty-six bits, one per letter
/// of the extension-naming scheme, several of them reserved.
#[derive(Debug, Clone, Copy, PartialEq, Eq, Structural)]
pub struct Extensions {
    raw: u32,
}

impl View for Extensions {
    type V = u32;

    closed spec fn view(&self) -> u32 {
        self.raw
    }
}

impl Extensions {
    /// The raw value fits the 26-bit field.
    pub open spec fn wf(&self) -> bool {
        self@ < 0x0400_0000u32
    }

    /// Whether the bit at `index` is set.
    pub open spec fn bit_spec(&self, index: u32) -> bool {
        (self@ >> index) & 1u32 == 1u32
    }

    /// Wrap a raw 26-bit value.
    pub fn new_with_raw_value(value: u32) -> (r: Extensions)
        requires
            value < 0x0400_0000u32,
        ensures
            r@ == value,
            r.wf(),
    {
        Extensions { raw: value }
    }

    /// The raw 26-bit value.
    pub fn raw_value(&self) -> (r: u32)
        ensures
            r == self@,
    {
        self.raw
    }

    /// Whether the extension bit at `index` is present.
    pub fn bit(&self, index: u32) -> (r: bool)
        requires
            index < 26,
        ensures
            r == self.bit_spec(index),
    {
        (self.raw >> index) & 1u32 == 1u32
    }

    /// The same value with the bit at `index` set to `value` and every other
    /// bit unchanged.
    pub fn with_bit(&self, index: u32, value: bool) -> (r: Extensions)
        requires
            self.wf(),
            index < 26,
        ensures
            r.wf(),
            r.bit_spec(index) == value,
            forall|j: u32| j < 26 && j != index ==> r.bit_spec(j) == self.bit_spec(j),
    {
        let raw = self.raw;
        if value {
            let updated = raw | (1u32 << index);
            proof {
                assert(updated < 0x0400_0000u32 && (updated >> index) & 1u32 == 1u32
                    && forall|j: u32|
                    j < 26 && j != index ==> (updated >> j) & 1u32 == (raw >> j) & 1u32)
                    by (bit_vector)
                    requires
                        raw < 0x0400_0000u32,
                        index < 26,
                        updated == raw | (1u32 << index),
                ;
            }
            Extensions { raw: updated }
        } else {
            let updated = raw & !(1u32 << index);
            proof {
                assert(updated < 0x0400_0000u32 && (updated >> index) & 1u32 == 0u32
                    && forall|j: u32|
                    j < 26 && j != index ==> (updated >> j) & 1u32 == (raw >> j) & 1u32)
                    by (bit_vector)
                    requires
                        raw < 0x0400_0000u32,
                        index < 26,
                        updated == raw & !(1u32 << index),
                ;
            }
            Extensions { raw: updated }
        }
    }

    /// Atomic extension.
    pub fn a(&self) -> (r: bool)
        ensures
            r == self.bit_spec(0),
    {
        self.bit(0)
    }

    /// B extension.
    pub fn b(&self) -> (r: bool)
        ensures
            r == self.bit_spec(1),
    {
        self.bit(1)
    }

    /// Compressed extension.
    pub fn c(&self) -> (r: bool)
        ensures
            r == self.bit_spec(2),
    {
        self.bit(2)
    }

    /// Double-precision floating-point extension.
    pub fn d(&self) -> (r: bool)
        ensures
            r == self.bit_spec(3),
    {
        self.bit(3)
    }

    /// Reduced base ISA.
    pub fn e(&self) -> (r: bool)
        ensures
            r == self.bit_spec(4),
    {
        self.bit(4)
    }

    /// Single-precision floating-point extension.
    pub fn f(&self) -> (r: bool)
        ensures
            r == self.bit_spec(5),
    {
        self.bit(5)
    }

    /// Hypervisor extension.
    pub fn h(&self) -> (r: bool)
        ensures
            r == self.bit_spec(7),
    {
        self.bit(7)
    }

    /// Base integer ISA.
    pub fn i(&self) -> (r: bool)
        ensures
            r == self.bit_spec(8),
    {
        self.bit(8)
    }

    /// Integer multiply/divide extension.
    pub fn m(&self) -> (r: bool)
        ensures
            r == self.bit_spec(12),
    {
        self.bit(12)
    }

    /// Quad-precision floating-point extension.
    pub fn q(&self) -> (r: bool)
        ensures
            r == self.bit_spec(16),
    {
        self.bit(16)
    }

    /// Supervisor mode implemented.
    pub fn s(&self) -> (r: bool)
        ensures
            r == self.bit_spec(18),
    {
        self.bit(18)
    }

    /// User mode implemented.
    pub fn u(&self) -> (r: bool)
        ensures
            r == self.bit_spec(20),
    {
        self.bit(20)
    }

    /// Vector extension.
    pub fn v(&self) -> (r: bool)
        ensures
            r == self.bit_spec(21),
    {
        self.bit(21)
    }

    /// Non-standard extensions present.
    pub fn x(&self) -> (r: bool)
        ensures
            r == self.bit_spec(23),
    {
        self.bit(23)
    }
}

/// The native register width named by the top field of [`Misa`].
#[derive(Debug, Clone, Copy, PartialEq, Eq, Structural)]
pub enum MXLen {
    _32,
    _64,
}

impl MXLen {
    /// The architectural encoding of the width field.
    pub open spec fn encoding(self) -> u64 {
        match self {
            MXLen::_32 => 1u64,
            MXLen::_64 => 2u64,
        }
    }

    /// The width decoded from a 2-bit field value; the remaining field values
    /// are reserved.
    pub open spec fn spec_decode(bits: u64) -> Option<MXLen> {
        if bits == 1u64 {
            Some(MXLen::_32)
        } else if bits == 2u64 {
            Some(MXLen::_64)
        } else {
            None
        }
    }
}

/// View of the ISA capability register: the extension bits, a reserved fill
/// field, and the native-width field at the top of the word.
#[derive(Debug, Clone, Copy, PartialEq, Eq, Structural)]
pub struct Misa {
    raw: u64,
}

impl View for Misa {
    type V = u64;

    closed spec fn view(&self) -> u64 {
        self.raw
    }
}

impl Misa {
    /// The extension-presence field: bits 0 through 25.
    pub open spec fn spec_extensions(self) -> u32 {
        (self@ & 0x03FF_FFFFu64) as u32
    }

    /// Whether the extension bit at `index` of the capability word is set.
    pub open spec fn extensions_spec_bit(self, index: u64) -> bool {
        (self@ >> index) & 1u64 == 1u64
    }

    /// The reserved fill field: bits 26 through 61.
    pub open spec fn spec_fill(self) -> u64 {
        (self@ >> 26u64) & 0xF_FFFF_FFFFu64
    }

    /// The raw native-width field: bits 62 and 63.
    pub open spec fn spec_mxlen_bits(self) -> u64 {
        self@ >> 62u64
    }

    /// The decoded native-width field.
    pub open spec fn spec_mxlen(self) -> Option<MXLen> {
        MXLen::spec_decode(self.spec_mxlen_bits())
    }

    /// Wrap a raw register value; every value decodes.
    pub fn new_with_raw_value(value: u64) -> (r: Misa)
        ensures
            r@ == value,
    {
        Misa { raw: value }
    }

    /// The raw register value.
    pub fn raw_value(&self) -> (r: u64)
        ensures
            r == self@,
    {
        self.raw
    }

    /// The standard extensions that are present.
    pub fn extensions(&self) -> (e: Extensions)
        ensures
            e@ == self.spec_extensions(),
            e.wf(),
    {
        let raw = self.raw;
        proof {
            assert(((raw & 0x03FF_FFFFu64) as u32) < 0x0400_0000u32 && ((raw
                & 0x03FF_FFFFu64) as u32) == (raw & 0x03FF_FFFFu64)) by (bit_vector);
        }
        Extensions::new_with_raw_value((raw & 0x03FF_FFFFu64) as u32)
    }

    /// The same register value with the extension field replaced and the
    /// fill and native-width fields untouched.
    pub fn with_extensions(&self, e: Extensions) -> (r: Misa)
        requires
            e.wf(),
        ensures
            r.spec_extensions() == e@,
            r.spec_fill() == self.spec_fill(),
            r.spec_mxlen_bits() == self.spec_mxlen_bits(),
    {
        let raw = self.raw;
        let field = e.raw_value();
        let updated = (raw & !0x03FF_FFFFu64) | (field as u64);
        proof {
            assert((updated & 0x03FF_FFFFu64) as u32 == field && (updated >> 26u64)
                & 0xF_FFFF_FFFFu64 == (raw >> 26u64) & 0xF_FFFF_FFFFu64 && updated >> 62u64 == raw
                >> 62u64) by (bit_vector)
                requires
                    field < 0x0400_0000u32,
                    updated == (raw & !0x03FF_FFFFu64) | (field as u64),
            ;
        }
        Misa { raw: updated }
    }

    /// The reserved fill field.
    pub fn fill(&self) -> (r: u64)
        ensures
            r == self.spec_fill(),
    {
        (self.raw >> 26u64) & 0xF_FFFF_FFFFu64
    }

    /// The native register width, if the width field holds a defined
    /// encoding.
    pub fn mxlen(&self) -> (r: Option<MXLen>)
        ensures
            r == self.spec_mxlen(),
    {
        let bits = self.raw >> 62u64;
        if bits == 1u64 {
            Some(MXLen::_32)
        } else if bits == 2u64 {
            Some(MXLen::_64)
        } else {
            None
        }
    }

    /// Read the ISA capability register. On hardware this is valid only in
    /// Machine mode; the model carries no privilege level, so the caller
    /// answers for that context.
    pub fn read(m: &Machine) -> (r: Misa)
        requires
            m.wf(),
        ensures
            r@ == m.csr(MISA),
    {
        Misa { raw: m.read(MISA) }
    }

    /// Write the register back. Disabling an extension bit that running code
    /// depends on leaves the hardware in an undefined state, so the caller
    /// answers for the value written.
    pub fn write(self, m: &mut Machine)
        requires
            old(m).wf(),
        ensures
            final(m).wf(),
            final(m)@ == written(old(m)@, MISA, self@),
    {
        m.write(MISA, self.raw);
    }
}

/// A mode of address translation, named by the top field of [`Satp`].
#[derive(Debug, Clone, Copy, PartialEq, Eq, Structural)]
pub enum TranslationMode {
    /// Translation and protection disabled.
    Bare,
    /// Three-level page table.
    Sv39,
    /// Four-level page table.
    Sv48,
    /// Five-level page table.
    Sv57,
}

impl TranslationMode {
    /// The architectural encoding of the mode field.
    pub open spec fn encoding(self) -> u64 {
        match self {
            TranslationMode::Bare => 0u64,
            TranslationMode::Sv39 => 8u64,
            TranslationMode::Sv48 => 9u64,
            TranslationMode::Sv57 => 10u64,
        }
    }

    /// The mode decoded from a 4-bit field value; the remaining field values
    /// are reserved.
    pub open spec fn spec_decode(bits: u64) -> Option<TranslationMode> {
        if bits == 0u64 {
            Some(TranslationMode::Bare)
        } else if bits == 8u64 {
            Some(TranslationMode::Sv39)
        } else if bits == 9u64 {
            Some(TranslationMode::Sv48)
        } else if bits == 10u64 {
            Some(TranslationMode::Sv57)
        } else {
            None
        }
    }

    /// The encoded mode field value.
    pub fn raw(self) -> (r: u64)
        ensures
            r == self.encoding(),
    {
        match self {
            TranslationMode::Bare => 0u64,
            TranslationMode::Sv39 => 8u64,
            TranslationMode::Sv48 => 9u64,
            TranslationMode::Sv57 => 10u64,
        }
    }
}

/// View of the address-translation control register: the physical page
/// number of the root page table, the address-space identifier, and the
/// translation mode.
#[derive(Debug, Clone, Copy, PartialEq, Eq, Structural)]
pub struct Satp {
    raw: u64,
}

impl View for Satp {
    type V = u64;

    closed spec fn view(&self) -> u64 {
        self.raw
    }
}

impl Default for Satp {
    /// The disabled encoding: no translation, no address space, page number
    /// zero.
    fn default() -> (r: Satp)
        ensures
            r@ == 0u64,
    {
        Satp { raw: 0 }
    }
}

impl Satp {
    /// The physical page number of the root page table: bits 0 through 43.
    pub open spec fn spec_physical_page_number(self) -> u64 {
        self@ & 0x0FFF_FFFF_FFFFu64
    }

    /// The address-space identifier: bits 44 through 59.
    pub open spec fn spec_address_space_id(self) -> u16 {
        ((self@ >> 44u64) & 0xFFFFu64) as u16
    }

    /// The raw translation-mode field: bits 60 through 63.
    pub open spec fn spec_mode_bits(self) -> u64 {
        self@ >> 60u64
    }

    /// The decoded translation-mode field.
    pub open spec fn spec_mode(self) -> Option<TranslationMode> {
        TranslationMode::spec_decode(self.spec_mode_bits())
    }

    /// Wrap a raw register value; every value decodes.
    pub fn new_with_raw_value(value: u64) -> (r: Satp)
        ensures
            r@ == value,
    {
        Satp { raw: value }
    }

    /// The raw register value.
    pub fn raw_value(&self) -> (r: u64)
        ensures
            r == self@,
    {
        self.raw
    }

    /// The physical page number of the root page table.
    pub fn physical_page_number(&self) -> (r: u64)
        ensures
            r == self.spec_physical_page_number(),
    {
        self.raw & 0x0FFF_FFFF_FFFFu64
    }

    /// The same register value with the physical page number replaced and
    /// the other fields untouched.
    pub fn with_physical_page_number(&self, value: u64) -> (r: Satp)
        requires
            value < 0x1000_0000_0000u64,
        ensures
            r.spec_physical_page_number() == value,
            r.spec_address_space_id() == self.spec_address_space_id(),
            r.spec_mode_bits() == self.spec_mode_bits(),
    {
        let raw = self.raw;
        let updated = (raw & !0x0FFF_FFFF_FFFFu64) | value;
        proof {
            assert(updated & 0x0FFF_FFFF_FFFFu64 == value && (updated >> 44u64) & 0xFFFFu64 == (raw
                >> 44u64) & 0xFFFFu64 && updated >> 60u64 == raw >> 60u64) by (bit_vector)
                requires
                    value < 0x1000_0000_0000u64,
                    updated == (raw & !0x0FFF_FFFF_FFFFu64) | value,
            ;
        }
        Satp { raw: updated }
    }

    /// The ID of the address space.
    pub fn address_space_id(&self) -> (r: u16)
        ensures
            r == self.spec_address_space_id(),
    {
        let raw = self.raw;
        proof {
            assert(((raw >> 44u64) & 0xFFFFu64) as u16 == (raw >> 44u64) & 0xFFFFu64)
                by (bit_vector);
        }
        ((raw >> 44u64) & 0xFFFFu64) as u16
    }

    /// The same register value with the address-space identifier replaced
    /// and the other fields untouched.
    pub fn with_address_space_id(&self, value: u16) -> (r: Satp)
        ensures
            r.spec_address_space_id() == value,
            r.spec_physical_page_number() == self.spec_physical_page_number(),
            r.spec_mode_bits() == self.spec_mode_bits(),
    {
        let raw = self.raw;
        let updated = (raw & !(0xFFFFu64 << 44u64)) | ((value as u64) << 44u64);
        proof {
            assert((updated >> 44u64) & 0xFFFFu64 == value && updated & 0x0FFF_FFFF_FFFFu64 == raw
                & 0x0FFF_FFFF_FFFFu64 && updated >> 60u64 == raw >> 60u64) by (bit_vector)
                requires
                    updated == (raw & !(0xFFFFu64 << 44u64)) | ((value as u64) << 44u64),
            ;
        }
        Satp { raw: updated }
    }

    /// The translation mode, if the mode field holds a defined encoding.
    pub fn mode(&self) -> (r: Option<TranslationMode>)
        ensures
            r == self.spec_mode(),
    {
        let bits = self.raw >> 60u64;
        if bits == 0u64 {
            Some(TranslationMode::Bare)
        } else if bits == 8u64 {
            Some(TranslationMode::Sv39)
        } else if bits == 9u64 {
            Some(TranslationMode::Sv48)
        } else if bits == 10u64 {
            Some(TranslationMode::Sv57)
        } else {
            None
        }
    }

    /// The same register value with the translation mode replaced and the
    /// other fields untouched.
    pub fn with_mode(&self, mode: TranslationMode) -> (r: Satp)
        ensures
            r.spec_mode() == Some(mode),
            r.spec_physical_page_number() == self.spec_physical_page_number(),
            r.spec_address_space_id() == self.spec_address_space_id(),
    {
        let raw = self.raw;
        let field = mode.raw();
        let updated = (raw & 0x0FFF_FFFF_FFFF_FFFFu64) | (field << 60u64);
        proof {
            assert(updated >> 60u64 == field && updated & 0x0FFF_FFFF_FFFFu64 == raw
                & 0x0FFF_FFFF_FFFFu64 && (updated >> 44u64) & 0xFFFFu64 == (raw >> 44u64)
                & 0xFFFFu64) by (bit_vector)
                requires
                    field < 16u64,
                    updated == (raw & 0x0FFF_FFFF_FFFF_FFFFu64) | (field << 60u64),
            ;
            assert(field < 16u64 ==> TranslationMode::spec_decode(field) == Some(mode)) by {
                assert(mode.encoding() < 16u64);
            }
        }
        Satp { raw: updated }
    }

    /// Read the address-translation register. On hardware this is valid in
    /// Machine or Supervisor mode; the model carries no privilege level, so
    /// the caller answers for that context.
    pub fn read(m: &Machine) -> (r: Satp)
        requires
            m.wf(),
        ensures
            r@ == m.csr(SATP),
    {
        Satp { raw: m.read(SATP) }
    }

    /// Write the register back, changing the active address space. The
    /// caller answers for no currently mapped code or data disappearing as a
    /// result.
    pub fn write(self, m: &mut Machine)
        requires
            old(m).wf(),
        ensures
            final(m).wf(),
            final(m)@ == written(old(m)@, SATP, self@),
    {
        m.write(SATP, self.raw);
    }
}

} // verus!
