//! The typed register views: hart identifier, ISA capabilities, address
//! translation control.

use boot_core::csr::{Extensions, MHartId, Misa, MXLen, Satp, TranslationMode};
use boot_core::machine::{Machine, MHARTID, MISA, SATP};

#[test]
fn hart_id_wraps_the_integer() {
    let id = MHartId::from(7usize);
    assert_eq!(id.id(), 7);
    assert_eq!(MHartId::default().id(), 0);
}

#[test]
fn hart_id_reads_its_register() {
    let mut m = Machine::new();
    m.write(MHARTID, 3);
    assert_eq!(MHartId::read(&m).id(), 3);
}

#[test]
fn extension_bits_decode_by_letter() {
    // atomics (bit 0), base ISA (bit 8), supervisor (bit 18), user (bit 20)
    let e = Extensions::new_with_raw_value((1 << 0) | (1 << 8) | (1 << 18) | (1 << 20));
    assert!(e.a());
    assert!(e.i());
    assert!(e.s());
    assert!(e.u());
    assert!(!e.b());
    assert!(!e.c());
    assert!(!e.d());
    assert!(!e.e());
    assert!(!e.f());
    assert!(!e.h());
    assert!(!e.m());
    assert!(!e.q());
    assert!(!e.v());
    assert!(!e.x());
}

#[test]
fn with_bit_sets_and_clears_one_bit() {
    let e = Extensions::new_with_raw_value(0);
    let with_s = e.with_bit(18, true);
    assert!(with_s.s());
    assert_eq!(with_s.raw_value(), 1 << 18);
    let cleared = with_s.with_bit(18, false);
    assert!(!cleared.s());
    assert_eq!(cleared.raw_value(), 0);
    // setting one bit leaves the others alone
    let both = with_s.with_bit(20, true);
    assert!(both.s());
    assert!(both.u());
}

#[test]
fn misa_fields_decode() {
    let raw = (2u64 << 62) | (0x123u64 << 26) | (1 << 18) | (1 << 8);
    let misa = Misa::new_with_raw_value(raw);
    assert_eq!(misa.raw_value(), raw);
    assert_eq!(misa.extensions().raw_value(), (1 << 18) | (1 << 8));
    assert_eq!(misa.fill(), 0x123);
    assert_eq!(misa.mxlen(), Some(MXLen::_64));
    assert_eq!(Misa::new_with_raw_value(1u64 << 62).mxlen(), Some(MXLen::_32));
    assert_eq!(Misa::new_with_raw_value(0).mxlen(), None);
    assert_eq!(Misa::new_with_raw_value(3u64 << 62).mxlen(), None);
}

#[test]
fn misa_with_extensions_replaces_only_that_field() {
    let raw = (2u64 << 62) | (0x123u64 << 26) | 0x3ff;
    let misa = Misa::new_with_raw_value(raw);
    let swapped = misa.with_extensions(Extensions::new_with_raw_value(1 << 20));
    assert_eq!(swapped.extensions().raw_value(), 1 << 20);
    assert_eq!(swapped.fill(), 0x123);
    assert_eq!(swapped.mxlen(), Some(MXLen::_64));
}

#[test]
fn misa_round_trips_through_its_register() {
    let mut m = Machine::new();
    let raw = (2u64 << 62) | (1 << 18) | (1 << 20);
    Misa::new_with_raw_value(raw).write(&mut m);
    assert_eq!(m.read(MISA), raw);
    assert_eq!(Misa::read(&m).raw_value(), raw);
    // writing the unmodified value back changes nothing
    Misa::read(&m).write(&mut m);
    assert_eq!(m.read(MISA), raw);
}

#[test]
fn satp_fields_decode() {
    let raw = (8u64 << 60) | (0x42u64 << 44) | 0xabcde;
    let satp = Satp::new_with_raw_value(raw);
    assert_eq!(satp.physical_page_number(), 0xabcde);
    assert_eq!(satp.address_space_id(), 0x42);
    assert_eq!(satp.mode(), Some(TranslationMode::Sv39));
}

#[test]
fn satp_default_is_the_disabled_encoding() {
    let satp: Satp = Default::default();
    assert_eq!(satp.raw_value(), 0);
    assert_eq!(satp.mode(), Some(TranslationMode::Bare));
    assert_eq!(satp.physical_page_number(), 0);
    assert_eq!(satp.address_space_id(), 0);
}

#[test]
fn satp_mode_encodings() {
    assert_eq!(Satp::new_with_raw_value(0).mode(), Some(TranslationMode::Bare));
    assert_eq!(Satp::new_with_raw_value(8 << 60).mode(), Some(TranslationMode::Sv39));
    assert_eq!(Satp::new_with_raw_value(9u64 << 60).mode(), Some(TranslationMode::Sv48));
    assert_eq!(Satp::new_with_raw_value(10u64 << 60).mode(), Some(TranslationMode::Sv57));
    // reserved mode encodings decode to nothing
    assert_eq!(Satp::new_with_raw_value(1u64 << 60).mode(), None);
    assert_eq!(Satp::new_with_raw_value(15u64 << 60).mode(), None);
}

#[test]
fn satp_setters_replace_only_their_field() {
    let satp = Satp::new_with_raw_value(0)
        .with_mode(TranslationMode::Sv48)
        .with_physical_page_number(0x1234)
        .with_address_space_id(7);
    assert_eq!(satp.mode(), Some(TranslationMode::Sv48));
    assert_eq!(satp.physical_page_number(), 0x1234);
    assert_eq!(satp.address_space_id(), 7);
    let renumbered = satp.with_physical_page_number(0xfff_ffff_ffff);
    assert_eq!(renumbered.physical_page_number(), 0xfff_ffff_ffff);
    assert_eq!(renumbered.address_space_id(), 7);
    assert_eq!(renumbered.mode(), Some(TranslationMode::Sv48));
}

#[test]
fn satp_round_trips_through_its_register() {
    let mut m = Machine::new();
    let raw = (8u64 << 60) | 0x777;
    Satp::new_with_raw_value(raw).write(&mut m);
    assert_eq!(m.read(SATP), raw);
    assert_eq!(Satp::read(&m).raw_value(), raw);
}
