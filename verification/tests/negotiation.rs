//! Execution-environment negotiation and activation.

use boot_core::csr::Misa;
use boot_core::execution::{
    negotiate, Environment, ExecutionEnvironment, Mode, MSTATUS_MPP_SUPERVISOR, PMP_RWX_NAPOT,
};
use boot_core::machine::{
    Machine, MEDELEG, MEPC, MIDELEG, MISA, MSTATUS, PMPADDR0, PMPCFG0, SATP,
};

const S_BIT: u64 = 1 << 18;
const U_BIT: u64 = 1 << 20;
const I_BIT: u64 = 1 << 8;

#[test]
fn negotiate_follows_the_supervisor_and_user_bits() {
    let cases: [(u64, Mode, Mode); 4] = [
        (0, Mode::Machine, Mode::Machine),
        (S_BIT, Mode::Supervisor, Mode::Machine),
        (U_BIT, Mode::Machine, Mode::User),
        (S_BIT | U_BIT, Mode::Supervisor, Mode::User),
    ];
    for (raw, kernel, user) in cases {
        let env = negotiate(Misa::new_with_raw_value(raw));
        assert_eq!(env.kernel, kernel);
        assert_eq!(env.user, user);
    }
}

#[test]
fn negotiate_ignores_unrelated_bits() {
    // every extension bit but supervisor and user, plus fill and width fields
    let raw = (2u64 << 62) | (0x3f_ffffu64 << 26) | (0x03ff_ffff & !(S_BIT | U_BIT));
    let env = negotiate(Misa::new_with_raw_value(raw));
    assert_eq!(env.kernel, Mode::Machine);
    assert_eq!(env.user, Mode::Machine);
}

#[test]
fn environment_comes_from_the_capability_register() {
    let mut m = Machine::new();
    m.write(MISA, S_BIT | U_BIT);
    let env = ExecutionEnvironment::new(&m);
    assert_eq!(env.kernel, Mode::Supervisor);
    assert_eq!(env.user, Mode::User);
}

#[test]
fn activation_without_demotion_is_a_no_op() {
    // base integer extension only: no supervisor, no user
    let mut m = Machine::new();
    m.write(MISA, I_BIT);
    let env = ExecutionEnvironment::new(&m);
    assert_eq!(env.kernel, Mode::Machine);
    assert_eq!(env.user, Mode::Machine);
    env.activate(&mut m, 0x8020_0000);
    assert_eq!(m.trap_returns(), 0);
    assert_eq!(m.read(SATP), 0);
    assert_eq!(m.read(MEDELEG), 0);
    assert_eq!(m.read(MIDELEG), 0);
    assert_eq!(m.read(PMPCFG0), 0);
    assert_eq!(m.read(PMPADDR0), 0);
    assert_eq!(m.read(MEPC), 0);
    assert_eq!(m.read(MSTATUS), 0);
}

#[test]
fn activation_with_demotion_runs_the_whole_protocol() {
    let mut m = Machine::new();
    m.write(MISA, S_BIT | U_BIT);
    m.write(SATP, (8u64 << 60) | 0x99);  // a stale translation context
    let env = ExecutionEnvironment::new(&m);
    env.activate(&mut m, 0x8020_0000);
    assert_eq!(m.read(SATP), 0, "translation must be disabled");
    assert_eq!(m.read(MEDELEG), u64::MAX, "all exceptions delegated");
    assert_eq!(m.read(MIDELEG), u64::MAX, "all interrupts delegated");
    assert_eq!(m.read(PMPCFG0), PMP_RWX_NAPOT);
    assert_eq!(m.read(PMPADDR0), u64::MAX);
    assert_eq!(m.read(MEPC), 0x8020_0000);
    assert_eq!(m.read(MSTATUS), MSTATUS_MPP_SUPERVISOR);
    assert_eq!(m.trap_returns(), 1, "exactly one trap return");
}

#[test]
fn activation_sets_the_previous_privilege_field_only() {
    let mut m = Machine::new();
    m.write(MISA, S_BIT);
    m.write(MSTATUS, 0xffff_ffff_ffff_ffff);
    let env = ExecutionEnvironment::new(&m);
    env.activate(&mut m, 0x1000);
    // the two-bit previous-privilege field reads Supervisor, the rest stays
    assert_eq!(m.read(MSTATUS), (u64::MAX & !0x1800) | MSTATUS_MPP_SUPERVISOR);
}
