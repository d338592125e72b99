use enclave_runner::arch::ENCLU_EEXIT;
use enclave_runner::tcs::{transition, CoResult, EnclaveEntry, ExitRegisters, Tcs};

fn normal_exit(p1: u64, p2: u64, p3: u64, p4: u64, p5: u64) -> ExitRegisters {
    ExitRegisters { exit_reason: ENCLU_EEXIT, p1, p2, p3, p4, p5 }
}

#[test]
fn yield_parameter_fidelity() {
    let cases: Vec<(u64, u64, u64, u64, u64)> = vec![
        (1, 0, 0, 0, 0),
        (7, 100, 200, 0, 0),
        (u64::MAX, u64::MAX, 1, 2, 3),
        (42, 0, u64::MAX, 9, 8),
    ];
    for (p1, p2, p3, p4, p5) in cases {
        let tcs = Tcs::new(0x7000);
        match transition(tcs, normal_exit(p1, p2, p3, p4, p5)) {
            Ok(CoResult::Yield(u)) => {
                assert_eq!(u.parameters(), (p1, p2, p3, p4, p5));
                assert_eq!(u.tcs_address(), 0x7000);
            }
            _ => panic!("a nonzero first parameter word must classify as Yield"),
        }
    }
}

#[test]
fn completion_fidelity() {
    let tcs = Tcs::new(0x3000);
    match transition(tcs, normal_exit(0, 11, 22, 33, 44)) {
        Ok(CoResult::Return((t, r0, r1))) => {
            assert_eq!(t.address(), 0x3000);
            assert_eq!((r0, r1), (11, 22));
        }
        _ => panic!("a zero first parameter word must classify as Return"),
    }
}

#[test]
fn outcome_exactly_one_variant() {
    let yielded = transition(Tcs::new(0x1000), normal_exit(9, 0, 0, 0, 0)).unwrap();
    assert!(matches!(yielded, CoResult::Yield(_)));
    assert!(!matches!(yielded, CoResult::Return(_)));

    let returned = transition(Tcs::new(0x1000), normal_exit(0, 0, 0, 0, 0)).unwrap();
    assert!(matches!(returned, CoResult::Return(_)));
    assert!(!matches!(returned, CoResult::Yield(_)));
}

#[test]
fn tcs_conserved_across_sequence() {
    let initial_address: u64 = 0xa000;
    let mut tcs = Tcs::new(initial_address);
    // Three yielding transitions, each resumed, then a completing one: the
    // slot that comes out at the end is the one that went in at the start.
    for round in 0..3u64 {
        match transition(tcs, normal_exit(round + 1, 0, 0, 0, 0)) {
            Ok(CoResult::Yield(u)) => {
                assert_eq!(u.tcs_address(), initial_address);
                let entry = u.coreturn((round, round));
                tcs = entry.tcs;
            }
            _ => panic!("expected a Yield"),
        }
    }
    match transition(tcs, normal_exit(0, 5, 6, 0, 0)) {
        Ok(CoResult::Return((t, _, _))) => assert_eq!(t.address(), initial_address),
        _ => panic!("expected a Return"),
    }
}

#[test]
fn resume_register_contract() {
    let tcs = Tcs::new(0x5000);
    let usercall = match transition(tcs, normal_exit(3, 0, 0, 0, 0)) {
        Ok(CoResult::Yield(u)) => u,
        _ => panic!("expected a Yield"),
    };
    let entry = usercall.coreturn((0xdead, 0xbeef));
    // The two return words stand in the first two parameter registers of the
    // enclave-side convention; the remaining three are cleared.
    assert_eq!(entry.tcs.address(), 0x5000);
    assert_eq!(entry.p1, 0);
    assert_eq!(entry.p2, 0xdead);
    assert_eq!(entry.p3, 0xbeef);
    assert_eq!(entry.p4, 0);
    assert_eq!(entry.p5, 0);
}

#[test]
fn fatal_exit_reason_is_deterministic() {
    for reason in [0u32, 1, 2, 3, 5, 6, u32::MAX] {
        let exit = ExitRegisters { exit_reason: reason, p1: 1, p2: 2, p3: 3, p4: 4, p5: 5 };
        assert!(!exit.check_normal());
        match transition(Tcs::new(0x9000), exit) {
            Err(code) => assert_eq!(code, reason),
            Ok(_) => panic!("an abnormal exit reason must never produce an outcome"),
        }
        // The classification is deterministic: the same registers give the
        // same fatal code again.
        match transition(Tcs::new(0x9000), exit) {
            Err(code) => assert_eq!(code, reason),
            Ok(_) => panic!("an abnormal exit reason must never produce an outcome"),
        }
    }
    assert!(normal_exit(0, 0, 0, 0, 0).check_normal());
}

#[test]
fn initial_entry_registers() {
    let entry = EnclaveEntry::new(Tcs::new(0x2000), 1, 2, 3, 4, 5);
    assert_eq!(entry.tcs.address(), 0x2000);
    assert_eq!((entry.p1, entry.p2, entry.p3, entry.p4, entry.p5), (1, 2, 3, 4, 5));
}

#[test]
fn always_yield_enclave_scenario() {
    // A simulated enclave thread that always suspends itself with the
    // parameters (7, 100, 200, 0, 0), however it is entered.
    let always_yield = || normal_exit(7, 100, 200, 0, 0);

    let tcs = Tcs::new(0x4000);
    let first = match transition(tcs, always_yield()) {
        Ok(CoResult::Yield(u)) => u,
        _ => panic!("first entry must yield"),
    };
    assert_eq!(first.parameters(), (7, 100, 200, 0, 0));

    let entry = first.coreturn((1, 1));
    assert_eq!((entry.p2, entry.p3), (1, 1));
    match transition(entry.tcs, always_yield()) {
        Ok(CoResult::Yield(second)) => {
            assert_eq!(second.parameters(), (7, 100, 200, 0, 0));
            assert_eq!(second.tcs_address(), 0x4000);
        }
        Ok(CoResult::Return(_)) => panic!("an always-yielding thread must never classify as Return"),
        Err(code) => panic!("unexpected fatal exit reason {code}"),
    }
}
