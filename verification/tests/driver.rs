use upatch_build::driver::{Capability, DriverCommand, HackSession, UnhackSession};
use upatch_build::error::{DriverFailure, Error};
use upatch_build::toolchain::{Compiler, ToolchainSet};

fn session_compiler() -> Compiler {
    Compiler {
        toolchain: Some(ToolchainSet {
            compiler: String::from("/usr/bin/gcc"),
            assembler: String::from("/usr/bin/as"),
            linker: String::from("/usr/bin/ld"),
            link_helper: String::from("/usr/lib/gcc/x86_64/12/collect2"),
        }),
    }
}

fn apply(table: &mut Vec<Capability>, cmd: &DriverCommand, status: i32) {
    if status >= 0 {
        if cmd.register {
            if !table.contains(&cmd.capability) {
                table.push(cmd.capability);
            }
        } else {
            table.retain(|c| *c != cmd.capability);
        }
    }
}

fn run_hack_session(
    session: &mut HackSession,
    table: &mut Vec<Capability>,
    statuses: &[i32],
) -> Vec<(bool, Capability, String)> {
    let mut issued = Vec::new();
    let mut i = 0;
    while let Some(cmd) = session.next_command() {
        let status = statuses[i];
        i += 1;
        issued.push((cmd.register, cmd.capability, cmd.path.clone()));
        apply(table, &cmd, status);
        session.report(status);
    }
    assert_eq!(i, statuses.len(), "unexpected number of device requests");
    issued
}

fn run_unhack_session(
    session: &mut UnhackSession,
    table: &mut Vec<Capability>,
    statuses: &[i32],
) -> Vec<(bool, Capability, String)> {
    let mut issued = Vec::new();
    let mut i = 0;
    while let Some(cmd) = session.next_command() {
        let status = statuses[i];
        i += 1;
        issued.push((cmd.register, cmd.capability, cmd.path.clone()));
        apply(table, &cmd, status);
        session.report(status);
    }
    assert_eq!(i, statuses.len(), "unexpected number of device requests");
    issued
}

#[test]
fn hack_registers_in_the_fixed_order() {
    let c = session_compiler();
    let mut session = c.hack();
    let mut table = Vec::new();
    let issued = run_hack_session(&mut session, &mut table, &[0, 0, 0]);
    assert_eq!(
        issued,
        vec![
            (true, Capability::Compiler, String::from("/usr/bin/gcc")),
            (true, Capability::Assembler, String::from("/usr/bin/as")),
            (true, Capability::Link, String::from("/usr/lib/gcc/x86_64/12/collect2")),
        ]
    );
    assert!(session.outcome().is_ok());
    assert_eq!(
        table,
        vec![Capability::Compiler, Capability::Assembler, Capability::Link]
    );
}

#[test]
fn hack_then_unhack_restores_the_table() {
    let c = session_compiler();
    let mut table = Vec::new();

    let mut hack = c.hack();
    run_hack_session(&mut hack, &mut table, &[0, 0, 0]);
    assert!(hack.outcome().is_ok());
    assert_eq!(table.len(), 3);

    let mut unhack = c.unhack();
    let issued = run_unhack_session(&mut unhack, &mut table, &[0, 0, 0]);
    assert!(unhack.outcome().is_ok());
    assert_eq!(
        issued,
        vec![
            (false, Capability::Compiler, String::from("/usr/bin/gcc")),
            (false, Capability::Assembler, String::from("/usr/bin/as")),
            (false, Capability::Link, String::from("/usr/lib/gcc/x86_64/12/collect2")),
        ]
    );
    assert!(table.is_empty());
}

#[test]
fn assembler_refusal_rolls_back_the_compiler() {
    let c = session_compiler();
    let mut session = c.hack();
    let mut table = Vec::new();
    let issued = run_hack_session(&mut session, &mut table, &[0, -5, 0]);
    assert_eq!(
        issued,
        vec![
            (true, Capability::Compiler, String::from("/usr/bin/gcc")),
            (true, Capability::Assembler, String::from("/usr/bin/as")),
            (false, Capability::Compiler, String::from("/usr/bin/gcc")),
        ]
    );
    assert!(table.is_empty(), "the compiler must no longer be registered");
    match session.outcome() {
        Err(Error::Mod(DriverFailure::Register { capability, path, status, rollback_complete })) => {
            assert_eq!(capability, Capability::Assembler);
            assert_eq!(path, "/usr/bin/as");
            assert_eq!(status, -5);
            assert!(rollback_complete);
        }
        other => panic!("expected a register failure, got {:?}", other),
    }
}

#[test]
fn link_helper_refusal_rolls_back_both() {
    let c = session_compiler();
    let mut session = c.hack();
    let mut table = Vec::new();
    let issued = run_hack_session(&mut session, &mut table, &[0, 0, -7, 0, 0]);
    assert_eq!(
        issued,
        vec![
            (true, Capability::Compiler, String::from("/usr/bin/gcc")),
            (true, Capability::Assembler, String::from("/usr/bin/as")),
            (true, Capability::Link, String::from("/usr/lib/gcc/x86_64/12/collect2")),
            (false, Capability::Assembler, String::from("/usr/bin/as")),
            (false, Capability::Compiler, String::from("/usr/bin/gcc")),
        ]
    );
    assert!(table.is_empty(), "both registrations must be rolled back");
    match session.outcome() {
        Err(Error::Mod(DriverFailure::Register { capability, status, rollback_complete, .. })) => {
            assert_eq!(capability, Capability::Link);
            assert_eq!(status, -7);
            assert!(rollback_complete);
        }
        other => panic!("expected a register failure, got {:?}", other),
    }
}

#[test]
fn refused_compensation_is_reported_incomplete() {
    let c = session_compiler();
    let mut session = c.hack();
    let mut table = Vec::new();
    run_hack_session(&mut session, &mut table, &[0, -5, -1]);
    assert_eq!(table, vec![Capability::Compiler]);
    match session.outcome() {
        Err(Error::Mod(DriverFailure::Register { capability, rollback_complete, .. })) => {
            assert_eq!(capability, Capability::Assembler);
            assert!(!rollback_complete, "the refused compensation must be surfaced");
        }
        other => panic!("expected a register failure, got {:?}", other),
    }
}

#[test]
fn first_register_refusal_needs_no_rollback() {
    let c = session_compiler();
    let mut session = c.hack();
    let mut table = Vec::new();
    let issued = run_hack_session(&mut session, &mut table, &[-9]);
    assert_eq!(issued.len(), 1);
    assert!(table.is_empty());
    match session.outcome() {
        Err(Error::Mod(DriverFailure::Register { capability, status, rollback_complete, .. })) => {
            assert_eq!(capability, Capability::Compiler);
            assert_eq!(status, -9);
            assert!(rollback_complete);
        }
        other => panic!("expected a register failure, got {:?}", other),
    }
}

#[test]
fn unhack_stops_at_the_first_refusal() {
    let c = session_compiler();
    let mut table = vec![Capability::Compiler, Capability::Assembler, Capability::Link];
    let mut session = c.unhack();
    let issued = run_unhack_session(&mut session, &mut table, &[0, -3]);
    assert_eq!(
        issued,
        vec![
            (false, Capability::Compiler, String::from("/usr/bin/gcc")),
            (false, Capability::Assembler, String::from("/usr/bin/as")),
        ]
    );
    assert_eq!(
        table,
        vec![Capability::Assembler, Capability::Link],
        "later unregistrations must not be attempted"
    );
    match session.outcome() {
        Err(Error::Mod(DriverFailure::Unregister { capability, path, status })) => {
            assert_eq!(capability, Capability::Assembler);
            assert_eq!(path, "/usr/bin/as");
            assert_eq!(status, -3);
        }
        other => panic!("expected an unregister failure, got {:?}", other),
    }
}
