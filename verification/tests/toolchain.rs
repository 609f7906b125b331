use upatch_build::error::{Error, ToolRole, ToolchainFailure};
use upatch_build::toolchain::{link_outcome, prog_name_flag, Compiler, QueryReply, ToolchainSet};

fn reply(stdout: &str) -> QueryReply {
    QueryReply { success: true, stdout: String::from(stdout), stderr: String::new() }
}

fn failed_reply() -> QueryReply {
    QueryReply {
        success: false,
        stdout: String::new(),
        stderr: String::from("unrecognized option"),
    }
}

fn resolved_compiler() -> Compiler {
    Compiler {
        toolchain: Some(ToolchainSet {
            compiler: String::from("/usr/bin/gcc"),
            assembler: String::from("/usr/bin/as"),
            linker: String::from("/usr/bin/ld"),
            link_helper: String::from("/usr/lib/gcc/x86_64/12/collect2"),
        }),
    }
}

#[test]
fn new_compiler_is_unresolved() {
    let c = Compiler::new();
    assert!(c.toolchain.is_none());
}

#[test]
fn analyze_resolves_all_four_or_none() {
    let mut c = Compiler::new();
    let r = c.analyze(String::from("sh"), reply("sh"), reply("sh"), reply("sh"));
    assert!(r.is_ok());
    let ts = c.toolchain.as_ref().expect("toolchain must be fully populated");
    assert!(ts.compiler.ends_with("sh"), "the front-end path is resolved too");
    assert!(!ts.assembler.is_empty());
    assert!(!ts.linker.is_empty());
    assert!(!ts.link_helper.is_empty());
}

#[test]
fn analyze_fails_on_an_unresolvable_front_end() {
    let mut c = Compiler::new();
    let r = c.analyze(
        String::from("no-such-compiler-in-any-search-path"),
        reply("sh"),
        reply("sh"),
        reply("sh"),
    );
    match r {
        Err(Error::Compiler(ToolchainFailure::Resolve { name, .. })) => {
            assert_eq!(name, "no-such-compiler-in-any-search-path");
        }
        other => panic!("expected a resolution failure, got {:?}", other),
    }
    assert!(c.toolchain.is_none());
}

#[test]
fn analyze_reports_the_first_failing_query() {
    let mut c = Compiler::new();
    let r = c.analyze(String::from("cc"), failed_reply(), reply("sh"), reply("sh"));
    match r {
        Err(Error::Compiler(ToolchainFailure::Query { role, compiler, stderr })) => {
            assert_eq!(role, ToolRole::Assembler);
            assert_eq!(compiler, "cc");
            assert_eq!(stderr, "unrecognized option");
        }
        other => panic!("expected a query failure, got {:?}", other),
    }
    assert!(c.toolchain.is_none());
}

#[test]
fn analyze_reports_the_failing_linker_query() {
    let mut c = Compiler::new();
    let r = c.analyze(String::from("cc"), reply("sh"), failed_reply(), reply("sh"));
    match r {
        Err(Error::Compiler(ToolchainFailure::Query { role, .. })) => {
            assert_eq!(role, ToolRole::Linker);
        }
        other => panic!("expected a query failure, got {:?}", other),
    }
    assert!(c.toolchain.is_none());
}

#[test]
fn analyze_leaves_compiler_unchanged_on_unresolvable_tool() {
    let mut c = Compiler::new();
    let r = c.analyze(
        String::from("cc"),
        reply("sh"),
        reply("no-such-program-in-any-search-path"),
        reply("sh"),
    );
    match r {
        Err(Error::Compiler(ToolchainFailure::Resolve { name, .. })) => {
            assert_eq!(name, "no-such-program-in-any-search-path");
        }
        other => panic!("expected a resolution failure, got {:?}", other),
    }
    assert!(c.toolchain.is_none());
}

#[test]
fn readlink_finds_a_real_program() {
    let c = Compiler::new();
    let r = c.readlink(&String::from("sh"));
    assert!(r.unwrap().ends_with("sh"));
}

#[test]
fn readlink_reports_the_unresolvable_name() {
    let c = Compiler::new();
    let r = c.readlink(&String::from("no-such-program-in-any-search-path"));
    match r {
        Err(Error::Compiler(ToolchainFailure::Resolve { name, detail })) => {
            assert_eq!(name, "no-such-program-in-any-search-path");
            assert!(!detail.is_empty());
        }
        other => panic!("expected a resolution failure, got {:?}", other),
    }
}

#[test]
fn linker_invokes_relocatable_merge_in_object_order() {
    let c = resolved_compiler();
    let objects = vec![String::from("a.o"), String::from("b.o"), String::from("c.o")];
    let cmd = c.linker(&objects, &String::from("patch.o"));
    assert_eq!(cmd.program, "/usr/bin/ld");
    assert_eq!(cmd.args, vec!["-r", "-o", "patch.o", "a.o", "b.o", "c.o"]);
}

#[test]
fn linker_with_no_objects_still_names_the_output() {
    let c = resolved_compiler();
    let objects: Vec<String> = Vec::new();
    let cmd = c.linker(&objects, &String::from("patch.o"));
    assert_eq!(cmd.args, vec!["-r", "-o", "patch.o"]);
}

#[test]
fn link_outcome_succeeds_only_on_exit_zero() {
    assert!(link_outcome(0, String::new(), true).is_ok());
    match link_outcome(2, String::from("undefined reference"), true) {
        Err(Error::Compiler(ToolchainFailure::Link { exit_code, stderr })) => {
            assert_eq!(exit_code, 2);
            assert_eq!(stderr, "undefined reference");
        }
        other => panic!("expected a link failure, got {:?}", other),
    }
}

#[test]
fn link_outcome_needs_the_output_to_exist() {
    match link_outcome(0, String::new(), false) {
        Err(Error::Compiler(ToolchainFailure::Link { exit_code, .. })) => {
            assert_eq!(exit_code, 0);
        }
        other => panic!("expected a link failure, got {:?}", other),
    }
}

#[test]
fn prog_name_flags_match_the_introspection_surface() {
    assert_eq!(prog_name_flag(ToolRole::Assembler), "-print-prog-name=as");
    assert_eq!(prog_name_flag(ToolRole::Linker), "-print-prog-name=ld");
    assert_eq!(prog_name_flag(ToolRole::LinkHelper), "-print-prog-name=collect2");
}
