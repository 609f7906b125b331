//! Toolchain discovery: the resolved toolchain value object, the analysis
//! that populates it from the compiler front-end's introspection replies,
//! and the construction of the relocatable-merge link invocation.

use vstd::prelude::*;
use crate::error::{Error, ToolRole, ToolchainFailure};

verus! {

/// The resolved identity of one compilation toolchain: the front-end and
/// the three subordinate tools discovered through it. A value of this
/// type exists only once all four paths are known, so a toolchain is
/// never partially resolved.
pub struct ToolchainSet {
    pub compiler: String,
    pub assembler: String,
    pub linker: String,
    pub link_helper: String,
}

impl Clone for ToolchainSet {
    fn clone(&self) -> (r: Self)
        ensures
            r == *self,
    {
        ToolchainSet {
            compiler: self.compiler.clone(),
            assembler: self.assembler.clone(),
            linker: self.linker.clone(),
            link_helper: self.link_helper.clone(),
        }
    }
}

/// The captured result of one introspection query to the compiler
/// front-end: whether the query exited successfully, the single program
/// name or path it wrote to its standard output, and whatever it wrote
/// to its standard error.
pub struct QueryReply {
    pub success: bool,
    pub stdout: String,
    pub stderr: String,
}

/// A compiler front-end together with the toolchain resolved behind it.
/// Created unresolved; `analyze` populates the toolchain exactly once,
/// either completely or not at all.
pub struct Compiler {
    pub toolchain: Option<ToolchainSet>,
}

impl Compiler {
    /// All four toolchain paths are known.
    pub open spec fn is_resolved(self) -> bool {
        self.toolchain is Some
    }

    pub fn new() -> (c: Compiler)
        ensures
            !c.is_resolved(),
    {
        Compiler { toolchain: None }
    }

    /// Resolves a program name returned by the compiler front-end to the
    /// path of an executable on the search path.
    pub fn readlink(&self, name: &String) -> (r: Result<String, Error>)
        ensures
            r matches Err(e) ==> (e matches Error::Compiler(ToolchainFailure::Resolve {
                name: n,
                detail: _,
            }) && n@ == name@),
    {
        match resolve_on_path(name) {
            Ok(path) => Ok(path),
            Err(detail) => Err(Error::Compiler(ToolchainFailure::Resolve {
                name: name.clone(),
                detail,
            })),
        }
    }

    /// Populates the toolchain behind the given front-end from the three
    /// introspection replies: every path, the front-end's included, goes
    /// through the resolver. On any failure the compiler is left exactly
    /// as it was: a partially resolved toolchain is never exposed.
    pub fn analyze(
        &mut self,
        compiler_file: String,
        assembler_query: QueryReply,
        linker_query: QueryReply,
        link_helper_query: QueryReply,
    ) -> (r: Result<(), Error>)
        ensures
            r is Ok ==> final(self).is_resolved(),
            r is Err ==> *final(self) == *old(self),
            r is Ok ==> assembler_query.success && linker_query.success
                && link_helper_query.success,
            !assembler_query.success ==> (r matches Err(Error::Compiler(ToolchainFailure::Query {
                role,
                compiler,
                stderr,
            })) && role == ToolRole::Assembler && compiler == compiler_file && stderr
                == assembler_query.stderr),
            assembler_query.success && !linker_query.success ==> (r matches Err(
                Error::Compiler(ToolchainFailure::Query { role, compiler, stderr }),
            ) && role == ToolRole::Linker && compiler == compiler_file && stderr
                == linker_query.stderr),
            assembler_query.success && linker_query.success && !link_helper_query.success ==> (
            r matches Err(Error::Compiler(ToolchainFailure::Query { role, compiler, stderr }))
                && role == ToolRole::LinkHelper && compiler == compiler_file && stderr
                == link_helper_query.stderr),
            assembler_query.success && linker_query.success && link_helper_query.success && r
                is Err ==> (r matches Err(Error::Compiler(ToolchainFailure::Resolve {
                name: n,
                detail: _,
            })) && (n@ == compiler_file@ || n@ == assembler_query.stdout@ || n@
                == linker_query.stdout@ || n@ == link_helper_query.stdout@)),
    {
        if !assembler_query.success {
            return Err(Error::Compiler(ToolchainFailure::Query {
                role: ToolRole::Assembler,
                compiler: compiler_file,
                stderr: assembler_query.stderr,
            }));
        }
        if !linker_query.success {
            return Err(Error::Compiler(ToolchainFailure::Query {
                role: ToolRole::Linker,
                compiler: compiler_file,
                stderr: linker_query.stderr,
            }));
        }
        if !link_helper_query.success {
            return Err(Error::Compiler(ToolchainFailure::Query {
                role: ToolRole::LinkHelper,
                compiler: compiler_file,
                stderr: link_helper_query.stderr,
            }));
        }
        let compiler = match self.readlink(&compiler_file) {
            Ok(path) => path,
            Err(e) => {
                return Err(e);
            },
        };
        let assembler = match self.readlink(&assembler_query.stdout) {
            Ok(path) => path,
            Err(e) => {
                return Err(e);
            },
        };
        let linker = match self.readlink(&linker_query.stdout) {
            Ok(path) => path,
            Err(e) => {
                return Err(e);
            },
        };
        let link_helper = match self.readlink(&link_helper_query.stdout) {
            Ok(path) => path,
            Err(e) => {
                return Err(e);
            },
        };
        self.toolchain = Some(ToolchainSet { compiler, assembler, linker, link_helper });
        Ok(())
    }
}

/// One invocation of the link-editor, ready to be spawned: the program
/// and its full argument list, in order.
pub struct LinkCommand {
    pub program: String,
    pub args: Vec<String>,
}

/// The argument list of a relocatable merge: `-r -o <output>` followed
/// by the objects in their given order.
pub open spec fn link_args_spec(objects: Seq<Seq<char>>, output: Seq<char>) -> Seq<Seq<char>> {
    seq!["-r"@, "-o"@, output] + objects
}

impl Compiler {
    /// Builds the single link-editor invocation that merges the given
    /// relocatable objects, in their given order, into `output_file`.
    pub fn linker(&self, link_list: &Vec<String>, output_file: &String) -> (r: LinkCommand)
        requires
            self.is_resolved(),
        ensures
            r.program@ == self.toolchain->Some_0.linker@,
            r.args.deep_view() == link_args_spec(link_list.deep_view(), output_file@),
    {
        let ts = self.toolchain.as_ref().unwrap();
        let mut args: Vec<String> = Vec::new();
        args.push(String::from_str("-r"));
        args.push(String::from_str("-o"));
        args.push(output_file.clone());
        let mut i: usize = 0;
        while i < link_list.len()
            invariant
                i <= link_list.len(),
                args@.len() == 3 + i,
                args@[0]@ == "-r"@,
                args@[1]@ == "-o"@,
                args@[2]@ == output_file@,
                forall|j: int| 0 <= j < i ==> args@[3 + j]@ == link_list@[j]@,
            decreases link_list.len() - i,
        {
            args.push(link_list[i].clone());
            i += 1;
        }
        proof {
            assert(args.deep_view() =~~= link_args_spec(link_list.deep_view(), output_file@));
        }
        LinkCommand { program: ts.linker.clone(), args }
    }
}

/// Judges the link of the captured objects: success exactly when the
/// link-editor exited with code zero and the output object exists
/// afterwards; otherwise the exit code and captured stderr are
/// reported.
pub fn link_outcome(exit_code: i32, stderr: String, output_exists: bool) -> (r: Result<
    (),
    Error,
>)
    ensures
        r is Ok <==> exit_code == 0 && output_exists,
        r matches Err(e) ==> (e matches Error::Compiler(ToolchainFailure::Link {
            exit_code: c,
            stderr: s,
        }) && c == exit_code && s == stderr),
{
    if exit_code == 0 && output_exists {
        Ok(())
    } else {
        Err(Error::Compiler(ToolchainFailure::Link { exit_code, stderr }))
    }
}

/// The introspection flag that asks the compiler front-end for the
/// program it would use in the given role.
pub fn prog_name_flag(role: ToolRole) -> (r: String)
    ensures
        role == ToolRole::Assembler ==> r@ == "-print-prog-name=as"@,
        role == ToolRole::Linker ==> r@ == "-print-prog-name=ld"@,
        role == ToolRole::LinkHelper ==> r@ == "-print-prog-name=collect2"@,
{
    match role {
        ToolRole::Assembler => String::from_str("-print-prog-name=as"),
        ToolRole::Linker => String::from_str("-print-prog-name=ld"),
        ToolRole::LinkHelper => String::from_str("-print-prog-name=collect2"),
    }
}

/// Relies on which::which of the `which` crate: finds an executable by
/// name on the search path (absolute and relative names are accepted if
/// they denote an executable file). The found path is returned as it
/// stands — symbolic links in it are not resolved. The result depends
/// on the search path and the disk, so nothing is assumed of it.
#[verifier::external_body]
fn resolve_on_path(name: &String) -> (r: Result<String, String>) {
    match which::which(name.as_str()) {
        Ok(path) => match path.into_os_string().into_string() {
            Ok(p) => Ok(p),
            Err(raw) => Err(format!("{:?} is not valid unicode", raw)),
        },
        Err(e) => Err(e.to_string()),
    }
}

} // verus!
