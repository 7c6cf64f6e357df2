//! Language-aware compilation planning.
//!
//! For each supported language this module fixes the exact toolchain
//! invocation — program name and argument vector — together with the one
//! pre-compile file move Java needs.  The host spawns the planned command and
//! reports back whether the toolchain succeeded; its diagnostics become a
//! compile-error verdict via [`compile_error_message`].

use vstd::prelude::*;

use crate::compare::bytes_eq;

verus! {

use vstd::string::StrSliceExecFns;
use vstd::string::StringExecFns;
use vstd::string::StringSliceAdditionalSpecFns;

/// The byte that separates path components.
pub const PATH_SEPARATOR: u8 = 0x2f;

/// The programming language of a submission.  It determines the compile
/// toolchain, whether a runtime interpreter launches the artifact, and the
/// runtime argument vector.
#[derive(Debug, Clone, Copy)]
pub enum Language {
    Rust,
    C,
    CPP,
    Python,
    NodeJs,
    Golang,
    Java,
}

impl Default for Language {
    /// Rust is the default language.
    fn default() -> (r: Self)
        ensures
            r is Rust,
    {
        Language::Rust
    }
}

/// A program to spawn together with its argument vector.
pub struct CommandSpec {
    pub program: String,
    pub args: Vec<String>,
}

/// What must happen to compile one submission: an optional copy of the
/// source into the workspace first, then an optional toolchain invocation.
pub struct CompilePlan {
    /// Copy the source file to this path before compiling.
    pub copy_source_to: Option<String>,
    /// The toolchain to run, or `None` for languages without a compile step.
    pub command: Option<CommandSpec>,
}

/// The views of a sequence of strings.
pub open spec fn strs_of(args: Seq<String>) -> Seq<Seq<char>> {
    Seq::new(args.len(), |i: int| args[i]@)
}

/// The last path component: the suffix after the final separator.
pub open spec fn spec_last_component(p: Seq<u8>) -> Seq<u8>
    decreases p.len(),
{
    if p.len() == 0 {
        p
    } else if p.last() == PATH_SEPARATOR {
        Seq::empty()
    } else {
        spec_last_component(p.drop_last()).push(p.last())
    }
}

/// The compile invocation for a language: the program to run and its
/// arguments, or `None` when the language has no compile step.
pub open spec fn spec_compile_command(
    language: Language,
    source: Seq<char>,
    output: Seq<char>,
    base: Seq<char>,
    home: Seq<char>,
) -> Option<(Seq<char>, Seq<Seq<char>>)> {
    match language {
        Language::C => Some(
            ("cc"@, seq!["-O2"@, "-w"@, "-std=c17"@, source, "-lm"@, "-o"@, output]),
        ),
        Language::CPP => Some(
            ("c++"@, seq!["-O2"@, "-w"@, "-std=c++20"@, source, "-lm"@, "-o"@, output]),
        ),
        Language::Rust => Some(
            (
                home + "/.rustup/toolchains/stable-x86_64-unknown-linux-gnu/bin/rustc"@,
                seq![
                    "--edition=2021"@,
                    source,
                    "-C"@,
                    "embed-bitcode=no"@,
                    "-C"@,
                    "opt-level=2"@,
                    "-o"@,
                    output,
                ],
            ),
        ),
        Language::Python => Some(("python3"@, seq!["-m"@, "py_compile"@, source])),
        Language::NodeJs => None,
        Language::Golang => Some(("go"@, seq!["build"@, "-o"@, output, source])),
        Language::Java => Some(("javac"@, seq![base + "/"@ + "Main.java"@])),
    }
}

/// Whether compiling `language` must first copy the source to
/// `<base>/Main.java`: only Java, and only when the source is not already so
/// named.
pub open spec fn spec_copy_needed(language: Language, source_bytes: Seq<u8>) -> bool {
    language is Java && spec_last_component(source_bytes) != "Main.java".spec_bytes()
}

proof fn lemma_last_component_suffix(p: Seq<u8>, j: int)
    requires
        0 <= j <= p.len(),
        forall|k: int| j <= k < p.len() ==> p[k] != PATH_SEPARATOR,
        j > 0 ==> p[j - 1] == PATH_SEPARATOR,
    ensures
        spec_last_component(p) == p.skip(j),
    decreases p.len(),
{
    if j == p.len() {
        assert(p.skip(j) =~= Seq::<u8>::empty());
    } else {
        assert(p.last() != PATH_SEPARATOR);
        lemma_last_component_suffix(p.drop_last(), j);
        assert(p.drop_last().skip(j).push(p.last()) =~= p.skip(j));
    }
}

/// The last path component of `p`, as a fresh vector.
pub fn last_component(p: &Vec<u8>) -> (r: Vec<u8>)
    ensures
        r@ == spec_last_component(p@),
{
    let mut j: usize = p.len();
    while j > 0 && p[j - 1] != PATH_SEPARATOR
        invariant
            j <= p@.len(),
            forall|k: int| j <= k < p@.len() ==> p@[k] != PATH_SEPARATOR,
        decreases j,
    {
        j = j - 1;
    }
    proof {
        lemma_last_component_suffix(p@, j as int);
    }
    let mut r: Vec<u8> = Vec::new();
    let mut k: usize = j;
    while k < p.len()
        invariant
            j <= k <= p@.len(),
            r@ == p@.subrange(j as int, k as int),
        decreases p@.len() - k,
    {
        r.push(p[k]);
        proof {
            assert(p@.subrange(j as int, k as int).push(p@[k as int]) =~= p@.subrange(
                j as int,
                k as int + 1,
            ));
        }
        k = k + 1;
    }
    proof {
        assert(p@.subrange(j as int, p@.len() as int) =~= p@.skip(j as int));
    }
    r
}

/// Whether the last path component of `path` is exactly `name`.
pub fn has_file_name(path: &str, name: &str) -> (r: bool)
    ensures
        r == (spec_last_component(path.spec_bytes()) == name.spec_bytes()),
{
    let pb = path.as_bytes_vec();
    let nb = name.as_bytes_vec();
    let lc = last_component(&pb);
    bytes_eq(&lc, &nb)
}

/// `base` and `name` joined by a path separator.
pub fn join_path(base: &str, name: &str) -> (r: String)
    ensures
        r@ == base@ + "/"@ + name@,
{
    let mut s = String::from_str(base);
    s.append("/");
    s.append(name);
    s
}

/// Push one argument, as an owned string, onto an argument vector.
pub(crate) fn push_arg(args: &mut Vec<String>, s: &str)
    ensures
        strs_of(final(args)@) == strs_of(old(args)@).push(s@),
{
    args.push(String::from_str(s));
    proof {
        assert(strs_of(args@) =~= strs_of(old(args)@).push(s@));
    }
}

/// Plan the compilation of one submission: the file copy Java needs and the
/// toolchain invocation for the language, with the workspace at `base_path`,
/// the submitted source at `source_path`, the artifact to be written to
/// `output_path`, and the user's home directory (which locates the Rust
/// toolchain) at `home`.
pub fn compile_plan(
    language: Language,
    base_path: &str,
    source_path: &str,
    output_path: &str,
    home: &str,
) -> (r: CompilePlan)
    ensures
        match spec_compile_command(language, source_path@, output_path@, base_path@, home@) {
            Some((prog, argv)) => r.command matches Some(c) && c.program@ == prog && strs_of(
                c.args@,
            ) == argv,
            None => r.command is None,
        },
        spec_copy_needed(language, source_path.spec_bytes()) ==> (r.copy_source_to matches Some(p)
            && p@ == base_path@ + "/"@ + "Main.java"@),
        !spec_copy_needed(language, source_path.spec_bytes()) ==> r.copy_source_to is None,
{
    let mut args: Vec<String> = Vec::new();
    proof {
        assert(strs_of(args@) =~= Seq::<Seq<char>>::empty());
    }
    match language {
        Language::C => {
            push_arg(&mut args, "-O2");
            push_arg(&mut args, "-w");
            push_arg(&mut args, "-std=c17");
            push_arg(&mut args, source_path);
            push_arg(&mut args, "-lm");
            push_arg(&mut args, "-o");
            push_arg(&mut args, output_path);
            proof {
                assert(strs_of(args@) =~= seq![
                    "-O2"@,
                    "-w"@,
                    "-std=c17"@,
                    source_path@,
                    "-lm"@,
                    "-o"@,
                    output_path@,
                ]);
            }
            CompilePlan {
                copy_source_to: None,
                command: Some(CommandSpec { program: String::from_str("cc"), args }),
            }
        },
        Language::CPP => {
            push_arg(&mut args, "-O2");
            push_arg(&mut args, "-w");
            push_arg(&mut args, "-std=c++20");
            push_arg(&mut args, source_path);
            push_arg(&mut args, "-lm");
            push_arg(&mut args, "-o");
            push_arg(&mut args, output_path);
            proof {
                assert(strs_of(args@) =~= seq![
                    "-O2"@,
                    "-w"@,
                    "-std=c++20"@,
                    source_path@,
                    "-lm"@,
                    "-o"@,
                    output_path@,
                ]);
            }
            CompilePlan {
                copy_source_to: None,
                command: Some(CommandSpec { program: String::from_str("c++"), args }),
            }
        },
        Language::Rust => {
            push_arg(&mut args, "--edition=2021");
            push_arg(&mut args, source_path);
            push_arg(&mut args, "-C");
            push_arg(&mut args, "embed-bitcode=no");
            push_arg(&mut args, "-C");
            push_arg(&mut args, "opt-level=2");
            push_arg(&mut args, "-o");
            push_arg(&mut args, output_path);
            proof {
                assert(strs_of(args@) =~= seq![
                    "--edition=2021"@,
                    source_path@,
                    "-C"@,
                    "embed-bitcode=no"@,
                    "-C"@,
                    "opt-level=2"@,
                    "-o"@,
                    output_path@,
                ]);
            }
            let mut program = String::from_str(home);
            program.append("/.rustup/toolchains/stable-x86_64-unknown-linux-gnu/bin/rustc");
            CompilePlan {
                copy_source_to: None,
                command: Some(CommandSpec { program, args }),
            }
        },
        Language::Python => {
            push_arg(&mut args, "-m");
            push_arg(&mut args, "py_compile");
            push_arg(&mut args, source_path);
            proof {
                assert(strs_of(args@) =~= seq!["-m"@, "py_compile"@, source_path@]);
            }
            CompilePlan {
                copy_source_to: None,
                command: Some(CommandSpec { program: String::from_str("python3"), args }),
            }
        },
        Language::NodeJs => CompilePlan { copy_source_to: None, command: None },
        Language::Golang => {
            push_arg(&mut args, "build");
            push_arg(&mut args, "-o");
            push_arg(&mut args, output_path);
            push_arg(&mut args, source_path);
            proof {
                assert(strs_of(args@) =~= seq!["build"@, "-o"@, output_path@, source_path@]);
            }
            CompilePlan {
                copy_source_to: None,
                command: Some(CommandSpec { program: String::from_str("go"), args }),
            }
        },
        Language::Java => {
            let java_path = join_path(base_path, "Main.java");
            let copy_source_to = if !has_file_name(source_path, "Main.java") {
                let target = join_path(base_path, "Main.java");
                Some(target)
            } else {
                None
            };
            push_arg(&mut args, java_path.as_str());
            proof {
                assert(strs_of(args@) =~= seq![base_path@ + "/"@ + "Main.java"@]);
            }
            CompilePlan {
                copy_source_to,
                command: Some(CommandSpec { program: String::from_str("javac"), args }),
            }
        },
    }
}

/// The message a rejected compilation reports: the toolchain's
/// diagnostics behind a fixed prefix.
pub fn compile_error_message(stderr: &str) -> (r: String)
    ensures
        r@ == "Failed to compile source code: "@ + stderr@,
{
    let mut s = String::from_str("Failed to compile source code: ");
    s.append(stderr);
    s
}

/// The workspace file name a submission's source is stored under, per
/// language.
pub open spec fn spec_source_file_name(language: Language) -> Seq<char> {
    match language {
        Language::C => "main.c"@,
        Language::CPP => "main.cpp"@,
        Language::Java => "Main.java"@,
        Language::Python => "main.py"@,
        Language::Rust => "main.rs"@,
        Language::NodeJs => "main.js"@,
        Language::Golang => "main.go"@,
    }
}

/// The file name a submission's source is stored under in the workspace.
pub fn source_file_name(language: Language) -> (r: &'static str)
    ensures
        r@ == spec_source_file_name(language),
{
    match language {
        Language::C => "main.c",
        Language::CPP => "main.cpp",
        Language::Java => "Main.java",
        Language::Python => "main.py",
        Language::Rust => "main.rs",
        Language::NodeJs => "main.js",
        Language::Golang => "main.go",
    }
}

} // verus!
