//! What the compiler driver is called with, and where the program that it
//! builds is found. The caller starts the processes.

use crate::directory::joined;
use crate::order::texts;
use crate::run::Project;
use vstd::prelude::*;
use vstd::string::StringExecFns;

verus! {

/// The directory that the driver puts the built programs in.
pub const ARTIFACT_DIR: &'static str = ".artifacts";

/// The arguments of the driver for one fixture: the fixture's path below
/// the working directory, the output directory, no colours, the name of
/// the program to build, and the code generator.
pub open spec fn build_arguments(
    dir: Seq<char>,
    test: Seq<char>,
    name: Seq<char>,
    codegen: Seq<char>,
) -> Seq<Seq<char>> {
    seq![
        joined(dir, test),
        "--out-dir"@,
        ARTIFACT_DIR@,
        "--color"@,
        "never"@,
        "-o"@,
        name,
        "-Zcodegen-backend="@ + codegen,
    ]
}

/// The arguments with which the driver builds the fixture at `test` under
/// the ordinal name `name`, with the code generator `codegen`.
pub fn build_args(project: &Project, test: &str, name: &str, codegen: &str) -> (r: Vec<String>)
    ensures
        texts(r@) == build_arguments(project.dir@, test@, name@, codegen@),
{
    let mut args: Vec<String> = Vec::new();
    args.push(project.dir.join(test));
    args.push(String::from_str("--out-dir"));
    args.push(String::from_str(ARTIFACT_DIR));
    args.push(String::from_str("--color"));
    args.push(String::from_str("never"));
    args.push(String::from_str("-o"));
    args.push(name.to_owned());
    args.push(String::from_str("-Zcodegen-backend=").concat(codegen));
    assert(texts(args@) =~= build_arguments(project.dir@, test@, name@, codegen@));
    args
}

/// Where the program built under `name` is found: in the output
/// directory, under that name.
pub fn artifact_path(name: &str) -> (r: String)
    ensures
        r@ == ARTIFACT_DIR@ + "/"@ + name@,
{
    String::from_str(ARTIFACT_DIR).concat("/").concat(name)
}

/// What is shown as the output of a program that was run: what the build
/// printed, and then what the program printed.
pub fn shown_output(build_stdout: &[u8], run_stdout: &[u8]) -> (r: Vec<u8>)
    ensures
        r@ == build_stdout@ + run_stdout@,
{
    let mut out: Vec<u8> = Vec::new();
    for i in 0..build_stdout.len()
        invariant
            out@ == build_stdout@.take(i as int),
    {
        out.push(build_stdout[i]);
        assert(out@ =~= build_stdout@.take(i + 1));
    }
    assert(build_stdout@.take(build_stdout@.len() as int) =~= build_stdout@);
    for j in 0..run_stdout.len()
        invariant
            out@ == build_stdout@ + run_stdout@.take(j as int),
    {
        out.push(run_stdout[j]);
        assert(out@ =~= build_stdout@ + run_stdout@.take(j + 1));
    }
    assert(run_stdout@.take(run_stdout@.len() as int) =~= run_stdout@);
    out
}

} // verus!
