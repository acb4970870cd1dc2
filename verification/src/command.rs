//! Descriptions of the external processes the pipeline drives — the
//! archive extractor and the two compilers — and the classification of
//! their exit.
//!
//! A `CommandPlan` is a plain value: program, arguments, extra environment
//! and working directory.  Spawning it is the caller's work; what the
//! invocation must look like, and what a non-zero exit means, is decided
//! and proved here.

use vstd::prelude::*;
use crate::errors::ToolError;
use crate::strutil::join_path;

verus! {

/// One external process invocation, fully described.
pub struct CommandPlan {
    pub program: String,
    pub args: Vec<String>,
    pub env: Vec<(String, String)>,
    pub current_dir: Option<String>,
}

/// The archive-extraction invocation: `tar -xf <archive>` with one leading
/// path component stripped, run inside the directory the archive unpacks
/// into.
pub fn extract_command(archive_path: &str, dest_dir: &str) -> (r: CommandPlan)
    ensures
        r.program@ == "tar"@,
        r.args@.len() == 4,
        r.args@[0]@ == "-xf"@,
        r.args@[1]@ == archive_path@,
        r.args@[2]@ == "--strip-components"@,
        r.args@[3]@ == "1"@,
        r.env@.len() == 0,
        r.current_dir matches Some(d) && d@ == dest_dir@,
{
    let mut args: Vec<String> = Vec::new();
    args.push("-xf".to_owned());
    args.push(archive_path.to_owned());
    args.push("--strip-components".to_owned());
    args.push("1".to_owned());
    CommandPlan {
        program: "tar".to_owned(),
        args,
        env: Vec::new(),
        current_dir: Some(dest_dir.to_owned()),
    }
}

/// The cross-compilation invocation: the `go` binary out of the acquired
/// toolchain root, building for the WASI target into `out_dir`, run from
/// the source directory `src_dir`.
pub fn go_build_command(go_root: &str, out_dir: &str, src_dir: &str) -> (r: CommandPlan)
    ensures
        r.program@ == go_root@ + "/"@ + "bin/go"@,
        r.args@.len() == 4,
        r.args@[0]@ == "build"@,
        r.args@[1]@ == "-o"@,
        r.args@[2]@ == out_dir@,
        r.args@[3]@ == "./..."@,
        r.env@.len() == 2,
        r.env@[0].0@ == "GOOS"@,
        r.env@[0].1@ == "wasip1"@,
        r.env@[1].0@ == "GOARCH"@,
        r.env@[1].1@ == "wasm"@,
        r.current_dir matches Some(d) && d@ == src_dir@,
{
    let mut args: Vec<String> = Vec::new();
    args.push("build".to_owned());
    args.push("-o".to_owned());
    args.push(out_dir.to_owned());
    args.push("./...".to_owned());
    let mut env: Vec<(String, String)> = Vec::new();
    env.push(("GOOS".to_owned(), "wasip1".to_owned()));
    env.push(("GOARCH".to_owned(), "wasm".to_owned()));
    CommandPlan {
        program: join_path(go_root, "bin/go"),
        args,
        env,
        current_dir: Some(src_dir.to_owned()),
    }
}

/// The Java compilation invocation: the `javac` binary under the Java
/// home, handed one source file, in the caller's own working directory.
pub fn javac_command(java_home: &str, file: &str) -> (r: CommandPlan)
    ensures
        r.program@ == java_home@ + "/"@ + "bin/javac"@,
        r.args@.len() == 1,
        r.args@[0]@ == file@,
        r.env@.len() == 0,
        r.current_dir is None,
{
    let mut args: Vec<String> = Vec::new();
    args.push(file.to_owned());
    CommandPlan {
        program: join_path(java_home, "bin/javac"),
        args,
        env: Vec::new(),
        current_dir: None,
    }
}

/// Which external tool an exit status came from.
pub enum ToolKind {
    /// The archive extractor.
    Extractor,
    /// A compiler (the cross-compiler or `javac`).
    Compiler,
}

/// Classifies an external process exit: success passes, and a non-zero
/// exit becomes the tool's error with the captured standard error embedded
/// verbatim.
pub fn classify_tool_exit(kind: ToolKind, success: bool, stderr: String) -> (r: Result<
    (),
    ToolError,
>)
    ensures
        (r is Ok) == success,
        !success ==> (kind is Extractor ==> (r matches Err(e) && (e
            matches ToolError::ExtractionError { stderr: s } && s@ == stderr@))),
        !success ==> (kind is Compiler ==> (r matches Err(e) && (e
            matches ToolError::CompilationError { stderr: s } && s@ == stderr@))),
{
    if success {
        Ok(())
    } else {
        match kind {
            ToolKind::Extractor => Err(ToolError::ExtractionError { stderr }),
            ToolKind::Compiler => Err(ToolError::CompilationError { stderr }),
        }
    }
}

} // verus!
