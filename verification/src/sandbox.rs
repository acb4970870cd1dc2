//! The capability contract of a sandboxed execution.
//!
//! A loaded artifact sees exactly the directories its grant preopens, each
//! under a guest-visible path, and exactly the environment variables the
//! grant binds; there is no ambient filesystem or environment access.  The
//! grant is an owned value, built for one execution and discarded with it.

use vstd::prelude::*;
use crate::errors::SandboxError;
use crate::strutil::{str_eq, str_starts_with};
use vstd::string::StringExecFns;

verus! {

/// One preopened directory: a host directory made visible inside the
/// sandbox under a guest path.
pub struct DirGrant {
    pub host_dir: String,
    pub guest_path: String,
}

/// The full capability set of one execution: preopened directories,
/// environment bindings, and whether standard I/O and process arguments are
/// inherited from the host.
pub struct CapabilityGrant {
    pub preopened: Vec<DirGrant>,
    pub env: Vec<(String, String)>,
    pub inherit_stdio: bool,
    pub inherit_args: bool,
}

/// Whether `path` lies within the directory `dir`: it is the directory
/// itself, or a path below it (the directory followed by a separator).
pub open spec fn spec_path_within(path: Seq<char>, dir: Seq<char>) -> bool {
    path == dir || (dir + "/"@).is_prefix_of(path)
}

/// Runtime test of `spec_path_within`.
pub fn path_within(path: &str, dir: &str) -> (r: bool)
    ensures
        r == spec_path_within(path@, dir@),
{
    if str_eq(path, dir) {
        true
    } else {
        let mut d = dir.to_owned();
        d.append("/");
        str_starts_with(path, d.as_str())
    }
}

/// Whether the grant makes `path` visible: some preopened directory
/// contains it.
pub open spec fn spec_grant_allows(preopened: Seq<DirGrant>, path: Seq<char>) -> bool {
    exists|i: int|
        0 <= i < preopened.len() && spec_path_within(path, preopened[i].guest_path@)
}

impl CapabilityGrant {
    /// A grant with no capabilities at all: nothing preopened, no
    /// environment, nothing inherited.
    pub fn new() -> (r: CapabilityGrant)
        ensures
            r.preopened@.len() == 0,
            r.env@.len() == 0,
            !r.inherit_stdio,
            !r.inherit_args,
    {
        CapabilityGrant {
            preopened: Vec::new(),
            env: Vec::new(),
            inherit_stdio: false,
            inherit_args: false,
        }
    }

    /// Grants the sandbox the host directory `host_dir`, visible as
    /// `guest_path`.
    pub fn preopen_dir(&mut self, host_dir: String, guest_path: String)
        ensures
            final(self).preopened@ == old(self).preopened@.push(
                (DirGrant { host_dir, guest_path }),
            ),
            final(self).env@ == old(self).env@,
            final(self).inherit_stdio == old(self).inherit_stdio,
            final(self).inherit_args == old(self).inherit_args,
    {
        self.preopened.push(DirGrant { host_dir, guest_path });
    }

    /// Binds the environment variable `name` to `value` inside the
    /// sandbox.
    pub fn env_var(&mut self, name: String, value: String)
        ensures
            final(self).env@ == old(self).env@.push(((name, value))),
            final(self).preopened@ == old(self).preopened@,
            final(self).inherit_stdio == old(self).inherit_stdio,
            final(self).inherit_args == old(self).inherit_args,
    {
        self.env.push((name, value));
    }

    /// Lets the sandboxed program use the host's standard I/O streams.
    pub fn allow_inherited_stdio(&mut self)
        ensures
            final(self).inherit_stdio,
            final(self).inherit_args == old(self).inherit_args,
            final(self).preopened@ == old(self).preopened@,
            final(self).env@ == old(self).env@,
    {
        self.inherit_stdio = true;
    }

    /// Lets the sandboxed program see the host's process arguments.
    pub fn allow_inherited_args(&mut self)
        ensures
            final(self).inherit_args,
            final(self).inherit_stdio == old(self).inherit_stdio,
            final(self).preopened@ == old(self).preopened@,
            final(self).env@ == old(self).env@,
    {
        self.inherit_args = true;
    }

    /// Runtime test of `spec_grant_allows`: whether this grant makes
    /// `path` visible.
    pub fn allows(&self, path: &str) -> (r: bool)
        ensures
            r == spec_grant_allows(self.preopened@, path@),
    {
        let mut i: usize = 0;
        while i < self.preopened.len()
            invariant
                i <= self.preopened@.len(),
                forall|j: int|
                    0 <= j < i ==> !spec_path_within(path@, self.preopened@[j].guest_path@),
            decreases self.preopened@.len() - i,
        {
            if path_within(path, self.preopened[i].guest_path.as_str()) {
                return true;
            }
            i = i + 1;
        }
        false
    }
}

/// How one sandboxed execution ended.
#[derive(Debug)]
pub enum ExecOutcome {
    /// The entry point ran to completion: every filesystem access stayed
    /// inside the granted directories.
    Completed,
    /// The execution trapped at its first access outside every granted
    /// directory; the offending path is kept for the report.
    Trapped { denied: String },
}

/// Drives the capability check over the filesystem paths a loaded artifact
/// opens, in order.  The execution completes exactly when every access
/// lies inside a granted directory, and traps at the first one that does
/// not.
#[verifier::loop_isolation(false)]
pub fn run_sandboxed(grant: &CapabilityGrant, accesses: &Vec<String>) -> (r: ExecOutcome)
    ensures
        (r is Completed) == (forall|i: int|
            0 <= i < accesses@.len() ==> spec_grant_allows(grant.preopened@, accesses@[i]@)),
        r matches ExecOutcome::Trapped { denied } ==> (exists|i: int|
            0 <= i < accesses@.len() && accesses@[i]@ == denied@ && !spec_grant_allows(
                grant.preopened@,
                denied@,
            ) && (forall|j: int|
                0 <= j < i ==> spec_grant_allows(grant.preopened@, accesses@[j]@))),
{
    let mut i: usize = 0;
    while i < accesses.len()
        invariant
            i <= accesses@.len(),
            forall|j: int| 0 <= j < i ==> spec_grant_allows(grant.preopened@, accesses@[j]@),
        decreases accesses@.len() - i,
    {
        if !grant.allows(accesses[i].as_str()) {
            return ExecOutcome::Trapped { denied: accesses[i].clone() };
        }
        i = i + 1;
    }
    ExecOutcome::Completed
}

/// Checks the artifact's default entry point against the required shape:
/// present, taking no parameters and returning no results.
pub fn check_entry_signature(has_entry: bool, param_count: usize, result_count: usize) -> (r:
    Result<(), SandboxError>)
    ensures
        (r is Ok) == (has_entry && param_count == 0 && result_count == 0),
        r matches Err(e) ==> e == SandboxError::InterfaceError,
{
    if has_entry && param_count == 0 && result_count == 0 {
        Ok(())
    } else {
        Err(SandboxError::InterfaceError)
    }
}

/// The terminal outcome of one launch, in the order the launcher checks
/// it: the artifact must parse and validate, the default entry point must
/// have the required nullary shape, and the single invocation must run to
/// completion without trapping.  None of these failures is retried; each
/// is terminal for the execution.
pub fn launch_outcome(
    load_ok: bool,
    has_entry: bool,
    param_count: usize,
    result_count: usize,
    exec: ExecOutcome,
) -> (r: Result<(), SandboxError>)
    ensures
        !load_ok ==> r == Result::<(), SandboxError>::Err(SandboxError::LoadError),
        load_ok && !(has_entry && param_count == 0 && result_count == 0) ==> r == Result::<
            (),
            SandboxError,
        >::Err(SandboxError::InterfaceError),
        load_ok && has_entry && param_count == 0 && result_count == 0 ==> (exec
            matches ExecOutcome::Trapped { denied } ==> (r matches Err(e) && (e
            matches SandboxError::ExecutionTrap { cause } && cause@ == denied@))),
        load_ok && has_entry && param_count == 0 && result_count == 0 ==> (exec is Completed ==> r
            is Ok),
{
    if !load_ok {
        return Err(SandboxError::LoadError);
    }
    match check_entry_signature(has_entry, param_count, result_count) {
        Err(e) => Err(e),
        Ok(()) => match exec {
            ExecOutcome::Trapped { denied } => Err(SandboxError::ExecutionTrap { cause: denied }),
            ExecOutcome::Completed => Ok(()),
        },
    }
}

/// Law (capability containment, denial): a path within no granted
/// directory is invisible to the execution — the grant refuses it, so the
/// access traps.
pub proof fn lemma_containment_denies_outside(preopened: Seq<DirGrant>, path: Seq<char>)
    requires
        forall|i: int| 0 <= i < preopened.len() ==> !spec_path_within(path, preopened[i].guest_path@),
    ensures
        !spec_grant_allows(preopened, path),
{
}

/// Law (capability containment, single directory): under a grant that
/// preopens exactly one directory, a path is visible precisely when it
/// lies within that directory — every path outside it traps, every path
/// inside it is reachable.
pub proof fn lemma_single_grant_containment(preopened: Seq<DirGrant>, path: Seq<char>)
    requires
        preopened.len() == 1,
    ensures
        spec_grant_allows(preopened, path) == spec_path_within(path, preopened[0].guest_path@),
{
    if spec_path_within(path, preopened[0].guest_path@) {
        assert(spec_grant_allows(preopened, path));
    }
}

} // verus!
