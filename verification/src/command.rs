//! The command-execution boundary: the library only plans commands and
//! judges their outcomes; launching them is the host's job.

use vstd::prelude::*;

use vstd::string::StringExecFns;

verus! {

/// A command the host should run: a program, its arguments in order, and
/// whether it must run with elevated privileges.
#[derive(Debug)]
pub struct CommandPlan {
    pub program: String,
    pub args: Vec<String>,
    pub elevated: bool,
}

/// What came back from running a planned command: either the launch
/// itself failed, or the process ran and reported an exit status with its
/// captured output streams.
#[derive(Debug)]
pub enum CommandOutcome {
    LaunchFailed(String),
    Finished { success: bool, stdout: Vec<u8>, stderr: Vec<u8> },
}

/// The elevated service-manager command for one verb and a list of unit
/// names: pkexec systemctl <verb> <units...>.
pub fn systemctl_plan(verb: &str, units: &Vec<String>) -> (r: CommandPlan)
    ensures
        r.program@ == "pkexec"@,
        r.elevated,
        r.args@.len() == 2 + units@.len(),
        r.args@[0]@ == "systemctl"@,
        r.args@[1]@ == verb@,
        forall|i: int| 0 <= i < units@.len() ==> r.args@[i + 2] == units@[i],
{
    let mut args: Vec<String> = Vec::new();
    args.push(String::from_str("systemctl"));
    args.push(String::from_str(verb));
    let mut i: usize = 0;
    while i < units.len()
        invariant
            i <= units@.len(),
            args@.len() == i + 2,
            args@[0]@ == "systemctl"@,
            args@[1]@ == verb@,
            forall|k: int| 0 <= k < i ==> args@[k + 2] == units@[k],
        decreases units@.len() - i,
    {
        args.push(units[i].clone());
        i = i + 1;
    }
    CommandPlan { program: String::from_str("pkexec"), args, elevated: true }
}

/// The elevated batch-removal command for a list of paths:
/// pkexec rm -f <paths...>.
pub fn removal_plan(paths: &Vec<String>) -> (r: CommandPlan)
    ensures
        r.program@ == "pkexec"@,
        r.elevated,
        r.args@.len() == 2 + paths@.len(),
        r.args@[0]@ == "rm"@,
        r.args@[1]@ == "-f"@,
        forall|i: int| 0 <= i < paths@.len() ==> r.args@[i + 2] == paths@[i],
{
    let mut args: Vec<String> = Vec::new();
    args.push(String::from_str("rm"));
    args.push(String::from_str("-f"));
    let mut i: usize = 0;
    while i < paths.len()
        invariant
            i <= paths@.len(),
            args@.len() == i + 2,
            args@[0]@ == "rm"@,
            args@[1]@ == "-f"@,
            forall|k: int| 0 <= k < i ==> args@[k + 2] == paths@[k],
        decreases paths@.len() - i,
    {
        args.push(paths[i].clone());
        i = i + 1;
    }
    CommandPlan { program: String::from_str("pkexec"), args, elevated: true }
}

} // verus!
