//! Which process is the presence runner, and how it is started and stopped.
use vstd::prelude::*;

verus! {

/// Name of the presence runner's executable, without extension.
pub const TARGET_NAME: &'static str = "discord_presence_activity";

/// A process name that denotes the presence runner: its bare name or the name with `.exe`.
pub open spec fn is_target_name(name: Seq<char>) -> bool {
    name == TARGET_NAME@ || name == TARGET_NAME@ + ".exe"@
}

/// Whether a process called `name` is the presence runner.
pub fn is_presence_process(name: &str) -> (r: bool)
    ensures
        r == is_target_name(name@),
{
    let mut with_ext = TARGET_NAME.to_owned();
    with_ext.append(".exe");
    let n = name.to_owned();
    n == TARGET_NAME.to_owned() || n == with_ext
}

/// Position of the first process among `names` that is the presence runner: the one that is
/// stopped, since the search stops there.
pub fn first_presence_process(names: &Vec<String>) -> (r: Option<usize>)
    ensures
        r matches Some(i) ==> i < names@.len() && is_target_name(names@[i as int]@)
            && forall|j: int| 0 <= j < i ==> !is_target_name(#[trigger] names@[j]@),
        r is None ==> forall|j: int| 0 <= j < names@.len() ==> !is_target_name(#[trigger] names@[j]@),
{
    let mut i: usize = 0;
    while i < names.len()
        invariant
            i <= names@.len(),
            forall|j: int| 0 <= j < i ==> !is_target_name(#[trigger] names@[j]@),
        decreases names@.len() - i,
    {
        if is_presence_process(names[i].as_str()) {
            return Some(i);
        }
        i = i + 1;
    }
    None
}

/// Why the presence runner could not be stopped.
#[derive(PartialEq, Eq, Structural, Clone, Copy, Debug)]
pub enum StopError {
    /// No running process is the presence runner.
    NoProcessFound,
}

impl StopError {
    /// The message shown for the error.
    pub fn message(&self) -> (r: String)
        ensures
            r@ == "No Process Found."@,
    {
        match self {
            StopError::NoProcessFound => "No Process Found.".to_owned(),
        }
    }
}

/// The process to stop among the running processes `names`: the first presence runner, or an
/// error when there is none.
pub fn process_to_stop(names: &Vec<String>) -> (r: Result<usize, StopError>)
    ensures
        r matches Ok(i) ==> i < names@.len() && is_target_name(names@[i as int]@)
            && forall|j: int| 0 <= j < i ==> !is_target_name(#[trigger] names@[j]@),
        r is Err <==> forall|j: int| 0 <= j < names@.len() ==> !is_target_name(#[trigger] names@[j]@),
{
    match first_presence_process(names) {
        Some(i) => Ok(i),
        None => Err(StopError::NoProcessFound),
    }
}

/// The command that starts the presence runner: the debug build's path when `debug_build`,
/// else the executable in the working directory.
pub fn presence_command(debug_build: bool) -> (r: String)
    ensures
        r@ == if debug_build {
            "./target/debug/"@ + TARGET_NAME@ + ".exe"@
        } else {
            TARGET_NAME@ + ".exe"@
        },
{
    let mut r = if debug_build {
        "./target/debug/".to_owned()
    } else {
        String::new()
    };
    r.append(TARGET_NAME);
    r.append(".exe");
    r
}

} // verus!
