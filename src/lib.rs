use vstd::prelude::*;

pub mod collector;
pub mod config;
pub mod sampler;
pub mod supervisor;
pub mod system_info;

verus! {

/// A stage of an entrypoint, which the caller carries out in order.
#[derive(Clone, Copy, Debug, PartialEq, Eq, Structural)]
pub enum Stage {
    /// Fork off and detach the collector loop.
    StartCollector,
    /// Fork once and supervise the caller, which goes on as the child.
    SuperviseChild,
    /// Capture the parent's pid, fork once, and carry out `parent_mode_plan`
    /// on the side of the fork that the process is on.
    SplitForParent,
    /// Detach and poll the parent until it is gone.
    SuperviseParent,
    /// Exit with code 1, so as not to impede the caller.
    ExitSilently,
}

/// The side of a fork that a process is on.
#[derive(Clone, Copy, Debug, PartialEq, Eq, Structural)]
pub enum ForkSide {
    Parent,
    Child,
}

/// What the binary does, given its arguments and its parent's executable.
#[derive(Clone, Copy, Debug, PartialEq, Eq, Structural)]
pub enum Launch {
    /// Print the usage text and exit with code 1.
    Usage,
    /// The parent's executable is unknown: exit with code 1, printing nothing.
    ExitSilently,
    /// Run directly from a shell: print an error and exit with code 1.
    RefuseShell,
    /// Supervise the parent process.
    Proceed,
}

/// The interactive shells that the binary refuses to be run from.
pub const SHELLS: [&'static str; 4] = ["bash", "fish", "sh", "zsh"];

/// Lowest descriptor closed when detaching; standard I/O is kept.
pub const FIRST_CLOSED_FD: i32 = 3;

/// Highest descriptor closed when the platform gives no limit.
pub const DEFAULT_MAX_FD: i32 = 1024;

pub open spec fn child_mode_plan(opted_out: bool) -> Seq<Stage> {
    if opted_out {
        seq![]
    } else {
        seq![Stage::StartCollector, Stage::SuperviseChild]
    }
}

pub open spec fn parent_entry_plan(opted_out: bool) -> Seq<Stage> {
    if opted_out {
        seq![]
    } else {
        seq![Stage::SplitForParent]
    }
}

pub open spec fn parent_mode_plan_spec(side: ForkSide) -> Seq<Stage> {
    match side {
        ForkSide::Parent => seq![Stage::SuperviseParent, Stage::ExitSilently],
        ForkSide::Child => seq![Stage::StartCollector, Stage::ExitSilently],
    }
}

/// Supervises a child process from inside a host program: starts the
/// collector, then forks and reports on the child once it ends. Under the
/// opt-out nothing at all is done.
pub fn supervise_child_process(opted_out: bool) -> (r: Vec<Stage>)
    ensures
        r@ == child_mode_plan(opted_out),
{
    if opted_out {
        Vec::new()
    } else {
        vec![Stage::StartCollector, Stage::SuperviseChild]
    }
}

/// Supervises the parent process from the binary: forks, and the two sides
/// carry out `parent_mode_plan`. Under the opt-out nothing at all is done, no
/// fork included.
pub fn supervise_parent_process(opted_out: bool) -> (r: Vec<Stage>)
    ensures
        r@ == parent_entry_plan(opted_out),
{
    if opted_out {
        Vec::new()
    } else {
        vec![Stage::SplitForParent]
    }
}

/// After the fork of the parent-supervision entrypoint: the fork-parent
/// supervises the process that ran the binary, the fork-child runs the collector; either
/// then exits with code 1.
pub fn parent_mode_plan(side: ForkSide) -> (r: Vec<Stage>)
    ensures
        r@ == parent_mode_plan_spec(side),
{
    match side {
        ForkSide::Parent => vec![Stage::SuperviseParent, Stage::ExitSilently],
        ForkSide::Child => vec![Stage::StartCollector, Stage::ExitSilently],
    }
}

/// Under the opt-out, neither entrypoint has a stage to carry out: no fork,
/// no file written, no log line.
pub proof fn lemma_opt_out_does_nothing()
    ensures
        child_mode_plan(true).len() == 0,
        parent_entry_plan(true).len() == 0,
{
}

/// The highest descriptor closed when detaching, given the platform's limit
/// on open descriptors where it gives one.
pub open spec fn max_fd_spec(open_max: Option<i64>) -> i32 {
    match open_max {
        None => DEFAULT_MAX_FD,
        Some(n) => if n > i32::MAX {
            i32::MAX
        } else if n < i32::MIN {
            i32::MIN
        } else {
            n as i32
        },
    }
}

/// The highest descriptor to close when detaching: the platform's limit,
/// 1024 where it gives none.
pub fn max_fd(open_max: Option<i64>) -> (r: i32)
    ensures
        r == max_fd_spec(open_max),
{
    match open_max {
        None => DEFAULT_MAX_FD,
        Some(n) => if n > i32::MAX as i64 {
            i32::MAX
        } else if n < i32::MIN as i64 {
            i32::MIN
        } else {
            n as i32
        },
    }
}

/// The path without its trailing separators.
pub open spec fn trim_separators(p: Seq<char>) -> Seq<char>
    decreases p.len(),
{
    if p.len() > 0 && p.last() == '/' {
        trim_separators(p.drop_last())
    } else {
        p
    }
}

/// What follows the last separator of a path that ends in none.
pub open spec fn tail_after_separator(p: Seq<char>) -> Seq<char>
    decreases p.len(),
{
    if p.len() == 0 || p.last() == '/' {
        seq![]
    } else {
        tail_after_separator(p.drop_last()).push(p.last())
    }
}

/// The last component of a path.
pub open spec fn file_component(p: Seq<char>) -> Seq<char> {
    tail_after_separator(trim_separators(p))
}

/// Whether a path's last component names one of the refused shells.
pub open spec fn is_shell_spec(p: Seq<char>) -> bool {
    exists|i: int| 0 <= i < 4 && file_component(p) == SHELLS[i]@
}

/// Whether two strings hold the same text.
fn same_text(a: &str, b: &str) -> (r: bool)
    ensures
        r == (a@ == b@),
{
    let n = a.unicode_len();
    if n != b.unicode_len() {
        return false;
    }
    let mut i: usize = 0;
    while i < n
        invariant
            n == a@.len(),
            n == b@.len(),
            i <= n,
            forall|k: int| 0 <= k < i ==> a@[k] == b@[k],
        decreases n - i,
    {
        if a.get_char(i) != b.get_char(i) {
            return false;
        }
        i = i + 1;
    }
    assert(a@ =~= b@);
    true
}

/// The last component of a path.
pub fn last_component(path: &str) -> (r: &str)
    ensures
        r@ == file_component(path@),
{
    let mut end = path.unicode_len();
    assert(path@.subrange(0, end as int) =~= path@);
    while end > 0 && path.get_char(end - 1) == '/'
        invariant
            end <= path@.len(),
            trim_separators(path@.subrange(0, end as int)) == trim_separators(path@),
        decreases end,
    {
        assert(path@.subrange(0, end as int).drop_last() =~= path@.subrange(0, end - 1));
        end = end - 1;
    }
    let ghost trimmed = path@.subrange(0, end as int);
    assert(trim_separators(trimmed) == trimmed);
    let mut start = end;
    while start > 0 && path.get_char(start - 1) != '/'
        invariant
            start <= end <= path@.len(),
            trimmed == path@.subrange(0, end as int),
            tail_after_separator(trimmed) == tail_after_separator(path@.subrange(
                0,
                start as int,
            )) + path@.subrange(start as int, end as int),
        decreases start,
    {
        let ghost pre = path@.subrange(0, start as int);
        assert(pre.drop_last() =~= path@.subrange(0, start - 1));
        assert(path@.subrange(start - 1, end as int) =~= seq![pre.last()] + path@.subrange(
            start as int,
            end as int,
        ));
        assert(tail_after_separator(pre) == tail_after_separator(pre.drop_last()).push(pre.last()));
        assert(tail_after_separator(pre.drop_last()).push(pre.last()) + path@.subrange(
            start as int,
            end as int,
        ) =~= tail_after_separator(pre.drop_last()) + path@.subrange(start - 1, end as int));
        start = start - 1;
    }
    assert(tail_after_separator(path@.subrange(0, start as int)) =~= seq![]);
    assert(seq![] + path@.subrange(start as int, end as int) =~= path@.subrange(
        start as int,
        end as int,
    ));
    path.substring_char(start, end)
}

/// Whether a path names one of the refused shells by its last component.
pub fn is_shell(path: &str) -> (r: bool)
    ensures
        r == is_shell_spec(path@),
{
    let name = last_component(path);
    let mut i: usize = 0;
    while i < 4
        invariant
            i <= 4,
            name@ == file_component(path@),
            forall|k: int| 0 <= k < i ==> name@ != SHELLS[k]@,
        decreases 4 - i,
    {
        if same_text(name, SHELLS[i]) {
            return true;
        }
        i = i + 1;
    }
    false
}

/// The binary's guards against misuse: it takes no arguments, and refuses to
/// run straight from a shell. `parent_path` is the parent's executable, where
/// it could be found.
pub fn launch(arg_count: usize, parent_path: Option<&str>) -> (r: Launch)
    ensures
        r == (if arg_count > 1 {
            Launch::Usage
        } else {
            match parent_path {
                None => Launch::ExitSilently,
                Some(p) => if is_shell_spec(p@) {
                    Launch::RefuseShell
                } else {
                    Launch::Proceed
                },
            }
        }),
{
    if arg_count > 1 {
        return Launch::Usage;
    }
    match parent_path {
        None => Launch::ExitSilently,
        Some(p) => if is_shell(p) {
            Launch::RefuseShell
        } else {
            Launch::Proceed
        },
    }
}

} // verus!
