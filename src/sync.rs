use vstd::prelude::*;

use crate::text::{push_char, trim_text, trimmed};

verus! {

/// `text` without double quotes; with `forward_slashes`, every backslash
/// also becomes a forward slash.
pub open spec fn cleaned(text: Seq<char>, forward_slashes: bool) -> Seq<char>
    decreases text.len(),
{
    if text.len() == 0 {
        Seq::empty()
    } else {
        let before = cleaned(text.drop_last(), forward_slashes);
        let c = text.last();
        if c == '"' {
            before
        } else if forward_slashes && c == '\\' {
            before.push('/')
        } else {
            before.push(c)
        }
    }
}

/// `k` is the position of the first `;` of `text`.
pub open spec fn is_first_separator(text: Seq<char>, k: int) -> bool {
    &&& 0 <= k < text.len()
    &&& text[k] == ';'
    &&& forall|j: int| 0 <= j < k ==> text[j] != ';'
}

/// The external synchronization command: an interpreter and the script it runs.
pub struct SyncCommand {
    pub interpreter: String,
    pub script: String,
}

/// Why the configured synchronization command cannot be used.
#[derive(Clone, Copy, Debug, PartialEq, Eq, Structural)]
pub enum ConfigError {
    /// The value holds no `;`, so it names no script after the interpreter.
    MissingScriptPath,
}

/// The characters of `text` from `from` to `to`, cleaned as `cleaned` says.
fn clean_range(text: &str, from: usize, to: usize, forward_slashes: bool) -> (r: String)
    requires
        from <= to <= text@.len(),
    ensures
        r@ == cleaned(text@.subrange(from as int, to as int), forward_slashes),
{
    let mut r = String::new();
    let mut i: usize = from;
    while i < to
        invariant
            from <= i <= to <= text@.len(),
            r@ == cleaned(text@.subrange(from as int, i as int), forward_slashes),
        decreases to - i,
    {
        let c = text.get_char(i);
        assert(text@.subrange(from as int, i + 1).drop_last() =~= text@.subrange(
            from as int,
            i as int,
        ));
        if c == '"' {
        } else if forward_slashes && c == '\\' {
            push_char(&mut r, '/');
        } else {
            push_char(&mut r, c);
        }
        i = i + 1;
    }
    r
}

/// Reads the configured synchronization command, `<interpreter>;<script>`:
/// the text up to the first `;` names the interpreter and the rest the script.
/// Double quotes are dropped from both, and backslashes in the script path
/// become forward slashes.
pub fn parse_sync_command(value: &str) -> (r: Result<SyncCommand, ConfigError>)
    ensures
        match r {
            Ok(cmd) => exists|k: int|
                is_first_separator(value@, k) && cmd.interpreter@ == cleaned(
                    value@.subrange(0, k),
                    false,
                ) && cmd.script@ == cleaned(value@.subrange(k + 1, value@.len() as int), true),
            Err(e) => e == ConfigError::MissingScriptPath && forall|j: int|
                0 <= j < value@.len() ==> value@[j] != ';',
        },
{
    let n = value.unicode_len();
    let mut k: usize = 0;
    while k < n
        invariant
            n == value@.len(),
            k <= n,
            forall|j: int| 0 <= j < k ==> value@[j] != ';',
        decreases n - k,
    {
        if value.get_char(k) == ';' {
            let interpreter = clean_range(value, 0, k, false);
            let script = clean_range(value, k + 1, n, true);
            assert(is_first_separator(value@, k as int));
            return Ok(SyncCommand { interpreter, script });
        }
        k = k + 1;
    }
    Err(ConfigError::MissingScriptPath)
}

/// The version-control steps that follow a successful script run.
#[derive(Clone, Copy, Debug, PartialEq, Eq, Structural)]
pub enum VcsStep {
    Add,
    Commit,
    Push,
}

/// Where a synchronization stands: the script to run, a version-control step
/// to run, or finished.
#[derive(Clone, Copy, Debug, PartialEq, Eq, Structural)]
pub enum SyncStage {
    Script,
    Vcs(VcsStep),
    Done,
}

/// The stage after `stage` ran and reported `succeeded`. Only a failed script
/// ends the synchronization early; each version-control step runs whatever
/// the one before reported.
pub open spec fn next_stage_spec(stage: SyncStage, succeeded: bool) -> SyncStage {
    match stage {
        SyncStage::Script => if succeeded {
            SyncStage::Vcs(VcsStep::Add)
        } else {
            SyncStage::Done
        },
        SyncStage::Vcs(VcsStep::Add) => SyncStage::Vcs(VcsStep::Commit),
        SyncStage::Vcs(VcsStep::Commit) => SyncStage::Vcs(VcsStep::Push),
        SyncStage::Vcs(VcsStep::Push) => SyncStage::Done,
        SyncStage::Done => SyncStage::Done,
    }
}

/// The stage that follows `stage` when it reported `succeeded`.
pub fn next_stage(stage: SyncStage, succeeded: bool) -> (r: SyncStage)
    ensures
        r == next_stage_spec(stage, succeeded),
{
    match stage {
        SyncStage::Script => if succeeded {
            SyncStage::Vcs(VcsStep::Add)
        } else {
            SyncStage::Done
        },
        SyncStage::Vcs(VcsStep::Add) => SyncStage::Vcs(VcsStep::Commit),
        SyncStage::Vcs(VcsStep::Commit) => SyncStage::Vcs(VcsStep::Push),
        SyncStage::Vcs(VcsStep::Push) => SyncStage::Done,
        SyncStage::Done => SyncStage::Done,
    }
}

/// The stages run from `stage` on, when the steps report `outcomes` in turn.
pub open spec fn stages_run(stage: SyncStage, outcomes: Seq<bool>) -> Seq<SyncStage>
    decreases outcomes.len(),
{
    if outcomes.len() == 0 || stage == SyncStage::Done {
        Seq::empty()
    } else {
        seq![stage] + stages_run(next_stage_spec(stage, outcomes[0]), outcomes.drop_first())
    }
}

/// A synchronization whose script fails runs the script and nothing else: no
/// version-control step at all.
pub proof fn failed_script_skips_vcs(outcomes: Seq<bool>)
    requires
        outcomes.len() > 0,
        !outcomes[0],
    ensures
        stages_run(SyncStage::Script, outcomes) == seq![SyncStage::Script],
{
    assert(stages_run(SyncStage::Done, outcomes.drop_first()) == Seq::<SyncStage>::empty());
    assert(seq![SyncStage::Script] + Seq::<SyncStage>::empty() =~= seq![SyncStage::Script]);
}

/// A synchronization whose script succeeds runs add, commit and push in that
/// order, each whatever the one before reported, and then stops.
pub proof fn successful_script_runs_all_vcs(outcomes: Seq<bool>)
    requires
        outcomes.len() >= 4,
        outcomes[0],
    ensures
        stages_run(SyncStage::Script, outcomes) == seq![
            SyncStage::Script,
            SyncStage::Vcs(VcsStep::Add),
            SyncStage::Vcs(VcsStep::Commit),
            SyncStage::Vcs(VcsStep::Push),
        ],
{
    let o1 = outcomes.drop_first();
    let o2 = o1.drop_first();
    let o3 = o2.drop_first();
    let o4 = o3.drop_first();
    assert(stages_run(SyncStage::Done, o4) == Seq::<SyncStage>::empty());
    let s3 = stages_run(SyncStage::Vcs(VcsStep::Push), o3);
    assert(s3 =~= seq![SyncStage::Vcs(VcsStep::Push)]);
    let s2 = stages_run(SyncStage::Vcs(VcsStep::Commit), o2);
    assert(s2 =~= seq![SyncStage::Vcs(VcsStep::Commit), SyncStage::Vcs(VcsStep::Push)]);
    let s1 = stages_run(SyncStage::Vcs(VcsStep::Add), o1);
    assert(s1 =~= seq![
        SyncStage::Vcs(VcsStep::Add),
        SyncStage::Vcs(VcsStep::Commit),
        SyncStage::Vcs(VcsStep::Push),
    ]);
    assert(stages_run(SyncStage::Script, outcomes) =~= seq![
        SyncStage::Script,
        SyncStage::Vcs(VcsStep::Add),
        SyncStage::Vcs(VcsStep::Commit),
        SyncStage::Vcs(VcsStep::Push),
    ]);
}

/// The arguments of the version-control program for `step`, run on the
/// repository at `root`; `message` is the commit message.
pub open spec fn vcs_args_spec(step: VcsStep, root: Seq<char>, message: Seq<char>) -> Seq<
    Seq<char>,
> {
    match step {
        VcsStep::Add => seq!["-C"@, root, "add"@, "."@],
        VcsStep::Commit => seq!["-C"@, root, "commit"@, "-m"@, message],
        VcsStep::Push => seq!["-C"@, root, "push"@, "origin"@, "master"@],
    }
}

/// The arguments of the version-control program for `step` on `root`.
pub fn vcs_args(step: VcsStep, root: &str, message: &str) -> (r: Vec<String>)
    ensures
        r.deep_view() == vcs_args_spec(step, root@, message@),
{
    let mut r: Vec<String> = Vec::new();
    r.push(String::from_str("-C"));
    r.push(String::from_str(root));
    match step {
        VcsStep::Add => {
            r.push(String::from_str("add"));
            r.push(String::from_str("."));
        },
        VcsStep::Commit => {
            r.push(String::from_str("commit"));
            r.push(String::from_str("-m"));
            r.push(String::from_str(message));
        },
        VcsStep::Push => {
            r.push(String::from_str("push"));
            r.push(String::from_str("origin"));
            r.push(String::from_str("master"));
        },
    }
    assert(r.deep_view() =~= vcs_args_spec(step, root@, message@));
    r
}

/// The commit message for a synchronization at local time `stamp`.
pub open spec fn commit_message_spec(stamp: Seq<char>) -> Seq<char> {
    "auto: synchronize and update files at "@ + stamp
}

/// The commit message for a synchronization at local time `stamp`.
pub fn commit_message(stamp: &str) -> (r: String)
    ensures
        r@ == commit_message_spec(stamp@),
{
    String::from_str("auto: synchronize and update files at ").concat(stamp)
}

/// The log line that introduces the output of `step`.
pub open spec fn vcs_heading_spec(step: VcsStep) -> Seq<char> {
    match step {
        VcsStep::Add => "--- git add ---"@,
        VcsStep::Commit => "--- git commit ---"@,
        VcsStep::Push => "--- git push ---"@,
    }
}

/// The log messages for the output of `step`: its heading, then the standard
/// output without surrounding white space where there is any output.
pub fn vcs_output_entries(step: VcsStep, stdout: &str) -> (r: Vec<String>)
    ensures
        r.deep_view() == if stdout@.len() == 0 {
            seq![vcs_heading_spec(step)]
        } else {
            seq![vcs_heading_spec(step), trimmed(stdout@)]
        },
{
    let heading = match step {
        VcsStep::Add => String::from_str("--- git add ---"),
        VcsStep::Commit => String::from_str("--- git commit ---"),
        VcsStep::Push => String::from_str("--- git push ---"),
    };
    let mut r: Vec<String> = Vec::new();
    r.push(heading);
    if !stdout.is_empty() {
        r.push(trim_text(stdout));
    }
    proof {
        if stdout@.len() == 0 {
            assert(r.deep_view() =~= seq![vcs_heading_spec(step)]);
        } else {
            assert(r.deep_view() =~= seq![vcs_heading_spec(step), trimmed(stdout@)]);
        }
    }
    r
}

/// The log messages for a failed script run: its exit status, then what it
/// wrote to standard output, then what it wrote to standard error.
pub open spec fn script_failure_entries_spec(
    status: Seq<char>,
    stdout: Seq<char>,
    stderr: Seq<char>,
) -> Seq<Seq<char>> {
    seq![
        "Python script failed with status: "@ + status,
        "Python script output: "@ + stdout,
        "Python script error output: "@ + stderr,
    ]
}

/// The log messages for a failed script run.
pub fn script_failure_entries(status: &str, stdout: &str, stderr: &str) -> (r: Vec<String>)
    ensures
        r.deep_view() == script_failure_entries_spec(status@, stdout@, stderr@),
{
    let mut r: Vec<String> = Vec::new();
    r.push(String::from_str("Python script failed with status: ").concat(status));
    r.push(String::from_str("Python script output: ").concat(stdout));
    r.push(String::from_str("Python script error output: ").concat(stderr));
    assert(r.deep_view() =~= script_failure_entries_spec(status@, stdout@, stderr@));
    r
}

} // verus!
