//! A model of the terminal environment's lifecycle.
//!
//! The interactive front end owns the real terminal device; this module fixes
//! *what* acquiring and releasing the environment must do to it. Acquisition
//! installs the process-wide panic hook (at most once), enables raw mode,
//! hides the cursor and enters the alternate screen, in that order; release
//! performs the inverse operations. The front end executes each
//! [`TermCommand`] against the device in the order given, and its panic hook
//! executes [`release_commands`], so the proofs here are about every path out
//! of the managed environment, the panicking one included.

use vstd::prelude::*;

verus! {

/// The observable flags of the terminal device.
#[derive(Clone, Copy, Debug, PartialEq, Eq, Structural)]
pub struct TermFlags {
    pub raw_mode: bool,
    pub alternate_screen: bool,
    pub cursor_hidden: bool,
}

impl TermFlags {
    /// The flags of an ordinary cooked terminal, before any acquisition.
    pub open spec fn spec_normal() -> TermFlags {
        TermFlags { raw_mode: false, alternate_screen: false, cursor_hidden: false }
    }

    /// Returns the flags of an ordinary cooked terminal.
    pub fn normal() -> (r: TermFlags)
        ensures
            r == TermFlags::spec_normal(),
    {
        TermFlags { raw_mode: false, alternate_screen: false, cursor_hidden: false }
    }
}

/// The whole environment state: terminal flags plus whether the process-wide
/// panic hook has been installed.
#[derive(Clone, Copy, Debug, PartialEq, Eq, Structural)]
pub struct EnvModel {
    pub flags: TermFlags,
    pub hook_installed: bool,
}

impl EnvModel {
    /// The state at program start: a cooked terminal and no hook.
    pub open spec fn spec_startup() -> EnvModel {
        EnvModel { flags: TermFlags::spec_normal(), hook_installed: false }
    }

    /// Returns the state at program start.
    pub fn startup() -> (r: EnvModel)
        ensures
            r == EnvModel::spec_startup(),
    {
        EnvModel { flags: TermFlags::normal(), hook_installed: false }
    }
}

/// One operation on the terminal device or the panic hook.
#[derive(Clone, Copy, Debug, PartialEq, Eq, Structural)]
pub enum TermCommand {
    InstallHook,
    EnableRaw,
    DisableRaw,
    HideCursor,
    ShowCursor,
    EnterAlternate,
    LeaveAlternate,
}

/// The effect of one command on the environment state.
pub open spec fn spec_step(m: EnvModel, c: TermCommand) -> EnvModel {
    match c {
        TermCommand::InstallHook => EnvModel { hook_installed: true, ..m },
        TermCommand::EnableRaw => EnvModel {
            flags: TermFlags { raw_mode: true, ..m.flags },
            ..m
        },
        TermCommand::DisableRaw => EnvModel {
            flags: TermFlags { raw_mode: false, ..m.flags },
            ..m
        },
        TermCommand::HideCursor => EnvModel {
            flags: TermFlags { cursor_hidden: true, ..m.flags },
            ..m
        },
        TermCommand::ShowCursor => EnvModel {
            flags: TermFlags { cursor_hidden: false, ..m.flags },
            ..m
        },
        TermCommand::EnterAlternate => EnvModel {
            flags: TermFlags { alternate_screen: true, ..m.flags },
            ..m
        },
        TermCommand::LeaveAlternate => EnvModel {
            flags: TermFlags { alternate_screen: false, ..m.flags },
            ..m
        },
    }
}

/// Applies one command to the environment state.
pub fn step_command(m: EnvModel, c: TermCommand) -> (r: EnvModel)
    ensures
        r == spec_step(m, c),
{
    match c {
        TermCommand::InstallHook => EnvModel { hook_installed: true, ..m },
        TermCommand::EnableRaw => EnvModel {
            flags: TermFlags { raw_mode: true, ..m.flags },
            ..m
        },
        TermCommand::DisableRaw => EnvModel {
            flags: TermFlags { raw_mode: false, ..m.flags },
            ..m
        },
        TermCommand::HideCursor => EnvModel {
            flags: TermFlags { cursor_hidden: true, ..m.flags },
            ..m
        },
        TermCommand::ShowCursor => EnvModel {
            flags: TermFlags { cursor_hidden: false, ..m.flags },
            ..m
        },
        TermCommand::EnterAlternate => EnvModel {
            flags: TermFlags { alternate_screen: true, ..m.flags },
            ..m
        },
        TermCommand::LeaveAlternate => EnvModel {
            flags: TermFlags { alternate_screen: false, ..m.flags },
            ..m
        },
    }
}

/// The effect of a command sequence, applied left to right.
pub open spec fn spec_apply(m: EnvModel, cs: Seq<TermCommand>) -> EnvModel
    decreases cs.len(),
{
    if cs.len() == 0 {
        m
    } else {
        spec_apply(spec_step(m, cs[0]), cs.drop_first())
    }
}

/// Applies a command sequence, left to right.
pub fn apply_commands(m: EnvModel, cs: &Vec<TermCommand>) -> (r: EnvModel)
    ensures
        r == spec_apply(m, cs@),
{
    let mut state = m;
    let mut i: usize = 0;
    proof {
        assert(cs@.skip(0) =~= cs@);
    }
    while i < cs.len()
        invariant
            i <= cs.len(),
            spec_apply(state, cs@.skip(i as int)) == spec_apply(m, cs@),
        decreases cs.len() - i,
    {
        proof {
            assert(cs@.skip(i as int).drop_first() =~= cs@.skip(i as int + 1));
        }
        state = step_command(state, cs[i]);
        i = i + 1;
    }
    state
}

/// The commands that acquire the environment: install the panic hook unless it
/// already is installed, then enable raw mode, hide the cursor and enter the
/// alternate screen.
pub open spec fn spec_acquire_commands(m: EnvModel) -> Seq<TermCommand> {
    let tail = seq![
        TermCommand::EnableRaw,
        TermCommand::HideCursor,
        TermCommand::EnterAlternate,
    ];
    if m.hook_installed {
        tail
    } else {
        seq![TermCommand::InstallHook] + tail
    }
}

/// Returns the commands that acquire the environment from state `m`.
pub fn acquire_commands(m: &EnvModel) -> (cs: Vec<TermCommand>)
    ensures
        cs@ == spec_acquire_commands(*m),
{
    let mut cs: Vec<TermCommand> = Vec::new();
    if !m.hook_installed {
        cs.push(TermCommand::InstallHook);
    }
    cs.push(TermCommand::EnableRaw);
    cs.push(TermCommand::HideCursor);
    cs.push(TermCommand::EnterAlternate);
    proof {
        assert(cs@ =~= spec_acquire_commands(*m));
    }
    cs
}

/// The commands that release the environment: disable raw mode, show the
/// cursor and leave the alternate screen. They never touch the panic hook, and
/// they are the same commands the installed hook runs while unwinding.
pub open spec fn spec_release_commands() -> Seq<TermCommand> {
    seq![TermCommand::DisableRaw, TermCommand::ShowCursor, TermCommand::LeaveAlternate]
}

/// Returns the commands that release the environment.
pub fn release_commands() -> (cs: Vec<TermCommand>)
    ensures
        cs@ == spec_release_commands(),
{
    let mut cs: Vec<TermCommand> = Vec::new();
    cs.push(TermCommand::DisableRaw);
    cs.push(TermCommand::ShowCursor);
    cs.push(TermCommand::LeaveAlternate);
    proof {
        assert(cs@ =~= spec_release_commands());
    }
    cs
}

/// The environment state after a fresh acquisition.
pub open spec fn spec_acquired(m: EnvModel) -> EnvModel {
    spec_apply(m, spec_acquire_commands(m))
}

/// Acquisition turns on every managed flag and leaves the hook installed.
pub proof fn lemma_acquire_sets_flags(m: EnvModel)
    ensures
        spec_acquired(m).flags == (TermFlags {
            raw_mode: true,
            alternate_screen: true,
            cursor_hidden: true,
        }),
        spec_acquired(m).hook_installed,
{
    reveal_with_fuel(spec_apply, 5);
}

/// Releasing restores a cooked terminal, whatever state the environment is in:
/// this is the path taken by an orderly drop and by the panic hook alike.
pub proof fn lemma_release_normalizes(m: EnvModel)
    ensures
        spec_apply(m, spec_release_commands()).flags == TermFlags::spec_normal(),
        spec_apply(m, spec_release_commands()).hook_installed == m.hook_installed,
{
    reveal_with_fuel(spec_apply, 4);
}

/// Acquiring and then releasing leaves the terminal flags exactly as they were
/// before the acquisition, for any environment that starts out cooked.
pub proof fn lemma_acquire_release_restores(m: EnvModel)
    requires
        m.flags == TermFlags::spec_normal(),
    ensures
        spec_apply(spec_acquired(m), spec_release_commands()).flags == m.flags,
{
    lemma_release_normalizes(spec_acquired(m));
}

/// Acquiring installs the panic hook, and a second acquisition does not issue
/// another install: the hook is installed at most once per process.
pub proof fn lemma_hook_installed_once(m: EnvModel)
    ensures
        spec_acquired(m).hook_installed,
        !spec_acquire_commands(spec_acquired(m)).contains(TermCommand::InstallHook),
{
    lemma_acquire_sets_flags(m);
    let cs = spec_acquire_commands(spec_acquired(m));
    assert forall|i: int| 0 <= i < cs.len() implies cs[i] != TermCommand::InstallHook by {}
}

} // verus!
