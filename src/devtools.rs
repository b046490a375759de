use crate::profile::BuildProfile;
use vstd::prelude::*;

verus! {

/// The request the toggle command makes of the window's devtools panel.
#[derive(PartialEq, Eq, Structural, Clone, Copy, Debug)]
pub enum DevtoolsAction {
    Open,
    Close,
    Nothing,
}

/// The request made when the panel is currently `is_open`: the panel is
/// flipped in a debug build and left alone in a release build.
pub open spec fn toggle_action(profile: BuildProfile, is_open: bool) -> DevtoolsAction {
    if !profile.is_debug() {
        DevtoolsAction::Nothing
    } else if is_open {
        DevtoolsAction::Close
    } else {
        DevtoolsAction::Open
    }
}

/// Whether the panel is open once the host has carried out `action`.
pub open spec fn after_action(is_open: bool, action: DevtoolsAction) -> bool {
    match action {
        DevtoolsAction::Open => true,
        DevtoolsAction::Close => false,
        DevtoolsAction::Nothing => is_open,
    }
}

/// Whether the panel is open after one invocation of the toggle command.
pub open spec fn toggled(profile: BuildProfile, is_open: bool) -> bool {
    after_action(is_open, toggle_action(profile, is_open))
}

/// Whether the panel is open after `n` invocations of the toggle command.
pub open spec fn toggled_n(profile: BuildProfile, is_open: bool, n: nat) -> bool
    decreases n,
{
    if n == 0 {
        is_open
    } else {
        toggled(profile, toggled_n(profile, is_open, (n - 1) as nat))
    }
}

/// The toggle command: given whether the window's devtools panel is open,
/// decide whether to close it, open it, or (in a release build) do nothing.
pub fn open_devtools(profile: BuildProfile, is_open: bool) -> (r: DevtoolsAction)
    ensures
        r == toggle_action(profile, is_open),
{
    if profile.is_debug() {
        if is_open {
            DevtoolsAction::Close
        } else {
            DevtoolsAction::Open
        }
    } else {
        DevtoolsAction::Nothing
    }
}

/// Whether the panel is open once the host has carried out `action` on a
/// panel that was `is_open`.
pub fn apply_action(is_open: bool, action: DevtoolsAction) -> (r: bool)
    ensures
        r == after_action(is_open, action),
{
    match action {
        DevtoolsAction::Open => true,
        DevtoolsAction::Close => false,
        DevtoolsAction::Nothing => is_open,
    }
}

/// In a debug build one invocation flips the panel and a second one brings
/// it back: from closed, the first call opens it and the second closes it.
pub proof fn lemma_debug_toggle_round_trip(is_open: bool)
    ensures
        toggled(BuildProfile::Debug, is_open) == !is_open,
        toggled(BuildProfile::Debug, toggled(BuildProfile::Debug, is_open)) == is_open,
        toggle_action(BuildProfile::Debug, false) == DevtoolsAction::Open,
        toggle_action(BuildProfile::Debug, true) == DevtoolsAction::Close,
        toggled_n(BuildProfile::Debug, is_open, 2) == is_open,
{
    reveal_with_fuel(toggled_n, 3);
}

/// In a release build the command never asks the host for a change, and any
/// number of invocations leaves the panel as it was.
pub proof fn lemma_release_toggle_is_noop(is_open: bool, n: nat)
    ensures
        toggle_action(BuildProfile::Release, is_open) == DevtoolsAction::Nothing,
        toggled_n(BuildProfile::Release, is_open, n) == is_open,
    decreases n,
{
    if n > 0 {
        lemma_release_toggle_is_noop(is_open, (n - 1) as nat);
    }
}

} // verus!
