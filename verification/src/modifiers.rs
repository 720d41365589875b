//! Modifier keys.

use vstd::prelude::*;

verus! {

/// Which modifier keys are down.
///
/// `command` is the key that shortcuts go by: the `ctrl` key on most platforms, the
/// `mac_cmd` key on a Mac. A backend sets it together with the key it stands for.
#[derive(Clone, Copy, Debug, PartialEq, Eq, Hash, Structural)]
pub struct Modifiers {
    pub alt: bool,
    pub ctrl: bool,
    pub shift: bool,
    pub mac_cmd: bool,
    pub command: bool,
}

impl Modifiers {
    pub open spec fn spec_none() -> Modifiers {
        Modifiers { alt: false, ctrl: false, shift: false, mac_cmd: false, command: false }
    }

    /// No modifier.
    #[verifier::when_used_as_spec(spec_none)]
    pub fn none() -> (r: Modifiers)
        ensures
            r == Modifiers::spec_none(),
    {
        Modifiers { alt: false, ctrl: false, shift: false, mac_cmd: false, command: false }
    }

    pub open spec fn spec_alt() -> Modifiers {
        Modifiers { alt: true, ctrl: false, shift: false, mac_cmd: false, command: false }
    }

    /// Alt alone.
    #[verifier::when_used_as_spec(spec_alt)]
    pub fn alt() -> (r: Modifiers)
        ensures
            r == Modifiers::spec_alt(),
    {
        Modifiers { alt: true, ctrl: false, shift: false, mac_cmd: false, command: false }
    }

    pub open spec fn spec_shift() -> Modifiers {
        Modifiers { alt: false, ctrl: false, shift: true, mac_cmd: false, command: false }
    }

    /// Shift alone.
    #[verifier::when_used_as_spec(spec_shift)]
    pub fn shift() -> (r: Modifiers)
        ensures
            r == Modifiers::spec_shift(),
    {
        Modifiers { alt: false, ctrl: false, shift: true, mac_cmd: false, command: false }
    }

    pub open spec fn spec_command() -> Modifiers {
        Modifiers { alt: false, ctrl: false, shift: false, mac_cmd: false, command: true }
    }

    /// The key that shortcuts go by.
    #[verifier::when_used_as_spec(spec_command)]
    pub fn command() -> (r: Modifiers)
        ensures
            r == Modifiers::spec_command(),
    {
        Modifiers { alt: false, ctrl: false, shift: false, mac_cmd: false, command: true }
    }

    pub open spec fn spec_matches_any(self, pattern: Modifiers) -> bool {
        ||| self.alt && pattern.alt
        ||| self.shift && pattern.shift
        ||| self.ctrl && pattern.ctrl
        ||| self.mac_cmd && pattern.mac_cmd
        ||| (self.mac_cmd || self.command) && pattern.command
    }

    /// Whether any of the modifiers in the pattern is down.
    #[verifier::when_used_as_spec(spec_matches_any)]
    pub fn matches_any(self, pattern: Modifiers) -> (r: bool)
        ensures
            r == self.spec_matches_any(pattern),
    {
        (self.alt && pattern.alt) || (self.shift && pattern.shift) || (self.ctrl && pattern.ctrl) || (
        self.mac_cmd && pattern.mac_cmd) || ((self.mac_cmd || self.command) && pattern.command)
    }

    pub open spec fn spec_cmd_ctrl_matches(self, pattern: Modifiers) -> bool {
        if pattern.mac_cmd {
            self.mac_cmd && pattern.ctrl == self.ctrl
        } else if !pattern.ctrl && !pattern.command {
            !self.ctrl && !self.command
        } else {
            (pattern.ctrl ==> self.ctrl) && (pattern.command ==> self.command)
        }
    }

    /// Whether the control and command keys are those of the pattern.
    ///
    /// Either of `ctrl` and `command` may be set along with the other, as is the way of
    /// platforms on which one key is both.
    #[verifier::when_used_as_spec(spec_cmd_ctrl_matches)]
    pub fn cmd_ctrl_matches(self, pattern: Modifiers) -> (r: bool)
        ensures
            r == self.spec_cmd_ctrl_matches(pattern),
    {
        if pattern.mac_cmd {
            self.mac_cmd && pattern.ctrl == self.ctrl
        } else if !pattern.ctrl && !pattern.command {
            !self.ctrl && !self.command
        } else {
            (!pattern.ctrl || self.ctrl) && (!pattern.command || self.command)
        }
    }

    pub open spec fn spec_matches_logically(self, pattern: Modifiers) -> bool {
        &&& pattern.alt ==> self.alt
        &&& pattern.shift ==> self.shift
        &&& self.cmd_ctrl_matches(pattern)
    }

    /// Whether the modifiers are those of the pattern, but for extra Shift and Alt.
    #[verifier::when_used_as_spec(spec_matches_logically)]
    pub fn matches_logically(self, pattern: Modifiers) -> (r: bool)
        ensures
            r == self.spec_matches_logically(pattern),
    {
        (!pattern.alt || self.alt) && (!pattern.shift || self.shift) && self.cmd_ctrl_matches(pattern)
    }
}

} // verus!
