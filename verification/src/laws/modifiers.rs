//! Which modifiers match which patterns.

use crate::modifiers::Modifiers;
use vstd::prelude::*;

verus! {

/// Modifiers match themselves.
pub proof fn modifiers_match_themselves(m: Modifiers)
    ensures
        m.matches_logically(m),
        m.cmd_ctrl_matches(m),
{
}

/// A pattern of command, without control and the command key of a Mac, is matched if and only if
/// command is down, whatever control and the command key of a Mac are.
pub proof fn command_is_matched_by_command(m: Modifiers, pattern: Modifiers)
    requires
        pattern.command,
        !pattern.ctrl,
        !pattern.mac_cmd,
    ensures
        m.cmd_ctrl_matches(pattern) <==> m.command,
        pattern == Modifiers::command() ==> (m.matches_logically(pattern) <==> m.command),
{
}

/// A pattern of control, without command and the command key of a Mac, is matched if and only if
/// control is down, whatever the other two are. One of both control and command takes both.
pub proof fn control_is_matched_by_control(m: Modifiers, pattern: Modifiers)
    requires
        pattern.ctrl,
        !pattern.mac_cmd,
    ensures
        !pattern.command ==> (m.cmd_ctrl_matches(pattern) <==> m.ctrl),
        pattern.command ==> (m.cmd_ctrl_matches(pattern) <==> m.ctrl && m.command),
{
}

/// A pattern of the command key of a Mac is matched if and only if that key is down, and control
/// is as the pattern has it.
pub proof fn mac_command_is_matched_by_mac_command(m: Modifiers, pattern: Modifiers)
    requires
        pattern.mac_cmd,
    ensures
        m.cmd_ctrl_matches(pattern) <==> m.mac_cmd && m.ctrl == pattern.ctrl,
{
}

/// A pattern with none of the three is matched if and only if neither control nor command is down.
pub proof fn plain_pattern_is_matched_without_control_and_command(m: Modifiers, pattern: Modifiers)
    requires
        !pattern.ctrl,
        !pattern.command,
        !pattern.mac_cmd,
    ensures
        m.cmd_ctrl_matches(pattern) <==> !m.ctrl && !m.command,
        pattern == Modifiers::none() ==> (m.matches_logically(pattern) <==> !m.ctrl && !m.command),
{
}

/// Shift and Alt are asked for only if the pattern has them. The rest goes by control and command.
pub proof fn shift_and_alt_are_wanted_if_asked_for(m: Modifiers, pattern: Modifiers)
    ensures
        m.matches_logically(pattern) <==> m.cmd_ctrl_matches(pattern) && (m.shift || !pattern.shift) && (m.alt
            || !pattern.alt),
        m.cmd_ctrl_matches(pattern) == m.cmd_ctrl_matches(Modifiers { shift: false, alt: false, ..pattern }),
        m.cmd_ctrl_matches(pattern) == (Modifiers { shift: false, alt: false, ..m }).cmd_ctrl_matches(pattern),
{
}

/// The modifiers of either of two patterns.
pub open spec fn either(a: Modifiers, b: Modifiers) -> Modifiers {
    Modifiers {
        alt: a.alt || b.alt,
        ctrl: a.ctrl || b.ctrl,
        shift: a.shift || b.shift,
        mac_cmd: a.mac_cmd || b.mac_cmd,
        command: a.command || b.command,
    }
}

/// Any modifier of a pattern will do: what matches either of two patterns matches the modifiers of
/// both, and the other way round.
pub proof fn any_of_either_will_do(m: Modifiers, a: Modifiers, b: Modifiers)
    ensures
        m.matches_any(either(a, b)) <==> m.matches_any(a) || m.matches_any(b),
{
}

/// No pattern and no modifiers match in any modifier. A pattern of one modifier is matched by that
/// one, and command by the command key of a Mac too.
pub proof fn single_modifiers_are_matched_by_themselves(m: Modifiers, pattern: Modifiers)
    ensures
        !m.matches_any(Modifiers { alt: false, ctrl: false, shift: false, mac_cmd: false, command: false }),
        !(Modifiers { alt: false, ctrl: false, shift: false, mac_cmd: false, command: false }).matches_any(pattern),
        m.matches_any(Modifiers { alt: true, ctrl: false, shift: false, mac_cmd: false, command: false }) == m.alt,
        m.matches_any(Modifiers { alt: false, ctrl: true, shift: false, mac_cmd: false, command: false }) == m.ctrl,
        m.matches_any(Modifiers { alt: false, ctrl: false, shift: true, mac_cmd: false, command: false }) == m.shift,
        m.matches_any(Modifiers { alt: false, ctrl: false, shift: false, mac_cmd: true, command: false }) == m.mac_cmd,
        m.matches_any(Modifiers { alt: false, ctrl: false, shift: false, mac_cmd: false, command: true }) == (
        m.command || m.mac_cmd),
{
}

/// The patterns by name hold the modifier that they are named after, and no other.
pub proof fn named_patterns_hold_their_modifier()
    ensures
        Modifiers::none() == (Modifiers { alt: false, ctrl: false, shift: false, mac_cmd: false, command: false }),
        Modifiers::alt() == (Modifiers { alt: true, ..Modifiers::none() }),
        Modifiers::shift() == (Modifiers { shift: true, ..Modifiers::none() }),
        Modifiers::command() == (Modifiers { command: true, ..Modifiers::none() }),
{
}

} // verus!
