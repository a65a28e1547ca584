//! The fixed command sequence and its wire encoding.

use vstd::prelude::*;

verus! {

/// The closed set of control commands, dispatched in this fixed cyclic
/// order: `Move`, `Break`, `Accel`, `Halt`.
#[derive(Clone, Copy, Debug, PartialEq, Eq, Structural)]
pub enum Actions {
    Move,
    Break,
    Accel,
    Halt,
}

/// Number of commands in the cyclic sequence.
pub const ACTION_COUNT: usize = 4;

/// The ASCII wire tag of each command: `"Move"`, `"Break"`, `"Accel"`
/// or `"Halt"`, as byte values.
pub open spec fn spec_action_msg(action: Actions) -> Seq<u8> {
    match action {
        Actions::Move => seq![77u8, 111u8, 118u8, 101u8],
        Actions::Break => seq![66u8, 114u8, 101u8, 97u8, 107u8],
        Actions::Accel => seq![65u8, 99u8, 99u8, 101u8, 108u8],
        Actions::Halt => seq![72u8, 97u8, 108u8, 116u8],
    }
}

/// The command at a position of the cyclic sequence.
pub open spec fn spec_action_at(i: int) -> Actions {
    if i == 0 {
        Actions::Move
    } else if i == 1 {
        Actions::Break
    } else if i == 2 {
        Actions::Accel
    } else {
        Actions::Halt
    }
}

/// Total, compiler-checked mapping from a command to its wire tag.
pub fn action_to_msg(action: &Actions) -> (msg: Vec<u8>)
    ensures
        msg@ == spec_action_msg(*action),
{
    let mut msg: Vec<u8> = Vec::new();
    match action {
        Actions::Move => {
            msg.push(77);
            msg.push(111);
            msg.push(118);
            msg.push(101);
        },
        Actions::Break => {
            msg.push(66);
            msg.push(114);
            msg.push(101);
            msg.push(97);
            msg.push(107);
        },
        Actions::Accel => {
            msg.push(65);
            msg.push(99);
            msg.push(99);
            msg.push(101);
            msg.push(108);
        },
        Actions::Halt => {
            msg.push(72);
            msg.push(97);
            msg.push(108);
            msg.push(116);
        },
    }
    proof {
        assert(msg@ =~= spec_action_msg(*action));
    }
    msg
}

/// Look a command up by its position in the cyclic sequence.
pub fn action_at(i: usize) -> (action: Actions)
    requires
        i < ACTION_COUNT,
    ensures
        action == spec_action_at(i as int),
{
    if i == 0 {
        Actions::Move
    } else if i == 1 {
        Actions::Break
    } else if i == 2 {
        Actions::Accel
    } else {
        Actions::Halt
    }
}

} // verus!
