//! Operating modes of the vehicle director and the commands of its
//! emergency stop.
use vstd::prelude::*;

verus! {

/// How far the director may act on its own.
#[derive(Copy, Clone, Debug, PartialEq, Eq, Structural)]
pub enum DirectorOperation {
    Disabled,
    Supervised,
    Autonomous,
}

/// The name of each mode as it is shown.
pub open spec fn spec_director_operation_name(operation: DirectorOperation) -> Seq<char> {
    match operation {
        DirectorOperation::Disabled => seq!['d', 'i', 's', 'a', 'b', 'l', 'e', 'd'],
        DirectorOperation::Supervised => seq!['s', 'u', 'p', 'e', 'r', 'v', 'i', 's', 'e', 'd'],
        DirectorOperation::Autonomous => seq!['a', 'u', 't', 'o', 'n', 'o', 'm', 'o', 'u', 's'],
    }
}

impl DirectorOperation {
    /// The name of the mode as it is shown.
    pub fn to_string(&self) -> (name: String)
        ensures
            name@ == spec_director_operation_name(*self),
    {
        match self {
            DirectorOperation::Disabled => {
                proof {
                    reveal_strlit("disabled");
                }
                let name = "disabled".to_owned();
                assert(name@ =~= seq!['d', 'i', 's', 'a', 'b', 'l', 'e', 'd']);
                name
            },
            DirectorOperation::Supervised => {
                proof {
                    reveal_strlit("supervised");
                }
                let name = "supervised".to_owned();
                assert(name@ =~= seq!['s', 'u', 'p', 'e', 'r', 'v', 'i', 's', 'e', 'd']);
                name
            },
            DirectorOperation::Autonomous => {
                proof {
                    reveal_strlit("autonomous");
                }
                let name = "autonomous".to_owned();
                assert(name@ =~= seq!['a', 'u', 't', 'o', 'n', 'o', 'm', 'o', 'u', 's']);
                name
            },
        }
    }
}

/// A command that the director sends when it stops the machine in an
/// emergency.
#[derive(Copy, Clone, Debug, PartialEq, Eq, Structural)]
pub enum EmergencyCommand {
    /// Hydraulic lock on or off.
    HydraulicLock(bool),
    /// Stop every motion.
    StopAllMotion,
    /// Hydraulic boost on or off.
    HydraulicBoost(bool),
    /// Travel alarm on or off.
    MachineTravelAlarm(bool),
    /// Strobe light on or off.
    MachineStrobeLight(bool),
    /// Shut the engine down.
    EngineShutdown,
}

/// An emergency stop: lock the hydraulics, stop all motion, drop the
/// hydraulic boost, sound the travel alarm, light the strobe and shut the
/// engine down, in that order.
pub open spec fn spec_emergency_stop() -> Seq<EmergencyCommand> {
    seq![
        EmergencyCommand::HydraulicLock(true),
        EmergencyCommand::StopAllMotion,
        EmergencyCommand::HydraulicBoost(false),
        EmergencyCommand::MachineTravelAlarm(true),
        EmergencyCommand::MachineStrobeLight(true),
        EmergencyCommand::EngineShutdown,
    ]
}

/// The commands of an emergency stop, in the order they are sent.
pub fn emergency_stop_commands() -> (commands: Vec<EmergencyCommand>)
    ensures
        commands@ == spec_emergency_stop(),
{
    let mut commands: Vec<EmergencyCommand> = Vec::new();
    commands.push(EmergencyCommand::HydraulicLock(true));
    commands.push(EmergencyCommand::StopAllMotion);
    commands.push(EmergencyCommand::HydraulicBoost(false));
    commands.push(EmergencyCommand::MachineTravelAlarm(true));
    commands.push(EmergencyCommand::MachineStrobeLight(true));
    commands.push(EmergencyCommand::EngineShutdown);
    assert(commands@ =~= spec_emergency_stop());
    commands
}

} // verus!
