//! Runtime programmer decisions.
//!
//! The host-side utility drives the firmware over a serial link with
//! single-byte commands. This module decides, from the received bytes and
//! the current configuration alone, which action the serial front end
//! must carry out; the link itself lives outside the library.

use vstd::prelude::*;

use crate::cfg::{spec_deserialize, spec_serialize, DrumConfig};

verus! {

/// Acknowledge byte sent back before a recognized command is executed.
pub const ACK: u8 = 0x06;

/// Size of the serial read buffer, and of one configuration record.
pub const BUFF_LEN: usize = 16;

/// Commands understood by the runtime programmer.
#[derive(Clone, Copy, Debug, PartialEq, Eq, Structural)]
pub enum Command {
    /// Unknown state.
    Unknown,
    /// Read current configuration.
    Read,
    /// Write new configuration.
    Write,
    /// Reset the firmware.
    Reset,
}

impl Command {
    /// The command a byte decodes to, or the byte itself when it is not a
    /// command.
    pub open spec fn spec_of(value: u8) -> Result<Command, u8> {
        if value == 0x00 {
            Ok(Command::Unknown)
        } else if value == 0x01 {
            Ok(Command::Read)
        } else if value == 0x02 {
            Ok(Command::Write)
        } else if value == 0xff {
            Ok(Command::Reset)
        } else {
            Err(value)
        }
    }

    /// Decodes a command byte; an unrecognized byte comes back unchanged.
    pub fn try_from(value: u8) -> (r: Result<Command, u8>)
        ensures
            r == Command::spec_of(value),
    {
        if value == 0x00 {
            Ok(Command::Unknown)
        } else if value == 0x01 {
            Ok(Command::Read)
        } else if value == 0x02 {
            Ok(Command::Write)
        } else if value == 0xff {
            Ok(Command::Reset)
        } else {
            Err(value)
        }
    }
}

/// What the serial front end must do in response to one received buffer.
/// Every action other than `Nothing` and `UnknownCommand` is acknowledged
/// first.
#[derive(Debug, PartialEq, Eq)]
pub enum ProgramAction {
    /// Nothing was received, or the placeholder command arrived.
    Nothing,
    /// An unrecognized command byte; it is logged and ignored.
    UnknownCommand(u8),
    /// Perform a firmware reset.
    Reset,
    /// Send these serialized configuration bytes back to the host.
    SendConfig(Vec<u8>),
    /// Adopt this configuration and persist it.
    UpdateConfig(DrumConfig),
    /// The configuration payload could not be parsed; the code is the
    /// offending byte, or zero for a truncated record.
    RejectConfig(u8),
}

/// Command parsing and execution decision.
///
/// Given the bytes read from the serial port and the configuration in
/// force, decides the programmer's next action: answer a `Read` with the
/// serialized configuration, parse the payload of a `Write` on top of the
/// current configuration, pass a `Reset` through, and ignore everything
/// unrecognized.
pub fn program_step(cfg: &DrumConfig, buff: &Vec<u8>) -> (r: ProgramAction)
    ensures
        buff@.len() == 0 ==> r == ProgramAction::Nothing,
        buff@.len() > 0 ==> match Command::spec_of(buff@[0]) {
            Err(b) => r == ProgramAction::UnknownCommand(b),
            Ok(cmd) => match cmd {
                Command::Unknown => r == ProgramAction::Nothing,
                Command::Reset => r == ProgramAction::Reset,
                Command::Read => r matches ProgramAction::SendConfig(bytes) && bytes@
                    == spec_serialize(*cfg),
                Command::Write => match spec_deserialize(*cfg, buff@.drop_first(), 0) {
                    Ok(c) => r == ProgramAction::UpdateConfig(c),
                    Err(b) => r == ProgramAction::RejectConfig(b),
                },
            },
        },
{
    if buff.len() == 0 {
        return ProgramAction::Nothing;
    }
    match Command::try_from(buff[0]) {
        Err(b) => ProgramAction::UnknownCommand(b),
        Ok(cmd) => match cmd {
            Command::Unknown => ProgramAction::Nothing,
            Command::Reset => ProgramAction::Reset,
            Command::Read => ProgramAction::SendConfig(cfg.serialize()),
            Command::Write => {
                let mut payload: Vec<u8> = Vec::new();
                let mut i: usize = 1;
                while i < buff.len()
                    invariant
                        1 <= i <= buff@.len(),
                        payload@ == buff@.subrange(1, i as int),
                    decreases buff@.len() - i,
                {
                    payload.push(buff[i]);
                    proof {
                        assert(payload@ =~= buff@.subrange(1, i + 1));
                    }
                    i = i + 1;
                }
                proof {
                    assert(payload@ =~= buff@.drop_first());
                }
                match cfg.deserialize(&payload) {
                    Ok(c) => ProgramAction::UpdateConfig(c),
                    Err(b) => ProgramAction::RejectConfig(b),
                }
            },
        },
    }
}

} // verus!
