//! The controller's side of the conversation with the EnOcean transceiver: once the transceiver
//! reports that it is ready, the controller asks for its version, and once the answer arrives,
//! it switches the transceiver to transparent mode.
//!
//! The caller receives and decodes the packets, hands each to [handle_packet] and sends the frame
//! that comes back.

use vstd::prelude::*;
use crate::max_array::MaxArray;
use crate::esp3::MAX_ESP3_PACKET_LENGTH;
use crate::esp3::codes::OneByteBoolean;
use crate::esp3::command::CommandData;
use crate::esp3::event::EventData;
use crate::esp3::packet::Esp3Packet;

verus! {

/// What the controller is waiting for.
#[derive(Clone, Copy, Debug, PartialEq, Eq, Structural)]
pub enum AwaitingWhat {
    /// Nothing in particular.
    Nothing,
    /// The response to the request for the version.
    Version,
}

/// The request for the transceiver's version.
pub open spec fn version_request() -> Esp3Packet {
    Esp3Packet::CommonCommand(CommandData::CoRdVersion)
}

/// The command that switches the transceiver to transparent mode.
pub open spec fn transparent_mode_request() -> Esp3Packet {
    Esp3Packet::CommonCommand(CommandData::CoWrTransparentMode { enable: OneByteBoolean::Yes })
}

/// What the controller awaits next and which packet it sends after receiving `packet` while
/// awaiting `awaiting`: a ready event makes it request the version; a response while it awaits
/// the version makes it switch the transceiver to transparent mode; anything else changes
/// nothing.
pub open spec fn reply_spec(awaiting: AwaitingWhat, packet: Esp3Packet) -> (AwaitingWhat, Option<Esp3Packet>) {
    match packet {
        Esp3Packet::Event(EventData::CoReady { .. }) => (AwaitingWhat::Version, Some(version_request())),
        Esp3Packet::Response { .. } => if awaiting == AwaitingWhat::Version {
            (AwaitingWhat::Nothing, Some(transparent_mode_request()))
        } else {
            (awaiting, None)
        },
        _ => (awaiting, None),
    }
}

/// Decides what to do about a packet received from the transceiver: returns what the controller
/// awaits next and the frame to send, if any (see [reply_spec]).
pub fn handle_packet(awaiting: AwaitingWhat, packet: &Esp3Packet) -> (ret: (
    AwaitingWhat,
    Option<MaxArray<u8, MAX_ESP3_PACKET_LENGTH>>,
))
    ensures
        ret.0 == reply_spec(awaiting, *packet).0,
        match reply_spec(awaiting, *packet).1 {
            Some(p) => ret.1 matches Some(f) && p.packet_spec() == Some(f@),
            None => ret.1 is None,
        },
{
    match packet {
        Esp3Packet::Event(EventData::CoReady { .. }) => {
            let request = Esp3Packet::CommonCommand(CommandData::CoRdVersion);
            let frame = request.to_packet();
            (AwaitingWhat::Version, frame)
        },
        Esp3Packet::Response { .. } => {
            match awaiting {
                AwaitingWhat::Version => {
                    let request = Esp3Packet::CommonCommand(
                        CommandData::CoWrTransparentMode { enable: OneByteBoolean::from(true) },
                    );
                    let frame = request.to_packet();
                    (AwaitingWhat::Nothing, frame)
                },
                AwaitingWhat::Nothing => (awaiting, None),
            }
        },
        _ => (awaiting, None),
    }
}

} // verus!
