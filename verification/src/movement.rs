//! Which movement packet the player's client sends for a change of its movement.
use vstd::prelude::*;

verus! {

/// The movement flag bits that the tracker reads.
pub const FORWARD: u64 = 0x01;

pub const BACKWARD: u64 = 0x02;

pub const STRAFE_LEFT: u64 = 0x04;

pub const STRAFE_RIGHT: u64 = 0x08;

/// The time (milliseconds) after which a heartbeat is sent while the movement stays the same.
pub const HEARTBEAT_INTERVAL_MS: u128 = 500;

/// The packet that reports the player's movement to the server.
#[derive(Debug, Clone, Copy, PartialEq, Eq, Structural)]
pub enum MovementPacket {
    Nothing,
    Stop,
    StartForward,
    StartBackward,
    StartStrafeLeft,
    StartStrafeRight,
    Heartbeat,
}

/// The packet to send, and whether the heartbeat timer starts over.
#[derive(Debug, Clone, Copy, PartialEq, Eq, Structural)]
pub struct MovementDecision {
    pub packet: MovementPacket,
    pub reset_heartbeat: bool,
}

/// The flags move the character: forward, backward or sideways.
pub open spec fn moving(flags: u64) -> bool {
    flags & FORWARD != 0 || flags & BACKWARD != 0 || flags & STRAFE_LEFT != 0 || flags
        & STRAFE_RIGHT != 0
}

/// Whether the flags move the character.
pub fn is_moving(flags: u64) -> (r: bool)
    ensures
        r == moving(flags),
{
    flags & FORWARD != 0 || flags & BACKWARD != 0 || flags & STRAFE_LEFT != 0 || flags
        & STRAFE_RIGHT != 0
}

/// The packet for the movement with flags `new_flags`, after a movement with flags
/// `last_flags` and `ms_since_heartbeat` milliseconds after the last heartbeat timer start.
pub open spec fn movement_decision(
    new_flags: u64,
    last_flags: u64,
    ms_since_heartbeat: u128,
) -> MovementDecision {
    if new_flags == 0 {
        if moving(last_flags) {
            MovementDecision { packet: MovementPacket::Stop, reset_heartbeat: true }
        } else {
            MovementDecision { packet: MovementPacket::Nothing, reset_heartbeat: false }
        }
    } else if new_flags != last_flags {
        MovementDecision {
            packet: if new_flags & FORWARD != 0 {
                MovementPacket::StartForward
            } else if new_flags & BACKWARD != 0 {
                MovementPacket::StartBackward
            } else if new_flags & STRAFE_LEFT != 0 {
                MovementPacket::StartStrafeLeft
            } else if new_flags & STRAFE_RIGHT != 0 {
                MovementPacket::StartStrafeRight
            } else {
                MovementPacket::Nothing
            },
            reset_heartbeat: true,
        }
    } else if ms_since_heartbeat >= HEARTBEAT_INTERVAL_MS {
        MovementDecision { packet: MovementPacket::Heartbeat, reset_heartbeat: true }
    } else {
        MovementDecision { packet: MovementPacket::Nothing, reset_heartbeat: false }
    }
}

/// Decides which movement packet to send: a stop when the character stops moving, a start
/// packet when the movement changes (forward before backward before strafing), and a
/// heartbeat every half second while the movement stays the same.
pub fn decide_movement_packet(new_flags: u64, last_flags: u64, ms_since_heartbeat: u128) -> (d:
    MovementDecision)
    ensures
        d == movement_decision(new_flags, last_flags, ms_since_heartbeat),
{
    if new_flags == 0 {
        if is_moving(last_flags) {
            // We've been moving, so stop.
            MovementDecision { packet: MovementPacket::Stop, reset_heartbeat: true }
        } else {
            // Standing still.
            MovementDecision { packet: MovementPacket::Nothing, reset_heartbeat: false }
        }
    } else if new_flags != last_flags {
        let packet = if new_flags & FORWARD != 0 {
            MovementPacket::StartForward
        } else if new_flags & BACKWARD != 0 {
            MovementPacket::StartBackward
        } else if new_flags & STRAFE_LEFT != 0 {
            MovementPacket::StartStrafeLeft
        } else if new_flags & STRAFE_RIGHT != 0 {
            MovementPacket::StartStrafeRight
        } else {
            MovementPacket::Nothing
        };
        MovementDecision { packet, reset_heartbeat: true }
    } else if ms_since_heartbeat >= HEARTBEAT_INTERVAL_MS {
        MovementDecision { packet: MovementPacket::Heartbeat, reset_heartbeat: true }
    } else {
        MovementDecision { packet: MovementPacket::Nothing, reset_heartbeat: false }
    }
}

/// A movement that stays the same sends nothing but heartbeats, and those at most every half
/// second.
pub proof fn lemma_steady_movement_only_heartbeats(flags: u64, ms_since_heartbeat: u128)
    requires
        flags != 0,
    ensures
        movement_decision(flags, flags, ms_since_heartbeat).packet == if ms_since_heartbeat
            >= HEARTBEAT_INTERVAL_MS {
            MovementPacket::Heartbeat
        } else {
            MovementPacket::Nothing
        },
{
}

/// Standing still sends nothing; stopping sends exactly one stop packet.
pub proof fn lemma_stop_sent_once(last_flags: u64, ms_since_heartbeat: u128)
    ensures
        movement_decision(0, last_flags, ms_since_heartbeat).packet == MovementPacket::Stop
            <==> moving(last_flags),
        movement_decision(0, 0, ms_since_heartbeat).packet == MovementPacket::Nothing,
{
    assert(0u64 & FORWARD == 0 && 0u64 & BACKWARD == 0 && 0u64 & STRAFE_LEFT == 0 && 0u64
        & STRAFE_RIGHT == 0) by (bit_vector);
}

/// A change of a movement that still moves sends the start packet of one direction it holds, by
/// priority: forward before backward, backward before strafing left, strafing left before
/// strafing right; and the heartbeat timer starts over.
pub proof fn lemma_start_packet_by_priority(new_flags: u64, last_flags: u64, ms_since_heartbeat: u128)
    requires
        new_flags != 0,
        new_flags != last_flags,
    ensures
        new_flags & FORWARD != 0 ==> movement_decision(new_flags, last_flags, ms_since_heartbeat).packet
            == MovementPacket::StartForward,
        new_flags & FORWARD == 0 && new_flags & BACKWARD != 0 ==> movement_decision(
            new_flags,
            last_flags,
            ms_since_heartbeat,
        ).packet == MovementPacket::StartBackward,
        new_flags & FORWARD == 0 && new_flags & BACKWARD == 0 && new_flags & STRAFE_LEFT != 0
            ==> movement_decision(new_flags, last_flags, ms_since_heartbeat).packet
            == MovementPacket::StartStrafeLeft,
        new_flags & FORWARD == 0 && new_flags & BACKWARD == 0 && new_flags & STRAFE_LEFT == 0
            && new_flags & STRAFE_RIGHT != 0 ==> movement_decision(new_flags, last_flags, ms_since_heartbeat).packet
            == MovementPacket::StartStrafeRight,
        movement_decision(new_flags, last_flags, ms_since_heartbeat).reset_heartbeat,
{
}

/// The character moves exactly when one of the four lowest flag bits (forward, backward,
/// strafing left or right) is set; a steady movement sends its heartbeat once 500 milliseconds
/// have passed, and not before.
pub proof fn lemma_moving_and_heartbeat_interval(flags: u64, ms_since_heartbeat: u128)
    ensures
        moving(flags) <==> flags & 0xF != 0,
        flags != 0 ==> (movement_decision(flags, flags, ms_since_heartbeat).packet
            == MovementPacket::Heartbeat <==> ms_since_heartbeat >= 500),
{
    assert(moving(flags) <==> flags & 0xF != 0) by (bit_vector);
}

} // verus!
