use vstd::prelude::*;

verus! {

/// Gateway event's payload type: the operation code carried in the `op` field
/// of every wire frame. The valid wire values are the sparse set
/// {0, 1, 2, 3, 4, 6, 7, 8, 9, 10, 11}; 5 and everything from 12 up are
/// invalid and are rejected by [`GatewayOpcode::from`].
#[derive(Clone, Copy, Debug, Hash, PartialEq, Eq, Structural)]
pub enum GatewayOpcode {
    /// A dispatch event and sequence number; received with an active session.
    Dispatch,
    /// Periodically sent to maintain the gateway connection and may be
    /// received to immediately request one.
    Heartbeat,
    /// Start a new session.
    Identify,
    /// Request to update the client's presence.
    PresenceUpdate,
    /// Request to join, leave or move between voice channels.
    VoiceStateUpdate,
    /// Resume a previously disconnected session, skipping over `Identify`.
    Resume,
    /// Indicates that a reconnect is required.
    Reconnect,
    /// Request a list of members for a guild.
    RequestGuildMembers,
    /// Received when the session is invalidated.
    InvalidSession,
    /// Received after connecting; contains the heartbeat interval.
    Hello,
    /// Received in response to sending a `Heartbeat`.
    HeartbeatAck,
}

impl GatewayOpcode {
    /// The integer that stands for this opcode on the wire.
    pub open spec fn wire_code(self) -> u8 {
        match self {
            GatewayOpcode::Dispatch => 0,
            GatewayOpcode::Heartbeat => 1,
            GatewayOpcode::Identify => 2,
            GatewayOpcode::PresenceUpdate => 3,
            GatewayOpcode::VoiceStateUpdate => 4,
            GatewayOpcode::Resume => 6,
            GatewayOpcode::Reconnect => 7,
            GatewayOpcode::RequestGuildMembers => 8,
            GatewayOpcode::InvalidSession => 9,
            GatewayOpcode::Hello => 10,
            GatewayOpcode::HeartbeatAck => 11,
        }
    }

    /// The opcode a wire integer stands for, if any.
    pub open spec fn spec_from(code: u8) -> Option<GatewayOpcode> {
        if code == 0 {
            Some(GatewayOpcode::Dispatch)
        } else if code == 1 {
            Some(GatewayOpcode::Heartbeat)
        } else if code == 2 {
            Some(GatewayOpcode::Identify)
        } else if code == 3 {
            Some(GatewayOpcode::PresenceUpdate)
        } else if code == 4 {
            Some(GatewayOpcode::VoiceStateUpdate)
        } else if code == 6 {
            Some(GatewayOpcode::Resume)
        } else if code == 7 {
            Some(GatewayOpcode::Reconnect)
        } else if code == 8 {
            Some(GatewayOpcode::RequestGuildMembers)
        } else if code == 9 {
            Some(GatewayOpcode::InvalidSession)
        } else if code == 10 {
            Some(GatewayOpcode::Hello)
        } else if code == 11 {
            Some(GatewayOpcode::HeartbeatAck)
        } else {
            None
        }
    }

    /// Try to match an integer value to an opcode, returning `None` if no
    /// match is found. Every value outside the fixed valid set is rejected,
    /// never coerced.
    pub fn from(code: u8) -> (r: Option<GatewayOpcode>)
        ensures
            r == GatewayOpcode::spec_from(code),
    {
        match code {
            0 => Some(GatewayOpcode::Dispatch),
            1 => Some(GatewayOpcode::Heartbeat),
            2 => Some(GatewayOpcode::Identify),
            3 => Some(GatewayOpcode::PresenceUpdate),
            4 => Some(GatewayOpcode::VoiceStateUpdate),
            6 => Some(GatewayOpcode::Resume),
            7 => Some(GatewayOpcode::Reconnect),
            8 => Some(GatewayOpcode::RequestGuildMembers),
            9 => Some(GatewayOpcode::InvalidSession),
            10 => Some(GatewayOpcode::Hello),
            11 => Some(GatewayOpcode::HeartbeatAck),
            _ => None,
        }
    }

    /// The integer that stands for this opcode on the wire, for building
    /// outbound frames.
    pub fn code(self) -> (r: u8)
        ensures
            r == self.wire_code(),
    {
        match self {
            GatewayOpcode::Dispatch => 0,
            GatewayOpcode::Heartbeat => 1,
            GatewayOpcode::Identify => 2,
            GatewayOpcode::PresenceUpdate => 3,
            GatewayOpcode::VoiceStateUpdate => 4,
            GatewayOpcode::Resume => 6,
            GatewayOpcode::Reconnect => 7,
            GatewayOpcode::RequestGuildMembers => 8,
            GatewayOpcode::InvalidSession => 9,
            GatewayOpcode::Hello => 10,
            GatewayOpcode::HeartbeatAck => 11,
        }
    }

    /// Membership in the fixed received-by-client table:
    /// {Dispatch, Heartbeat, HeartbeatAck, Hello, InvalidSession, Reconnect}.
    pub open spec fn spec_is_received(self) -> bool {
        self == GatewayOpcode::Dispatch || self == GatewayOpcode::Heartbeat
            || self == GatewayOpcode::HeartbeatAck || self == GatewayOpcode::Hello
            || self == GatewayOpcode::InvalidSession || self == GatewayOpcode::Reconnect
    }

    /// Membership in the fixed sent-by-client table:
    /// {Heartbeat, Identify, PresenceUpdate, Resume, RequestGuildMembers,
    /// VoiceStateUpdate}.
    pub open spec fn spec_is_sent(self) -> bool {
        self == GatewayOpcode::Heartbeat || self == GatewayOpcode::Identify
            || self == GatewayOpcode::PresenceUpdate || self == GatewayOpcode::Resume
            || self == GatewayOpcode::RequestGuildMembers
            || self == GatewayOpcode::VoiceStateUpdate
    }

    /// Whether the opcode is received by the client.
    pub fn is_received(self) -> (r: bool)
        ensures
            r == self.spec_is_received(),
    {
        matches!(
            self,
            GatewayOpcode::Dispatch
                | GatewayOpcode::Heartbeat
                | GatewayOpcode::HeartbeatAck
                | GatewayOpcode::Hello
                | GatewayOpcode::InvalidSession
                | GatewayOpcode::Reconnect
        )
    }

    /// Whether the opcode is sent by the client.
    pub fn is_sent(self) -> (r: bool)
        ensures
            r == self.spec_is_sent(),
    {
        matches!(
            self,
            GatewayOpcode::Heartbeat
                | GatewayOpcode::Identify
                | GatewayOpcode::PresenceUpdate
                | GatewayOpcode::Resume
                | GatewayOpcode::RequestGuildMembers
                | GatewayOpcode::VoiceStateUpdate
        )
    }
}

/// Law: parsing is total on exactly the fixed valid set. A byte yields an
/// opcode if and only if it is one of {0, 1, 2, 3, 4, 6, 7, 8, 9, 10, 11};
/// 5 and every value from 12 to 255 are rejected.
pub proof fn lemma_opcode_totality(code: u8)
    ensures
        (GatewayOpcode::spec_from(code) is Some) <==> (code == 0 || code == 1 || code == 2
            || code == 3 || code == 4 || code == 6 || code == 7 || code == 8 || code == 9
            || code == 10 || code == 11),
{
}

/// Law: the wire value of an opcode parses back to that same opcode, so the
/// integer coding is injective over the valid set.
pub proof fn lemma_opcode_round_trip(op: GatewayOpcode)
    ensures
        GatewayOpcode::spec_from(op.wire_code()) == Some(op),
{
}

/// Law of the direction tables: every opcode is sent by the client or
/// received by it, and the symmetric keep-alive `Heartbeat` is the only
/// opcode that is both.
pub proof fn lemma_opcode_direction(op: GatewayOpcode)
    ensures
        op.spec_is_received() || op.spec_is_sent(),
        (op.spec_is_received() && op.spec_is_sent()) <==> op == GatewayOpcode::Heartbeat,
{
}

} // verus!
