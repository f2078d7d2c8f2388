//! The client's session with the world server: the login handshake, then the packet loop.
//! The client reads each message and hands it here; this decides what the client does next.
use vstd::prelude::*;

verus! {

/// The opcode of the add-on info packet, which the client skips without decoding it.
pub const ADDON_INFO_OPCODE: u16 = 0x02EF;

/// Where the session stands: the message that the handshake waits for, in the world, or
/// closed.
#[derive(Debug, Clone, Copy, PartialEq, Eq, Structural)]
pub enum SessionStage {
    AwaitWardenData,
    AwaitAuthResponse,
    AwaitAddonInfo,
    AwaitClientCacheVersion,
    AwaitTutorialFlags,
    AwaitCharEnum,
    InWorld,
    Closed,
}

/// What the client read from the server or noticed.
pub enum SessionEvent {
    WardenData,
    /// The authentication response; `ok` when the server accepted the session key.
    AuthResponse { ok: bool },
    /// A packet that was skipped without decoding, with its opcode.
    SkippedPacket { opcode: u16 },
    ClientCacheVersion,
    TutorialFlags,
    /// The character list, as the guids of the characters in the server's order.
    CharEnum { guids: Vec<u64> },
    /// The server asks for the client's time; `client_ticks` is the client's time (ms since
    /// it connected) when the request was read.
    TimeSyncRequest { time_sync: u32, client_ticks: u32 },
    /// Any other packet that was read.
    Packet,
    /// A packet with an opcode that the client cannot decode.
    UnknownOpcode,
    /// A packet that could not be parsed.
    ParseError,
    /// Reading from the server failed: the connection is broken.
    ConnectionBroken,
    /// The application asked to close.
    CloseRequested,
    /// A message other than the one that the handshake waits for, or a failed read during the
    /// handshake.
    Unexpected,
}

/// Why the login failed; the client gives up.
#[derive(Debug, Clone, Copy, PartialEq, Eq, Structural)]
pub enum SessionFailure {
    AuthRefused,
    UnexpectedSkippedPacket,
    NoCharacters,
    UnexpectedMessage,
}

/// What the client does next.
#[derive(Debug, Clone, Copy, PartialEq, Eq, Structural)]
pub enum SessionAction {
    /// Read the next message.
    ReadNext,
    /// Ask for the character list.
    SendCharEnum,
    /// Enter the world with the character.
    SendPlayerLogin { guid: u64 },
    /// Answer a time sync request.
    SendTimeSyncResponse { time_sync: u32, client_ticks: u32 },
    /// Hand the packet to the packet handlers.
    ForwardPacket,
    /// Warn about a packet with an unknown opcode.
    WarnUnknownOpcode,
    /// Warn about a packet that could not be parsed.
    WarnParseError,
    /// End the session.
    Stop,
    /// Give up the login.
    Fail { failure: SessionFailure },
}

/// The stage and action after an event in a stage.
pub open spec fn session_step(stage: SessionStage, event: SessionEvent) -> (SessionStage, SessionAction) {
    let fail = |f: SessionFailure| (SessionStage::Closed, SessionAction::Fail { failure: f });
    match stage {
        SessionStage::AwaitWardenData => match event {
            SessionEvent::WardenData => (SessionStage::AwaitAuthResponse, SessionAction::ReadNext),
            _ => fail(SessionFailure::UnexpectedMessage),
        },
        SessionStage::AwaitAuthResponse => match event {
            SessionEvent::AuthResponse { ok } => if ok {
                (SessionStage::AwaitAddonInfo, SessionAction::ReadNext)
            } else {
                fail(SessionFailure::AuthRefused)
            },
            _ => fail(SessionFailure::UnexpectedMessage),
        },
        SessionStage::AwaitAddonInfo => match event {
            SessionEvent::SkippedPacket { opcode } => if opcode == ADDON_INFO_OPCODE {
                (SessionStage::AwaitClientCacheVersion, SessionAction::ReadNext)
            } else {
                fail(SessionFailure::UnexpectedSkippedPacket)
            },
            _ => fail(SessionFailure::UnexpectedMessage),
        },
        SessionStage::AwaitClientCacheVersion => match event {
            SessionEvent::ClientCacheVersion => (
                SessionStage::AwaitTutorialFlags,
                SessionAction::ReadNext,
            ),
            _ => fail(SessionFailure::UnexpectedMessage),
        },
        SessionStage::AwaitTutorialFlags => match event {
            SessionEvent::TutorialFlags => (SessionStage::AwaitCharEnum, SessionAction::SendCharEnum),
            _ => fail(SessionFailure::UnexpectedMessage),
        },
        SessionStage::AwaitCharEnum => match event {
            SessionEvent::CharEnum { guids } => if guids@.len() == 0 {
                fail(SessionFailure::NoCharacters)
            } else {
                (SessionStage::InWorld, SessionAction::SendPlayerLogin { guid: guids@[0] })
            },
            _ => fail(SessionFailure::UnexpectedMessage),
        },
        SessionStage::InWorld => match event {
            SessionEvent::CloseRequested => (SessionStage::Closed, SessionAction::Stop),
            SessionEvent::ConnectionBroken => (SessionStage::Closed, SessionAction::Stop),
            SessionEvent::UnknownOpcode => (SessionStage::InWorld, SessionAction::WarnUnknownOpcode),
            SessionEvent::ParseError => (SessionStage::InWorld, SessionAction::WarnParseError),
            SessionEvent::TimeSyncRequest { time_sync, client_ticks } => (
                SessionStage::InWorld,
                SessionAction::SendTimeSyncResponse { time_sync, client_ticks },
            ),
            _ => (SessionStage::InWorld, SessionAction::ForwardPacket),
        },
        SessionStage::Closed => (SessionStage::Closed, SessionAction::Stop),
    }
}

/// The stage after an event, and what the client does: the handshake waits for the warden
/// data, an accepted authentication, the add-on info (skipped), the client cache version and
/// the tutorial flags, then asks for the characters and enters the world with the first one.
/// In the world, time sync requests are answered, other packets go to the packet handlers,
/// and the session ends when the application closes or the connection breaks.
pub fn step(stage: SessionStage, event: &SessionEvent) -> (r: (SessionStage, SessionAction))
    ensures
        r == session_step(stage, *event),
{
    let unexpected = (
        SessionStage::Closed,
        SessionAction::Fail { failure: SessionFailure::UnexpectedMessage },
    );
    match stage {
        SessionStage::AwaitWardenData => match event {
            SessionEvent::WardenData => (SessionStage::AwaitAuthResponse, SessionAction::ReadNext),
            _ => unexpected,
        },
        SessionStage::AwaitAuthResponse => match event {
            SessionEvent::AuthResponse { ok } => {
                if *ok {
                    (SessionStage::AwaitAddonInfo, SessionAction::ReadNext)
                } else {
                    (
                        SessionStage::Closed,
                        SessionAction::Fail { failure: SessionFailure::AuthRefused },
                    )
                }
            },
            _ => unexpected,
        },
        SessionStage::AwaitAddonInfo => match event {
            // The add-on info packet cannot be decoded, so it is skipped by its opcode.
            SessionEvent::SkippedPacket { opcode } => {
                if *opcode == ADDON_INFO_OPCODE {
                    (SessionStage::AwaitClientCacheVersion, SessionAction::ReadNext)
                } else {
                    (
                        SessionStage::Closed,
                        SessionAction::Fail { failure: SessionFailure::UnexpectedSkippedPacket },
                    )
                }
            },
            _ => unexpected,
        },
        SessionStage::AwaitClientCacheVersion => match event {
            SessionEvent::ClientCacheVersion => (
                SessionStage::AwaitTutorialFlags,
                SessionAction::ReadNext,
            ),
            _ => unexpected,
        },
        SessionStage::AwaitTutorialFlags => match event {
            SessionEvent::TutorialFlags => (SessionStage::AwaitCharEnum, SessionAction::SendCharEnum),
            _ => unexpected,
        },
        SessionStage::AwaitCharEnum => match event {
            SessionEvent::CharEnum { guids } => {
                if guids.len() == 0 {
                    (
                        SessionStage::Closed,
                        SessionAction::Fail { failure: SessionFailure::NoCharacters },
                    )
                } else {
                    (SessionStage::InWorld, SessionAction::SendPlayerLogin { guid: guids[0] })
                }
            },
            _ => unexpected,
        },
        SessionStage::InWorld => match event {
            SessionEvent::CloseRequested => (SessionStage::Closed, SessionAction::Stop),
            SessionEvent::ConnectionBroken => (SessionStage::Closed, SessionAction::Stop),
            SessionEvent::UnknownOpcode => (SessionStage::InWorld, SessionAction::WarnUnknownOpcode),
            SessionEvent::ParseError => (SessionStage::InWorld, SessionAction::WarnParseError),
            SessionEvent::TimeSyncRequest { time_sync, client_ticks } => (
                SessionStage::InWorld,
                SessionAction::SendTimeSyncResponse {
                    time_sync: *time_sync,
                    client_ticks: *client_ticks,
                },
            ),
            _ => (SessionStage::InWorld, SessionAction::ForwardPacket),
        },
        SessionStage::Closed => (SessionStage::Closed, SessionAction::Stop),
    }
}

/// A closed session stays closed and does nothing but stop.
pub proof fn lemma_closed_stays_closed(event: SessionEvent)
    ensures
        session_step(SessionStage::Closed, event) == (SessionStage::Closed, SessionAction::Stop),
{
}

/// The only way into the world is a player login with the first character of a non-empty
/// character list, right after the character list was asked for.
pub proof fn lemma_world_entered_only_by_login(stage: SessionStage, event: SessionEvent)
    requires
        stage != SessionStage::InWorld,
        session_step(stage, event).0 == SessionStage::InWorld,
    ensures
        stage == SessionStage::AwaitCharEnum,
        event matches SessionEvent::CharEnum { guids } && guids@.len() > 0 && session_step(
            stage,
            event,
        ).1 == (SessionAction::SendPlayerLogin { guid: guids@[0] }),
{
}

/// In the world, the session ends exactly when the application closes or the connection
/// breaks; every time sync request is answered with its own value.
pub proof fn lemma_world_session_ends_only_on_close(event: SessionEvent)
    ensures
        session_step(SessionStage::InWorld, event).0 == SessionStage::Closed <==> (
        event is CloseRequested || event is ConnectionBroken),
        session_step(SessionStage::InWorld, event).0 != SessionStage::Closed ==> session_step(
            SessionStage::InWorld,
            event,
        ).0 == SessionStage::InWorld,
        event matches SessionEvent::TimeSyncRequest { time_sync, client_ticks } ==> session_step(
            SessionStage::InWorld,
            event,
        ).1 == (SessionAction::SendTimeSyncResponse { time_sync, client_ticks }),
{
}

/// The handshake never goes back: each accepted message moves it one stage on, anything
/// else closes it with a failure.
pub proof fn lemma_handshake_moves_forward(stage: SessionStage, event: SessionEvent)
    requires
        stage != SessionStage::InWorld,
        stage != SessionStage::Closed,
    ensures
        session_step(stage, event).0 == SessionStage::Closed <==> session_step(
            stage,
            event,
        ).1 is Fail,
        session_step(stage, event).0 != SessionStage::Closed ==> stage_index(
            session_step(stage, event).0,
        ) == stage_index(stage) + 1,
{
}

/// The position of a stage in the handshake.
pub open spec fn stage_index(stage: SessionStage) -> int {
    match stage {
        SessionStage::AwaitWardenData => 0,
        SessionStage::AwaitAuthResponse => 1,
        SessionStage::AwaitAddonInfo => 2,
        SessionStage::AwaitClientCacheVersion => 3,
        SessionStage::AwaitTutorialFlags => 4,
        SessionStage::AwaitCharEnum => 5,
        SessionStage::InWorld => 6,
        SessionStage::Closed => 7,
    }
}

} // verus!
