use sargerust::world_session::{step, SessionAction, SessionEvent, SessionFailure, SessionStage};

fn run(events: Vec<SessionEvent>) -> (SessionStage, Vec<SessionAction>) {
    let mut stage = SessionStage::AwaitWardenData;
    let mut actions = vec![];
    for event in &events {
        let (next, action) = step(stage, event);
        stage = next;
        actions.push(action);
    }
    (stage, actions)
}

fn handshake(guids: Vec<u64>) -> Vec<SessionEvent> {
    vec![
        SessionEvent::WardenData,
        SessionEvent::AuthResponse { ok: true },
        SessionEvent::SkippedPacket { opcode: 0x02EF },
        SessionEvent::ClientCacheVersion,
        SessionEvent::TutorialFlags,
        SessionEvent::CharEnum { guids },
    ]
}

#[test]
fn login_enters_the_world_with_the_first_character() {
    let (stage, actions) = run(handshake(vec![42, 7]));
    assert_eq!(stage, SessionStage::InWorld);
    assert_eq!(
        actions,
        vec![
            SessionAction::ReadNext,
            SessionAction::ReadNext,
            SessionAction::ReadNext,
            SessionAction::ReadNext,
            SessionAction::SendCharEnum,
            SessionAction::SendPlayerLogin { guid: 42 },
        ]
    );
}

#[test]
fn login_failures() {
    let (stage, actions) = run(vec![SessionEvent::WardenData, SessionEvent::AuthResponse { ok: false }]);
    assert_eq!(stage, SessionStage::Closed);
    assert_eq!(actions[1], SessionAction::Fail { failure: SessionFailure::AuthRefused });

    let mut events = handshake(vec![1]);
    events[2] = SessionEvent::SkippedPacket { opcode: 0x1234 };
    let (_, actions) = run(events);
    assert_eq!(actions[2], SessionAction::Fail { failure: SessionFailure::UnexpectedSkippedPacket });

    let (stage, actions) = run(handshake(vec![]));
    assert_eq!(stage, SessionStage::Closed);
    assert_eq!(actions[5], SessionAction::Fail { failure: SessionFailure::NoCharacters });

    let (stage, actions) = run(vec![SessionEvent::TutorialFlags]);
    assert_eq!(stage, SessionStage::Closed);
    assert_eq!(actions[0], SessionAction::Fail { failure: SessionFailure::UnexpectedMessage });
}

#[test]
fn world_packets_are_answered_forwarded_or_end_the_session() {
    let stage = SessionStage::InWorld;
    assert_eq!(
        step(stage, &SessionEvent::TimeSyncRequest { time_sync: 3, client_ticks: 1500 }),
        (SessionStage::InWorld, SessionAction::SendTimeSyncResponse { time_sync: 3, client_ticks: 1500 })
    );
    assert_eq!(step(stage, &SessionEvent::Packet), (SessionStage::InWorld, SessionAction::ForwardPacket));
    assert_eq!(step(stage, &SessionEvent::UnknownOpcode), (SessionStage::InWorld, SessionAction::WarnUnknownOpcode));
    assert_eq!(step(stage, &SessionEvent::ParseError), (SessionStage::InWorld, SessionAction::WarnParseError));
    assert_eq!(step(stage, &SessionEvent::ConnectionBroken), (SessionStage::Closed, SessionAction::Stop));
    assert_eq!(step(stage, &SessionEvent::CloseRequested), (SessionStage::Closed, SessionAction::Stop));
    assert_eq!(step(SessionStage::Closed, &SessionEvent::Packet), (SessionStage::Closed, SessionAction::Stop));
}
