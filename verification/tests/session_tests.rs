use pizza_roulette::roulette::{FortunePhraseEntry, PizzaEntry};
use pizza_roulette::slack::{
    handle_disconnect_message, mention_user, session_step, tier_message, DisconnectDecision,
    Frame, StepAction, Stats, SPIN_WINDOW_MS,
};
use pizza_roulette::slack_message::{SlackDisconnectIncomingMessage, SlackOutgoingMessage};

fn catalog() -> Vec<PizzaEntry> {
    vec![
        PizzaEntry {
            name: "Margherita".to_string(),
            extra: "basilikum".to_string(),
            description: "tomat og mozzarella".to_string(),
            vegan: false,
            vegetarian: true,
            personal: false,
        },
        PizzaEntry {
            name: "Verdura".to_string(),
            extra: "rucola".to_string(),
            description: "grillede gr\u{f8}nnsaker".to_string(),
            vegan: true,
            vegetarian: true,
            personal: false,
        },
    ]
}

fn phrases() -> Vec<FortunePhraseEntry> {
    vec![FortunePhraseEntry { phrase: "Gratulerer!".to_string() }]
}

fn slash_frame(envelope: &str, command: &str, user: &str) -> Frame {
    Frame::Text(format!(
        "{{\"type\":\"slash_commands\",\"envelope_id\":\"{}\",\
         \"accepts_response_payload\":true,\
         \"payload\":{{\"command\":\"{}\",\"user_id\":\"{}\",\"text\":\"\"}}}}",
        envelope, command, user
    ))
}

fn disconnect_frame(reason: &str) -> Frame {
    Frame::Text(format!(
        "{{\"type\":\"disconnect\",\"reason\":\"{}\"}}",
        reason
    ))
}

#[test]
fn ping_frame_answers_exactly_one_pong() {
    let mut stats = Stats::new();
    let a = session_step(Frame::Ping, &mut stats, &catalog(), &phrases(), 0).unwrap();
    assert!(matches!(a, StepAction::SendPong));
}

#[test]
fn pong_and_other_frames_are_ignored() {
    let mut stats = Stats::new();
    let a = session_step(Frame::Pong, &mut stats, &catalog(), &phrases(), 0).unwrap();
    assert!(matches!(a, StepAction::Ignore));
    let a = session_step(Frame::Other, &mut stats, &catalog(), &phrases(), 0).unwrap();
    assert!(matches!(a, StepAction::Ignore));
}

#[test]
fn disconnect_link_disabled_terminates_without_reconnect() {
    let mut stats = Stats::new();
    let a = session_step(
        disconnect_frame("link_disabled"),
        &mut stats,
        &catalog(),
        &phrases(),
        0,
    )
    .unwrap();
    assert!(matches!(a, StepAction::Terminate));
}

#[test]
fn disconnect_other_reason_reconnects_once() {
    let mut stats = Stats::new();
    let a = session_step(
        disconnect_frame("refresh_requested"),
        &mut stats,
        &catalog(),
        &phrases(),
        0,
    )
    .unwrap();
    assert!(matches!(a, StepAction::Reconnect));
}

#[test]
fn disconnect_decision_is_by_reason() {
    let terminate = SlackDisconnectIncomingMessage { reason: "link_disabled".to_string() };
    assert_eq!(
        handle_disconnect_message(&terminate),
        DisconnectDecision::Terminate
    );
    let reconnect = SlackDisconnectIncomingMessage { reason: "too_many_websockets".to_string() };
    assert_eq!(
        handle_disconnect_message(&reconnect),
        DisconnectDecision::Reconnect
    );
}

#[test]
fn hello_and_unrecognized_messages_are_ignored() {
    let mut stats = Stats::new();
    let a = session_step(
        Frame::Text("{\"type\":\"hello\",\"num_connections\":1}".to_string()),
        &mut stats,
        &catalog(),
        &phrases(),
        0,
    )
    .unwrap();
    assert!(matches!(a, StepAction::Ignore));
    let a = session_step(
        Frame::Text("{\"type\":\"interactive\",\"payload\":{}}".to_string()),
        &mut stats,
        &catalog(),
        &phrases(),
        0,
    )
    .unwrap();
    assert!(matches!(a, StepAction::Ignore));
}

#[test]
fn decode_failure_is_dropped_and_next_frame_still_processed() {
    let mut stats = Stats::new();
    let a = session_step(
        Frame::Text("garbled {{{".to_string()),
        &mut stats,
        &catalog(),
        &phrases(),
        1000,
    )
    .unwrap();
    assert!(matches!(a, StepAction::Ignore));
    let a = session_step(
        slash_frame("E2", "/spin", "U2"),
        &mut stats,
        &catalog(),
        &phrases(),
        1000,
    )
    .unwrap();
    assert!(matches!(a, StepAction::Respond(_)));
}

#[test]
fn new_user_spin_yields_one_response_with_free_respin_tier() {
    let mut stats = Stats::new();
    let now = 5_000_000;
    let a = session_step(
        slash_frame("E1", "/spin", "U1"),
        &mut stats,
        &catalog(),
        &phrases(),
        now,
    )
    .unwrap();
    let om = match a {
        StepAction::Respond(om) => om,
        _ => panic!("expected a response"),
    };
    let SlackOutgoingMessage::SlashCommand(out) = om;
    assert_eq!(out.envelope_id, "E1");
    let payload = out.payload.unwrap();
    assert_eq!(payload.response_type, "in_channel");
    assert_eq!(payload.blocks.len(), 3);
    for b in &payload.blocks {
        assert_eq!(b.kind, "section");
        assert_eq!(b.text.kind, "mrkdwn");
    }
    assert!(payload.blocks[0].text.text.starts_with("<@U1> Gratulerer! *"));
    assert_eq!(
        payload.blocks[2].text.text,
        "Du har *\u{e9}n gratis* respin igjen."
    );
    assert_eq!(stats.spin_counts_at("U1", now), 1);
}

#[test]
fn unknown_command_keyword_is_ignored_and_not_counted() {
    let mut stats = Stats::new();
    let a = session_step(
        slash_frame("E3", "/dance", "U3"),
        &mut stats,
        &catalog(),
        &phrases(),
        0,
    )
    .unwrap();
    assert!(matches!(a, StepAction::Ignore));
    assert_eq!(stats.spin_counts_at("U3", 0), 0);
}

#[test]
fn empty_selection_is_fatal_for_handled_command() {
    let mut stats = Stats::new();
    let empty: Vec<PizzaEntry> = Vec::new();
    let r = session_step(
        slash_frame("E4", "/spin", "U4"),
        &mut stats,
        &empty,
        &phrases(),
        0,
    );
    assert!(r.is_err());
}

#[test]
fn three_spins_within_window_count_three() {
    let mut stats = Stats::new();
    let t1 = 1_000;
    stats.add_spin_at("U5", t1);
    stats.add_spin_at("U5", t1 + 10);
    stats.add_spin_at("U5", t1 + 20);
    assert_eq!(stats.spin_counts_at("U5", t1 + 20), 3);
}

#[test]
fn count_is_zero_once_window_elapses() {
    let mut stats = Stats::new();
    let t1 = 1_000;
    stats.add_spin_at("U6", t1);
    assert_eq!(stats.spin_counts_at("U6", t1 + SPIN_WINDOW_MS), 1);
    assert_eq!(stats.spin_counts_at("U6", t1 + SPIN_WINDOW_MS + 1), 0);
}

#[test]
fn expired_record_restarts_at_one() {
    let mut stats = Stats::new();
    let t1 = 1_000;
    stats.add_spin_at("U7", t1);
    stats.add_spin_at("U7", t1 + 10);
    let t2 = t1 + 10 + SPIN_WINDOW_MS + 1;
    stats.add_spin_at("U7", t2);
    assert_eq!(stats.spin_counts_at("U7", t2), 1);
}

#[test]
fn spin_counts_on_live_clock_sees_fresh_spin() {
    let mut stats = Stats::new();
    assert_eq!(stats.spin_counts("U8"), 0);
    assert!(stats.entry("U8").is_none());
    stats.add_spin("U8");
    assert_eq!(stats.spin_counts("U8"), 1);
    let e = stats.entry("U8").unwrap();
    assert_eq!(e.count, 1);
}

#[test]
fn tier_messages_escalate_with_count() {
    assert_eq!(tier_message(0), "Du har *\u{e9}n gratis* respin igjen.");
    assert_eq!(tier_message(1), "Du har *ingen gratis* respins igjen.");
    assert_eq!(
        tier_message(2),
        "Du har spunnet 3 ganger. Straffer: \u{1f37a}"
    );
    assert_eq!(
        tier_message(4),
        "Du har spunnet 5 ganger. Straffer: \u{1f37a}\u{1f37a}\u{1f37a}"
    );
}

#[test]
fn mention_wraps_user_id() {
    assert_eq!(mention_user("U123"), "<@U123>");
}
