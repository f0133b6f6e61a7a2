//! Per-user usage tracking with a rolling expiry window, and the session
//! decisions of the socket-mode loop.
//!
//! Time enters the logic only as plain milliseconds-since-epoch values, so
//! every decision over them is verified; reading the clock itself is a
//! trusted call.

use vstd::prelude::*;
use vstd::hash_map::StringHashMap;
use crate::roulette::{
    EmptySelection, FortunePhraseEntry, PizzaEntry, SpinMode, eligible, get_random_fortune_phrase,
    get_random_pizza, some_eligible, spin_mode_of,
};
use crate::slack_message::{
    Incoming, SlackCommandBlock, SlackCommandBlockText, SlackDisconnectIncomingMessage,
    SlackIncomingMessage, SlackOutgoingMessage, SlashCommandIncomingMessage,
    SlashCommandOutgoingMessage, Outgoing, classify, classify_fails, json_nested_str_field_of,
    json_str_field, json_str_field_of, tag_of,
};
use crate::text::{dec_str, repeat_seq, repeat_str, str_eq, u64_to_dec};

verus! {

/// The rolling expiry window: a record older than this is treated as
/// absent. Two days, in milliseconds.
pub const SPIN_WINDOW_MS: u64 = 172800000;

/// One user's usage record: how many spins, and when the last one was.
#[derive(Clone, Copy, Debug, PartialEq, Eq, Structural)]
pub struct Entry {
    pub count: u32,
    pub last_ms: u64,
}

/// A record is live at `now_ms` while the window has not elapsed since its
/// last activity. A last-activity instant in the future counts as live,
/// as a signed elapsed-time comparison would.
pub open spec fn unexpired(e: Entry, now_ms: u64) -> bool {
    now_ms - e.last_ms <= SPIN_WINDOW_MS
}

/// The record a lookup at `now_ms` sees: the stored one while live, none
/// once expired or absent.
pub open spec fn lookup(m: Map<Seq<char>, Entry>, user: Seq<char>, now_ms: u64) -> Option<Entry> {
    if m.contains_key(user) && unexpired(m[user], now_ms) {
        Some(m[user])
    } else {
        None
    }
}

/// The spin count a query at `now_ms` sees: zero when absent or expired.
pub open spec fn count_at(m: Map<Seq<char>, Entry>, user: Seq<char>, now_ms: u64) -> u32 {
    match lookup(m, user, now_ms) {
        Some(e) => e.count,
        None => 0,
    }
}

/// The count one more spin at `now_ms` stores: an increment of a live
/// record, saturating at the counter's capacity, and a fresh record of one
/// otherwise.
pub open spec fn next_count(m: Map<Seq<char>, Entry>, user: Seq<char>, now_ms: u64) -> u32 {
    match lookup(m, user, now_ms) {
        Some(e) => if e.count == u32::MAX {
            u32::MAX
        } else {
            (e.count + 1) as u32
        },
        None => 1,
    }
}

/// The mapping after one spin at `now_ms` is recorded: the user's record is
/// replaced wholesale with the next count and a refreshed timestamp.
pub open spec fn record_spin_map(
    m: Map<Seq<char>, Entry>,
    user: Seq<char>,
    now_ms: u64,
) -> Map<Seq<char>, Entry> {
    m.insert(user, Entry { count: next_count(m, user, now_ms), last_ms: now_ms })
}

/// Per-user spin records, keyed by user identifier.
pub struct Stats {
    m: StringHashMap<Entry>,
}

impl View for Stats {
    type V = Map<Seq<char>, Entry>;

    closed spec fn view(&self) -> Map<Seq<char>, Entry> {
        self.m@
    }
}

/// Relies on `chrono::Utc::now` and
/// `chrono::DateTime::timestamp_millis`: the current wall-clock time as
/// milliseconds since the Unix epoch. Nothing is promised of the value.
#[verifier::external_body]
fn now_millis() -> u64 {
    chrono::Utc::now().timestamp_millis() as u64
}

impl Stats {
    /// An empty tracker: no user has any record.
    pub fn new() -> (r: Self)
        ensures
            r@ == Map::<Seq<char>, Entry>::empty(),
    {
        Stats { m: StringHashMap::new() }
    }

    /// The user's record as seen at `now_ms`: none once expired or absent.
    pub fn entry_at(&self, user: &str, now_ms: u64) -> (r: Option<Entry>)
        ensures
            r == lookup(self@, user@, now_ms),
    {
        match self.m.get(user) {
            Some(e) => {
                if now_ms <= e.last_ms || now_ms - e.last_ms <= SPIN_WINDOW_MS {
                    Some(*e)
                } else {
                    None
                }
            },
            None => None,
        }
    }

    /// The user's record as seen now, on the trusted clock.
    pub fn entry(&self, user: &str) -> (r: Option<Entry>)
        ensures
            exists|now_ms: u64| r == lookup(self@, user@, now_ms),
    {
        let now_ms = now_millis();
        let r = self.entry_at(user, now_ms);
        proof {
            assert(r == lookup(self@, user@, now_ms));
        }
        r
    }

    /// The user's spin count as seen at `now_ms`: zero once expired or
    /// absent, else the stored count.
    pub fn spin_counts_at(&self, user: &str, now_ms: u64) -> (r: u32)
        ensures
            r == count_at(self@, user@, now_ms),
    {
        match self.entry_at(user, now_ms) {
            Some(e) => e.count,
            None => 0,
        }
    }

    /// The user's spin count as seen now, on the trusted clock.
    pub fn spin_counts(&self, user: &str) -> (r: u32)
        ensures
            exists|now_ms: u64| r == count_at(self@, user@, now_ms),
    {
        let now_ms = now_millis();
        let r = self.spin_counts_at(user, now_ms);
        proof {
            assert(r == count_at(self@, user@, now_ms));
        }
        r
    }

    /// Record one spin at `now_ms`: increment-or-initialize the user's
    /// record and refresh its timestamp.
    pub fn add_spin_at(&mut self, user: &str, now_ms: u64)
        ensures
            final(self)@ == record_spin_map(old(self)@, user@, now_ms),
    {
        let count = match self.entry_at(user, now_ms) {
            Some(e) => {
                if e.count == u32::MAX {
                    u32::MAX
                } else {
                    e.count + 1
                }
            },
            None => 1,
        };
        self.m.insert(String::from_str(user), Entry { count, last_ms: now_ms });
    }

    /// Record one spin as of now, on the trusted clock.
    pub fn add_spin(&mut self, user: &str)
        ensures
            exists|now_ms: u64| final(self)@ == record_spin_map(old(self)@, user@, now_ms),
    {
        let now_ms = now_millis();
        self.add_spin_at(user, now_ms);
        proof {
            assert(final(self)@ == record_spin_map(old(self)@, user@, now_ms));
        }
    }
}

/// Once the window has elapsed since a user's last spin, the count that a
/// query sees is zero, as it is for a user with no record at all.
pub proof fn lemma_count_zero_after_window(m: Map<Seq<char>, Entry>, user: Seq<char>, now_ms: u64)
    requires
        m.contains_key(user) ==> now_ms - m[user].last_ms > SPIN_WINDOW_MS,
    ensures
        count_at(m, user, now_ms) == 0,
{
}

/// Three spins recorded within one window, starting from a user whose
/// record is absent or expired, are seen as a count of three by any query
/// made within the window of the last spin and no earlier than it.
pub proof fn lemma_three_spins_count_three(
    m: Map<Seq<char>, Entry>,
    user: Seq<char>,
    t1: u64,
    t2: u64,
    t3: u64,
    tq: u64,
)
    requires
        lookup(m, user, t1) is None,
        t1 <= t2 <= t3 <= tq,
        t3 - t1 <= SPIN_WINDOW_MS,
        tq - t3 <= SPIN_WINDOW_MS,
    ensures
        count_at(
            record_spin_map(record_spin_map(record_spin_map(m, user, t1), user, t2), user, t3),
            user,
            tq,
        ) == 3,
{
    let m1 = record_spin_map(m, user, t1);
    let m2 = record_spin_map(m1, user, t2);
    let m3 = record_spin_map(m2, user, t3);
    assert(m1[user] == Entry { count: 1u32, last_ms: t1 });
    assert(m2[user] == Entry { count: 2u32, last_ms: t2 });
    assert(m3[user] == Entry { count: 3u32, last_ms: t3 });
}

/// A user mention as the channel renders it.
pub open spec fn mention_of(user: Seq<char>) -> Seq<char> {
    "<@"@ + user + ">"@
}

/// Build the mention text for a user identifier.
pub fn mention_user(user_id: &str) -> (r: String)
    ensures
        r@ == mention_of(user_id@),
{
    let r = String::from_str("<@").concat(user_id).concat(">");
    proof {
        assert(r@ =~= mention_of(user_id@));
    }
    r
}

/// The usage-feedback text for a spin count read before the spin is
/// recorded: one free respin at zero, none at one, and from two on an
/// escalating penalty line whose length grows with the count.
pub open spec fn tier_message_of(spins: u32) -> Seq<char> {
    if spins == 0 {
        "Du har *\u{e9}n gratis* respin igjen."@
    } else if spins == 1 {
        "Du har *ingen gratis* respins igjen."@
    } else {
        "Du har spunnet "@ + dec_str((spins + 1) as nat) + " ganger. Straffer: "@ + repeat_seq(
            "\u{1f37a}"@,
            (spins - 1) as nat,
        )
    }
}

/// Build the usage-feedback text for a spin count.
pub fn tier_message(spins: u32) -> (r: String)
    ensures
        r@ == tier_message_of(spins),
{
    if spins == 0 {
        String::from_str("Du har *\u{e9}n gratis* respin igjen.")
    } else if spins == 1 {
        String::from_str("Du har *ingen gratis* respins igjen.")
    } else {
        let num = u64_to_dec(spins as u64 + 1);
        let beers = repeat_str("\u{1f37a}", spins - 1);
        let r = String::from_str("Du har spunnet ").concat(num.as_str()).concat(
            " ganger. Straffer: ",
        ).concat(beers.as_str());
        proof {
            assert(r@ =~= tier_message_of(spins));
        }
        r
    }
}

/// The headline of a command response: mention, phrase and pizza name.
pub open spec fn headline_of(user: Seq<char>, phrase: Seq<char>, name: Seq<char>) -> Seq<char> {
    mention_of(user) + " "@ + phrase + " *"@ + name + "* \u{1f389}"@
}

/// The ingredients line of a command response.
pub open spec fn pizza_text_of(description: Seq<char>, extra: Seq<char>) -> Seq<char> {
    "Pizzaen best\u{e5}r av "@ + description + " ("@ + extra + ")"@
}

/// The outbound message a handled command must produce: the inbound
/// envelope identifier, a channel-visible payload of three section blocks
/// holding the headline for some eligible pizza and some phrase of the
/// catalog, that pizza's ingredients line, and the usage-feedback text for
/// the count read before recording.
pub open spec fn response_matches(
    om: SlackOutgoingMessage,
    envelope_id: Seq<char>,
    user: Seq<char>,
    spins: u32,
    pizzas: Seq<PizzaEntry>,
    phrases: Seq<FortunePhraseEntry>,
    mode: SpinMode,
) -> bool {
    om matches SlackOutgoingMessage::SlashCommand(out) && {
        &&& out.envelope_id@ == envelope_id
        &&& out.payload matches Some(p) && {
            &&& p.response_type@ == "in_channel"@
            &&& p.blocks@.len() == 3
            &&& p.blocks@[0].kind@ == "section"@ && p.blocks@[0].text.kind@ == "mrkdwn"@
            &&& p.blocks@[1].kind@ == "section"@ && p.blocks@[1].text.kind@ == "mrkdwn"@
            &&& p.blocks@[2].kind@ == "section"@ && p.blocks@[2].text.kind@ == "mrkdwn"@
            &&& exists|pi: int, fi: int|
                #![auto]
                {
                    &&& 0 <= pi < pizzas.len() && eligible(pizzas[pi], mode)
                    &&& 0 <= fi < phrases.len()
                    &&& p.blocks@[0].text.text@ == headline_of(
                        user,
                        phrases[fi].phrase@,
                        pizzas[pi].name@,
                    )
                    &&& p.blocks@[1].text.text@ == pizza_text_of(
                        pizzas[pi].description@,
                        pizzas[pi].extra@,
                    )
                }
            &&& p.blocks@[2].text.text@ == tier_message_of(spins)
        }
    }
}

/// Handle one slash-command message: an unmapped keyword is a logged
/// no-op with no outbound message; a mapped one picks a pizza under the
/// mode and a phrase, reads the user's count, records the spin, and builds
/// the channel response. Fails exactly when the mapped mode has no
/// eligible pizza or the phrase catalog is empty.
pub fn handle_slash_command(
    message: Incoming<SlashCommandIncomingMessage>,
    stats: &mut Stats,
    pizzas: &Vec<PizzaEntry>,
    phrases: &Vec<FortunePhraseEntry>,
    now_ms: u64,
) -> (r: Result<Option<SlackOutgoingMessage>, EmptySelection>)
    ensures
        spin_mode_of(message.payload.command@) is None ==> (r matches Ok(opt) && opt is None
            && final(stats)@ == old(stats)@),
        spin_mode_of(message.payload.command@) matches Some(mode) ==> {
            &&& (r is Ok <==> (some_eligible(pizzas@, mode) && phrases@.len() > 0))
            &&& (r matches Ok(opt) ==> (opt matches Some(om) && response_matches(
                om,
                message.envelope_id@,
                message.payload.user_id@,
                count_at(old(stats)@, message.payload.user_id@, now_ms),
                pizzas@,
                phrases@,
                mode,
            ) && final(stats)@ == record_spin_map(old(stats)@, message.payload.user_id@, now_ms)))
            &&& (r is Err ==> final(stats)@ == old(stats)@)
        },
{
    let mode = match SpinMode::from_command(message.payload.command.as_str()) {
        Some(m) => m,
        None => {
            return Ok(None);
        },
    };
    let pizza = match get_random_pizza(pizzas, mode) {
        Ok(p) => p,
        Err(e) => {
            return Err(e);
        },
    };
    let mention = mention_user(message.payload.user_id.as_str());
    let phrase = match get_random_fortune_phrase(phrases) {
        Ok(p) => p,
        Err(e) => {
            return Err(e);
        },
    };

    let spins = stats.spin_counts_at(message.payload.user_id.as_str(), now_ms);
    let spin_msg = tier_message(spins);
    stats.add_spin_at(message.payload.user_id.as_str(), now_ms);

    let headline = mention.concat(" ").concat(phrase.phrase.as_str()).concat(" *").concat(
        pizza.name.as_str(),
    ).concat("* \u{1f389}");
    let pizza_text = String::from_str("Pizzaen best\u{e5}r av ").concat(
        pizza.description.as_str(),
    ).concat(" (").concat(pizza.extra.as_str()).concat(")");

    let mut blocks: Vec<SlackCommandBlock> = Vec::new();
    blocks.push(
        SlackCommandBlock {
            kind: String::from_str("section"),
            text: SlackCommandBlockText { kind: String::from_str("mrkdwn"), text: headline },
        },
    );
    blocks.push(
        SlackCommandBlock {
            kind: String::from_str("section"),
            text: SlackCommandBlockText { kind: String::from_str("mrkdwn"), text: pizza_text },
        },
    );
    blocks.push(
        SlackCommandBlock {
            kind: String::from_str("section"),
            text: SlackCommandBlockText { kind: String::from_str("mrkdwn"), text: spin_msg },
        },
    );

    let outgoing_message = SlashCommandOutgoingMessage {
        response_type: String::from_str("in_channel"),
        blocks,
    };
    let out = SlackOutgoingMessage::SlashCommand(
        Outgoing::new(message.envelope_id, Some(outgoing_message)),
    );
    proof {
        let pi = choose|i: int| 0 <= i < pizzas@.len() && pizzas@[i] == *pizza;
        let fi = choose|i: int| 0 <= i < phrases@.len() && phrases@[i] == *phrase;
        assert(headline@ =~= headline_of(
            message.payload.user_id@,
            phrases@[fi].phrase@,
            pizzas@[pi].name@,
        ));
        assert(pizza_text@ =~= pizza_text_of(pizzas@[pi].description@, pizzas@[pi].extra@));
    }
    Ok(Some(out))
}

/// What follows a disconnect message while connected.
#[derive(Clone, Copy, Debug, PartialEq, Eq, Structural)]
pub enum DisconnectDecision {
    Reconnect,
    Terminate,
}

/// Exactly the sentinel reason is the deliberate shutdown; every other
/// reason asks for one reconnect.
pub open spec fn disconnect_decision_of(reason: Seq<char>) -> DisconnectDecision {
    if reason == "link_disabled"@ {
        DisconnectDecision::Terminate
    } else {
        DisconnectDecision::Reconnect
    }
}

/// Decide what follows a disconnect message.
pub fn handle_disconnect_message(message: &SlackDisconnectIncomingMessage) -> (r:
    DisconnectDecision)
    ensures
        r == disconnect_decision_of(message.reason@),
{
    if str_eq(message.reason.as_str(), "link_disabled") {
        DisconnectDecision::Terminate
    } else {
        DisconnectDecision::Reconnect
    }
}

/// The states of the session loop.
#[derive(Clone, Copy, Debug, PartialEq, Eq, Structural)]
pub enum SessionState {
    Resolving,
    Connected,
    Reconnecting,
    Terminated,
}

/// One frame read from the connection.
pub enum Frame {
    Text(String),
    Ping,
    Pong,
    Other,
}

/// What the loop must do with the connection after one frame.
pub enum StepAction {
    /// Keep reading; nothing is written.
    Ignore,
    /// Answer the keepalive before the next read.
    SendPong,
    /// Write the response back over the channel.
    Respond(SlackOutgoingMessage),
    /// Close the connection and establish a new one.
    Reconnect,
    /// Close the connection and exit the loop.
    Terminate,
}

/// The state the loop is in after performing an action while connected.
pub open spec fn state_after(a: StepAction) -> SessionState {
    match a {
        StepAction::Terminate => SessionState::Terminated,
        StepAction::Reconnect => SessionState::Reconnecting,
        _ => SessionState::Connected,
    }
}

/// What one step must decide for a well-formed slash-command frame.
pub open spec fn slash_step_ok(
    t: Seq<char>,
    r: Result<StepAction, EmptySelection>,
    m0: Map<Seq<char>, Entry>,
    m1: Map<Seq<char>, Entry>,
    pizzas: Seq<PizzaEntry>,
    phrases: Seq<FortunePhraseEntry>,
    now_ms: u64,
) -> bool {
    let cmd = json_nested_str_field_of(t, "payload"@, "command"@).unwrap();
    let user = json_nested_str_field_of(t, "payload"@, "user_id"@).unwrap();
    let env = json_str_field_of(t, "envelope_id"@).unwrap();
    match spin_mode_of(cmd) {
        None => (r matches Ok(a) && a is Ignore && m1 == m0),
        Some(mode) => {
            &&& (r is Ok <==> (some_eligible(pizzas, mode) && phrases.len() > 0))
            &&& (r matches Ok(a) ==> (a matches StepAction::Respond(om) && response_matches(
                om,
                env,
                user,
                count_at(m0, user, now_ms),
                pizzas,
                phrases,
                mode,
            ) && m1 == record_spin_map(m0, user, now_ms)))
            &&& (r is Err ==> m1 == m0)
        },
    }
}

/// Drive one step of the connected session loop: read one frame's worth
/// of decision. A keepalive is answered with exactly one pong; a decode
/// failure or an unrecognized or hello message is dropped and the loop
/// stays connected; a disconnect closes, then terminates exactly on the
/// sentinel reason and otherwise asks for one reconnect; a well-formed
/// command is handled. Only a handled command touches the tracker.
pub fn session_step(
    frame: Frame,
    stats: &mut Stats,
    pizzas: &Vec<PizzaEntry>,
    phrases: &Vec<FortunePhraseEntry>,
    now_ms: u64,
) -> (r: Result<StepAction, EmptySelection>)
    ensures
        r matches Ok(a) ==> (a is SendPong <==> frame is Ping),
        r matches Ok(a) ==> (state_after(a) == SessionState::Terminated <==> (frame matches
            Frame::Text(t) && !classify_fails(t@) && tag_of(t@) == Some("disconnect"@)
            && json_str_field_of(t@, "reason"@) == Some("link_disabled"@))),
        r matches Ok(a) ==> (state_after(a) == SessionState::Reconnecting <==> (frame matches
            Frame::Text(t) && !classify_fails(t@) && tag_of(t@) == Some("disconnect"@)
            && json_str_field_of(t@, "reason"@) != Some("link_disabled"@))),
        frame is Ping ==> (r matches Ok(a) && a is SendPong && final(stats)@ == old(stats)@),
        frame is Pong || frame is Other ==> (r matches Ok(a) && a is Ignore && final(stats)@
            == old(stats)@),
        frame matches Frame::Text(t) ==> {
            &&& (classify_fails(t@) ==> (r matches Ok(a) && a is Ignore && final(stats)@ == old(
                stats,
            )@))
            &&& (!classify_fails(t@) && tag_of(t@) == Some("hello"@) ==> (r matches Ok(a)
                && a is Ignore && final(stats)@ == old(stats)@))
            &&& (!classify_fails(t@) && (tag_of(t@) matches Some(tg) && tg != "hello"@ && tg
                != "disconnect"@ && tg != "slash_commands"@) ==> (r matches Ok(a) && a is Ignore
                && final(stats)@ == old(stats)@))
            &&& (!classify_fails(t@) && tag_of(t@) == Some("disconnect"@) ==> (r matches Ok(a) && (a
                == StepAction::Terminate <==> json_str_field_of(t@, "reason"@) == Some(
                "link_disabled"@,
            )) && (a is Terminate || a is Reconnect) && final(stats)@ == old(stats)@))
            &&& (!classify_fails(t@) && tag_of(t@) == Some("slash_commands"@) ==> slash_step_ok(
                t@,
                r,
                old(stats)@,
                final(stats)@,
                pizzas@,
                phrases@,
                now_ms,
            ))
        },
{
    proof {
        reveal_strlit("hello");
        reveal_strlit("disconnect");
        reveal_strlit("slash_commands");
        assert("hello"@.len() == 5);
        assert("disconnect"@.len() == 10);
        assert("slash_commands"@.len() == 14);
        assert("hello"@ != "disconnect"@);
        assert("hello"@ != "slash_commands"@);
        assert("disconnect"@ != "slash_commands"@);
    }
    let text = match frame {
        Frame::Text(t) => t,
        Frame::Ping => {
            return Ok(StepAction::SendPong);
        },
        _ => {
            return Ok(StepAction::Ignore);
        },
    };
    let msg = match classify(text.as_str()) {
        Ok(m) => m,
        Err(_) => {
            return Ok(StepAction::Ignore);
        },
    };
    match msg {
        SlackIncomingMessage::Hello(_) => Ok(StepAction::Ignore),
        SlackIncomingMessage::Unrecognized => Ok(StepAction::Ignore),
        SlackIncomingMessage::Disconnect(d) => {
            match handle_disconnect_message(&d) {
                DisconnectDecision::Terminate => Ok(StepAction::Terminate),
                DisconnectDecision::Reconnect => Ok(StepAction::Reconnect),
            }
        },
        SlackIncomingMessage::SlashCommands(inc) => {
            match handle_slash_command(inc, stats, pizzas, phrases, now_ms) {
                Ok(Some(om)) => Ok(StepAction::Respond(om)),
                Ok(None) => Ok(StepAction::Ignore),
                Err(e) => Err(e),
            }
        },
    }
}

/// The resolver's response held no usable connection URL.
#[derive(Clone, Copy, Debug, PartialEq, Eq, Structural)]
pub struct EndpointUnavailable;

/// Extract the connection URL from the body of the endpoint-open call.
/// Fails exactly when the body is not structured data with a string `url`
/// field.
pub fn resolve_endpoint_url(response_text: &str) -> (r: Result<String, EndpointUnavailable>)
    ensures
        r is Ok <==> json_str_field_of(response_text@, "url"@) is Some,
        r matches Ok(u) ==> json_str_field_of(response_text@, "url"@) == Some(u@),
{
    match json_str_field(response_text, "url") {
        Some(u) => Ok(u),
        None => Err(EndpointUnavailable),
    }
}

} // verus!
