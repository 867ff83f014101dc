//! A member leaves a guild: say goodbye in the guild's welcome channel.

use vstd::prelude::*;
use crate::handlers::member_join::{lemma_no_brace_concat, lemma_server_placeholder_is_not_user};
use crate::text::{
    decimal, lemma_brace_pattern_absent, lemma_decimal_reads_back, lemma_digits_no_brace,
    lemma_replace_absent, lemma_replace_once, no_brace, occurs_in, push_decimal, replace, replaced,
};

verus! {

/// A guild's leave settings as stored: the leave message, if any, and the
/// channel it goes to.
pub struct LeaveRow {
    pub leave_message: Option<String>,
    pub channel_id: i64,
}

/// Where the handling of a departure stands.
pub enum LeaveState {
    Start,
    AwaitingLeave { name: String, discriminator: u16 },
    AwaitingGuildName { name: String, discriminator: u16, channel_id: u64, template: String },
    AwaitingFarewellSent,
    Done,
}

/// What happened: the departure itself, or the outcome of the last action.
pub enum LeaveEvent {
    Left { name: String, discriminator: u16, is_bot: bool },
    LeaveFetched(Option<LeaveRow>),
    LeaveFetchFailed,
    GuildName(String),
    FarewellSent,
}

/// What to do next.
pub enum LeaveAction {
    Finish,
    QueryLeave,
    FetchGuildName,
    Say { channel_id: u64, text: String },
}

/// The contents of a [`LeaveRow`].
pub struct LeaveRowV {
    pub leave_message: Option<Seq<char>>,
    pub channel_id: i64,
}

/// The contents of a [`LeaveState`].
pub enum LeaveStateV {
    Start,
    AwaitingLeave { name: Seq<char>, discriminator: u16 },
    AwaitingGuildName { name: Seq<char>, discriminator: u16, channel_id: u64, template: Seq<char> },
    AwaitingFarewellSent,
    Done,
}

/// The contents of a [`LeaveEvent`].
pub enum LeaveEventV {
    Left { name: Seq<char>, discriminator: u16, is_bot: bool },
    LeaveFetched(Option<LeaveRowV>),
    LeaveFetchFailed,
    GuildName(Seq<char>),
    FarewellSent,
}

/// The contents of a [`LeaveAction`].
pub enum LeaveActionV {
    Finish,
    QueryLeave,
    FetchGuildName,
    Say { channel_id: u64, text: Seq<char> },
}

impl View for LeaveRow {
    type V = LeaveRowV;

    open spec fn view(&self) -> LeaveRowV {
        LeaveRowV { leave_message: self.leave_message.deep_view(), channel_id: self.channel_id }
    }
}

impl View for LeaveState {
    type V = LeaveStateV;

    open spec fn view(&self) -> LeaveStateV {
        match self {
            LeaveState::Start => LeaveStateV::Start,
            LeaveState::AwaitingLeave { name, discriminator } => LeaveStateV::AwaitingLeave {
                name: name@,
                discriminator: *discriminator,
            },
            LeaveState::AwaitingGuildName { name, discriminator, channel_id, template } => {
                LeaveStateV::AwaitingGuildName {
                    name: name@,
                    discriminator: *discriminator,
                    channel_id: *channel_id,
                    template: template@,
                }
            },
            LeaveState::AwaitingFarewellSent => LeaveStateV::AwaitingFarewellSent,
            LeaveState::Done => LeaveStateV::Done,
        }
    }
}

impl View for LeaveEvent {
    type V = LeaveEventV;

    open spec fn view(&self) -> LeaveEventV {
        match self {
            LeaveEvent::Left { name, discriminator, is_bot } => LeaveEventV::Left {
                name: name@,
                discriminator: *discriminator,
                is_bot: *is_bot,
            },
            LeaveEvent::LeaveFetched(row) => LeaveEventV::LeaveFetched(
                match row {
                    Some(r) => Some(r@),
                    None => None,
                },
            ),
            LeaveEvent::LeaveFetchFailed => LeaveEventV::LeaveFetchFailed,
            LeaveEvent::GuildName(name) => LeaveEventV::GuildName(name@),
            LeaveEvent::FarewellSent => LeaveEventV::FarewellSent,
        }
    }
}

impl View for LeaveAction {
    type V = LeaveActionV;

    open spec fn view(&self) -> LeaveActionV {
        match self {
            LeaveAction::Finish => LeaveActionV::Finish,
            LeaveAction::QueryLeave => LeaveActionV::QueryLeave,
            LeaveAction::FetchGuildName => LeaveActionV::FetchGuildName,
            LeaveAction::Say { channel_id, text } => LeaveActionV::Say {
                channel_id: *channel_id,
                text: text@,
            },
        }
    }
}

/// How a farewell names the member who left: `**name#discriminator**`.
pub open spec fn departed_user_text(name: Seq<char>, discriminator: u16) -> Seq<char> {
    "**"@ + name + "#"@ + decimal(discriminator as nat) + "**"@
}

/// The farewell: the leave template with `{user}` replaced by the member's
/// name and discriminator, then `{server}` by the guild's name.
pub open spec fn farewell(
    template: Seq<char>,
    name: Seq<char>,
    discriminator: u16,
    guild_name: Seq<char>,
) -> Seq<char> {
    replaced(
        replaced(template, "{user}"@, departed_user_text(name, discriminator)),
        "{server}"@,
        guild_name,
    )
}

/// One step of the handling of a departure. An event that does not answer the
/// pending action ends the handling.
pub open spec fn leave_next(s: LeaveStateV, e: LeaveEventV) -> (LeaveStateV, LeaveActionV) {
    match s {
        LeaveStateV::Start => match e {
            LeaveEventV::Left { name, discriminator, is_bot } => if is_bot {
                (LeaveStateV::Done, LeaveActionV::Finish)
            } else {
                (LeaveStateV::AwaitingLeave { name, discriminator }, LeaveActionV::QueryLeave)
            },
            _ => (LeaveStateV::Done, LeaveActionV::Finish),
        },
        LeaveStateV::AwaitingLeave { name, discriminator } => match e {
            LeaveEventV::LeaveFetched(row) => match row {
                Some(r) => match r.leave_message {
                    Some(template) => (
                        LeaveStateV::AwaitingGuildName {
                            name,
                            discriminator,
                            channel_id: r.channel_id as u64,
                            template,
                        },
                        LeaveActionV::FetchGuildName,
                    ),
                    None => (LeaveStateV::Done, LeaveActionV::Finish),
                },
                None => (LeaveStateV::Done, LeaveActionV::Finish),
            },
            _ => (LeaveStateV::Done, LeaveActionV::Finish),
        },
        LeaveStateV::AwaitingGuildName { name, discriminator, channel_id, template } => match e {
            LeaveEventV::GuildName(guild_name) => (
                LeaveStateV::AwaitingFarewellSent,
                LeaveActionV::Say {
                    channel_id,
                    text: farewell(template, name, discriminator, guild_name),
                },
            ),
            _ => (LeaveStateV::Done, LeaveActionV::Finish),
        },
        LeaveStateV::AwaitingFarewellSent => (LeaveStateV::Done, LeaveActionV::Finish),
        LeaveStateV::Done => (LeaveStateV::Done, LeaveActionV::Finish),
    }
}

/// The farewell for a member who left.
pub fn render_farewell(template: &str, name: &str, discriminator: u16, guild_name: &str) -> (text:
    String)
    ensures
        text@ == farewell(template@, name@, discriminator, guild_name@),
{
    proof {
        reveal_strlit("{user}");
        reveal_strlit("{server}");
        reveal_strlit("**");
        reveal_strlit("#");
    }
    let mut who = String::from_str("**");
    who.append(name);
    who.append("#");
    push_decimal(&mut who, discriminator as u128);
    who.append("**");
    let with_user = replace(template, "{user}", who.as_str());
    replace(with_user.as_str(), "{server}", guild_name)
}

impl LeaveState {
    /// One step of the handling of a departure: the next state and the action
    /// to perform.
    pub fn next(self, event: LeaveEvent) -> (r: (LeaveState, LeaveAction))
        ensures
            (r.0@, r.1@) == leave_next(self@, event@),
    {
        match self {
            LeaveState::Start => match event {
                LeaveEvent::Left { name, discriminator, is_bot } => if is_bot {
                    (LeaveState::Done, LeaveAction::Finish)
                } else {
                    (LeaveState::AwaitingLeave { name, discriminator }, LeaveAction::QueryLeave)
                },
                _ => (LeaveState::Done, LeaveAction::Finish),
            },
            LeaveState::AwaitingLeave { name, discriminator } => match event {
                LeaveEvent::LeaveFetched(row) => match row {
                    Some(r) => match r.leave_message {
                        Some(template) => (
                            LeaveState::AwaitingGuildName {
                                name,
                                discriminator,
                                channel_id: r.channel_id as u64,
                                template,
                            },
                            LeaveAction::FetchGuildName,
                        ),
                        None => (LeaveState::Done, LeaveAction::Finish),
                    },
                    None => (LeaveState::Done, LeaveAction::Finish),
                },
                _ => (LeaveState::Done, LeaveAction::Finish),
            },
            LeaveState::AwaitingGuildName { name, discriminator, channel_id, template } => match event {
                LeaveEvent::GuildName(guild_name) => {
                    let text = render_farewell(
                        template.as_str(),
                        name.as_str(),
                        discriminator,
                        guild_name.as_str(),
                    );
                    (LeaveState::AwaitingFarewellSent, LeaveAction::Say { channel_id, text })
                },
                _ => (LeaveState::Done, LeaveAction::Finish),
            },
            LeaveState::AwaitingFarewellSent => (LeaveState::Done, LeaveAction::Finish),
            LeaveState::Done => (LeaveState::Done, LeaveAction::Finish),
        }
    }
}

/// The state reached and the actions asked for when `events` arrive in order.
pub open spec fn leave_run(s: LeaveStateV, events: Seq<LeaveEventV>) -> (LeaveStateV, Seq<LeaveActionV>)
    decreases events.len(),
{
    if events.len() == 0 {
        (s, Seq::empty())
    } else {
        let (s1, a) = leave_next(s, events[0]);
        let (s2, rest) = leave_run(s1, events.skip(1));
        (s2, seq![a] + rest)
    }
}

/// A member who is a bot gets no farewell; nothing is queried.
pub proof fn lemma_bot_leave_ignored(name: Seq<char>, discriminator: u16)
    ensures
        leave_next(LeaveStateV::Start, LeaveEventV::Left { name, discriminator, is_bot: true }) == (
            LeaveStateV::Done,
            LeaveActionV::Finish,
        ),
{
}

/// Once the handling of a departure is done, no event starts anything again.
pub proof fn lemma_leave_done_is_final(e: LeaveEventV)
    ensures
        leave_next(LeaveStateV::Done, e) == (LeaveStateV::Done, LeaveActionV::Finish),
{
}

/// A guild whose leave settings cannot be read, or hold no leave message,
/// says nothing.
pub proof fn lemma_no_farewell_without_message(name: Seq<char>, discriminator: u16, e: LeaveEventV)
    requires
        e matches LeaveEventV::LeaveFetched(row) ==> (row matches Some(r) ==> r.leave_message is None),
    ensures
        leave_next(LeaveStateV::AwaitingLeave { name, discriminator }, e) == (
            LeaveStateV::Done,
            LeaveActionV::Finish,
        ),
{
}

/// A guild with a leave message posts it once in its channel, `{user}` and
/// `{server}` filled in, and the handling ends.
pub proof fn lemma_farewell_sent(
    name: Seq<char>,
    discriminator: u16,
    template: Seq<char>,
    channel_id: i64,
    guild_name: Seq<char>,
)
    ensures
        leave_run(
            LeaveStateV::AwaitingLeave { name, discriminator },
            seq![
                LeaveEventV::LeaveFetched(Some(LeaveRowV { leave_message: Some(template), channel_id })),
                LeaveEventV::GuildName(guild_name),
                LeaveEventV::FarewellSent,
            ],
        ) == (
            LeaveStateV::Done,
            seq![
                LeaveActionV::FetchGuildName,
                LeaveActionV::Say {
                    channel_id: channel_id as u64,
                    text: farewell(template, name, discriminator, guild_name),
                },
                LeaveActionV::Finish,
            ],
        ),
{
    reveal_with_fuel(leave_run, 4);
    let events = seq![
        LeaveEventV::LeaveFetched(Some(LeaveRowV { leave_message: Some(template), channel_id })),
        LeaveEventV::GuildName(guild_name),
        LeaveEventV::FarewellSent,
    ];
    assert(leave_run(LeaveStateV::AwaitingLeave { name, discriminator }, events).1 =~= seq![
        LeaveActionV::FetchGuildName,
        LeaveActionV::Say {
            channel_id: channel_id as u64,
            text: farewell(template, name, discriminator, guild_name),
        },
        LeaveActionV::Finish,
    ]);
}

/// A leave message without placeholders is posted exactly as written.
pub proof fn lemma_plain_farewell(
    template: Seq<char>,
    name: Seq<char>,
    discriminator: u16,
    guild_name: Seq<char>,
)
    requires
        !occurs_in("{user}"@, template),
        !occurs_in("{server}"@, template),
    ensures
        farewell(template, name, discriminator, guild_name) == template,
{
    reveal_strlit("{user}");
    reveal_strlit("{server}");
    lemma_replace_absent(template, "{user}"@, departed_user_text(name, discriminator));
    lemma_replace_absent(template, "{server}"@, guild_name);
}

/// A member who is not a bot starts the handling, whatever their name and
/// discriminator: the leave settings are read first.
pub proof fn lemma_member_leave_starts(name: Seq<char>, discriminator: u16)
    ensures
        leave_next(LeaveStateV::Start, LeaveEventV::Left { name, discriminator, is_bot: false }) == (
            LeaveStateV::AwaitingLeave { name, discriminator },
            LeaveActionV::QueryLeave,
        ),
{
}

/// When a member who is not a bot leaves a guild with a leave message, the
/// leave settings are read, the guild's name fetched, the farewell posted once
/// in the guild's channel, and the handling ends.
pub proof fn lemma_leave_protocol(
    name: Seq<char>,
    discriminator: u16,
    template: Seq<char>,
    channel_id: i64,
    guild_name: Seq<char>,
)
    ensures
        leave_run(
            LeaveStateV::Start,
            seq![
                LeaveEventV::Left { name, discriminator, is_bot: false },
                LeaveEventV::LeaveFetched(Some(LeaveRowV { leave_message: Some(template), channel_id })),
                LeaveEventV::GuildName(guild_name),
                LeaveEventV::FarewellSent,
            ],
        ) == (
            LeaveStateV::Done,
            seq![
                LeaveActionV::QueryLeave,
                LeaveActionV::FetchGuildName,
                LeaveActionV::Say {
                    channel_id: channel_id as u64,
                    text: farewell(template, name, discriminator, guild_name),
                },
                LeaveActionV::Finish,
            ],
        ),
{
    let events = seq![
        LeaveEventV::Left { name, discriminator, is_bot: false },
        LeaveEventV::LeaveFetched(Some(LeaveRowV { leave_message: Some(template), channel_id })),
        LeaveEventV::GuildName(guild_name),
        LeaveEventV::FarewellSent,
    ];
    assert(events.skip(1) =~= seq![
        LeaveEventV::LeaveFetched(Some(LeaveRowV { leave_message: Some(template), channel_id })),
        LeaveEventV::GuildName(guild_name),
        LeaveEventV::FarewellSent,
    ]);
    lemma_farewell_sent(name, discriminator, template, channel_id, guild_name);
    assert(leave_run(LeaveStateV::Start, events).1 =~= seq![
        LeaveActionV::QueryLeave,
        LeaveActionV::FetchGuildName,
        LeaveActionV::Say {
            channel_id: channel_id as u64,
            text: farewell(template, name, discriminator, guild_name),
        },
        LeaveActionV::Finish,
    ]);
}

/// A leave message without `{user}` is the message with `{server}` filled in
/// by the guild's name.
pub proof fn lemma_farewell_without_user(
    template: Seq<char>,
    name: Seq<char>,
    discriminator: u16,
    guild_name: Seq<char>,
)
    requires
        !occurs_in("{user}"@, template),
    ensures
        farewell(template, name, discriminator, guild_name) == replaced(template, "{server}"@, guild_name),
{
    reveal_strlit("{user}");
    lemma_replace_absent(template, "{user}"@, departed_user_text(name, discriminator));
}

/// A leave message `a{user}b`, with no other `{` and a name without `{`, names
/// the member as `**name#discriminator**`: `a**name#discriminator**b`.
pub proof fn lemma_farewell_fills_user(
    a: Seq<char>,
    b: Seq<char>,
    name: Seq<char>,
    discriminator: u16,
    guild_name: Seq<char>,
)
    requires
        no_brace(a),
        no_brace(b),
        no_brace(name),
    ensures
        farewell(a + "{user}"@ + b, name, discriminator, guild_name) == a + "**"@ + name + "#"@
            + decimal(discriminator as nat) + "**"@ + b,
{
    reveal_strlit("{user}");
    reveal_strlit("{server}");
    reveal_strlit("**");
    reveal_strlit("#");
    let who = departed_user_text(name, discriminator);
    lemma_brace_pattern_absent("{user}"@, b);
    lemma_replace_once(a, "{user}"@, b, who);
    lemma_decimal_reads_back(discriminator as nat);
    lemma_digits_no_brace(decimal(discriminator as nat));
    assert(no_brace("**"@));
    assert(no_brace("#"@));
    lemma_no_brace_concat("**"@, name);
    lemma_no_brace_concat("**"@ + name, "#"@);
    lemma_no_brace_concat("**"@ + name + "#"@, decimal(discriminator as nat));
    lemma_no_brace_concat("**"@ + name + "#"@ + decimal(discriminator as nat), "**"@);
    lemma_no_brace_concat(a, who);
    lemma_no_brace_concat(a + who, b);
    lemma_brace_pattern_absent("{server}"@, a + who + b);
    lemma_replace_absent(a + who + b, "{server}"@, guild_name);
    assert(a + who + b =~= a + "**"@ + name + "#"@ + decimal(discriminator as nat) + "**"@ + b);
}

/// A leave message `a{server}b`, with no other `{`, names the guild:
/// `a` + guild name + `b`, whatever the name holds.
pub proof fn lemma_farewell_fills_server(
    a: Seq<char>,
    b: Seq<char>,
    name: Seq<char>,
    discriminator: u16,
    guild_name: Seq<char>,
)
    requires
        no_brace(a),
        no_brace(b),
    ensures
        farewell(a + "{server}"@ + b, name, discriminator, guild_name) == a + guild_name + b,
{
    reveal_strlit("{user}");
    reveal_strlit("{server}");
    lemma_server_placeholder_is_not_user(a, b);
    lemma_replace_absent(a + "{server}"@ + b, "{user}"@, departed_user_text(name, discriminator));
    lemma_brace_pattern_absent("{server}"@, b);
    lemma_replace_once(a, "{server}"@, b, guild_name);
}

} // verus!
