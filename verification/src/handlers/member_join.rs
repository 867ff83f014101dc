//! A member joins a guild: greet them in the guild's welcome channel, then hand
//! out the guild's welcome roles, forgetting each role that can no longer be
//! given.

use vstd::prelude::*;
use crate::model::{user_mention, user_mention_text};
use crate::text::{
    decimal, lemma_brace_pattern_absent, lemma_decimal_reads_back, lemma_digits_no_brace,
    lemma_replace_absent, lemma_replace_once, no_brace, occurs_in, replace, replaced,
};

verus! {

/// A guild's welcome settings as stored: the welcome message, if any, and the
/// channel it goes to.
pub struct WelcomeRow {
    pub welcome_message: Option<String>,
    pub channel_id: i64,
}

/// Where the handling of a join stands.
pub enum JoinState {
    Start,
    AwaitingWelcome { user_id: u64 },
    AwaitingGuildName { user_id: u64, channel_id: u64, template: String },
    AwaitingGreetingSent,
    AwaitingRoleCheck,
    AwaitingRoles,
    AddingRole { roles: Vec<i64>, index: usize },
    DeletingRole { roles: Vec<i64>, index: usize },
    Done,
}

/// What happened: the join itself, or the outcome of the last action.
pub enum JoinEvent {
    Joined { user_id: u64, is_bot: bool },
    WelcomeFetched(Option<WelcomeRow>),
    WelcomeFetchFailed,
    GuildName(String),
    GreetingSent,
    RoleCheck(bool),
    RolesFetched(Vec<i64>),
    RoleAdded(bool),
    RoleDeleted,
}

/// What to do next.
pub enum JoinAction {
    Finish,
    QueryWelcome,
    FetchGuildName,
    Say { channel_id: u64, text: String },
    QueryRoleCheck,
    QueryRoles,
    AddRole { role_id: u64 },
    DeleteRole { stored_role_id: i64 },
}

/// The contents of a [`WelcomeRow`].
pub struct WelcomeRowV {
    pub welcome_message: Option<Seq<char>>,
    pub channel_id: i64,
}

/// The contents of a [`JoinState`].
pub enum JoinStateV {
    Start,
    AwaitingWelcome { user_id: u64 },
    AwaitingGuildName { user_id: u64, channel_id: u64, template: Seq<char> },
    AwaitingGreetingSent,
    AwaitingRoleCheck,
    AwaitingRoles,
    AddingRole { roles: Seq<i64>, index: nat },
    DeletingRole { roles: Seq<i64>, index: nat },
    Done,
}

/// The contents of a [`JoinEvent`].
pub enum JoinEventV {
    Joined { user_id: u64, is_bot: bool },
    WelcomeFetched(Option<WelcomeRowV>),
    WelcomeFetchFailed,
    GuildName(Seq<char>),
    GreetingSent,
    RoleCheck(bool),
    RolesFetched(Seq<i64>),
    RoleAdded(bool),
    RoleDeleted,
}

/// The contents of a [`JoinAction`].
pub enum JoinActionV {
    Finish,
    QueryWelcome,
    FetchGuildName,
    Say { channel_id: u64, text: Seq<char> },
    QueryRoleCheck,
    QueryRoles,
    AddRole { role_id: u64 },
    DeleteRole { stored_role_id: i64 },
}

impl View for WelcomeRow {
    type V = WelcomeRowV;

    open spec fn view(&self) -> WelcomeRowV {
        WelcomeRowV { welcome_message: self.welcome_message.deep_view(), channel_id: self.channel_id }
    }
}

impl View for JoinState {
    type V = JoinStateV;

    open spec fn view(&self) -> JoinStateV {
        match self {
            JoinState::Start => JoinStateV::Start,
            JoinState::AwaitingWelcome { user_id } => JoinStateV::AwaitingWelcome { user_id: *user_id },
            JoinState::AwaitingGuildName { user_id, channel_id, template } => {
                JoinStateV::AwaitingGuildName {
                    user_id: *user_id,
                    channel_id: *channel_id,
                    template: template@,
                }
            },
            JoinState::AwaitingGreetingSent => JoinStateV::AwaitingGreetingSent,
            JoinState::AwaitingRoleCheck => JoinStateV::AwaitingRoleCheck,
            JoinState::AwaitingRoles => JoinStateV::AwaitingRoles,
            JoinState::AddingRole { roles, index } => JoinStateV::AddingRole {
                roles: roles@,
                index: *index as nat,
            },
            JoinState::DeletingRole { roles, index } => JoinStateV::DeletingRole {
                roles: roles@,
                index: *index as nat,
            },
            JoinState::Done => JoinStateV::Done,
        }
    }
}

impl View for JoinEvent {
    type V = JoinEventV;

    open spec fn view(&self) -> JoinEventV {
        match self {
            JoinEvent::Joined { user_id, is_bot } => JoinEventV::Joined {
                user_id: *user_id,
                is_bot: *is_bot,
            },
            JoinEvent::WelcomeFetched(row) => JoinEventV::WelcomeFetched(
                match row {
                    Some(r) => Some(r@),
                    None => None,
                },
            ),
            JoinEvent::WelcomeFetchFailed => JoinEventV::WelcomeFetchFailed,
            JoinEvent::GuildName(name) => JoinEventV::GuildName(name@),
            JoinEvent::GreetingSent => JoinEventV::GreetingSent,
            JoinEvent::RoleCheck(exists) => JoinEventV::RoleCheck(*exists),
            JoinEvent::RolesFetched(roles) => JoinEventV::RolesFetched(roles@),
            JoinEvent::RoleAdded(ok) => JoinEventV::RoleAdded(*ok),
            JoinEvent::RoleDeleted => JoinEventV::RoleDeleted,
        }
    }
}

impl View for JoinAction {
    type V = JoinActionV;

    open spec fn view(&self) -> JoinActionV {
        match self {
            JoinAction::Finish => JoinActionV::Finish,
            JoinAction::QueryWelcome => JoinActionV::QueryWelcome,
            JoinAction::FetchGuildName => JoinActionV::FetchGuildName,
            JoinAction::Say { channel_id, text } => JoinActionV::Say {
                channel_id: *channel_id,
                text: text@,
            },
            JoinAction::QueryRoleCheck => JoinActionV::QueryRoleCheck,
            JoinAction::QueryRoles => JoinActionV::QueryRoles,
            JoinAction::AddRole { role_id } => JoinActionV::AddRole { role_id: *role_id },
            JoinAction::DeleteRole { stored_role_id } => JoinActionV::DeleteRole { stored_role_id: *stored_role_id },
        }
    }
}

/// The greeting: the welcome template with `{user}` replaced by the new
/// member's mention, then `{server}` by the guild's name.
pub open spec fn greeting(template: Seq<char>, user_id: u64, guild_name: Seq<char>) -> Seq<char> {
    replaced(
        replaced(template, "{user}"@, user_mention_text(user_id as nat)),
        "{server}"@,
        guild_name,
    )
}

/// Go on with the role at `index`, or finish when all roles were handled.
pub open spec fn next_role(roles: Seq<i64>, index: nat) -> (JoinStateV, JoinActionV) {
    if index < roles.len() {
        (JoinStateV::AddingRole { roles, index }, JoinActionV::AddRole { role_id: roles[index as int] as u64 })
    } else {
        (JoinStateV::Done, JoinActionV::Finish)
    }
}

/// One step of the handling of a join. An event that does not answer the
/// pending action ends the handling.
pub open spec fn join_next(s: JoinStateV, e: JoinEventV) -> (JoinStateV, JoinActionV) {
    match s {
        JoinStateV::Start => match e {
            JoinEventV::Joined { user_id, is_bot } => if is_bot {
                (JoinStateV::Done, JoinActionV::Finish)
            } else {
                (JoinStateV::AwaitingWelcome { user_id }, JoinActionV::QueryWelcome)
            },
            _ => (JoinStateV::Done, JoinActionV::Finish),
        },
        JoinStateV::AwaitingWelcome { user_id } => match e {
            JoinEventV::WelcomeFetched(row) => match row {
                Some(r) => match r.welcome_message {
                    Some(template) => (
                        JoinStateV::AwaitingGuildName {
                            user_id,
                            channel_id: r.channel_id as u64,
                            template,
                        },
                        JoinActionV::FetchGuildName,
                    ),
                    None => (JoinStateV::AwaitingRoleCheck, JoinActionV::QueryRoleCheck),
                },
                None => (JoinStateV::AwaitingRoleCheck, JoinActionV::QueryRoleCheck),
            },
            _ => (JoinStateV::Done, JoinActionV::Finish),
        },
        JoinStateV::AwaitingGuildName { user_id, channel_id, template } => match e {
            JoinEventV::GuildName(name) => (
                JoinStateV::AwaitingGreetingSent,
                JoinActionV::Say { channel_id, text: greeting(template, user_id, name) },
            ),
            _ => (JoinStateV::Done, JoinActionV::Finish),
        },
        JoinStateV::AwaitingGreetingSent => match e {
            JoinEventV::GreetingSent => (JoinStateV::AwaitingRoleCheck, JoinActionV::QueryRoleCheck),
            _ => (JoinStateV::Done, JoinActionV::Finish),
        },
        JoinStateV::AwaitingRoleCheck => match e {
            JoinEventV::RoleCheck(exists) => if exists {
                (JoinStateV::AwaitingRoles, JoinActionV::QueryRoles)
            } else {
                (JoinStateV::Done, JoinActionV::Finish)
            },
            _ => (JoinStateV::Done, JoinActionV::Finish),
        },
        JoinStateV::AwaitingRoles => match e {
            JoinEventV::RolesFetched(roles) => next_role(roles, 0),
            _ => (JoinStateV::Done, JoinActionV::Finish),
        },
        JoinStateV::AddingRole { roles, index } => match e {
            JoinEventV::RoleAdded(ok) => if index >= roles.len() {
                (JoinStateV::Done, JoinActionV::Finish)
            } else if ok {
                next_role(roles, index + 1)
            } else {
                (
                    JoinStateV::DeletingRole { roles, index },
                    JoinActionV::DeleteRole { stored_role_id: roles[index as int] },
                )
            },
            _ => (JoinStateV::Done, JoinActionV::Finish),
        },
        JoinStateV::DeletingRole { roles, index } => match e {
            JoinEventV::RoleDeleted => next_role(roles, index + 1),
            _ => (JoinStateV::Done, JoinActionV::Finish),
        },
        JoinStateV::Done => (JoinStateV::Done, JoinActionV::Finish),
    }
}

/// The greeting for a new member.
pub fn render_greeting(template: &str, user_id: u64, guild_name: &str) -> (text: String)
    ensures
        text@ == greeting(template@, user_id, guild_name@),
{
    proof {
        reveal_strlit("{user}");
        reveal_strlit("{server}");
    }
    let mention = user_mention(user_id);
    let with_user = replace(template, "{user}", mention.as_str());
    replace(with_user.as_str(), "{server}", guild_name)
}

fn next_role_exec(roles: Vec<i64>, index: usize) -> (r: (JoinState, JoinAction))
    requires
        index <= roles@.len(),
    ensures
        (r.0@, r.1@) == next_role(roles@, index as nat),
{
    if index < roles.len() {
        let role_id = roles[index] as u64;
        (JoinState::AddingRole { roles, index }, JoinAction::AddRole { role_id })
    } else {
        (JoinState::Done, JoinAction::Finish)
    }
}

impl JoinState {
    /// One step of the handling of a join: the next state and the action to
    /// perform.
    pub fn next(self, event: JoinEvent) -> (r: (JoinState, JoinAction))
        ensures
            (r.0@, r.1@) == join_next(self@, event@),
    {
        match self {
            JoinState::Start => match event {
                JoinEvent::Joined { user_id, is_bot } => if is_bot {
                    (JoinState::Done, JoinAction::Finish)
                } else {
                    (JoinState::AwaitingWelcome { user_id }, JoinAction::QueryWelcome)
                },
                _ => (JoinState::Done, JoinAction::Finish),
            },
            JoinState::AwaitingWelcome { user_id } => match event {
                JoinEvent::WelcomeFetched(row) => match row {
                    Some(r) => match r.welcome_message {
                        Some(template) => (
                            JoinState::AwaitingGuildName {
                                user_id,
                                channel_id: r.channel_id as u64,
                                template,
                            },
                            JoinAction::FetchGuildName,
                        ),
                        None => (JoinState::AwaitingRoleCheck, JoinAction::QueryRoleCheck),
                    },
                    None => (JoinState::AwaitingRoleCheck, JoinAction::QueryRoleCheck),
                },
                _ => (JoinState::Done, JoinAction::Finish),
            },
            JoinState::AwaitingGuildName { user_id, channel_id, template } => match event {
                JoinEvent::GuildName(name) => {
                    let text = render_greeting(template.as_str(), user_id, name.as_str());
                    (JoinState::AwaitingGreetingSent, JoinAction::Say { channel_id, text })
                },
                _ => (JoinState::Done, JoinAction::Finish),
            },
            JoinState::AwaitingGreetingSent => match event {
                JoinEvent::GreetingSent => (JoinState::AwaitingRoleCheck, JoinAction::QueryRoleCheck),
                _ => (JoinState::Done, JoinAction::Finish),
            },
            JoinState::AwaitingRoleCheck => match event {
                JoinEvent::RoleCheck(exists) => if exists {
                    (JoinState::AwaitingRoles, JoinAction::QueryRoles)
                } else {
                    (JoinState::Done, JoinAction::Finish)
                },
                _ => (JoinState::Done, JoinAction::Finish),
            },
            JoinState::AwaitingRoles => match event {
                JoinEvent::RolesFetched(roles) => next_role_exec(roles, 0),
                _ => (JoinState::Done, JoinAction::Finish),
            },
            JoinState::AddingRole { roles, index } => match event {
                JoinEvent::RoleAdded(ok) => if index >= roles.len() {
                    (JoinState::Done, JoinAction::Finish)
                } else if ok {
                    next_role_exec(roles, index + 1)
                } else {
                    let stored_role_id = roles[index];
                    (JoinState::DeletingRole { roles, index }, JoinAction::DeleteRole { stored_role_id })
                },
                _ => (JoinState::Done, JoinAction::Finish),
            },
            JoinState::DeletingRole { roles, index } => match event {
                JoinEvent::RoleDeleted => if index >= roles.len() {
                    (JoinState::Done, JoinAction::Finish)
                } else {
                    next_role_exec(roles, index + 1)
                },
                _ => (JoinState::Done, JoinAction::Finish),
            },
            JoinState::Done => (JoinState::Done, JoinAction::Finish),
        }
    }
}

/// The state reached and the actions asked for when `events` arrive in order.
pub open spec fn join_run(s: JoinStateV, events: Seq<JoinEventV>) -> (JoinStateV, Seq<JoinActionV>)
    decreases events.len(),
{
    if events.len() == 0 {
        (s, Seq::empty())
    } else {
        let (s1, a) = join_next(s, events[0]);
        let (s2, rest) = join_run(s1, events.skip(1));
        (s2, seq![a] + rest)
    }
}

/// The outcomes of adding the welcome roles, as events: a role that was added,
/// or a role that could not be added and was then deleted.
pub open spec fn role_events(added: Seq<bool>) -> Seq<JoinEventV>
    decreases added.len(),
{
    if added.len() == 0 {
        Seq::empty()
    } else {
        (if added[0] {
            seq![JoinEventV::RoleAdded(true)]
        } else {
            seq![JoinEventV::RoleAdded(false), JoinEventV::RoleDeleted]
        }) + role_events(added.skip(1))
    }
}

/// The actions for the welcome roles from `index` on: add each role in turn,
/// delete it right after if it could not be added, then finish.
pub open spec fn role_actions(roles: Seq<i64>, added: Seq<bool>, index: nat) -> Seq<JoinActionV>
    decreases roles.len() - index,
{
    if index >= roles.len() {
        seq![JoinActionV::Finish]
    } else {
        seq![JoinActionV::AddRole { role_id: roles[index as int] as u64 }] + (if added[index as int] {
            Seq::empty()
        } else {
            seq![JoinActionV::DeleteRole { stored_role_id: roles[index as int] }]
        }) + role_actions(roles, added, index + 1)
    }
}

/// Running two lists of events one after the other is running their concatenation.
pub proof fn lemma_join_run_concat(s: JoinStateV, e1: Seq<JoinEventV>, e2: Seq<JoinEventV>)
    ensures
        join_run(s, e1 + e2) == (join_run(join_run(s, e1).0, e2).0, join_run(s, e1).1 + join_run(
            join_run(s, e1).0,
            e2,
        ).1),
    decreases e1.len(),
{
    if e1.len() > 0 {
        assert((e1 + e2).skip(1) =~= e1.skip(1) + e2);
        lemma_join_run_concat(join_next(s, e1[0]).0, e1.skip(1), e2);
    }
}

/// A member who is a bot is ignored: nothing is queried, said or given.
pub proof fn lemma_bot_join_ignored(user_id: u64)
    ensures
        join_next(JoinStateV::Start, JoinEventV::Joined { user_id, is_bot: true }) == (
            JoinStateV::Done,
            JoinActionV::Finish,
        ),
{
}

/// Once the handling of a join is done, no event starts anything again.
pub proof fn lemma_join_done_is_final(e: JoinEventV)
    ensures
        join_next(JoinStateV::Done, e) == (JoinStateV::Done, JoinActionV::Finish),
{
}

/// When the welcome settings cannot be read, the handling stops: no greeting
/// and no role.
pub proof fn lemma_welcome_failure_stops(user_id: u64)
    ensures
        join_next(JoinStateV::AwaitingWelcome { user_id }, JoinEventV::WelcomeFetchFailed) == (
            JoinStateV::Done,
            JoinActionV::Finish,
        ),
{
}

/// A guild with a welcome message greets the member in its welcome channel
/// with the message, `{user}` and `{server}` filled in, and then goes on to
/// the welcome roles.
pub proof fn lemma_greeting_sent(
    user_id: u64,
    template: Seq<char>,
    channel_id: i64,
    guild_name: Seq<char>,
)
    ensures
        join_run(
            JoinStateV::AwaitingWelcome { user_id },
            seq![
                JoinEventV::WelcomeFetched(Some(WelcomeRowV { welcome_message: Some(template), channel_id })),
                JoinEventV::GuildName(guild_name),
                JoinEventV::GreetingSent,
            ],
        ) == (
            JoinStateV::AwaitingRoleCheck,
            seq![
                JoinActionV::FetchGuildName,
                JoinActionV::Say { channel_id: channel_id as u64, text: greeting(template, user_id, guild_name) },
                JoinActionV::QueryRoleCheck,
            ],
        ),
{
    let events = seq![
        JoinEventV::WelcomeFetched(Some(WelcomeRowV { welcome_message: Some(template), channel_id })),
        JoinEventV::GuildName(guild_name),
        JoinEventV::GreetingSent,
    ];
    reveal_with_fuel(join_run, 4);
    let s0 = JoinStateV::AwaitingWelcome { user_id };
    assert(join_run(JoinStateV::AwaitingRoleCheck, events.skip(1).skip(1).skip(1)).1 =~= Seq::<
        JoinActionV,
    >::empty());
    assert(join_run(s0, events).1 =~= seq![
        JoinActionV::FetchGuildName,
        JoinActionV::Say { channel_id: channel_id as u64, text: greeting(template, user_id, guild_name) },
        JoinActionV::QueryRoleCheck,
    ]);
}

/// A guild without a welcome message greets no one and goes straight on to
/// the welcome roles.
pub proof fn lemma_no_greeting_without_message(user_id: u64, row: Option<WelcomeRowV>)
    requires
        row matches Some(r) ==> r.welcome_message is None,
    ensures
        join_next(JoinStateV::AwaitingWelcome { user_id }, JoinEventV::WelcomeFetched(row)) == (
            JoinStateV::AwaitingRoleCheck,
            JoinActionV::QueryRoleCheck,
        ),
{
}

proof fn lemma_roles_from(roles: Seq<i64>, added: Seq<bool>, index: nat)
    requires
        added.len() == roles.len(),
        index < roles.len(),
    ensures
        join_run(JoinStateV::AddingRole { roles, index }, role_events(added.skip(index as int)))
            == (JoinStateV::Done, role_actions(roles, added, index).skip(1)),
    decreases roles.len() - index,
{
    let head = if added[index as int] {
        seq![JoinEventV::RoleAdded(true)]
    } else {
        seq![JoinEventV::RoleAdded(false), JoinEventV::RoleDeleted]
    };
    assert(added.skip(index as int).skip(1) =~= added.skip((index + 1) as int));
    lemma_join_run_concat(JoinStateV::AddingRole { roles, index }, head, role_events(added.skip((index + 1) as int)));
    reveal_with_fuel(join_run, 3);
    if index + 1 < roles.len() {
        lemma_roles_from(roles, added, index + 1);
        assert(role_actions(roles, added, index + 1) =~= seq![JoinActionV::AddRole { role_id: roles[(index + 1) as int] as u64 }]
            + role_actions(roles, added, index + 1).skip(1));
    }
}

/// Every welcome role is handed out once, in the order the guild stores them,
/// and a role that cannot be given is deleted from the settings right after
/// the attempt; no other role is deleted.
pub proof fn lemma_welcome_roles(roles: Seq<i64>, added: Seq<bool>)
    requires
        added.len() == roles.len(),
    ensures
        join_run(JoinStateV::AwaitingRoles, seq![JoinEventV::RolesFetched(roles)] + role_events(added))
            == (JoinStateV::Done, role_actions(roles, added, 0)),
{
    let events = seq![JoinEventV::RolesFetched(roles)] + role_events(added);
    assert(events.skip(1) =~= role_events(added));
    if roles.len() == 0 {
        assert(join_run(JoinStateV::Done, role_events(added)).1 =~= Seq::<JoinActionV>::empty());
    } else {
        assert(added.skip(0) =~= added);
        lemma_roles_from(roles, added, 0);
        assert(role_actions(roles, added, 0) =~= seq![JoinActionV::AddRole { role_id: roles[0] as u64 }]
            + role_actions(roles, added, 0).skip(1));
    }
}

/// A welcome message without placeholders is posted exactly as written.
pub proof fn lemma_plain_greeting(template: Seq<char>, user_id: u64, guild_name: Seq<char>)
    requires
        !occurs_in("{user}"@, template),
        !occurs_in("{server}"@, template),
    ensures
        greeting(template, user_id, guild_name) == template,
{
    reveal_strlit("{user}");
    reveal_strlit("{server}");
    lemma_replace_absent(template, "{user}"@, user_mention_text(user_id as nat));
    lemma_replace_absent(template, "{server}"@, guild_name);
}

/// Whether a guild's welcome settings hold a welcome message.
pub open spec fn has_greeting(row: Option<WelcomeRowV>) -> bool {
    row matches Some(r) && r.welcome_message is Some
}

/// The events of a complete join of a member who is not a bot: the welcome
/// settings, the guild's name and the greeting's delivery when there is a
/// greeting, whether the guild has welcome roles, and if so the roles and the
/// outcome of adding each.
pub open spec fn join_events(
    user_id: u64,
    row: Option<WelcomeRowV>,
    guild_name: Seq<char>,
    has_roles: bool,
    roles: Seq<i64>,
    added: Seq<bool>,
) -> Seq<JoinEventV> {
    seq![JoinEventV::Joined { user_id, is_bot: false }, JoinEventV::WelcomeFetched(row)] + (if has_greeting(row) {
        seq![JoinEventV::GuildName(guild_name), JoinEventV::GreetingSent]
    } else {
        Seq::empty()
    }) + seq![JoinEventV::RoleCheck(has_roles)] + (if has_roles {
        seq![JoinEventV::RolesFetched(roles)] + role_events(added)
    } else {
        Seq::empty()
    })
}

/// The actions of a complete join: read the welcome settings; greet the
/// member when there is a greeting; look for welcome roles and hand them out.
pub open spec fn join_actions(
    user_id: u64,
    row: Option<WelcomeRowV>,
    guild_name: Seq<char>,
    has_roles: bool,
    roles: Seq<i64>,
    added: Seq<bool>,
) -> Seq<JoinActionV> {
    seq![JoinActionV::QueryWelcome] + (if has_greeting(row) {
        seq![
            JoinActionV::FetchGuildName,
            JoinActionV::Say {
                channel_id: row->0.channel_id as u64,
                text: greeting(row->0.welcome_message->0, user_id, guild_name),
            },
        ]
    } else {
        Seq::empty()
    }) + seq![JoinActionV::QueryRoleCheck] + (if has_roles {
        seq![JoinActionV::QueryRoles] + role_actions(roles, added, 0)
    } else {
        seq![JoinActionV::Finish]
    })
}

/// What the bot does when a member who is not a bot joins: it reads the
/// guild's welcome settings, greets the member if the guild has a welcome
/// message, then hands out the welcome roles, if any, deleting each one that
/// cannot be given; then it is done.
pub proof fn lemma_join_protocol(
    user_id: u64,
    row: Option<WelcomeRowV>,
    guild_name: Seq<char>,
    has_roles: bool,
    roles: Seq<i64>,
    added: Seq<bool>,
)
    requires
        added.len() == roles.len(),
    ensures
        join_run(JoinStateV::Start, join_events(user_id, row, guild_name, has_roles, roles, added))
            == (JoinStateV::Done, join_actions(user_id, row, guild_name, has_roles, roles, added)),
{
    reveal_with_fuel(join_run, 3);
    let a = seq![JoinEventV::Joined { user_id, is_bot: false }, JoinEventV::WelcomeFetched(row)];
    let b = if has_greeting(row) {
        seq![JoinEventV::GuildName(guild_name), JoinEventV::GreetingSent]
    } else {
        Seq::<JoinEventV>::empty()
    };
    let c = seq![JoinEventV::RoleCheck(has_roles)];
    let d = if has_roles {
        seq![JoinEventV::RolesFetched(roles)] + role_events(added)
    } else {
        Seq::<JoinEventV>::empty()
    };
    lemma_join_run_concat(JoinStateV::Start, a + b + c, d);
    lemma_join_run_concat(JoinStateV::Start, a + b, c);
    lemma_join_run_concat(JoinStateV::Start, a, b);
    let (s1, acts1) = join_run(JoinStateV::Start, a);
    let (s2, acts2) = join_run(s1, b);
    if has_greeting(row) {
        let r = row->0;
        assert(s1 == JoinStateV::AwaitingGuildName {
            user_id,
            channel_id: r.channel_id as u64,
            template: r.welcome_message->0,
        });
        assert(acts2 =~= seq![
            JoinActionV::Say {
                channel_id: r.channel_id as u64,
                text: greeting(r.welcome_message->0, user_id, guild_name),
            },
            JoinActionV::QueryRoleCheck,
        ]);
    }
    if has_roles {
        lemma_welcome_roles(roles, added);
    }
}

/// Text without `{` joined to text without `{` holds no `{`.
pub proof fn lemma_no_brace_concat(x: Seq<char>, y: Seq<char>)
    requires
        no_brace(x),
        no_brace(y),
    ensures
        no_brace(x + y),
{
    assert forall|i: int| 0 <= i < (x + y).len() implies #[trigger] (x + y)[i] != '{' by {
        if i < x.len() {
            assert((x + y)[i] == x[i]);
        } else {
            assert((x + y)[i] == y[i - x.len()]);
        }
    }
}

/// A mention holds no `{`.
pub proof fn lemma_mention_no_brace(user_id: u64)
    ensures
        no_brace(user_mention_text(user_id as nat)),
{
    reveal_strlit("<@");
    reveal_strlit(">");
    lemma_decimal_reads_back(user_id as nat);
    lemma_digits_no_brace(decimal(user_id as nat));
    assert(no_brace("<@"@));
    assert(no_brace(">"@));
    lemma_no_brace_concat("<@"@, decimal(user_id as nat));
    lemma_no_brace_concat("<@"@ + decimal(user_id as nat), ">"@);
}

/// `{user}` does not occur in a message whose only `{` opens `{server}`.
pub proof fn lemma_server_placeholder_is_not_user(a: Seq<char>, b: Seq<char>)
    requires
        no_brace(a),
        no_brace(b),
    ensures
        !occurs_in("{user}"@, a + "{server}"@ + b),
{
    reveal_strlit("{user}");
    reveal_strlit("{server}");
    let p = "{server}"@;
    let s = a + p + b;
    assert forall|i: int| 0 <= i && i + 6 <= s.len() implies #[trigger] s.subrange(i, i + 6)
        != "{user}"@ by {
        if s.subrange(i, i + 6) == "{user}"@ {
            assert(s[i] == s.subrange(i, i + 6)[0]);
            assert(s[i + 1] == s.subrange(i, i + 6)[1]);
            if i < a.len() {
                assert(s[i] == a[i]);
            } else if i < a.len() + 8 {
                assert(s[i] == p[i - a.len()]);
                if i == a.len() {
                    assert(s[i + 1] == p[1]);
                }
            } else {
                assert(s[i] == b[i - a.len() - 8]);
            }
        }
    }
}

/// A welcome message without `{user}` is the message with `{server}` filled
/// in by the guild's name.
pub proof fn lemma_greeting_without_user(template: Seq<char>, user_id: u64, guild_name: Seq<char>)
    requires
        !occurs_in("{user}"@, template),
    ensures
        greeting(template, user_id, guild_name) == replaced(template, "{server}"@, guild_name),
{
    reveal_strlit("{user}");
    lemma_replace_absent(template, "{user}"@, user_mention_text(user_id as nat));
}

/// A welcome message `a{user}b`, with no other `{`, greets the member by
/// mention: `a<@id>b`.
pub proof fn lemma_greeting_fills_user(a: Seq<char>, b: Seq<char>, user_id: u64, guild_name: Seq<char>)
    requires
        no_brace(a),
        no_brace(b),
    ensures
        greeting(a + "{user}"@ + b, user_id, guild_name) == a + "<@"@ + decimal(user_id as nat)
            + ">"@ + b,
{
    reveal_strlit("{user}");
    reveal_strlit("{server}");
    let m = user_mention_text(user_id as nat);
    lemma_brace_pattern_absent("{user}"@, b);
    lemma_replace_once(a, "{user}"@, b, m);
    lemma_mention_no_brace(user_id);
    lemma_no_brace_concat(a, m);
    lemma_no_brace_concat(a + m, b);
    lemma_brace_pattern_absent("{server}"@, a + m + b);
    lemma_replace_absent(a + m + b, "{server}"@, guild_name);
    assert(a + m + b =~= a + "<@"@ + decimal(user_id as nat) + ">"@ + b);
}

/// A welcome message `a{server}b`, with no other `{`, names the guild:
/// `a` + guild name + `b`, whatever the name holds.
pub proof fn lemma_greeting_fills_server(
    a: Seq<char>,
    b: Seq<char>,
    user_id: u64,
    guild_name: Seq<char>,
)
    requires
        no_brace(a),
        no_brace(b),
    ensures
        greeting(a + "{server}"@ + b, user_id, guild_name) == a + guild_name + b,
{
    reveal_strlit("{user}");
    reveal_strlit("{server}");
    lemma_server_placeholder_is_not_user(a, b);
    lemma_replace_absent(a + "{server}"@ + b, "{user}"@, user_mention_text(user_id as nat));
    lemma_brace_pattern_absent("{server}"@, b);
    lemma_replace_once(a, "{server}"@, b, guild_name);
}

/// A member who is not a bot starts the handling: the welcome settings are
/// read first.
pub proof fn lemma_member_join_starts(user_id: u64)
    ensures
        join_next(JoinStateV::Start, JoinEventV::Joined { user_id, is_bot: false }) == (
            JoinStateV::AwaitingWelcome { user_id },
            JoinActionV::QueryWelcome,
        ),
{
}

} // verus!
