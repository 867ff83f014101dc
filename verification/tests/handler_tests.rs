use quivive::handlers::event_handler::{
    startup_step, startup_steps, SerenityHandler, StartupAction, StartupStep,
};
use quivive::handlers::member_join::{
    render_greeting, JoinAction, JoinEvent, JoinState, WelcomeRow,
};
use quivive::handlers::member_leave::{
    render_farewell, LeaveAction, LeaveEvent, LeaveRow, LeaveState,
};

#[test]
fn startup_runs_once() {
    let mut handler = SerenityHandler::new();
    assert!(handler.run_loop);
    assert!(handler.cache_ready());
    assert!(!handler.run_loop);
    assert!(!handler.cache_ready());
    assert!(!handler.cache_ready());
}

#[test]
fn reaction_replies() {
    assert_eq!(SerenityHandler::reaction_reply(false), None);
    assert_eq!(
        SerenityHandler::reaction_reply(true).as_deref(),
        Some(
            "Looks like there was an error when you reacted! \nPlease make sure you have the `Add Reactions` permission enabled for both the channel and bot role"
        )
    );
}

#[test]
fn greeting_fills_placeholders() {
    assert_eq!(
        render_greeting("Welcome {user} to {server}! Enjoy {server}.", 9, "Cafe"),
        "Welcome <@9> to Cafe! Enjoy Cafe."
    );
    assert_eq!(render_greeting("Hello!", 9, "Cafe"), "Hello!");
}

#[test]
fn farewell_fills_placeholders() {
    assert_eq!(
        render_farewell("{user} left {server}", "Bob", 42, "Cafe"),
        "**Bob#42** left Cafe"
    );
    assert_eq!(render_farewell("Bye", "Bob", 42, "Cafe"), "Bye");
}

#[test]
fn bot_join_is_ignored() {
    let (state, action) = JoinState::Start.next(JoinEvent::Joined { user_id: 1, is_bot: true });
    assert!(matches!(state, JoinState::Done));
    assert!(matches!(action, JoinAction::Finish));
}

#[test]
fn welcome_fetch_failure_stops() {
    let (state, action) = JoinState::Start.next(JoinEvent::Joined { user_id: 1, is_bot: false });
    assert!(matches!(action, JoinAction::QueryWelcome));
    let (state, action) = state.next(JoinEvent::WelcomeFetchFailed);
    assert!(matches!(state, JoinState::Done));
    assert!(matches!(action, JoinAction::Finish));
    let (state, action) = state.next(JoinEvent::RoleCheck(true));
    assert!(matches!(state, JoinState::Done));
    assert!(matches!(action, JoinAction::Finish));
}

#[test]
fn full_join() {
    let mut log: Vec<String> = Vec::new();
    let events = vec![
        JoinEvent::Joined { user_id: 7, is_bot: false },
        JoinEvent::WelcomeFetched(Some(WelcomeRow {
            welcome_message: Some("Hi {user}, this is {server}".to_string()),
            channel_id: 55,
        })),
        JoinEvent::GuildName("Cafe".to_string()),
        JoinEvent::GreetingSent,
        JoinEvent::RoleCheck(true),
        JoinEvent::RolesFetched(vec![100, 200, 300]),
        JoinEvent::RoleAdded(true),
        JoinEvent::RoleAdded(false),
        JoinEvent::RoleDeleted,
        JoinEvent::RoleAdded(true),
    ];
    let mut state = JoinState::Start;
    for event in events {
        let (next, action) = state.next(event);
        state = next;
        log.push(match action {
            JoinAction::Finish => "finish".to_string(),
            JoinAction::QueryWelcome => "query welcome".to_string(),
            JoinAction::FetchGuildName => "guild name".to_string(),
            JoinAction::Say { channel_id, text } => format!("say {} {}", channel_id, text),
            JoinAction::QueryRoleCheck => "role check".to_string(),
            JoinAction::QueryRoles => "roles".to_string(),
            JoinAction::AddRole { role_id } => format!("add {}", role_id),
            JoinAction::DeleteRole { stored_role_id } => format!("delete {}", stored_role_id),
        });
    }
    assert!(matches!(state, JoinState::Done));
    assert_eq!(
        log,
        vec![
            "query welcome",
            "guild name",
            "say 55 Hi <@7>, this is Cafe",
            "role check",
            "roles",
            "add 100",
            "add 200",
            "delete 200",
            "add 300",
            "finish",
        ]
    );
}

#[test]
fn join_without_message_or_roles() {
    let (state, _) = JoinState::Start.next(JoinEvent::Joined { user_id: 7, is_bot: false });
    let (state, action) = state.next(JoinEvent::WelcomeFetched(Some(WelcomeRow {
        welcome_message: None,
        channel_id: 55,
    })));
    assert!(matches!(action, JoinAction::QueryRoleCheck));
    let (state, action) = state.next(JoinEvent::RoleCheck(false));
    assert!(matches!(state, JoinState::Done));
    assert!(matches!(action, JoinAction::Finish));
}

#[test]
fn negative_channel_id_wraps() {
    let (state, _) = JoinState::Start.next(JoinEvent::Joined { user_id: 7, is_bot: false });
    let (state, _) = state.next(JoinEvent::WelcomeFetched(Some(WelcomeRow {
        welcome_message: Some("x".to_string()),
        channel_id: -1,
    })));
    let (_, action) = state.next(JoinEvent::GuildName("G".to_string()));
    match action {
        JoinAction::Say { channel_id, text } => {
            assert_eq!(channel_id, u64::MAX);
            assert_eq!(text, "x");
        }
        _ => panic!("expected a greeting"),
    }
}

#[test]
fn empty_role_list_finishes() {
    let (state, action) = JoinState::AwaitingRoles.next(JoinEvent::RolesFetched(vec![]));
    assert!(matches!(state, JoinState::Done));
    assert!(matches!(action, JoinAction::Finish));
}

#[test]
fn bot_leave_is_ignored() {
    let (state, action) = LeaveState::Start.next(LeaveEvent::Left {
        name: "Bot".to_string(),
        discriminator: 1,
        is_bot: true,
    });
    assert!(matches!(state, LeaveState::Done));
    assert!(matches!(action, LeaveAction::Finish));
}

#[test]
fn full_leave() {
    let (state, action) = LeaveState::Start.next(LeaveEvent::Left {
        name: "Bob".to_string(),
        discriminator: 1234,
        is_bot: false,
    });
    assert!(matches!(action, LeaveAction::QueryLeave));
    let (state, action) = state.next(LeaveEvent::LeaveFetched(Some(LeaveRow {
        leave_message: Some("{user} has left {server}.".to_string()),
        channel_id: 3,
    })));
    assert!(matches!(action, LeaveAction::FetchGuildName));
    let (state, action) = state.next(LeaveEvent::GuildName("Cafe".to_string()));
    match action {
        LeaveAction::Say { channel_id, text } => {
            assert_eq!(channel_id, 3);
            assert_eq!(text, "**Bob#1234** has left Cafe.");
        }
        _ => panic!("expected a farewell"),
    }
    let (state, action) = state.next(LeaveEvent::FarewellSent);
    assert!(matches!(state, LeaveState::Done));
    assert!(matches!(action, LeaveAction::Finish));
}

#[test]
fn leave_without_message() {
    let (state, _) = LeaveState::Start.next(LeaveEvent::Left {
        name: "Bob".to_string(),
        discriminator: 1,
        is_bot: false,
    });
    let (state, action) = state.next(LeaveEvent::LeaveFetched(None));
    assert!(matches!(state, LeaveState::Done));
    assert!(matches!(action, LeaveAction::Finish));
}

#[test]
fn leave_fetch_failure_says_nothing() {
    let (state, _) = LeaveState::Start.next(LeaveEvent::Left {
        name: "Bob".to_string(),
        discriminator: 1,
        is_bot: false,
    });
    let (state, action) = state.next(LeaveEvent::LeaveFetchFailed);
    assert!(matches!(state, LeaveState::Done));
    assert!(matches!(action, LeaveAction::Finish));
}

#[test]
fn startup_steps_in_order() {
    assert_eq!(
        startup_steps(),
        vec![
            StartupStep::PruneGuilds,
            StartupStep::LoadMuteTimers,
            StartupStep::StartDeletionLoop,
            StartupStep::SetStatus
        ]
    );
}

#[test]
fn startup_stops_on_failed_pruning() {
    assert_eq!(startup_step(0, false), StartupAction::Run(StartupStep::PruneGuilds));
    assert_eq!(startup_step(1, true), StartupAction::Abort(StartupStep::PruneGuilds));
    assert_eq!(startup_step(1, false), StartupAction::Run(StartupStep::LoadMuteTimers));
    assert_eq!(startup_step(2, true), StartupAction::Abort(StartupStep::LoadMuteTimers));
    assert_eq!(startup_step(2, false), StartupAction::Run(StartupStep::StartDeletionLoop));
    assert_eq!(startup_step(3, true), StartupAction::Run(StartupStep::SetStatus));
    assert_eq!(startup_step(4, false), StartupAction::Finish);
    assert_eq!(startup_step(4, true), StartupAction::Finish);
}
