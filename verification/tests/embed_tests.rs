use quivive::embed::{Embed, EmbedField};
use quivive::helpers::embed_store::{
    get_ban_embed, get_channel_embed, get_guild_mutes_embed, get_guild_warns_embed, get_kick_embed,
    get_mute_embed, get_new_member_embed, get_pardon_embed, get_unban_embed, get_warn_embed,
    get_welcome_roles_embed, COLOR_GREEN, COLOR_ORANGE, COLOR_PURPLE, COLOR_RED,
};
use quivive::model::User;

fn member() -> User {
    User {
        id: 42,
        name: "Mallory".to_string(),
        discriminator: 7,
        avatar: Some("hash".to_string()),
        bot: false,
    }
}

const FACE: &str = "https://cdn.discordapp.com/avatars/42/hash.webp?size=1024";

fn fields(eb: &Embed) -> Vec<(String, String, bool)> {
    eb.fields.iter().map(|f: &EmbedField| (f.name.clone(), f.value.clone(), f.inline)).collect()
}

fn field(name: &str, value: &str) -> (String, String, bool) {
    (name.to_string(), value.to_string(), false)
}

#[test]
fn embed_starts_empty_and_keeps_field_order() {
    let mut eb = Embed::new();
    assert_eq!(eb.title, None);
    assert!(eb.fields.is_empty());
    eb.field("a".to_string(), "1".to_string(), true);
    eb.field("b".to_string(), "2".to_string(), false);
    eb.title("t".to_string());
    eb.title("u".to_string());
    assert_eq!(eb.title.as_deref(), Some("u"));
    assert_eq!(fields(&eb), vec![("a".to_string(), "1".to_string(), true), field("b", "2")]);
}

#[test]
fn ban_embed() {
    let eb = get_ban_embed(&member(), "spam", false);
    assert_eq!(eb.color, Some(COLOR_RED));
    assert_eq!(eb.color, Some(0xef5f5f));
    assert_eq!(eb.title.as_deref(), Some("User Banned"));
    assert_eq!(eb.thumbnail.as_deref(), Some(FACE));
    assert_eq!(eb.description, None);
    assert_eq!(eb.footer, None);
    assert_eq!(fields(&eb), vec![field("Username", "<@42>"), field("Reason", "spam")]);
    let by_id = get_ban_embed(&member(), "spam", true);
    assert_eq!(by_id.title.as_deref(), Some("User Banned by ID"));
}

#[test]
fn unban_embed() {
    let eb = get_unban_embed(&member(), true);
    assert_eq!(eb.color, Some(COLOR_GREEN));
    assert_eq!(eb.title.as_deref(), Some("User Unbanned by ID"));
    assert_eq!(eb.thumbnail.as_deref(), Some(FACE));
    assert_eq!(fields(&eb), vec![field("Username", "<@42>")]);
    assert_eq!(get_unban_embed(&member(), false).title.as_deref(), Some("User Unbanned"));
}

#[test]
fn kick_embed() {
    let eb = get_kick_embed(&member(), "rude", false);
    assert_eq!(eb.color, Some(COLOR_RED));
    assert_eq!(eb.title.as_deref(), Some("User Kicked"));
    assert_eq!(fields(&eb), vec![field("Username", "<@42>"), field("Reason", "rude")]);
    assert_eq!(get_kick_embed(&member(), "rude", true).title.as_deref(), Some("User Kicked by ID"));
}

#[test]
fn warn_embed() {
    let eb = get_warn_embed(&member(), 3, "caps");
    assert_eq!(eb.color, Some(COLOR_ORANGE));
    assert_eq!(eb.title.as_deref(), Some("User Warned"));
    assert_eq!(eb.thumbnail.as_deref(), Some(FACE));
    assert_eq!(
        fields(&eb),
        vec![field("Username", "<@42>"), field("Warn Count", "3"), field("Reason", "caps")]
    );
    let negative = get_warn_embed(&member(), -12, "x");
    assert_eq!(negative.fields[1].value, "-12");
}

#[test]
fn pardon_embed() {
    let eb = get_pardon_embed(&member(), 0);
    assert_eq!(eb.color, Some(COLOR_GREEN));
    assert_eq!(eb.title.as_deref(), Some("User Pardoned"));
    assert_eq!(fields(&eb), vec![field("Username", "<@42>"), field("Warn Count", "0")]);
}

#[test]
fn guild_warns_embed() {
    let eb = get_guild_warns_embed("Guild".to_string(), "<@1>: 2".to_string());
    assert_eq!(eb.color, Some(COLOR_PURPLE));
    assert_eq!(eb.title.as_deref(), Some("Warns for Guild"));
    assert_eq!(eb.description.as_deref(), Some("<@1>: 2"));
    assert_eq!(
        eb.footer.as_deref(),
        Some("If a mention has an invalid user, consider removing the warns!")
    );
    assert!(eb.fields.is_empty());
    assert_eq!(eb.thumbnail, None);
}

#[test]
fn timed_mute_embed() {
    let eb = get_mute_embed(&member(), true, true, Some("10m"));
    assert_eq!(eb.color, Some(COLOR_ORANGE));
    assert_eq!(eb.title.as_deref(), Some("User Muted"));
    assert_eq!(eb.description.as_deref(), Some("This mute will expire after the given time"));
    assert_eq!(eb.thumbnail.as_deref(), Some(FACE));
    assert_eq!(fields(&eb), vec![field("Username", "<@42>"), field("Mute Length", "10m")]);
}

#[test]
fn permanent_unmute_embed() {
    let eb = get_mute_embed(&member(), false, false, None);
    assert_eq!(eb.color, Some(COLOR_GREEN));
    assert_eq!(eb.title.as_deref(), Some("User Unmuted"));
    assert_eq!(eb.description.as_deref(), Some("This mute can only be removed by an admin"));
    assert_eq!(fields(&eb), vec![field("Username", "<@42>")]);
    let ignored_time = get_mute_embed(&member(), true, false, Some("5m"));
    assert_eq!(fields(&ignored_time), vec![field("Username", "<@42>")]);
}

#[test]
fn guild_mutes_embed() {
    let eb = get_guild_mutes_embed("G".to_string(), "none".to_string(), "<@3> until 12:00".to_string());
    assert_eq!(eb.color, Some(COLOR_PURPLE));
    assert_eq!(eb.title.as_deref(), Some("Mutes for G"));
    assert_eq!(eb.description.as_deref(), Some("All times are in UTC"));
    assert_eq!(eb.footer.as_deref(), Some("Please use ginfo for config info"));
    assert_eq!(
        fields(&eb),
        vec![field("Permanent mutes", "none"), field("Timed mutes", "<@3> until 12:00")]
    );
}

#[test]
fn channel_embed() {
    let eb = get_channel_embed(99, "Logging");
    assert_eq!(eb.color, Some(COLOR_PURPLE));
    assert_eq!(eb.title.as_deref(), Some("New Logging Channel"));
    assert_eq!(eb.description.as_deref(), Some("New channel: <#99>"));
    assert!(eb.fields.is_empty());
}

#[test]
fn new_member_embed() {
    let eb = get_new_member_embed("Hi {user}".to_string(), 5, "Welcome");
    assert_eq!(eb.color, Some(COLOR_PURPLE));
    assert_eq!(eb.title.as_deref(), Some("Welcome information"));
    assert_eq!(eb.description.as_deref(), Some("Current welcome/leave channel: <#5>"));
    assert_eq!(fields(&eb), vec![field("Message", "```Hi {user} \n```")]);
}

#[test]
fn welcome_roles_embed() {
    let eb = get_welcome_roles_embed(vec![10, 20]);
    assert_eq!(eb.color, Some(COLOR_PURPLE));
    assert_eq!(eb.title, None);
    assert_eq!(
        eb.description.as_deref(),
        Some("The following roles will be assigned to new joiners")
    );
    assert_eq!(fields(&eb), vec![field("<@&10>", ""), field("<@&20>", "")]);
    assert!(get_welcome_roles_embed(vec![]).fields.is_empty());
}
