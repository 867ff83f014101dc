//! The embeds that the bot posts for moderation events and configuration.

use vstd::prelude::*;
use crate::embed::{Embed, EmbedView, field_view};
use crate::model::{
    User, channel_mention, channel_mention_text, face_url, role_mention, role_mention_text,
    user_mention_text,
};
use crate::text::{push_signed_decimal, signed_decimal};

verus! {

/// Colour of embeds about punishments.
pub const COLOR_RED: u32 = 0xef5f5f;

/// Colour of embeds about lifted punishments.
pub const COLOR_GREEN: u32 = 0x5fefa7;

/// Colour of embeds about warnings and mutes.
pub const COLOR_ORANGE: u32 = 0xefa75f;

/// Colour of informational embeds.
pub const COLOR_PURPLE: u32 = 0xc76ae6;

/// The picture of a user.
pub open spec fn face_of(user: &User) -> Seq<char> {
    face_url(user.id as nat, user.avatar.deep_view(), user.discriminator as nat)
}

/// `a + b`.
fn concat2(a: &str, b: &str) -> (s: String)
    ensures
        s@ == a@ + b@,
{
    let mut s = String::from_str(a);
    s.append(b);
    s
}

/// `a + b + c`.
fn concat3(a: &str, b: &str, c: &str) -> (s: String)
    ensures
        s@ == a@ + b@ + c@,
{
    let mut s = String::from_str(a);
    s.append(b);
    s.append(c);
    s
}

/// The embed announcing that `user` was banned.
pub fn get_ban_embed(user: &User, reason: &str, use_id: bool) -> (eb: Embed)
    ensures
        eb@ == (EmbedView {
            color: Some(COLOR_RED),
            title: Some(if use_id { "User Banned by ID"@ } else { "User Banned"@ }),
            description: None,
            thumbnail: Some(face_of(user)),
            footer: None,
            fields: seq![
                field_view("Username"@, user_mention_text(user.id as nat), false),
                field_view("Reason"@, reason@, false),
            ],
        }),
{
    let mut eb = Embed::new();
    eb.color(COLOR_RED);
    eb.title(String::from_str(if use_id { "User Banned by ID" } else { "User Banned" }));
    eb.thumbnail(user.face());
    eb.field(String::from_str("Username"), user.mention(), false);
    eb.field(String::from_str("Reason"), String::from_str(reason), false);
    eb
}

/// The embed announcing that `user` was unbanned.
pub fn get_unban_embed(user: &User, use_id: bool) -> (eb: Embed)
    ensures
        eb@ == (EmbedView {
            color: Some(COLOR_GREEN),
            title: Some(if use_id { "User Unbanned by ID"@ } else { "User Unbanned"@ }),
            description: None,
            thumbnail: Some(face_of(user)),
            footer: None,
            fields: seq![field_view("Username"@, user_mention_text(user.id as nat), false)],
        }),
{
    let mut eb = Embed::new();
    eb.color(COLOR_GREEN);
    eb.title(String::from_str(if use_id { "User Unbanned by ID" } else { "User Unbanned" }));
    eb.thumbnail(user.face());
    eb.field(String::from_str("Username"), user.mention(), false);
    eb
}

/// The embed announcing that `user` was kicked.
pub fn get_kick_embed(user: &User, reason: &str, use_id: bool) -> (eb: Embed)
    ensures
        eb@ == (EmbedView {
            color: Some(COLOR_RED),
            title: Some(if use_id { "User Kicked by ID"@ } else { "User Kicked"@ }),
            description: None,
            thumbnail: Some(face_of(user)),
            footer: None,
            fields: seq![
                field_view("Username"@, user_mention_text(user.id as nat), false),
                field_view("Reason"@, reason@, false),
            ],
        }),
{
    let mut eb = Embed::new();
    eb.color(COLOR_RED);
    eb.title(String::from_str(if use_id { "User Kicked by ID" } else { "User Kicked" }));
    eb.thumbnail(user.face());
    eb.field(String::from_str("Username"), user.mention(), false);
    eb.field(String::from_str("Reason"), String::from_str(reason), false);
    eb
}

/// The embed announcing that `user` was warned, with the user's warn count.
pub fn get_warn_embed(user: &User, warn_count: i32, reason: &str) -> (eb: Embed)
    ensures
        eb@ == (EmbedView {
            color: Some(COLOR_ORANGE),
            title: Some("User Warned"@),
            description: None,
            thumbnail: Some(face_of(user)),
            footer: None,
            fields: seq![
                field_view("Username"@, user_mention_text(user.id as nat), false),
                field_view("Warn Count"@, signed_decimal(warn_count as int), false),
                field_view("Reason"@, reason@, false),
            ],
        }),
{
    let mut eb = Embed::new();
    eb.color(COLOR_ORANGE);
    eb.title(String::from_str("User Warned"));
    eb.thumbnail(user.face());
    eb.field(String::from_str("Username"), user.mention(), false);
    let mut count = String::new();
    push_signed_decimal(&mut count, warn_count as i64);
    eb.field(String::from_str("Warn Count"), count, false);
    eb.field(String::from_str("Reason"), String::from_str(reason), false);
    eb
}

/// The embed announcing that `user` was pardoned, with the user's warn count.
pub fn get_pardon_embed(user: &User, warn_count: i32) -> (eb: Embed)
    ensures
        eb@ == (EmbedView {
            color: Some(COLOR_GREEN),
            title: Some("User Pardoned"@),
            description: None,
            thumbnail: Some(face_of(user)),
            footer: None,
            fields: seq![
                field_view("Username"@, user_mention_text(user.id as nat), false),
                field_view("Warn Count"@, signed_decimal(warn_count as int), false),
            ],
        }),
{
    let mut eb = Embed::new();
    eb.color(COLOR_GREEN);
    eb.title(String::from_str("User Pardoned"));
    eb.thumbnail(user.face());
    eb.field(String::from_str("Username"), user.mention(), false);
    let mut count = String::new();
    push_signed_decimal(&mut count, warn_count as i64);
    eb.field(String::from_str("Warn Count"), count, false);
    eb
}

/// The embed listing the warns of a guild.
pub fn get_guild_warns_embed(guild_name: String, warns_string: String) -> (eb: Embed)
    ensures
        eb@ == (EmbedView {
            color: Some(COLOR_PURPLE),
            title: Some("Warns for "@ + guild_name@),
            description: Some(warns_string@),
            thumbnail: None,
            footer: Some("If a mention has an invalid user, consider removing the warns!"@),
            fields: Seq::empty(),
        }),
{
    let mut eb = Embed::new();
    eb.color(COLOR_PURPLE);
    eb.title(concat2("Warns for ", guild_name.as_str()));
    eb.description(warns_string);
    eb.footer(String::from_str("If a mention has an invalid user, consider removing the warns!"));
    eb
}

/// The embed announcing that `user` was muted (`new_mute`) or unmuted, and
/// whether the mute expires after `mute_time`.
pub fn get_mute_embed(user: &User, new_mute: bool, use_time: bool, mute_time: Option<&str>) -> (eb:
    Embed)
    requires
        use_time ==> mute_time is Some,
    ensures
        eb@ == (EmbedView {
            color: Some(if new_mute { COLOR_ORANGE } else { COLOR_GREEN }),
            title: Some(if new_mute { "User Muted"@ } else { "User Unmuted"@ }),
            description: Some(
                if use_time {
                    "This mute will expire after the given time"@
                } else {
                    "This mute can only be removed by an admin"@
                },
            ),
            thumbnail: Some(face_of(user)),
            footer: None,
            fields: if use_time {
                seq![
                    field_view("Username"@, user_mention_text(user.id as nat), false),
                    field_view("Mute Length"@, mute_time.unwrap()@, false),
                ]
            } else {
                seq![field_view("Username"@, user_mention_text(user.id as nat), false)]
            },
        }),
{
    let mut eb = Embed::new();
    eb.color(if new_mute { COLOR_ORANGE } else { COLOR_GREEN });
    eb.title(String::from_str(if new_mute { "User Muted" } else { "User Unmuted" }));
    eb.thumbnail(user.face());
    eb.description(
        String::from_str(
            if use_time {
                "This mute will expire after the given time"
            } else {
                "This mute can only be removed by an admin"
            },
        ),
    );
    eb.field(String::from_str("Username"), user.mention(), false);
    if use_time {
        match mute_time {
            Some(time) => eb.field(String::from_str("Mute Length"), String::from_str(time), false),
            None => {},
        }
    }
    eb
}

/// The embed listing the permanent and the timed mutes of a guild.
pub fn get_guild_mutes_embed(
    guild_name: String,
    permanent_mute_string: String,
    timed_mute_string: String,
) -> (eb: Embed)
    ensures
        eb@ == (EmbedView {
            color: Some(COLOR_PURPLE),
            title: Some("Mutes for "@ + guild_name@),
            description: Some("All times are in UTC"@),
            thumbnail: None,
            footer: Some("Please use ginfo for config info"@),
            fields: seq![
                field_view("Permanent mutes"@, permanent_mute_string@, false),
                field_view("Timed mutes"@, timed_mute_string@, false),
            ],
        }),
{
    let mut eb = Embed::new();
    eb.color(COLOR_PURPLE);
    eb.title(concat2("Mutes for ", guild_name.as_str()));
    eb.description(String::from_str("All times are in UTC"));
    eb.field(String::from_str("Permanent mutes"), permanent_mute_string, false);
    eb.field(String::from_str("Timed mutes"), timed_mute_string, false);
    eb.footer(String::from_str("Please use ginfo for config info"));
    eb
}

/// The embed announcing a new channel of the given type.
pub fn get_channel_embed(channel_id: u64, channel_type: &str) -> (eb: Embed)
    ensures
        eb@ == (EmbedView {
            color: Some(COLOR_PURPLE),
            title: Some("New "@ + channel_type@ + " Channel"@),
            description: Some("New channel: "@ + channel_mention_text(channel_id as nat)),
            thumbnail: None,
            footer: None,
            fields: Seq::empty(),
        }),
{
    let mut eb = Embed::new();
    eb.color(COLOR_PURPLE);
    eb.title(concat3("New ", channel_type, " Channel"));
    let mention = channel_mention(channel_id);
    eb.description(concat2("New channel: ", mention.as_str()));
    eb
}

/// The embed showing a welcome or leave message and the channel it goes to.
pub fn get_new_member_embed(msg: String, channel_id: u64, message_type: &str) -> (eb: Embed)
    ensures
        eb@ == (EmbedView {
            color: Some(COLOR_PURPLE),
            title: Some(message_type@ + " information"@),
            description: Some(
                "Current welcome/leave channel: "@ + channel_mention_text(channel_id as nat),
            ),
            thumbnail: None,
            footer: None,
            fields: seq![field_view("Message"@, "```"@ + msg@ + " \n```"@, false)],
        }),
{
    let mut eb = Embed::new();
    eb.color(COLOR_PURPLE);
    eb.title(concat2(message_type, " information"));
    let mention = channel_mention(channel_id);
    eb.description(concat2("Current welcome/leave channel: ", mention.as_str()));
    eb.field(String::from_str("Message"), concat3("```", msg.as_str(), " \n```"), false);
    eb
}

/// The fields that list these roles: one field per role, named by its mention.
pub open spec fn role_fields(role_ids: Seq<u64>) -> Seq<crate::embed::FieldView> {
    role_ids.map_values(|id: u64| field_view(role_mention_text(id as nat), ""@, false))
}

/// The embed listing the roles given to new members.
pub fn get_welcome_roles_embed(role_ids: Vec<u64>) -> (eb: Embed)
    ensures
        eb@ == (EmbedView {
            color: Some(COLOR_PURPLE),
            title: None,
            description: Some("The following roles will be assigned to new joiners"@),
            thumbnail: None,
            footer: None,
            fields: role_fields(role_ids@),
        }),
        eb@.fields.len() == role_ids@.len(),
        forall|i: int|
            0 <= i < role_ids@.len() ==> #[trigger] eb@.fields[i] == field_view(
                "<@&"@ + crate::text::decimal(role_ids@[i] as nat) + ">"@,
                ""@,
                false,
            ),
{
    let mut eb = Embed::new();
    eb.color(COLOR_PURPLE);
    eb.description(String::from_str("The following roles will be assigned to new joiners"));
    let n = role_ids.len();
    let mut i: usize = 0;
    while i < n
        invariant
            n == role_ids@.len(),
            i <= n,
            eb@ == (EmbedView {
                color: Some(COLOR_PURPLE),
                title: None,
                description: Some("The following roles will be assigned to new joiners"@),
                thumbnail: None,
                footer: None,
                fields: role_fields(role_ids@.take(i as int)),
            }),
        decreases n - i,
    {
        eb.field(role_mention(role_ids[i]), String::from_str(""), false);
        proof {
            assert(role_fields(role_ids@.take(i + 1)) =~= role_fields(role_ids@.take(i as int)).push(
                field_view(role_mention_text(role_ids@[i as int] as nat), ""@, false),
            ));
        }
        i = i + 1;
    }
    eb
}

} // verus!
