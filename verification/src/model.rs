//! The Discord values that the bot's texts and embeds are built from.

use vstd::prelude::*;
use crate::text::{all_digits, decimal, digits_value, lemma_decimal_reads_back, push_decimal};

verus! {

/// A Discord user, as far as the bot reads one.
pub struct User {
    pub id: u64,
    pub name: String,
    pub discriminator: u16,
    pub avatar: Option<String>,
    pub bot: bool,
}

/// How Discord mentions the user with this id.
pub open spec fn user_mention_text(id: nat) -> Seq<char> {
    "<@"@ + decimal(id) + ">"@
}

/// How Discord mentions the channel with this id.
pub open spec fn channel_mention_text(id: nat) -> Seq<char> {
    "<#"@ + decimal(id) + ">"@
}

/// How Discord mentions the role with this id.
pub open spec fn role_mention_text(id: nat) -> Seq<char> {
    "<@&"@ + decimal(id) + ">"@
}

/// The extension of an avatar picture: animated hashes start with `a_`.
pub open spec fn avatar_extension(hash: Seq<char>) -> Seq<char> {
    if hash.len() >= 2 && hash[0] == 'a' && hash[1] == '_' {
        "gif"@
    } else {
        "webp"@
    }
}

/// The URL of the picture that Discord shows for a user: the user's own avatar
/// when there is one, else one of five default avatars chosen by discriminator.
pub open spec fn face_url(id: nat, avatar: Option<Seq<char>>, discriminator: nat) -> Seq<char> {
    match avatar {
        Some(hash) => "https://cdn.discordapp.com/avatars/"@ + decimal(id) + "/"@ + hash + "."@
            + avatar_extension(hash) + "?size=1024"@,
        None => "https://cdn.discordapp.com/embed/avatars/"@ + decimal(discriminator % 5) + ".png"@,
    }
}

/// Calls serenity's `User::face` on a user with this id, avatar hash and
/// discriminator. Its contract restates serenity 0.10's `avatar_url` and
/// `default_avatar_url`: the CDN avatar URL (`gif` for hashes starting with
/// `a_`, else `webp`, with `?size=1024`) when there is a hash, else the default
/// avatar numbered by the discriminator modulo five.
#[verifier::external_body]
fn serenity_face(id: u64, avatar: &Option<String>, discriminator: u16) -> (url: String)
    ensures
        url@ == face_url(id as nat, avatar.deep_view(), discriminator as nat),
{
    let mut user = serenity::model::user::User::default();
    user.id = serenity::model::id::UserId(id);
    user.avatar = avatar.clone();
    user.discriminator = discriminator;
    user.face()
}

/// The mention of the user with this id, `<@id>`.
pub fn user_mention(id: u64) -> (s: String)
    ensures
        s@ == user_mention_text(id as nat),
{
    proof {
        reveal_strlit("<@");
        reveal_strlit(">");
    }
    let mut s = String::from_str("<@");
    push_decimal(&mut s, id as u128);
    s.append(">");
    s
}

/// The mention of the channel with this id, `<#id>`.
pub fn channel_mention(id: u64) -> (s: String)
    ensures
        s@ == channel_mention_text(id as nat),
{
    proof {
        reveal_strlit("<#");
        reveal_strlit(">");
    }
    let mut s = String::from_str("<#");
    push_decimal(&mut s, id as u128);
    s.append(">");
    s
}

/// The mention of the role with this id, `<@&id>`.
pub fn role_mention(id: u64) -> (s: String)
    ensures
        s@ == role_mention_text(id as nat),
{
    proof {
        reveal_strlit("<@&");
        reveal_strlit(">");
    }
    let mut s = String::from_str("<@&");
    push_decimal(&mut s, id as u128);
    s.append(">");
    s
}

impl User {
    /// The mention of this user.
    pub fn mention(&self) -> (s: String)
        ensures
            s@ == user_mention_text(self.id as nat),
    {
        user_mention(self.id)
    }

    /// The URL of this user's picture.
    pub fn face(&self) -> (url: String)
        ensures
            url@ == face_url(self.id as nat, self.avatar.deep_view(), self.discriminator as nat),
    {
        serenity_face(self.id, &self.avatar, self.discriminator)
    }
}

/// A mention is its prefix, the digits of the id read back exactly, and `>`.
pub open spec fn mention_reads_back(text: Seq<char>, prefix: Seq<char>, id: nat) -> bool {
    &&& text.len() > prefix.len() + 1
    &&& text.take(prefix.len() as int) == prefix
    &&& text.last() == '>'
    &&& all_digits(text.subrange(prefix.len() as int, text.len() - 1))
    &&& digits_value(text.subrange(prefix.len() as int, text.len() - 1)) == id
}

/// User, channel and role mentions carry the whole id: `<@`, `<#` and `<@&`
/// followed by the id's digits, which read back as the id, and `>`.
pub proof fn lemma_mentions_read_back(id: u64)
    ensures
        mention_reads_back(user_mention_text(id as nat), "<@"@, id as nat),
        mention_reads_back(channel_mention_text(id as nat), "<#"@, id as nat),
        mention_reads_back(role_mention_text(id as nat), "<@&"@, id as nat),
{
    reveal_strlit("<@");
    reveal_strlit("<#");
    reveal_strlit("<@&");
    reveal_strlit(">");
    lemma_decimal_reads_back(id as nat);
    let d = decimal(id as nat);
    let u = user_mention_text(id as nat);
    let c = channel_mention_text(id as nat);
    let r = role_mention_text(id as nat);
    assert(u.take(2) =~= "<@"@);
    assert(u.subrange(2, u.len() - 1) =~= d);
    assert(c.take(2) =~= "<#"@);
    assert(c.subrange(2, c.len() - 1) =~= d);
    assert(r.take(3) =~= "<@&"@);
    assert(r.subrange(3, r.len() - 1) =~= d);
}

} // verus!
