use quivive::model::{channel_mention, role_mention, user_mention, User};
use serenity::model::id::UserId;
use serenity::model::misc::Mentionable;

fn user(id: u64, discriminator: u16, avatar: Option<&str>) -> User {
    User {
        id,
        name: "someone".to_string(),
        discriminator,
        avatar: avatar.map(|a| a.to_string()),
        bot: false,
    }
}

#[test]
fn mentions() {
    assert_eq!(user_mention(80351110224678912), "<@80351110224678912>");
    assert_eq!(channel_mention(381880193700069377), "<#381880193700069377>");
    assert_eq!(role_mention(42), "<@&42>");
    assert_eq!(user_mention(0), "<@0>");
}

#[test]
fn user_mention_matches_serenity() {
    let id = 123456789012345678u64;
    assert_eq!(user(id, 1, None).mention(), UserId(id).mention().to_string());
}

#[test]
fn face_with_avatar() {
    let u = user(210, 1432, Some("abc"));
    assert_eq!(u.face(), "https://cdn.discordapp.com/avatars/210/abc.webp?size=1024");
}

#[test]
fn face_with_animated_avatar() {
    let u = user(77, 3, Some("a_f00d"));
    assert_eq!(u.face(), "https://cdn.discordapp.com/avatars/77/a_f00d.gif?size=1024");
}

#[test]
fn face_without_avatar() {
    let u = user(77, 1432, None);
    assert_eq!(u.face(), "https://cdn.discordapp.com/embed/avatars/2.png");
    let v = user(77, 5, None);
    assert_eq!(v.face(), "https://cdn.discordapp.com/embed/avatars/0.png");
}
