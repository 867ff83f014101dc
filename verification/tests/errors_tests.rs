use quivive::structures::errors::{PermissionType, QVError};

#[test]
fn self_permission_message() {
    assert_eq!(
        PermissionType::SelfPerm("moderator").to_string(),
        "You can't execute this command - you're not a moderator on this server"
    );
}

#[test]
fn mention_permission_message() {
    assert_eq!(
        PermissionType::Mention("ban", "administrator").to_string(),
        "I can't ban a(n) administrator! Please demote the user first, or enable auto demotion"
    );
}

#[test]
fn error_messages() {
    assert_eq!(
        QVError::PermissionError(PermissionType::SelfPerm("admin")).to_string(),
        "You can't execute this command - you're not a admin on this server"
    );
    assert_eq!(QVError::InvalidArgumentError("time").to_string(), "Invalid argument: time!");
    assert_eq!(
        QVError::InvalidTargetError("kick").to_string(),
        "Running kick against yourself is not permitted."
    );
    assert_eq!(
        QVError::FailError("Muting").to_string(),
        "Muting failed. Make sure you've followed the setup guide."
    );
    assert_eq!(QVError::InternalError("database gone").to_string(), "database gone");
}
