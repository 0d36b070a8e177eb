use audio_tldr::identity::ForwardOrigin;
use audio_tldr::identity::resolve_identity;

#[test]
fn forwarded_with_sender_name_wins() {
    let name = resolve_identity(
        Some(String::from("bob")),
        Some(ForwardOrigin::SenderName { name: String::from("Anna") }),
    );
    assert_eq!(name, "Anna");
}

#[test]
fn forwarded_from_user_with_username() {
    let name = resolve_identity(
        Some(String::from("bob")),
        Some(ForwardOrigin::User { username: Some(String::from("carol")) }),
    );
    assert_eq!(name, "carol");
}

#[test]
fn forwarded_from_chat_falls_back_to_sender() {
    let name = resolve_identity(Some(String::from("bob")), Some(ForwardOrigin::Chat));
    assert_eq!(name, "bob");
}

#[test]
fn forwarded_from_user_without_username_falls_back_to_sender() {
    let name = resolve_identity(
        Some(String::from("bob")),
        Some(ForwardOrigin::User { username: None }),
    );
    assert_eq!(name, "bob");
}

#[test]
fn direct_with_username() {
    let name = resolve_identity(Some(String::from("dave")), None);
    assert_eq!(name, "dave");
}

#[test]
fn direct_without_username_uses_fallback() {
    let name = resolve_identity(None, None);
    assert_eq!(name, "Nutzer");
}

#[test]
fn forwarded_from_chat_without_sender_uses_fallback() {
    let name = resolve_identity(None, Some(ForwardOrigin::Chat));
    assert_eq!(name, "Nutzer");
}
