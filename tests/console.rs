use wlrs_relay::console::{classify, classify_output, whitelist_command, Status};

#[test]
fn classify_reference_outputs() {
    assert_eq!(classify_output(""), Status::ServerDown);
    assert_eq!(classify_output("Added bob"), Status::Success);
    assert_eq!(classify_output("Player is already whitelisted"), Status::AlreadyWhitelisted);
    assert_eq!(classify_output("That player does not exist"), Status::PlayerNotFound);
    assert_eq!(classify_output("garbage text"), Status::Unexpected);
}

#[test]
fn classify_other_prefixes() {
    assert_eq!(classify_output("Incorrect argument for command\n"), Status::PlayerNotFound);
    assert_eq!(classify_output("Adde"), Status::Unexpected);
    assert_eq!(classify_output(" Added bob"), Status::Unexpected);
}

#[test]
fn classify_raw_output() {
    assert_eq!(classify(b""), Status::ServerDown);
    assert_eq!(classify(b"Added bob to the whitelist"), Status::Success);
    assert_eq!(classify(b"Player is already whitelisted"), Status::AlreadyWhitelisted);
    assert_eq!(classify(b"That player does not exist"), Status::PlayerNotFound);
    assert_eq!(classify(b"Added \xff"), Status::Unexpected);
}

#[test]
fn status_codes_on_the_wire() {
    assert_eq!(Status::ServerDown.code(), 0);
    assert_eq!(Status::PlayerNotFound.code(), 1);
    assert_eq!(Status::AlreadyWhitelisted.code(), 2);
    assert_eq!(Status::Success.code(), 3);
    assert_eq!(Status::IncorrectPassword.code(), 4);
    assert_eq!(Status::Unexpected.code(), 255);
}

#[test]
fn command_text() {
    assert_eq!(whitelist_command("bob"), "whitelist add bob");
}
