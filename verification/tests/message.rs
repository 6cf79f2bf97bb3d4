use brainzbot::flow::Render;
use brainzbot::message::message_for;

#[test]
fn the_welcome_text_names_the_settings_page() {
    let m = message_for(&Render::Welcome);
    assert_eq!(m.title, "Welcome to Brainzbot");
    assert!(m.description.contains("https://listenbrainz.org/settings/"));
    assert_eq!(m.footer, None);
}

#[test]
fn the_no_token_text_invites_a_restart() {
    let m = message_for(&Render::NoTokenProvided);
    assert_eq!(m.title, "Failed");
    assert_eq!(m.description, "No token was provided. Please run `/login` again");
}

#[test]
fn the_verifying_text_asks_for_patience() {
    let m = message_for(&Render::VerifyingToken);
    assert_eq!(m.title, "Verifying token");
    assert_eq!(m.description, "Please wait while we verifying your token");
}

#[test]
fn the_success_footer_names_the_username() {
    let m = message_for(&Render::Success { username: "alice".to_string() });
    assert_eq!(m.title, "Success");
    assert_eq!(m.description, "You have successfully logged into ListenBrainz");
    assert_eq!(m.footer, Some("Username: alice".to_string()));
}

#[test]
fn the_invalid_token_text_asks_for_the_correct_token() {
    let m = message_for(&Render::InvalidToken);
    assert_eq!(m.title, "Failed");
    assert_eq!(
        m.description,
        "Please make sure you entered the correct token and run `/login` again"
    );
}

#[test]
fn the_countdown_embeds_the_resume_time() {
    let m = message_for(&Render::RateLimitCountdown { resume_at: 1005 });
    assert_eq!(m.title, "Failed");
    assert_eq!(m.description, "Too fast! Please try again <t:1005:R>");
}

#[test]
fn the_connection_text_carries_the_diagnostic() {
    let m = message_for(&Render::ConnectionFailed { detail: "connection reset".to_string() });
    assert_eq!(m.description, "Something is wrong with the connection: connection reset");
}

#[test]
fn the_unknown_failure_text_is_generic() {
    let m = message_for(&Render::UnknownFailure);
    assert_eq!(m.description, "Something unknown error occured");
}

#[test]
fn the_unclassified_status_text_surfaces_the_code() {
    let m = message_for(&Render::UnexpectedStatus { code: 503 });
    assert_eq!(m.description, "The service answered with status 503");
}

#[test]
fn the_store_failure_text_is_a_failure() {
    let m = message_for(&Render::StoreFailed);
    assert_eq!(m.title, "Failed");
    assert_eq!(
        m.description,
        "Your token was verified but could not be saved. Please run `/login` again"
    );
}
