use brainzbot::api::{get_user, ApiError, User};
use brainzbot::json::JsonValue;
use brainzbot::playing::{nowplaying_render, nowplaying_request, NowPlayingRender};

fn playing_body(metadata: Vec<(String, JsonValue)>) -> JsonValue {
    JsonValue::Object(vec![(
        "payload".to_string(),
        JsonValue::Object(vec![(
            "listens".to_string(),
            JsonValue::Array(vec![JsonValue::Object(vec![(
                "track_metadata".to_string(),
                JsonValue::Object(metadata),
            )])]),
        )]),
    )])
}

fn full_metadata() -> Vec<(String, JsonValue)> {
    vec![
        ("track_name".to_string(), JsonValue::Str("Paranoid".to_string())),
        ("recording_mbid".to_string(), JsonValue::Str("rec-1".to_string())),
        ("artist_name".to_string(), JsonValue::Str("Black Sabbath".to_string())),
        (
            "artist_mbids".to_string(),
            JsonValue::Array(vec![JsonValue::Str("art-1".to_string())]),
        ),
    ]
}

#[test]
fn an_unlinked_user_asks_nothing() {
    assert_eq!(nowplaying_request(&None), None);
}

#[test]
fn a_linked_user_asks_for_the_playing_now_resource() {
    let user = get_user(Some("tok".to_string()), Some("alice".to_string()));
    assert_eq!(nowplaying_request(&user), Some("user/alice/playing-now".to_string()));
}

#[test]
fn an_absent_resource_renders_not_listening() {
    let r = nowplaying_render("alice", Ok(None));
    assert_eq!(r, NowPlayingRender::NotListening { username: "alice".to_string() });
}

#[test]
fn a_full_body_renders_the_track_and_artist() {
    let r = nowplaying_render("alice", Ok(Some(playing_body(full_metadata()))));
    assert_eq!(
        r,
        NowPlayingRender::Listening {
            username: "alice".to_string(),
            track_name: "Paranoid".to_string(),
            track_url: "https://listenbrainz.org/track/rec-1".to_string(),
            artist_name: "Black Sabbath".to_string(),
            artist_url: "https://listenbrainz.org/artist/art-1".to_string(),
        }
    );
}

#[test]
fn a_missing_field_renders_a_generic_failure() {
    let mut metadata = full_metadata();
    metadata.retain(|(k, _)| k != "track_name");
    assert_eq!(
        nowplaying_render("alice", Ok(Some(playing_body(metadata)))),
        NowPlayingRender::QueryFailed
    );

    let mut metadata = full_metadata();
    metadata.retain(|(k, _)| k != "artist_mbids");
    assert_eq!(
        nowplaying_render("alice", Ok(Some(playing_body(metadata)))),
        NowPlayingRender::QueryFailed
    );

    let mut metadata = full_metadata();
    metadata[3] = ("artist_mbids".to_string(), JsonValue::Array(vec![]));
    assert_eq!(
        nowplaying_render("alice", Ok(Some(playing_body(metadata)))),
        NowPlayingRender::QueryFailed
    );
}

#[test]
fn a_wrongly_shaped_body_renders_a_generic_failure() {
    assert_eq!(
        nowplaying_render("alice", Ok(Some(JsonValue::Object(vec![])))),
        NowPlayingRender::QueryFailed
    );
    assert_eq!(
        nowplaying_render("alice", Ok(Some(JsonValue::Str("odd".to_string())))),
        NowPlayingRender::QueryFailed
    );
    let body = JsonValue::Object(vec![(
        "payload".to_string(),
        JsonValue::Object(vec![("listens".to_string(), JsonValue::Array(vec![]))]),
    )]);
    assert_eq!(nowplaying_render("alice", Ok(Some(body))), NowPlayingRender::QueryFailed);
}

#[test]
fn an_error_renders_a_generic_failure() {
    assert_eq!(
        nowplaying_render("alice", Err(ApiError::RateLimited(5))),
        NowPlayingRender::QueryFailed
    );
    assert_eq!(
        nowplaying_render("alice", Err(ApiError::ConnectionError("reset".to_string()))),
        NowPlayingRender::QueryFailed
    );
}

#[test]
fn the_not_linked_render_exists_for_missing_users() {
    let user: Option<User> = get_user(None, None);
    assert_eq!(nowplaying_request(&user), None);
    assert_eq!(NowPlayingRender::NotLinked, NowPlayingRender::NotLinked);
}
