use crabify::callback::extract_auth_code;
use crabify::error::AppError;
use crabify::uri::{last_segment, parse_play_context, str_contains_sub, ContextKind};

#[test]
fn parse_playlist_context() {
    match parse_play_context("spotify:playlist:37i9dQZF1DXcBWIGoYBM5M") {
        Ok((kind, id)) => {
            assert_eq!(kind, ContextKind::Playlist);
            assert_eq!(id, "37i9dQZF1DXcBWIGoYBM5M");
        }
        Err(e) => panic!("unexpected error {}", e),
    }
}

#[test]
fn parse_album_context() {
    match parse_play_context("spotify:album:abc123") {
        Ok((kind, id)) => {
            assert_eq!(kind, ContextKind::Album);
            assert_eq!(id, "abc123");
        }
        Err(e) => panic!("unexpected error {}", e),
    }
}

#[test]
fn parse_artist_context() {
    match parse_play_context("spotify:artist:xyz") {
        Ok((kind, id)) => {
            assert_eq!(kind, ContextKind::Artist);
            assert_eq!(id, "xyz");
        }
        Err(e) => panic!("unexpected error {}", e),
    }
}

#[test]
fn parse_unsupported_context() {
    match parse_play_context("spotify:show:123") {
        Err(m) => assert_eq!(m, "Unsupported context URI: spotify:show:123"),
        Ok(v) => panic!("expected error, got {:?}", v),
    }
}

#[test]
fn last_segment_of_uris() {
    assert_eq!(last_segment("spotify:track:abc"), "abc");
    assert_eq!(last_segment("plain"), "plain");
    assert_eq!(last_segment("ends:with:"), "");
    assert_eq!(last_segment(""), "");
}

#[test]
fn substring_search() {
    assert!(str_contains_sub("spotify:playlist:id", ":playlist:"));
    assert!(!str_contains_sub("spotify:album:id", ":playlist:"));
    assert!(str_contains_sub("abc", ""));
    assert!(!str_contains_sub("ab", "abc"));
    assert!(str_contains_sub("aab", "ab"));
}

#[test]
fn extracts_code_from_callback_url() {
    let url = "http://127.0.0.1:8888/callback?state=xyz&code=AQDtoken42&foo=bar";
    assert_eq!(extract_auth_code(url).as_deref(), Some("AQDtoken42"));
}

#[test]
fn callback_url_without_code_yields_none() {
    assert_eq!(extract_auth_code("http://127.0.0.1:8888/callback?state=xyz"), None);
    assert_eq!(extract_auth_code("not a url at all"), None);
}

#[test]
fn callback_url_decodes_percent_escapes() {
    let url = "http://127.0.0.1:8888/callback?code=a%20b";
    assert_eq!(extract_auth_code(url).as_deref(), Some("a b"));
}

#[test]
fn error_messages() {
    assert_eq!(AppError::Auth("denied".to_string()).message(), "Authentication failed: denied");
    assert_eq!(AppError::Api("500".to_string()).message(), "Spotify API error: 500");
    assert_eq!(
        AppError::NoActiveDevice.message(),
        "No active Spotify device found. Open Spotify on a device and try again."
    );
    assert_eq!(AppError::Config("bad".to_string()).message(), "Configuration error: bad");
    assert_eq!(AppError::Io("io".to_string()).message(), "io");
    assert_eq!(AppError::Other("x".to_string()).message(), "x");
}
