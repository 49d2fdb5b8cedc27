use std::io::Write;

use garmin_client::archive::ArchiveError;
use garmin_client::fetch::{
    build_api_request, process_binary_response, process_text_response, refresh_action,
    BinaryOutcome, TextOutcome,
};
use garmin_client::flow::LoginAction;
use garmin_client::tokens::{parse_oauth2_response, OAuth2Token, OAuth2TokenWrapper};

const NOW: u64 = 1_700_000_000;

fn fresh_wrapper() -> OAuth2TokenWrapper {
    let mut token: OAuth2Token = Default::default();
    token.access_token = String::from("AT-1");
    OAuth2TokenWrapper {
        oauth2_token: token,
        expires_at: NOW + 10,
        refresh_token_expires_at: NOW + 10,
    }
}

fn zip_of(members: &[(&str, &[u8])]) -> Vec<u8> {
    let cursor = std::io::Cursor::new(Vec::new());
    let mut writer = zip::ZipWriter::new(cursor);
    let options = zip::write::SimpleFileOptions::default();
    for (name, contents) in members {
        writer.start_file(*name, options).unwrap();
        writer.write_all(contents).unwrap();
    }
    writer.finish().unwrap().into_inner()
}

#[test]
fn api_request_carries_bearer_and_params() {
    let w = fresh_wrapper();
    let params = vec![(String::from("start"), String::from("0")), (String::from("limit"), String::from("5"))];
    let req = build_api_request(&w, "activitylist-service/activities/search/activities", params.clone(), NOW);
    assert_eq!(req.url, "https://connectapi.garmin.com/activitylist-service/activities/search/activities");
    assert_eq!(req.bearer, "Bearer AT-1");
    assert_eq!(req.params, params);
}

#[test]
fn expired_token_triggers_exactly_one_refresh() {
    // The cached token's expiry is already past: the pipeline runs one
    // more exchange before the data request goes out, and only one.
    let mut w = fresh_wrapper();
    w.expires_at = NOW - 5;
    let mut exchanges = 0;
    if w.is_expired(NOW) {
        exchanges += 1;
        let action = refresh_action("CK", "CS", "OT", "OS");
        match action {
            LoginAction::PostSigned { url, token_key, token_secret, .. } => {
                assert_eq!(url, "https://connectapi.garmin.com/oauth-service/oauth/exchange/user/2.0");
                assert_eq!(token_key.as_deref(), Some("OT"));
                assert_eq!(token_secret.as_deref(), Some("OS"));
            }
            other => panic!("unexpected action: {:?}", other),
        }
        let body = "{\"scope\":\"s\",\"jti\":\"j\",\"access_token\":\"AT-2\",\
                    \"token_type\":\"Bearer\",\"refresh_token\":\"RT\",\
                    \"expires_in\":3600,\"refresh_token_expires_in\":7200}";
        w = parse_oauth2_response(body, NOW).unwrap();
    }
    if w.is_expired(NOW) {
        exchanges += 1;
    }
    assert_eq!(exchanges, 1);
    let req = build_api_request(&w, "some/endpoint", Vec::new(), NOW);
    assert_eq!(req.bearer, "Bearer AT-2");
}

#[test]
fn text_mode_saves_pretty_json() {
    match process_text_response("{\"a\":1}", true) {
        TextOutcome::Saved { pretty } => assert_eq!(pretty, "{\n  \"a\": 1\n}"),
        other => panic!("unexpected outcome: {:?}", other),
    }
}

#[test]
fn text_mode_without_path_keeps_body() {
    assert_eq!(process_text_response("{\"a\":1}", false), TextOutcome::Kept);
    assert_eq!(process_text_response("anything", false), TextOutcome::Kept);
}

#[test]
fn text_mode_empty_body_writes_nothing() {
    assert_eq!(process_text_response("", true), TextOutcome::EmptyBody);
}

#[test]
fn text_mode_invalid_json_is_hard_failure() {
    assert_eq!(process_text_response("not json", true), TextOutcome::MalformedJson);
    assert_eq!(process_text_response("[1, 2]", true), TextOutcome::MalformedJson);
}

#[test]
fn binary_mode_extracts_all_members() {
    let bytes = zip_of(&[("a_ACTIVITY.fit", b"fit-bytes-1"), ("notes.txt", b"hello")]);
    match process_binary_response(&bytes, true) {
        BinaryOutcome::Extracted { members } => {
            assert_eq!(members.len(), 2);
            assert_eq!(members[0].0, "a_ACTIVITY.fit");
            assert_eq!(members[0].1, b"fit-bytes-1");
            assert_eq!(members[1].0, "notes.txt");
            assert_eq!(members[1].1, b"hello");
            // A nonempty archive yields members whose combined length
            // exceeds zero.
            let total: usize = members.iter().map(|m| m.1.len()).sum();
            assert!(total > 0);
        }
        other => panic!("unexpected outcome: {:?}", other),
    }
}

#[test]
fn binary_mode_corrupt_archive_yields_no_members() {
    // All or nothing: a payload that is not an archive hands out no
    // member at all.
    let bytes: Vec<u8> = b"this is not an archive".to_vec();
    match process_binary_response(&bytes, true) {
        BinaryOutcome::ArchiveFailed { error } => assert_eq!(error, ArchiveError::OpenFailed),
        other => panic!("unexpected outcome: {:?}", other),
    }
}

#[test]
fn binary_mode_truncated_member_yields_no_members() {
    let mut bytes = zip_of(&[("big.fit", &[7u8; 4096])]);
    // Corrupt the compressed data while keeping the central directory
    // intact: the archive opens, the member does not decompress.
    bytes[30] ^= 0xff;
    bytes[40] ^= 0xff;
    bytes[50] ^= 0xff;
    match process_binary_response(&bytes, true) {
        BinaryOutcome::ArchiveFailed { error } => assert_eq!(error, ArchiveError::ExtractFailed),
        BinaryOutcome::Extracted { .. } => panic!("corrupt member must not extract"),
        other => panic!("unexpected outcome: {:?}", other),
    }
}

#[test]
fn binary_mode_zero_chunks_is_a_warning_not_an_error() {
    let empty: Vec<u8> = Vec::new();
    assert_eq!(process_binary_response(&empty, true), BinaryOutcome::Empty);
}

#[test]
fn binary_mode_without_path_discards() {
    let bytes = zip_of(&[("a.fit", b"x")]);
    assert_eq!(process_binary_response(&bytes, false), BinaryOutcome::Discarded);
}

#[test]
fn binary_mode_empty_archive_extracts_nothing() {
    let bytes = zip_of(&[]);
    match process_binary_response(&bytes, true) {
        BinaryOutcome::Extracted { members } => assert!(members.is_empty()),
        other => panic!("unexpected outcome: {:?}", other),
    }
}
