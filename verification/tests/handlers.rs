use keyval_store::MAX_BODY_BYTES;
use keyval_store::app_state::AppState;
use keyval_store::db::DB;
use keyval_store::handlers::Status;
use keyval_store::handlers::accumulate_body;
use keyval_store::handlers::handle_get;
use keyval_store::handlers::handle_set_body;
use keyval_store::handlers::handle_set_url;

#[test]
fn test_example() {
    let mut state = AppState::new();
    let mut db = DB::new(":memory:").unwrap();
    let data_in = "456";
    let my_key = "test_example";
    handle_set_url(&mut state, &mut db, my_key, data_in);
    let res = handle_get(&mut state, &db, my_key);
    assert_eq!(data_in, res.body);
}

#[test]
fn test_post_url() {
    let mut state = AppState::new();
    let mut db = DB::new(":memory:").unwrap();
    let data_in = "789";
    let my_key = "test_post_url";
    handle_set_url(&mut state, &mut db, my_key, data_in);
    let data_out = handle_get(&mut state, &db, my_key).body;
    assert_eq!(data_in, data_out);
}

#[test]
fn test_post_body() {
    let mut state = AppState::new();
    let mut db = DB::new(":memory:").unwrap();
    let data_in = "987";
    let my_key = "test_post_body";
    let chunks = vec![data_in.as_bytes().to_vec()];
    handle_set_body(&mut state, &mut db, my_key, &chunks, false);
    let data_out = handle_get(&mut state, &db, my_key).body;
    assert_eq!(data_in, data_out);
}

#[test]
fn get_of_unwritten_key_is_empty_ok() {
    let mut state = AppState::new();
    let db = DB::new(":memory:").unwrap();
    let res = handle_get(&mut state, &db, "never-written");
    assert_eq!(res.status, Status::Okay);
    assert_eq!(res.status.code(), 200);
    assert_eq!(res.body, "");
}

#[test]
fn set_then_get_scenario() {
    let mut state = AppState::new();
    let mut db = DB::new(":memory:").unwrap();
    let set = handle_set_url(&mut state, &mut db, "foo", "bar");
    assert_eq!(set.status.code(), 200);
    let got = handle_get(&mut state, &db, "foo");
    assert_eq!(got.status.code(), 200);
    assert_eq!(got.body, "bar");
}

#[test]
fn post_body_then_get_scenario() {
    let mut state = AppState::new();
    let mut db = DB::new(":memory:").unwrap();
    let chunks = vec![b"baz".to_vec()];
    let set = handle_set_body(&mut state, &mut db, "foo", &chunks, false);
    assert_eq!(set.status.code(), 200);
    let got = handle_get(&mut state, &db, "foo");
    assert_eq!(got.status.code(), 200);
    assert_eq!(got.body, "baz");
}

#[test]
fn body_of_exactly_the_cap_is_stored() {
    let mut state = AppState::new();
    let mut db = DB::new(":memory:").unwrap();
    let chunks = vec![vec![b'a'; MAX_BODY_BYTES]];
    let res = handle_set_body(&mut state, &mut db, "big", &chunks, false);
    assert_eq!(res.status, Status::Okay);
    let got = handle_get(&mut state, &db, "big");
    assert_eq!(got.body.len(), MAX_BODY_BYTES);
    assert!(got.body.bytes().all(|b| b == b'a'));
}

#[test]
fn body_one_byte_over_the_cap_is_too_large() {
    let mut state = AppState::new();
    let mut db = DB::new(":memory:").unwrap();
    handle_set_url(&mut state, &mut db, "big", "prior");
    let chunks = vec![vec![b'a'; MAX_BODY_BYTES + 1]];
    let res = handle_set_body(&mut state, &mut db, "big", &chunks, false);
    assert_eq!(res.status, Status::PayloadTooLarge);
    assert_eq!(res.status.code(), 413);
    assert_eq!(handle_get(&mut state, &db, "big").body, "prior");
}

#[test]
fn oversized_body_in_chunks_is_too_large() {
    let mut state = AppState::new();
    let mut db = DB::new(":memory:").unwrap();
    let chunks = vec![vec![b'x'; MAX_BODY_BYTES / 2], vec![b'y'; MAX_BODY_BYTES / 2], vec![b'z']];
    let res = handle_set_body(&mut state, &mut db, "big", &chunks, false);
    assert_eq!(res.status, Status::PayloadTooLarge);
    assert_eq!(handle_get(&mut state, &db, "big").body, "");
}

#[test]
fn two_mib_body_is_rejected_and_prior_value_kept() {
    let mut state = AppState::new();
    let mut db = DB::new(":memory:").unwrap();
    handle_set_url(&mut state, &mut db, "foo", "kept");
    let chunks = vec![vec![b'b'; 2 * MAX_BODY_BYTES]];
    let res = handle_set_body(&mut state, &mut db, "foo", &chunks, false);
    assert_eq!(res.status.code(), 413);
    assert_eq!(handle_get(&mut state, &db, "foo").body, "kept");
}

#[test]
fn invalid_utf8_body_is_unprocessable_and_prior_value_kept() {
    let mut state = AppState::new();
    let mut db = DB::new(":memory:").unwrap();
    handle_set_url(&mut state, &mut db, "enc", "prior");
    let chunks = vec![vec![0xff, 0xfe, 0xfd]];
    let res = handle_set_body(&mut state, &mut db, "enc", &chunks, false);
    assert_eq!(res.status, Status::UnprocessableEntity);
    assert_eq!(res.status.code(), 422);
    assert_eq!(handle_get(&mut state, &db, "enc").body, "prior");
}

#[test]
fn multibyte_utf8_body_round_trips() {
    let mut state = AppState::new();
    let mut db = DB::new(":memory:").unwrap();
    let text = "héllo wörld ✓";
    let chunks = vec![text.as_bytes().to_vec()];
    let res = handle_set_body(&mut state, &mut db, "uni", &chunks, false);
    assert_eq!(res.status, Status::Okay);
    assert_eq!(handle_get(&mut state, &db, "uni").body, text);
}

#[test]
fn stream_error_yields_partial_content() {
    let mut state = AppState::new();
    let mut db = DB::new(":memory:").unwrap();
    handle_set_url(&mut state, &mut db, "s", "prior");
    let chunks = vec![b"half".to_vec()];
    let res = handle_set_body(&mut state, &mut db, "s", &chunks, true);
    assert_eq!(res.status, Status::PartialContent);
    assert_eq!(res.status.code(), 206);
    assert_eq!(handle_get(&mut state, &db, "s").body, "prior");
}

#[test]
fn cap_exceeded_before_stream_error_wins() {
    let mut state = AppState::new();
    let mut db = DB::new(":memory:").unwrap();
    let chunks = vec![vec![b'a'; MAX_BODY_BYTES + 1]];
    let res = handle_set_body(&mut state, &mut db, "s", &chunks, true);
    assert_eq!(res.status, Status::PayloadTooLarge);
}

#[test]
fn body_split_across_chunks_is_joined() {
    let mut state = AppState::new();
    let mut db = DB::new(":memory:").unwrap();
    let chunks = vec![b"abc".to_vec(), b"def".to_vec(), b"ghi".to_vec()];
    let res = handle_set_body(&mut state, &mut db, "joined", &chunks, false);
    assert_eq!(res.status, Status::Okay);
    assert_eq!(handle_get(&mut state, &db, "joined").body, "abcdefghi");
}

#[test]
fn handlers_bump_the_right_counters() {
    let mut state = AppState::new();
    let mut db = DB::new(":memory:").unwrap();
    handle_set_url(&mut state, &mut db, "k", "v");
    assert_eq!(state.get_writes(), 1);
    assert_eq!(state.get_reads(), 0);
    handle_get(&mut state, &db, "k");
    assert_eq!(state.get_writes(), 1);
    assert_eq!(state.get_reads(), 1);
    let chunks = vec![b"w".to_vec()];
    handle_set_body(&mut state, &mut db, "k", &chunks, false);
    assert_eq!(state.get_writes(), 2);
    assert_eq!(state.get_reads(), 1);
}

#[test]
fn accumulate_body_extends_and_refuses_past_the_cap() {
    let mut body: Vec<u8> = Vec::new();
    assert!(accumulate_body(&mut body, &b"abc".to_vec()));
    assert!(accumulate_body(&mut body, &b"de".to_vec()));
    assert_eq!(body, b"abcde".to_vec());
    let huge = vec![b'x'; MAX_BODY_BYTES];
    assert!(!accumulate_body(&mut body, &huge));
    assert_eq!(body, b"abcde".to_vec());
}
