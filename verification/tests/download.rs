use vault_client::download::{DownloadAction, DownloadEvent, DownloadPhase, DownloadTask};
use vault_client::json::JsonValue;

fn signing_body(url: &str) -> JsonValue {
    JsonValue::Obj(vec![(String::from("signed_url"), JsonValue::Str(String::from(url)))])
}

#[test]
fn successful_download_writes_exactly_the_fetched_bytes() {
    let (mut task, first) = DownloadTask::new(
        String::from("game-1"),
        String::from("game.zip"),
        String::from("Game One.zip"),
    );
    match first {
        DownloadAction::RequestSign { machine_name, filename } => {
            assert_eq!(machine_name, "game-1");
            assert_eq!(filename, "game.zip");
        },
        _ => panic!("expected a signing request first"),
    }

    let next = task.step(DownloadEvent::SignResponse(Ok(signing_body("https://signed/u"))));
    match next {
        Some(DownloadAction::FetchBytes { url }) => assert_eq!(url, "https://signed/u"),
        _ => panic!("expected a byte fetch after signing"),
    }

    let payload = vec![7u8; 1024];
    let next = task.step(DownloadEvent::BytesResponse(Ok(payload.clone())));
    match next {
        Some(DownloadAction::WriteFile { save_name, bytes }) => {
            assert_eq!(save_name, "Game One.zip");
            assert_eq!(bytes.len(), 1024);
            assert_eq!(bytes, payload);
        },
        _ => panic!("expected exactly one write after the bytes arrived"),
    }

    let next = task.step(DownloadEvent::WriteResponse(Ok(String::from("/downloads/Game One.zip"))));
    assert!(next.is_none());
    match &task.phase {
        DownloadPhase::Done(p) => assert_eq!(p, "/downloads/Game One.zip"),
        _ => panic!("expected the task to be done"),
    }
}

#[test]
fn failed_signing_call_aborts_without_any_write() {
    let (mut task, _first) = DownloadTask::new(
        String::from("game-2"),
        String::from("file.bin"),
        String::from("File.bin"),
    );
    let next = task.step(DownloadEvent::SignResponse(Err(String::from("network error"))));
    assert!(next.is_none());
    match &task.phase {
        DownloadPhase::Failed(e) => assert_eq!(e, "network error"),
        _ => panic!("expected the task to have failed"),
    }
}

#[test]
fn signing_body_without_signed_url_aborts() {
    let (mut task, _first) = DownloadTask::new(
        String::from("game-3"),
        String::from("file.bin"),
        String::from("File.bin"),
    );
    let next = task.step(DownloadEvent::SignResponse(Ok(JsonValue::Obj(Vec::new()))));
    assert!(next.is_none());
    assert!(matches!(task.phase, DownloadPhase::Failed(_)));
}

#[test]
fn signing_body_with_non_string_signed_url_aborts() {
    let (mut task, _first) = DownloadTask::new(
        String::from("game-4"),
        String::from("file.bin"),
        String::from("File.bin"),
    );
    let body = JsonValue::Obj(vec![(String::from("signed_url"), JsonValue::Other)]);
    let next = task.step(DownloadEvent::SignResponse(Ok(body)));
    assert!(next.is_none());
    assert!(matches!(task.phase, DownloadPhase::Failed(_)));
}

#[test]
fn failed_byte_fetch_aborts() {
    let (mut task, _first) = DownloadTask::new(
        String::from("game-5"),
        String::from("file.bin"),
        String::from("File.bin"),
    );
    task.step(DownloadEvent::SignResponse(Ok(signing_body("https://signed/v"))));
    let next = task.step(DownloadEvent::BytesResponse(Err(String::from("timed out"))));
    assert!(next.is_none());
    match &task.phase {
        DownloadPhase::Failed(e) => assert_eq!(e, "timed out"),
        _ => panic!("expected the task to have failed"),
    }
}

#[test]
fn failed_write_aborts() {
    let (mut task, _first) = DownloadTask::new(
        String::from("game-6"),
        String::from("file.bin"),
        String::from("File.bin"),
    );
    task.step(DownloadEvent::SignResponse(Ok(signing_body("https://signed/w"))));
    task.step(DownloadEvent::BytesResponse(Ok(vec![1, 2, 3])));
    let next = task.step(DownloadEvent::WriteResponse(Err(String::from("disk full"))));
    assert!(next.is_none());
    match &task.phase {
        DownloadPhase::Failed(e) => assert_eq!(e, "disk full"),
        _ => panic!("expected the task to have failed"),
    }
}
