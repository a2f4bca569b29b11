use backend::domain::{NewQaRun, NewQaRunError};
use backend::routes::CreateRunRequest;
use uuid::Uuid;

fn request(url: &str, key: &str, node: &str) -> CreateRunRequest {
    CreateRunRequest {
        project_id: Uuid::nil(),
        target_url: url.to_string(),
        figma_file_key: key.to_string(),
        figma_node_id: node.to_string(),
    }
}

#[test]
fn valid_request_becomes_a_new_run() {
    let project_id = Uuid::new_v4();
    let run = NewQaRun::try_from((
        request(" https://example.com ", "aBcD1234EfGh5678IjKl", "2345:2366"),
        project_id,
    ))
    .unwrap();
    assert_eq!(run.project_id, project_id);
    assert_eq!(run.target_url.as_ref(), "https://example.com");
    assert_eq!(run.figma_file_key.as_ref(), "aBcD1234EfGh5678IjKl");
    assert_eq!(run.figma_node_id.as_ref(), "2345:2366");
}

#[test]
fn bad_url_is_reported_first() {
    match NewQaRun::try_from((request("ftp://x", "file-key", "node-id"), Uuid::nil())) {
        Err(NewQaRunError::TargetUrlError(m)) => assert_eq!(m, "'ftp://x' must use http/https but got 'ftp'"),
        _ => panic!("expected a target URL error"),
    }
}

#[test]
fn bad_key_is_reported_before_node_id() {
    match NewQaRun::try_from((request("https://example.com", "file-key", "node-id"), Uuid::nil())) {
        Err(NewQaRunError::FigmaFileKeyError(m)) => assert_eq!(m, "file-key is not a valid figma key"),
        _ => panic!("expected a file key error"),
    }
}

#[test]
fn bad_node_id_is_reported() {
    match NewQaRun::try_from((request("https://example.com", "aBcD1234EfGh5678IjKl", "node-id"), Uuid::nil())) {
        Err(NewQaRunError::FigmaNodeIdError(m)) => {
            assert_eq!(m, "'node-id' is not a valid Figma node id (expected format 'number:number')")
        }
        _ => panic!("expected a node id error"),
    }
}
