use http_tester::storage::{load_plan, save_plan, FileWrite, Operation, StoreError};

#[test]
fn dismissed_save_dialog_is_cancelled() {
    let r = save_plan(None, "{\"url\": \"https://example.com\"}".to_string());
    assert_eq!(r, Err(StoreError::DialogCancelled(Operation::Save)));
    assert_eq!(r.unwrap_err().message(), "Save cancelled");
}

#[test]
fn dismissed_load_dialog_is_cancelled() {
    let r = load_plan(None);
    assert_eq!(r, Err(StoreError::DialogCancelled(Operation::Load)));
    assert_eq!(r.unwrap_err().message(), "Load cancelled");
}

#[test]
fn picked_paths_are_used() {
    let content = "{\n  \"url\": \"https://example.com\"\n}".to_string();
    assert_eq!(
        save_plan(Some("/tmp/request.json".to_string()), content.clone()),
        Ok(FileWrite { path: "/tmp/request.json".to_string(), content })
    );
    assert_eq!(load_plan(Some("/tmp/r.json".to_string())), Ok("/tmp/r.json".to_string()));
    assert_eq!(StoreError::FileIo("denied".to_string()).message(), "denied");
}
