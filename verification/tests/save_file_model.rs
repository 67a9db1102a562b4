use eaglemode::model::save_file_model::{FileModel, FileState, PROGRESS_COMPLETE_BITS};
use eaglemode::scheduler::SignalId;

fn model() -> FileModel<String> {
    FileModel::new("/tmp/doc".to_string(), SignalId { id: 1 })
}

#[test]
fn save_file_model_load_cycle() {
    let mut fm = model();
    assert!(matches!(fm.state(), FileState::Waiting));
    assert_eq!(fm.progress(), 0);
    assert_eq!(fm.memory_limit(), usize::MAX);
    assert!(fm.request_load());
    assert!(!fm.request_load());
    fm.set_progress(50.0f64.to_bits());
    assert_eq!(f64::from_bits(fm.progress()), 50.0);
    fm.complete_load("text".to_string());
    assert!(matches!(fm.state(), FileState::Loaded));
    assert_eq!(fm.progress(), PROGRESS_COMPLETE_BITS);
    assert_eq!(f64::from_bits(PROGRESS_COMPLETE_BITS), 100.0);
    assert_eq!(fm.data().map(|s| s.as_str()), Some("text"));
    fm.set_progress(1.0f64.to_bits());
    assert!(matches!(fm.state(), FileState::Loaded));
}

#[test]
fn save_file_model_save_cycle() {
    let mut fm = model();
    fm.complete_load("a".to_string());
    assert!(!fm.request_save());
    fm.mark_unsaved();
    assert!(matches!(fm.state(), FileState::Unsaved));
    if let Some(d) = fm.data_mut() {
        d.push('b');
    }
    assert_eq!(fm.data().map(|s| s.as_str()), Some("ab"));
    assert!(fm.request_save());
    assert!(matches!(fm.state(), FileState::Saving));
    fm.fail_save("disk full".to_string());
    assert!(matches!(fm.state(), FileState::SaveError(m) if m == "disk full"));
    assert!(fm.request_save());
    fm.complete_save();
    assert!(matches!(fm.state(), FileState::Loaded));
    fm.complete_save();
    assert!(matches!(fm.state(), FileState::Loaded));
}

#[test]
fn save_file_model_failures_and_retry() {
    let mut fm = model();
    assert!(fm.request_load());
    fm.fail_load("missing".to_string());
    assert!(matches!(fm.state(), FileState::LoadError(m) if m == "missing"));
    assert_eq!(fm.progress(), 0);
    assert!(fm.request_load());
    fm.mark_too_costly();
    assert!(fm.request_load());
    fm.set_memory_limit(1024);
    assert_eq!(fm.memory_limit(), 1024);
    assert!(fm.reset());
    assert!(!fm.reset());
    assert!(fm.data().is_none());
    assert_eq!(fm.path(), "/tmp/doc");
    assert!(fm.change_signal() == SignalId { id: 1 });
    fm.mark_unsaved();
    assert!(matches!(fm.state(), FileState::Waiting));
}
