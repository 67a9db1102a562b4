use std::rc::Rc;

use eaglemode::model::config_model::{ConfigCall, ConfigError, ConfigModel, DirtyFlag};
use eaglemode::model::context::{Context, ContextTree};
use eaglemode::model::file_model::{FileModel, FileState};
use eaglemode::model::resource_cache::{still_held, ResourceCache};
use eaglemode::model::watched_var::WatchedVar;
use eaglemode::record::Record;
use eaglemode::scheduler::{EngineScheduler, SignalId};
use eaglemode::stocks::StockRec;

fn make_signal() -> SignalId {
    let mut sched = EngineScheduler::new();
    sched.create_signal()
}

#[test]
fn watched_var_fires_on_change() {
    let sig = make_signal();
    let mut var = WatchedVar::new(10, sig);

    assert!(!var.set(10), "same value should return false");
    assert!(var.set(20), "different value should return true");
    assert_eq!(*var.get(), 20);
}

#[test]
fn resource_cache_deduplication() {
    let mut cache = ResourceCache::<String>::new();
    let a = cache.get_or_insert_with("key", || "value".into());
    let b = cache.get_or_insert_with("key", || "other".into());
    assert!(std::rc::Rc::ptr_eq(&a, &b));
    assert_eq!(cache.len(), 1);
}

#[test]
fn resource_cache_purge_unused() {
    let mut cache = ResourceCache::<String>::new();
    let _held = cache.get_or_insert_with("keep", || "kept".into());
    let _dropped = cache.get_or_insert_with("drop", || "gone".into());
    drop(_dropped);
    cache.purge_unused();
    assert_eq!(cache.len(), 1);
    assert!(cache.get("keep").is_some());
    assert!(cache.get("drop").is_none());
}

#[test]
fn context_parent_child_tree() {
    let mut tree = ContextTree::new();
    let root = Context::new_root(&mut tree);
    assert!(root.parent(&mut tree).is_none());
    assert_eq!(root.child_count(&tree), 0);

    let child = Context::new_child(&mut tree, &root);
    assert_eq!(root.child_count(&tree), 1);
    let parent = child.parent(&mut tree);
    assert!(parent.is_some());
    let parent = parent.unwrap();
    assert!(parent == root);
    Context::release(&mut tree, parent);
}

#[test]
fn context_parent_gone_after_release() {
    let mut tree = ContextTree::new();
    let root = Context::new_root(&mut tree);
    let child = Context::new_child(&mut tree, &root);
    let parent = child.parent(&mut tree).unwrap();
    assert!(parent == root);
    Context::release(&mut tree, parent);
    let again = child.parent(&mut tree).unwrap();
    assert!(again == root);
    Context::release(&mut tree, again);
    Context::release(&mut tree, root);
    assert!(child.parent(&mut tree).is_none());
    assert_eq!(tree.len(), 2);
}

#[test]
fn file_model_state_machine() {
    let sig = make_signal();
    let mut fm = FileModel::<Vec<u8>>::new("/tmp/test".to_string(), sig);

    assert_eq!(*fm.state(), FileState::Waiting);
    assert_eq!(fm.progress(), 0);

    assert!(fm.request_load());
    assert!(matches!(*fm.state(), FileState::Loading { .. }));

    assert!(fm.try_continue_loading());
    assert!(matches!(*fm.state(), FileState::LoadError(_)));

    assert!(fm.reset());
    assert_eq!(*fm.state(), FileState::Waiting);
}

#[test]
fn record_kdl_round_trip() {
    let err = ConfigError::MissingField("test".into());
    let msg = err.to_string();
    assert!(msg.contains("test"));
}

#[test]
fn config_error_messages() {
    assert_eq!(ConfigError::MissingField("x".into()).to_string(), "missing field: x");
    assert_eq!(ConfigError::ParseError("bad".into()).to_string(), "parse error: bad");
}

#[test]
fn scheduler_signals_are_distinct() {
    let mut sched = EngineScheduler::new();
    let a = sched.create_signal();
    let b = sched.create_signal();
    assert!(a != b);
}

#[test]
fn watched_var_keeps_signal() {
    let sig = make_signal();
    let mut var = WatchedVar::new("a".to_string(), sig);
    assert!(var.set("b".to_string()));
    assert!(!var.set("b".to_string()));
    assert_eq!(var.get(), "b");
    assert!(var.signal() == sig);
}

#[test]
fn context_counts_only_direct_children() {
    let mut tree = ContextTree::new();
    let root = Context::new_root(&mut tree);
    let other_root = Context::new_root(&mut tree);
    let a = Context::new_child(&mut tree, &root);
    let _b = Context::new_child(&mut tree, &root);
    let _aa = Context::new_child(&mut tree, &a);
    assert_eq!(tree.len(), 5);
    assert_eq!(root.child_count(&tree), 2);
    assert_eq!(a.child_count(&tree), 1);
    assert_eq!(other_root.child_count(&tree), 0);
    assert!(other_root.parent(&mut tree).is_none());
    let p = a.parent(&mut tree).unwrap();
    assert!(p == root);
    Context::release(&mut tree, p);
}

#[test]
fn config_model_dirty_flag() {
    let sig = make_signal();
    let mut model = ConfigModel::new(StockRec::default(), "/tmp/stocks.rec".to_string(), sig);
    assert!(!model.is_dirty());
    assert_eq!(model.path(), "/tmp/stocks.rec");
    assert!(model.change_signal() == sig);
    let mut s = StockRec::default();
    s.name = "N".to_string();
    assert!(model.set(s));
    assert!(model.is_dirty());
    assert_eq!(model.get().name, "N");
    assert!(model.reset_to_default());
    assert!(model.get().IsSetToDefault());
    assert!(model.modify(|r: &mut StockRec| r.symbol = "S".to_string()));
    assert_eq!(model.get().symbol, "S");
}

#[test]
fn config_model_load_and_save_fail() {
    let sig = make_signal();
    let mut model = ConfigModel::new(StockRec::default(), "p".to_string(), sig);
    match model.load() {
        Err(ConfigError::ParseError(m)) => assert_eq!(m, "load not yet implemented"),
        _ => panic!("load should fail"),
    }
    match model.save() {
        Err(ConfigError::ParseError(m)) => assert_eq!(m, "save not yet implemented"),
        _ => panic!("save should fail"),
    }
    assert!(!model.is_dirty());
}

#[test]
fn file_model_transitions() {
    let sig = make_signal();
    let mut fm = FileModel::<u32>::new("f".to_string(), sig);
    assert_eq!(fm.path(), "f");
    assert!(fm.change_signal() == sig);
    assert!(!fm.try_continue_loading());
    assert!(!fm.reset());
    assert!(fm.request_load());
    assert!(!fm.request_load());
    assert_eq!(fm.progress(), 0);
    assert!(fm.try_continue_loading());
    match fm.state() {
        FileState::LoadError(m) => assert_eq!(m, "loading not yet implemented"),
        _ => panic!("expected a load error"),
    }
    assert!(!fm.request_load());
    assert!(fm.data().is_none());
    fm.set_memory_limit(10);
    assert!(fm.reset());
    assert!(!fm.reset());
}

#[test]
fn resource_cache_get_and_insert() {
    let mut cache = ResourceCache::<u32>::new();
    assert_eq!(cache.len(), 0);
    assert!(cache.get("a").is_none());
    let a = cache.get_or_insert_with("a", || 1);
    assert_eq!(*a, 1);
    let b = cache.get_or_insert_with("b", || 2);
    assert_eq!(*b, 2);
    assert_eq!(cache.len(), 2);
    assert!(Rc::ptr_eq(&cache.get("a").unwrap(), &a));
}

#[test]
fn resource_cache_retain_flagged() {
    let mut cache = ResourceCache::<u32>::new();
    let _a = cache.get_or_insert_with("a", || 1);
    let _b = cache.get_or_insert_with("b", || 2);
    let _c = cache.get_or_insert_with("c", || 3);
    cache.retain_flagged(&vec![true, false, true]);
    assert_eq!(cache.len(), 2);
    assert!(cache.get("a").is_some());
    assert!(cache.get("b").is_none());
    assert_eq!(*cache.get("c").unwrap(), 3);
}

#[test]
fn resource_cache_keeps_only_held_counts() {
    assert_eq!(still_held(&vec![1, 2, 1, 5]), vec![false, true, false, true]);
    assert_eq!(still_held(&vec![]), Vec::<bool>::new());
}

#[test]
fn dirty_flag_stays_set() {
    let mut f = DirtyFlag::new();
    assert!(!f.get());
    f.note(ConfigCall::Load);
    assert!(!f.get());
    f.note(ConfigCall::Modify);
    assert!(f.get());
    f.note(ConfigCall::Load);
    assert!(f.get());
}
