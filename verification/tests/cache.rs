use judge_engine::cache::{cache_key, work_dir, work_dir_name_of, CachePlan, CompilerState, KeyLock};
use judge_engine::compiler::CompileResult;

#[test]
fn the_key_is_the_digest_of_the_content() {
    assert_eq!(
        cache_key("hello"),
        "2cf24dba5fb0a30e26e83b2ac5b9e29e1b161e5c1fa7425e73043362938b9824"
    );
    assert_eq!(
        cache_key(""),
        "e3b0c44298fc1c149afbf4c8996fb92427ae41e4649b934ca495991b7852b855"
    );
    assert_eq!(cache_key("int main() {}"), cache_key("int main() {}"));
    assert_ne!(cache_key("int main() {}"), cache_key("int main() { }"));
    assert_eq!(cache_key("any").chars().count(), 64);
}

#[test]
fn the_work_directory_is_named_after_the_key() {
    let key = cache_key("hello");
    assert_eq!(work_dir_name_of(&key), "prov2cf24dba5fb0a30e");
    assert_eq!(work_dir(Some("/out".to_string()), "/tmp", &key), "/out");
    let dir = work_dir(None, "tmp", &key);
    assert!(dir.starts_with("tmp"));
    assert!(dir.ends_with("prov2cf24dba5fb0a30e"));
}

#[test]
fn a_key_is_held_by_one_holder() {
    let mut table = KeyLock::new();
    assert!(!table.is_locked("a"));
    assert!(table.try_lock("a"));
    assert!(table.is_locked("a"));
    assert!(!table.try_lock("a"));
    assert!(table.try_lock("b"));
    table.unlock("a");
    assert!(!table.is_locked("a"));
    assert!(table.is_locked("b"));
    assert!(table.try_lock("a"));
}

#[test]
fn compiling_twice_compiles_once() {
    let mut state = CompilerState::new();
    let key = cache_key("int main() {}");

    assert!(state.acquire(&key));
    assert!(state.lookup(&key).is_none());
    assert!(matches!(state.plan(&key, false), CachePlan::Compile));
    state.complete(&key, &CompileResult::Success { data: "/w/target".to_string() });

    assert!(state.acquire(&cache_key("int main() {}")));
    assert_eq!(state.lookup(&key), Some(&"/w/target".to_string()));
    match state.plan(&key, true) {
        CachePlan::Reuse { artifact } => assert_eq!(artifact, "/w/target"),
        CachePlan::Compile => panic!("the artifact must be handed out again"),
    }
    state.release(&key);
}

#[test]
fn an_artifact_that_is_gone_is_compiled_again() {
    let mut state = CompilerState::new();
    assert!(state.acquire("k"));
    state.complete("k", &CompileResult::Success { data: "/w/target".to_string() });
    assert!(matches!(state.plan("k", false), CachePlan::Compile));
}

#[test]
fn a_failure_is_not_cached() {
    let mut state = CompilerState::new();
    assert!(state.acquire("k"));
    state.complete("k", &CompileResult::Error { data: Vec::new() });
    assert!(state.lookup("k").is_none());
    assert!(state.acquire("k"));
    assert!(matches!(state.plan("k", true), CachePlan::Compile));
}

#[test]
fn one_compilation_of_a_key_at_a_time() {
    let mut state = CompilerState::new();
    assert!(state.acquire("same"));
    assert!(!state.acquire("same"));
    assert!(!state.acquire("same"));
    // another key is not held up
    assert!(state.acquire("other"));
    state.complete("same", &CompileResult::Success { data: "p".to_string() });
    assert!(state.acquire("same"));
    assert!(!state.acquire("other"));
    match state.plan("same", true) {
        CachePlan::Reuse { artifact } => assert_eq!(artifact, "p"),
        CachePlan::Compile => panic!("the artifact must be handed out again"),
    }
}
