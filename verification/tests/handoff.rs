use lua_tree_sitter::runtime::Module;
use lua_tree_sitter::runtime::Runtime;
use lua_tree_sitter::runtime::RuntimeError;
use lua_tree_sitter::tree::ParsedTree;
use lua_tree_sitter::tree::WithSource;

#[test]
fn register_is_idempotent() {
    let mut rt = Runtime::new();
    assert_eq!(rt.open_ltreesitter(false, true), Ok(()));
    assert!(rt.module_loaded());
    assert_eq!(rt.loader_runs(), 1);
    // A second load is accepted whatever the native loader would have
    // reported, and does not duplicate the module-table entry.
    assert_eq!(rt.open_ltreesitter(false, false), Ok(()));
    assert!(rt.module_loaded());
    assert_eq!(rt.loader_runs(), 1);
    assert_eq!(rt.open_ltreesitter(false, true), Ok(()));
    assert_eq!(rt.loader_runs(), 1);
}

#[test]
fn register_with_global_flag_binds_global() {
    let mut rt = Runtime::new();
    assert_eq!(rt.open_ltreesitter(true, true), Ok(()));
    assert!(rt.global_bound());
    // The global binding uses the module's fixed, well-known name.
    assert_eq!(lua_tree_sitter::runtime::MODULE_NAME, "ltreesitter");
}

#[test]
fn register_without_global_flag_leaves_global_unbound() {
    let mut rt = Runtime::new();
    assert_eq!(rt.open_ltreesitter(false, true), Ok(()));
    assert!(rt.module_loaded());
    assert!(!rt.global_bound());
}

#[test]
fn repeated_register_can_still_bind_global() {
    let mut rt = Runtime::new();
    assert_eq!(rt.open_ltreesitter(false, true), Ok(()));
    assert!(!rt.global_bound());
    assert_eq!(rt.open_ltreesitter(true, true), Ok(()));
    assert!(rt.global_bound());
}

#[test]
fn register_failure_changes_nothing() {
    let mut rt = Runtime::new();
    assert_eq!(
        rt.open_ltreesitter(true, false),
        Err(RuntimeError::LoaderRaised)
    );
    assert!(!rt.module_loaded());
    assert!(!rt.global_bound());
    assert_eq!(rt.loader_runs(), 0);
    // The loader is retried on the next require, since nothing was
    // registered; a successful retry installs the module.
    assert_eq!(rt.open_ltreesitter(true, true), Ok(()));
    assert!(rt.module_loaded());
    assert!(rt.global_bound());
    assert_eq!(rt.loader_runs(), 1);
}

#[test]
fn handoff_installs_one_tree_object() {
    let mut rt = Runtime::new();
    rt.open_ltreesitter(false, true).unwrap();
    let tree = ParsedTree::new(0x1000, b"module".to_vec());
    let src = b"def double(x):\n    return x * 2\n".to_vec();
    let idx = tree.with_source(&src).into_lua(&mut rt, true);
    assert_eq!(idx, Ok(0));
    assert_eq!(rt.tree_count(), 1);
    let obj = rt.tree(0);
    assert_eq!(obj.handle(), 0x1000);
    assert_eq!(obj.root_kind().as_slice(), b"module");
    assert_eq!(obj.source().as_slice(), src.as_slice());
}

#[test]
fn handoff_copies_source_bytes() {
    let mut rt = Runtime::new();
    rt.open_ltreesitter(false, true).unwrap();
    {
        // The buffer lives only inside this block: the handoff copies its
        // bytes, so queries keep working after the buffer is gone.
        let src = b"def double(x):\n    return x * 2\n".to_vec();
        let tree = ParsedTree::new(3, b"module".to_vec());
        tree.with_source(&src).into_lua(&mut rt, true).unwrap();
    }
    let obj = rt.tree(0);
    assert_eq!(
        obj.node_text(0, 32).as_slice(),
        b"def double(x):\n    return x * 2\n"
    );
    // "double" spans bytes 4..10 of the source.
    assert_eq!(obj.node_text(4, 10).as_slice(), b"double");
    // An empty span resolves to no bytes.
    assert_eq!(obj.node_text(7, 7).as_slice(), b"");
}

#[test]
fn handoff_failure_leaves_runtime_unchanged() {
    let mut rt = Runtime::new();
    rt.open_ltreesitter(false, true).unwrap();
    let tree = ParsedTree::new(5, b"module".to_vec());
    let src = b"x = 1\n".to_vec();
    let r = tree.with_source(&src).into_lua(&mut rt, false);
    assert_eq!(r, Err(RuntimeError::PushRaised));
    assert_eq!(rt.tree_count(), 0);
    assert!(rt.module_loaded());
}

#[test]
fn handoffs_accumulate_in_order() {
    let mut rt = Runtime::new();
    rt.open_ltreesitter(false, true).unwrap();
    let first = ParsedTree::new(1, b"module".to_vec());
    let second = ParsedTree::new(2, b"source_file".to_vec());
    let src_a = b"a = 1\n".to_vec();
    let src_b = b"fn b() {}\n".to_vec();
    assert_eq!(first.with_source(&src_a).into_lua(&mut rt, true), Ok(0));
    assert_eq!(second.with_source(&src_b).into_lua(&mut rt, true), Ok(1));
    assert_eq!(rt.tree_count(), 2);
    assert_eq!(rt.tree(0).handle(), 1);
    assert_eq!(rt.tree(1).handle(), 2);
    assert_eq!(rt.tree(1).root_kind().as_slice(), b"source_file");
}

#[test]
fn scenario_python_function_definition() {
    // A minimal Python function definition, handed off with the global flag
    // false, then queried for its root category.
    let code = b"def double(x):\n    return x * 2\n";
    let mut rt = Runtime::new();
    rt.open_ltreesitter(false, true).unwrap();
    assert!(!rt.global_bound());
    let tree = ParsedTree::new(0x2000, b"module".to_vec());
    let src = code.to_vec();
    let idx = tree.with_source(&src).into_lua(&mut rt, true).unwrap();
    let obj = rt.tree(idx);
    assert_eq!(obj.root_kind().as_slice(), b"module");
    assert_eq!(obj.node_text(0, code.len()).as_slice(), code.as_slice());
}
