use mark_shell::resolver::resolve;
use mark_shell::resolver::path_arguments;
use mark_shell::startup::{
    payload, script, startup_injection, startup_script, EMPTY_LIST, SCRIPT_HEAD, SCRIPT_TAIL,
};
use std::path::{Path, PathBuf};

fn strings(items: &[&str]) -> Vec<String> {
    items.iter().map(|s| s.to_string()).collect()
}

#[test]
fn no_paths_no_injection() {
    assert_eq!(startup_injection(&strings(&[])), None);
}

#[test]
fn all_flag_input_injects_nothing() {
    let resolved = resolve(&strings(&["--verbose", "-x"]), "/home/u", &Vec::new());
    assert!(resolved.is_empty());
    assert_eq!(startup_injection(&resolved), None);
}

#[test]
fn one_path_is_injected_as_a_list() {
    assert_eq!(
        startup_injection(&strings(&["/home/u/a.md"])),
        Some("window.__MARK_ARGS__ = [\"/home/u/a.md\"];".to_string())
    );
}

#[test]
fn paths_are_injected_in_order() {
    assert_eq!(
        startup_injection(&strings(&["/b.md", "/a.md", "/b.md"])),
        Some("window.__MARK_ARGS__ = [\"/b.md\",\"/a.md\",\"/b.md\"];".to_string())
    );
}

#[test]
fn injected_paths_are_escaped() {
    assert_eq!(
        startup_injection(&strings(&["/a \"b\"\\c\n.md", "/ü.md"])),
        Some("window.__MARK_ARGS__ = [\"/a \\\"b\\\"\\\\c\\n.md\",\"/ü.md\"];".to_string())
    );
}

#[test]
fn injected_list_parses_back() {
    let paths = strings(&["/home/u/a.md", "/tmp/x y.md", "/q\"uote.md"]);
    let text = startup_injection(&paths).unwrap();
    let list = text.strip_prefix(SCRIPT_HEAD).unwrap().strip_suffix(SCRIPT_TAIL).unwrap();
    let back: Vec<String> = serde_json::from_str(list).unwrap();
    assert_eq!(back, paths);
}

#[test]
fn payload_passes_serialized_text_on() {
    assert_eq!(payload(Ok("[\"/a\"]".to_string())), "[\"/a\"]");
    assert_eq!(payload(serde_json::to_string(&strings(&["/a", "/b"]))), "[\"/a\",\"/b\"]");
}

#[test]
fn payload_of_failed_serialization_is_the_empty_list() {
    let failure = serde_json::from_str::<Vec<String>>("not json").unwrap_err();
    assert_eq!(payload(Err(failure)), "[]");
    assert_eq!(EMPTY_LIST, "[]");
}

#[test]
fn script_assigns_the_list() {
    assert_eq!(script("[]"), "window.__MARK_ARGS__ = [];");
    assert_eq!(script("[\"/a\"]"), "window.__MARK_ARGS__ = [\"/a\"];");
    assert_eq!(script(""), "window.__MARK_ARGS__ = ;");
}

#[test]
fn startup_script_carries_the_resolved_paths() {
    let args = strings(&["b.md", "--x", "a.md"]);
    let outcomes = vec![Some("/real/b.md".to_string()), None];
    assert_eq!(
        startup_script(&args, "/home/u", &outcomes),
        Some("window.__MARK_ARGS__ = [\"/real/b.md\",\"/home/u/a.md\"];".to_string())
    );
}

#[test]
fn startup_script_is_absent_without_path_arguments() {
    assert_eq!(startup_script(&strings(&[]), "/home/u", &Vec::new()), None);
    assert_eq!(startup_script(&strings(&["--verbose", "-x"]), "/home/u", &Vec::new()), None);
    assert_eq!(
        startup_script(&strings(&["-x"]), "/home/u", &vec![Some("/real/x".to_string())]),
        None
    );
}

/// What the filesystem of this machine says of each path argument as seen
/// from `cwd`.
fn canonicalize_all(cwd: &Path, path_args: &[String]) -> Vec<Option<String>> {
    path_args
        .iter()
        .map(|arg| cwd.join(arg).canonicalize().ok().map(|p| p.to_string_lossy().into_owned()))
        .collect()
}

#[test]
fn startup_script_on_this_filesystem() {
    let args = strings(&["--new", ".", "no-such-dir-3f9a/new.md", "/"]);
    let cwd = PathBuf::from("/");
    let outcomes = canonicalize_all(&cwd, &path_arguments(&args));
    assert_eq!(outcomes, vec![Some("/".to_string()), None, Some("/".to_string())]);
    assert_eq!(
        startup_script(&args, &cwd.to_string_lossy(), &outcomes),
        Some("window.__MARK_ARGS__ = [\"/\",\"/no-such-dir-3f9a/new.md\",\"/\"];".to_string())
    );
}

#[test]
fn injected_list_holds_every_resolved_path() {
    let args = strings(&["b.md", "-v", "a.md", "b.md", "/abs/c \"d\".md"]);
    let outcomes = vec![None, Some("/real/a.md".to_string())];
    let resolved = resolve(&args, "/w", &outcomes);
    let text = startup_script(&args, "/w", &outcomes).unwrap();
    let list = text.strip_prefix(SCRIPT_HEAD).unwrap().strip_suffix(SCRIPT_TAIL).unwrap();
    let back: Vec<String> = serde_json::from_str(list).unwrap();
    assert_eq!(back, resolved);
    assert_eq!(back, strings(&["/w/b.md", "/real/a.md", "/w/b.md", "/abs/c \"d\".md"]));
}
