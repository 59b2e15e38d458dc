use maple::config::{partition_default_fsck, partition_default_options, Configuration};
use maple::render::render_template;
use maple::target::reconfigure_target;
use maple::walk::{Action, Entry, Event, Walk, WalkError};
use minijinja::Value;

fn context(hostname: &str) -> Value {
    Value::from_iter(vec![("hostname".to_string(), Value::from(hostname))])
}

fn dir(path: &str) -> Entry {
    Entry { path: path.to_string(), is_dir: true }
}

fn file(path: &str) -> Entry {
    Entry { path: path.to_string(), is_dir: false }
}

fn expect_list(a: Action, path: &str) {
    match a {
        Action::List(d) => assert_eq!(d, path),
        other => panic!("expected a listing of {path}, got {other:?}"),
    }
}

fn expect_load(a: Action, path: &str) {
    match a {
        Action::Load(f) => assert_eq!(f, path),
        other => panic!("expected a load of {path}, got {other:?}"),
    }
}

fn expect_write(a: Action, path: &str, text: &str) {
    match a {
        Action::Write { target, contents } => {
            assert_eq!(target, path);
            assert_eq!(contents, text);
        }
        other => panic!("expected a write of {path}, got {other:?}"),
    }
}

#[test]
fn target_of_nested_file() {
    let t = reconfigure_target("/etc/maple.d", "/etc/maple.d/foo/bar.conf").unwrap();
    assert_eq!(t, "/foo/bar.conf");
}

#[test]
fn target_of_deeply_nested_file() {
    let t = reconfigure_target("/etc/maple.d", "/etc/maple.d/a/b/c/d.conf").unwrap();
    assert_eq!(t, "/a/b/c/d.conf");
}

#[test]
fn target_of_top_level_file() {
    assert_eq!(reconfigure_target("/etc/maple.d", "/etc/maple.d/hostname").unwrap(), "/hostname");
}

#[test]
fn target_with_root_ending_in_separator() {
    assert_eq!(reconfigure_target("/etc/maple.d/", "/etc/maple.d/x/y").unwrap(), "/x/y");
}

#[test]
fn target_of_root_itself() {
    assert_eq!(reconfigure_target("/etc/maple.d", "/etc/maple.d").unwrap(), "/");
}

#[test]
fn target_outside_root_is_refused() {
    let e = reconfigure_target("/etc/maple.d", "/etc/other/x").unwrap_err();
    assert_eq!(e.root, "/etc/maple.d");
    assert_eq!(e.path, "/etc/other/x");
}

#[test]
fn target_of_sibling_with_longer_name_is_refused() {
    assert!(reconfigure_target("/etc/maple.d", "/etc/maple.dx/a").is_err());
}

#[test]
fn target_of_shorter_path_is_refused() {
    assert!(reconfigure_target("/etc/maple.d", "/etc").is_err());
}

#[test]
fn default_fsck_is_two() {
    assert_eq!(partition_default_fsck(), 2);
}

#[test]
fn default_options_are_empty() {
    assert!(partition_default_options().is_empty());
}

#[test]
fn default_configuration() {
    let c = Configuration::default();
    assert_eq!(c.hostname, "maple");
    assert!(c.partition.is_empty());
}

#[test]
fn literal_template_renders_unchanged() {
    let src = "plain text { with a brace } and 100% #hash";
    assert_eq!(render_template(src, &context("x")).unwrap(), src);
}

#[test]
fn literal_template_keeps_final_newline() {
    assert_eq!(render_template("a\nb\n", &context("x")).unwrap(), "a\nb\n");
    assert_eq!(render_template("a\r\n", &context("x")).unwrap(), "a\r\n");
    assert_eq!(render_template("a\n\n", &context("x")).unwrap(), "a\n\n");
}

#[test]
fn undefined_name_fails() {
    assert!(render_template("host={{ missing }}", &context("x")).is_err());
}

#[test]
fn target_of_root_given_with_separator() {
    assert_eq!(reconfigure_target("/a/", "/a").unwrap(), "/");
}

#[test]
fn target_ignores_repeated_separators_and_dots() {
    assert_eq!(reconfigure_target("/etc/maple.d", "/etc//maple.d/x").unwrap(), "/x");
    assert_eq!(reconfigure_target("/etc/./maple.d/", "/etc/maple.d//a/./b/").unwrap(), "/a/b");
}

#[test]
fn target_keeps_parent_components() {
    assert_eq!(reconfigure_target("/r", "/r/a/../b").unwrap(), "/a/../b");
    assert!(reconfigure_target("/r/a", "/r/../r/a/b").is_err());
}

#[test]
fn target_of_relative_paths() {
    assert_eq!(reconfigure_target("./r", "./r/a").unwrap(), "/a");
    assert_eq!(reconfigure_target("r", "r/a/b").unwrap(), "/a/b");
    assert!(reconfigure_target("r", "/r/a").is_err());
    assert!(reconfigure_target("/r", "r/a").is_err());
}

#[test]
fn empty_template_renders_empty() {
    assert_eq!(render_template("", &context("x")).unwrap(), "");
}

#[test]
fn hostname_is_substituted() {
    let out = render_template("name: {{ hostname }};", &context("x")).unwrap();
    assert!(out.contains("x"));
    assert_eq!(out, "name: x;");
}

#[test]
fn broken_template_fails() {
    assert!(render_template("{% if %}", &context("x")).is_err());
}

#[test]
fn maple_scenario() {
    let ctx = context("maple");
    let mut w = Walk::new("/etc/maple.d".to_string());
    expect_list(w.step(&ctx, Event::Start), "/etc/maple.d");
    expect_list(w.step(&ctx, Event::Listed(vec![dir("/etc/maple.d/foo")])), "/etc/maple.d/foo");
    let a = w.step(&ctx, Event::Listed(vec![file("/etc/maple.d/foo/bar.conf")]));
    expect_load(a, "/etc/maple.d/foo/bar.conf");
    let a = w.step(&ctx, Event::Loaded("host={{ hostname }}".to_string()));
    expect_write(a, "/foo/bar.conf", "host=maple");
    assert!(matches!(w.step(&ctx, Event::Written), Action::Finish(Ok(()))));
    assert!(w.is_finished());
}

#[test]
fn empty_tree_writes_nothing_and_succeeds() {
    let ctx = context("x");
    let mut w = Walk::new("/t".to_string());
    expect_list(w.step(&ctx, Event::Start), "/t");
    assert!(matches!(w.step(&ctx, Event::Listed(vec![])), Action::Finish(Ok(()))));
}

#[test]
fn tree_of_empty_directories_writes_nothing() {
    let ctx = context("x");
    let mut w = Walk::new("/t".to_string());
    expect_list(w.step(&ctx, Event::Start), "/t");
    expect_list(w.step(&ctx, Event::Listed(vec![dir("/t/a"), dir("/t/b")])), "/t/a");
    expect_list(w.step(&ctx, Event::Listed(vec![dir("/t/a/c")])), "/t/a/c");
    expect_list(w.step(&ctx, Event::Listed(vec![])), "/t/b");
    assert!(matches!(w.step(&ctx, Event::Listed(vec![])), Action::Finish(Ok(()))));
}

#[test]
fn subtree_comes_before_next_sibling() {
    let ctx = context("x");
    let mut w = Walk::new("/t".to_string());
    expect_list(w.step(&ctx, Event::Start), "/t");
    let a = w.step(&ctx, Event::Listed(vec![dir("/t/a"), file("/t/z")]));
    expect_list(a, "/t/a");
    expect_load(w.step(&ctx, Event::Listed(vec![file("/t/a/f")])), "/t/a/f");
    expect_write(w.step(&ctx, Event::Loaded("1".to_string())), "/a/f", "1");
    expect_load(w.step(&ctx, Event::Written), "/t/z");
    expect_write(w.step(&ctx, Event::Loaded("2\n".to_string())), "/z", "2\n");
    assert!(matches!(w.step(&ctx, Event::Written), Action::Finish(Ok(()))));
}

#[test]
fn failed_write_ends_walk() {
    let ctx = context("x");
    let mut w = Walk::new("/t".to_string());
    expect_list(w.step(&ctx, Event::Start), "/t");
    let a = w.step(&ctx, Event::Listed(vec![file("/t/missing/f"), file("/t/g")]));
    expect_load(a, "/t/missing/f");
    expect_write(w.step(&ctx, Event::Loaded("v".to_string())), "/missing/f", "v");
    let a = w.step(&ctx, Event::Failed("no such directory".to_string()));
    match a {
        Action::Finish(Err(WalkError::Io(m))) => assert_eq!(m, "no such directory"),
        other => panic!("expected an I/O failure, got {other:?}"),
    }
    assert!(w.is_finished());
    assert!(!w.accepts(&Event::Written));
    assert!(!w.accepts(&Event::Start));
}

#[test]
fn failed_render_ends_walk() {
    let ctx = context("x");
    let mut w = Walk::new("/t".to_string());
    expect_list(w.step(&ctx, Event::Start), "/t");
    let a = w.step(&ctx, Event::Listed(vec![file("/t/a"), file("/t/b"), file("/t/c")]));
    expect_load(a, "/t/a");
    expect_write(w.step(&ctx, Event::Loaded("ok".to_string())), "/a", "ok");
    expect_load(w.step(&ctx, Event::Written), "/t/b");
    let a = w.step(&ctx, Event::Loaded("{{ undefined_field }}".to_string()));
    assert!(matches!(a, Action::Finish(Err(WalkError::Template(_)))));
    assert!(w.is_finished());
    assert!(!w.accepts(&Event::Written));
    assert!(!w.accepts(&Event::Loaded("c".to_string())));
}

#[test]
fn failed_listing_ends_walk() {
    let ctx = context("x");
    let mut w = Walk::new("/t".to_string());
    expect_list(w.step(&ctx, Event::Start), "/t");
    let a = w.step(&ctx, Event::Failed("denied".to_string()));
    assert!(matches!(a, Action::Finish(Err(WalkError::Io(_)))));
    assert!(w.is_finished());
}

#[test]
fn entry_outside_root_ends_walk() {
    let ctx = context("x");
    let mut w = Walk::new("/t".to_string());
    expect_list(w.step(&ctx, Event::Start), "/t");
    expect_load(w.step(&ctx, Event::Listed(vec![file("/elsewhere/f")])), "/elsewhere/f");
    let a = w.step(&ctx, Event::Loaded("v".to_string()));
    match a {
        Action::Finish(Err(WalkError::OutsideRoot(e))) => assert_eq!(e.path, "/elsewhere/f"),
        other => panic!("expected a path failure, got {other:?}"),
    }
}

#[test]
fn walk_accepts_only_the_awaited_report() {
    let ctx = context("x");
    let mut w = Walk::new("/t".to_string());
    assert!(w.accepts(&Event::Start));
    assert!(!w.accepts(&Event::Written));
    expect_list(w.step(&ctx, Event::Start), "/t");
    assert!(w.accepts(&Event::Listed(vec![])));
    assert!(w.accepts(&Event::Failed(String::new())));
    assert!(!w.accepts(&Event::Loaded(String::new())));
}

#[test]
fn after_render_writes_output_or_ends() {
    let ctx = context("x");
    let mut w = Walk::new("/t".to_string());
    expect_list(w.step(&ctx, Event::Start), "/t");
    expect_load(w.step(&ctx, Event::Listed(vec![file("/t/a"), file("/t/b")])), "/t/a");
    let a = w.after_render("/a".to_string(), Ok("out".to_string()));
    expect_write(a, "/a", "out");
    assert!(w.accepts(&Event::Written));
    expect_load(w.step(&ctx, Event::Written), "/t/b");
    let err = minijinja::Error::new(minijinja::ErrorKind::UndefinedError, "missing");
    let a = w.after_render("/b".to_string(), Err(err));
    assert!(matches!(a, Action::Finish(Err(WalkError::Template(_)))));
    assert!(w.is_finished());
}
