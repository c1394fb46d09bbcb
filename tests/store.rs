use vex::commands::{
    exec_outcome, exec_plan, remove_command, rename_command, rename_needs_confirmation, save_command,
    save_needs_confirmation,
};
use vex::error::VexError;
use vex::record::QemuConfig;
use vex::store::ConfigStore;

fn s(x: &str) -> String {
    x.to_string()
}

fn strs(v: &[&str]) -> Vec<String> {
    v.iter().map(|x| x.to_string()).collect()
}

fn record(bin: &str, args: &[&str], desc: Option<&str>) -> QemuConfig {
    QemuConfig::new(s(bin), strs(args), desc.map(s))
}

#[test]
fn save_then_load_gives_the_record() {
    let mut store = ConfigStore::new();
    store.save(s("vm1"), record("qemu-system-x86_64", &["-m", "512"], Some("small")));
    let got = store.load(&s("vm1")).unwrap();
    assert_eq!(got.qemu_bin, "qemu-system-x86_64");
    assert_eq!(got.args, strs(&["-m", "512"]));
    assert_eq!(got.desc, Some(s("small")));
}

#[test]
fn save_replaces_existing_record() {
    let mut store = ConfigStore::new();
    store.save(s("vm1"), record("a", &["-x"], None));
    store.save(s("vm1"), record("b", &[], Some("d")));
    let got = store.load(&s("vm1")).unwrap();
    assert_eq!(got.qemu_bin, "b");
    assert!(got.args.is_empty());
    assert_eq!(store.list_names().len(), 1);
}

#[test]
fn delete_after_save_makes_name_absent() {
    let mut store = ConfigStore::new();
    store.save(s("vm1"), record("q", &["-m", "512"], None));
    assert!(store.contains(&s("vm1")));
    assert_eq!(store.delete(&s("vm1")), Ok(()));
    assert!(!store.contains(&s("vm1")));
    assert!(matches!(store.load(&s("vm1")), Err(VexError::NotFound)));
}

#[test]
fn delete_of_absent_name_fails() {
    let mut store = ConfigStore::new();
    store.save(s("other"), record("q", &[], None));
    assert_eq!(remove_command(&mut store, &s("vm1")), Err(VexError::NotFound));
    assert!(store.contains(&s("other")));
}

#[test]
fn load_of_corrupt_entry_fails() {
    let mut store = ConfigStore::new();
    store.insert_entry(s("bad"), None);
    assert!(store.contains(&s("bad")));
    assert!(matches!(store.load(&s("bad")), Err(VexError::Corrupt)));
    assert!(matches!(store.load(&s("none")), Err(VexError::NotFound)));
}

#[test]
fn list_skips_corrupt_entries() {
    let mut store = ConfigStore::new();
    store.save(s("a"), record("qa", &["-m", "1"], None));
    store.insert_entry(s("broken"), None);
    store.save(s("b"), record("qb", &[], Some("second")));
    let listed = store.list();
    assert_eq!(listed.len(), 2);
    let mut names: Vec<String> = listed.iter().map(|(n, _)| n.clone()).collect();
    names.sort();
    assert_eq!(names, strs(&["a", "b"]));
    for (n, c) in listed.iter() {
        if n == "a" {
            assert_eq!(c.qemu_bin, "qa");
        } else {
            assert_eq!(c.qemu_bin, "qb");
            assert_eq!(c.desc, Some(s("second")));
        }
    }
}

#[test]
fn list_names_includes_corrupt_entries() {
    let mut store = ConfigStore::new();
    store.save(s("a"), record("qa", &[], None));
    store.insert_entry(s("broken"), None);
    let mut names = store.list_names();
    names.sort();
    assert_eq!(names, strs(&["a", "broken"]));
}

#[test]
fn list_of_empty_store_is_empty() {
    let store = ConfigStore::new();
    assert!(store.list().is_empty());
    assert!(store.list_names().is_empty());
}

#[test]
fn save_strips_debug_flags_when_accepted() {
    let mut store = ConfigStore::new();
    let saved = save_command(
        &mut store,
        s("vm1"),
        s("q"),
        strs(&["-S", "-m", "512", "-s", "-hda", "-s"]),
        None,
        false,
        true,
        false,
    )
    .unwrap();
    assert_eq!(saved.args, strs(&["-m", "512", "-hda"]));
    assert_eq!(store.load(&s("vm1")).unwrap().args, strs(&["-m", "512", "-hda"]));
}

#[test]
fn save_keeps_debug_flags_when_declined() {
    let mut store = ConfigStore::new();
    save_command(&mut store, s("vm1"), s("q"), strs(&["-s", "-m", "512"]), None, false, false, false);
    assert_eq!(store.load(&s("vm1")).unwrap().args, strs(&["-s", "-m", "512"]));
}

#[test]
fn save_over_existing_is_cancelled_without_confirmation() {
    let mut store = ConfigStore::new();
    store.save(s("vm1"), record("old", &[], None));
    assert!(save_needs_confirmation(&store, &s("vm1"), false));
    assert!(!save_needs_confirmation(&store, &s("vm1"), true));
    assert!(!save_needs_confirmation(&store, &s("vm2"), false));
    let r = save_command(&mut store, s("vm1"), s("new"), vec![], None, false, false, false);
    assert!(r.is_none());
    assert_eq!(store.load(&s("vm1")).unwrap().qemu_bin, "old");
    let r = save_command(&mut store, s("vm1"), s("new"), vec![], None, false, false, true);
    assert!(r.is_some());
    assert_eq!(store.load(&s("vm1")).unwrap().qemu_bin, "new");
    save_command(&mut store, s("vm1"), s("forced"), vec![], None, true, false, false);
    assert_eq!(store.load(&s("vm1")).unwrap().qemu_bin, "forced");
}

#[test]
fn exec_debug_appends_flags_without_storing_them() {
    let mut store = ConfigStore::new();
    store.save(s("vm1"), record("q", &["A", "B"], None));
    let (bin, args) = exec_plan(&store, &s("vm1"), true).unwrap();
    assert_eq!(bin, "q");
    assert_eq!(args, strs(&["A", "B", "-s", "-S"]));
    assert_eq!(store.load(&s("vm1")).unwrap().args, strs(&["A", "B"]));
}

#[test]
fn exec_of_absent_or_corrupt_fails() {
    let mut store = ConfigStore::new();
    store.insert_entry(s("bad"), None);
    assert!(matches!(exec_plan(&store, &s("vm1"), false), Err(VexError::NotFound)));
    assert!(matches!(exec_plan(&store, &s("bad"), true), Err(VexError::Corrupt)));
}

#[test]
fn save_then_exec_scenario() {
    let mut store = ConfigStore::new();
    save_command(&mut store, s("vm1"), s("qemu-system-x86_64"), strs(&["-m", "512"]), None, true, false, false);
    let (bin, args) = exec_plan(&store, &s("vm1"), false).unwrap();
    assert_eq!(bin, "qemu-system-x86_64");
    assert_eq!(args, strs(&["-m", "512"]));
    assert_eq!(exec_outcome(true, true, Some(0)), Ok(()));
    assert_eq!(exec_outcome(true, false, Some(3)), Err(VexError::ChildNonZeroExit(3)));
}

#[test]
fn exec_outcome_errors() {
    assert_eq!(exec_outcome(false, false, None), Err(VexError::SpawnFailed));
    assert_eq!(exec_outcome(true, false, None), Err(VexError::ChildNonZeroExit(-1)));
}

#[test]
fn rename_moves_record_and_sets_description() {
    let mut store = ConfigStore::new();
    store.save(s("old"), record("q", &["-m", "512"], Some("first")));
    let moved = rename_command(&mut store, &s("old"), &s("new"), Some(s("second")), false, false)
        .unwrap()
        .unwrap();
    assert_eq!(moved.desc, Some(s("second")));
    assert!(!store.contains(&s("old")));
    let got = store.load(&s("new")).unwrap();
    assert_eq!(got.qemu_bin, "q");
    assert_eq!(got.args, strs(&["-m", "512"]));
    assert_eq!(got.desc, Some(s("second")));
}

#[test]
fn rename_keeps_description_when_none_given() {
    let mut store = ConfigStore::new();
    store.save(s("old"), record("q", &[], Some("first")));
    store.rename(&s("old"), &s("new"), None).unwrap();
    assert_eq!(store.load(&s("new")).unwrap().desc, Some(s("first")));
}

#[test]
fn rename_of_absent_source_fails_before_touching_target() {
    let mut store = ConfigStore::new();
    store.save(s("new"), record("keep", &[], None));
    assert!(matches!(rename_needs_confirmation(&store, &s("old"), &s("new"), false), Err(VexError::NotFound)));
    let r = rename_command(&mut store, &s("old"), &s("new"), None, true, true);
    assert!(matches!(r, Err(VexError::NotFound)));
    assert_eq!(store.load(&s("new")).unwrap().qemu_bin, "keep");
}

#[test]
fn rename_over_existing_needs_confirmation() {
    let mut store = ConfigStore::new();
    store.save(s("old"), record("moved", &[], None));
    store.save(s("new"), record("kept", &[], None));
    assert!(matches!(rename_needs_confirmation(&store, &s("old"), &s("new"), false), Ok(true)));
    assert!(matches!(rename_needs_confirmation(&store, &s("old"), &s("new"), true), Ok(false)));
    let r = rename_command(&mut store, &s("old"), &s("new"), None, false, false).unwrap();
    assert!(r.is_none());
    assert_eq!(store.load(&s("new")).unwrap().qemu_bin, "kept");
    assert!(store.contains(&s("old")));
    rename_command(&mut store, &s("old"), &s("new"), None, false, true).unwrap();
    assert_eq!(store.load(&s("new")).unwrap().qemu_bin, "moved");
    assert!(!store.contains(&s("old")));
}

#[test]
fn rename_of_corrupt_source_fails() {
    let mut store = ConfigStore::new();
    store.insert_entry(s("bad"), None);
    assert!(matches!(store.rename(&s("bad"), &s("new"), None), Err(VexError::Corrupt)));
    assert!(!store.contains(&s("new")));
    assert!(store.contains(&s("bad")));
}
