use rwall::library::WalkEntry;
use rwall::migration::{plan_migration, CopyFile, MigrationStep};

fn file(path: &str, name: &str) -> WalkEntry {
    WalkEntry { path: path.to_string(), file_name: name.to_string(), is_file: true }
}

fn dir(path: &str, name: &str) -> WalkEntry {
    WalkEntry { path: path.to_string(), file_name: name.to_string(), is_file: false }
}

fn copy(from: &str, name: &str, percent: usize) -> MigrationStep {
    MigrationStep {
        copy: Some(CopyFile { from: from.to_string(), file_name: name.to_string() }),
        percent,
    }
}

fn visit(percent: usize) -> MigrationStep {
    MigrationStep { copy: None, percent }
}

#[test]
fn files_of_one_name_are_copied_to_one_name_in_walk_order() {
    let entries = vec![
        dir("/p/rwall_temp", "rwall_temp"),
        dir("/p/rwall_temp/a", "a"),
        file("/p/rwall_temp/a/1.png", "1.png"),
        dir("/p/rwall_temp/b", "b"),
        file("/p/rwall_temp/b/1.png", "1.png"),
    ];
    let plan = plan_migration(&entries);
    assert_eq!(
        plan.steps,
        vec![
            visit(0),
            visit(0),
            copy("/p/rwall_temp/a/1.png", "1.png", 20),
            visit(20),
            copy("/p/rwall_temp/b/1.png", "1.png", 40),
        ]
    );
    assert_eq!(plan.file_count, 2);
    let mut library: Vec<(String, String)> = Vec::new();
    for step in plan.steps {
        if let Some(c) = step.copy {
            library.retain(|(name, _)| *name != c.file_name);
            library.push((c.file_name, c.from));
        }
    }
    assert_eq!(library, vec![("1.png".to_string(), "/p/rwall_temp/b/1.png".to_string())]);
}

#[test]
fn three_images_in_two_folders_are_three_copies() {
    let entries = vec![
        dir("/s", "s"),
        dir("/s/x", "x"),
        file("/s/x/one.png", "one.png"),
        file("/s/x/two.jpg", "two.jpg"),
        dir("/s/y", "y"),
        file("/s/y/three.jpeg", "three.jpeg"),
    ];
    let plan = plan_migration(&entries);
    assert_eq!(plan.file_count, 3);
    let names: Vec<String> =
        plan.steps.iter().filter_map(|s| s.copy.as_ref().map(|c| c.file_name.clone())).collect();
    assert_eq!(names, vec!["one.png".to_string(), "two.jpg".to_string(), "three.jpeg".to_string()]);
    let percents: Vec<usize> = plan.steps.iter().map(|s| s.percent).collect();
    assert_eq!(percents, vec![0, 0, 16, 33, 33, 50]);
}

#[test]
fn every_regular_file_is_copied_whatever_its_extension() {
    let entries = vec![file("/s/README", "README"), file("/s/a.png", "a.png")];
    let plan = plan_migration(&entries);
    assert_eq!(plan.steps, vec![copy("/s/README", "README", 50), copy("/s/a.png", "a.png", 100)]);
    assert_eq!(plan.file_count, 2);
}

#[test]
fn progress_never_decreases() {
    let entries = vec![
        dir("/s", "s"),
        file("/s/a", "a"),
        dir("/s/d", "d"),
        dir("/s/e", "e"),
        file("/s/e/b", "b"),
        file("/s/e/c", "c"),
        dir("/s/f", "f"),
    ];
    let plan = plan_migration(&entries);
    let percents: Vec<usize> = plan.steps.iter().map(|s| s.percent).collect();
    assert_eq!(percents, vec![0, 14, 14, 14, 28, 42, 42]);
    for pair in percents.windows(2) {
        assert!(pair[0] <= pair[1]);
    }
}

#[test]
fn progress_ends_at_the_share_of_files() {
    let with_root = vec![dir("/s", "s"), file("/s/a.png", "a.png")];
    assert_eq!(plan_migration(&with_root).steps[1].percent, 50);
    let only_files = vec![file("/s/a.png", "a.png"), file("/s/b.png", "b.png"), file("/s/c", "c")];
    assert_eq!(plan_migration(&only_files).steps[2].percent, 100);
}

#[test]
fn an_empty_walk_has_an_empty_plan() {
    let plan = plan_migration(&Vec::new());
    assert_eq!(plan.steps, Vec::<MigrationStep>::new());
    assert_eq!(plan.file_count, 0);
}

#[test]
fn a_tree_without_files_copies_nothing() {
    let plan = plan_migration(&vec![dir("/s", "s"), dir("/s/a", "a")]);
    assert_eq!(plan.steps, vec![visit(0), visit(0)]);
    assert_eq!(plan.file_count, 0);
}
