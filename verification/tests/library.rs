use rwall::library::{has_image_extension, scan, WalkEntry};

fn file(path: &str, name: &str) -> WalkEntry {
    WalkEntry { path: path.to_string(), file_name: name.to_string(), is_file: true }
}

fn dir(path: &str, name: &str) -> WalkEntry {
    WalkEntry { path: path.to_string(), file_name: name.to_string(), is_file: false }
}

#[test]
fn image_extensions_are_recognised() {
    assert!(has_image_extension("a.jpg"));
    assert!(has_image_extension("a.jpeg"));
    assert!(has_image_extension("a.png"));
    assert!(has_image_extension("holiday.2024.png"));
}

#[test]
fn other_extensions_are_not() {
    assert!(!has_image_extension("notes.txt"));
    assert!(!has_image_extension("a.png.txt"));
    assert!(!has_image_extension("a.gif"));
    assert!(!has_image_extension("a.pngx"));
    assert!(!has_image_extension("a.jpe"));
    assert!(!has_image_extension("a.g"));
}

#[test]
fn names_without_extension_are_not_images() {
    assert!(!has_image_extension(""));
    assert!(!has_image_extension("README"));
    assert!(!has_image_extension("png"));
    assert!(!has_image_extension("a."));
    assert!(!has_image_extension(".gitkeep"));
    assert!(!has_image_extension(".png"));
    assert!(!has_image_extension(".jpeg"));
}

#[test]
fn extension_match_is_case_sensitive() {
    assert!(!has_image_extension("a.PNG"));
    assert!(!has_image_extension("a.Jpg"));
    assert!(!has_image_extension("a.JPEG"));
    assert!(!has_image_extension("a.pnG"));
}

#[test]
fn names_may_hold_any_characters() {
    assert!(has_image_extension("süß wasser.png"));
    assert!(has_image_extension("日本.jpeg"));
    assert!(!has_image_extension("日本.日本"));
    assert!(has_image_extension("..png"));
}

#[test]
fn scan_keeps_exactly_the_images_at_any_depth() {
    let entries = vec![
        dir("/pics/rwall", "rwall"),
        file("/pics/rwall/a.jpg", "a.jpg"),
        file("/pics/rwall/notes.txt", "notes.txt"),
        dir("/pics/rwall/deep", "deep"),
        file("/pics/rwall/deep/.gitkeep", ".gitkeep"),
        dir("/pics/rwall/deep/deeper", "deeper"),
        file("/pics/rwall/deep/deeper/b.jpeg", "b.jpeg"),
        file("/pics/rwall/deep/deeper/LICENSE", "LICENSE"),
        file("/pics/rwall/deep/c.png", "c.png"),
        file("/pics/rwall/deep/d.PNG", "d.PNG"),
    ];
    assert_eq!(
        scan(&entries),
        vec![
            "/pics/rwall/a.jpg".to_string(),
            "/pics/rwall/deep/deeper/b.jpeg".to_string(),
            "/pics/rwall/deep/c.png".to_string(),
        ]
    );
}

#[test]
fn scan_keeps_walk_order() {
    let entries = vec![file("/l/z.png", "z.png"), file("/l/a.png", "a.png"), file("/l/m.jpg", "m.jpg")];
    assert_eq!(
        scan(&entries),
        vec!["/l/z.png".to_string(), "/l/a.png".to_string(), "/l/m.jpg".to_string()]
    );
}

#[test]
fn scan_passes_over_directories_named_like_images() {
    let entries = vec![dir("/l/album.png", "album.png"), file("/l/album.png/x.jpg", "x.jpg")];
    assert_eq!(scan(&entries), vec!["/l/album.png/x.jpg".to_string()]);
}

#[test]
fn scan_goes_by_the_file_name_not_the_directory() {
    let entries = vec![dir("/l/v1.png", "v1.png"), file("/l/v1.png/readme", "readme")];
    assert_eq!(scan(&entries), Vec::<String>::new());
}

#[test]
fn scan_of_nothing_is_empty() {
    assert_eq!(scan(&Vec::new()), Vec::<String>::new());
    assert_eq!(scan(&vec![dir("/l", "l")]), Vec::<String>::new());
}
