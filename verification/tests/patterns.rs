use folder_cleaner::fs_utils::has_extension;
use folder_cleaner::fs_utils::FilePattern;

#[test]
fn any_matches_every_path() {
    let p = FilePattern::Any;
    assert!(p.matches("a.lnk"));
    assert!(p.matches("b.txt"));
    assert!(p.matches(""));
    assert!(p.matches("dir/sub"));
    assert!(p.matches("C:\\Users\\u\\Desktop\\note"));
}

#[test]
fn extension_matches_exactly() {
    let p = FilePattern::Extension(String::from("lnk"));
    assert!(p.matches("a.lnk"));
    assert!(!p.matches("a.LNK"));
    assert!(!p.matches("a.lnk.bak"));
    assert!(!p.matches("alnk"));
    assert!(!p.matches("lnk"));
}

#[test]
fn no_extension_never_matches_a_nonempty_one() {
    let p = FilePattern::Extension(String::from("lnk"));
    assert!(!p.matches("a"));
    assert!(!p.matches(".lnk"));
    assert!(!p.matches("dir.lnk/file"));
    assert!(!p.matches(""));
}

#[test]
fn empty_extension_matches_paths_without_one() {
    let p = FilePattern::Extension(String::new());
    assert!(p.matches("a"));
    assert!(p.matches("a."));
    assert!(!p.matches("a.b"));
}

#[test]
fn extension_is_taken_from_the_final_component() {
    let p = FilePattern::Extension(String::from("txt"));
    assert!(p.matches("dir/a.txt"));
    assert!(p.matches("C:\\Users\\u\\Desktop\\a.txt"));
    assert!(!p.matches("dir.txt/a"));
}

#[test]
fn has_extension_compares_the_whole_component() {
    assert!(has_extension("archive.tar.gz", "gz"));
    assert!(!has_extension("archive.tar.gz", "tar.gz"));
    assert!(!has_extension("archive.tar.gz", "z"));
    assert!(!has_extension("archive.tar.gz", "gzz"));
}

#[test]
fn leading_dot_alone_is_no_extension() {
    assert!(!has_extension(".gitignore", "gitignore"));
    assert!(has_extension(".gitignore.bak", "bak"));
    assert!(!has_extension("dir/.hidden", "hidden"));
}
