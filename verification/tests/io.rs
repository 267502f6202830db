use sitegen::error::ErrorKind;
use sitegen::io::{
    check_output_dir, create_path, file_stem, input_path, output_path, read_dir, DirEntry, Walk,
    WalkStep, INPUT, OUTPUT,
};

fn file(path: &str) -> DirEntry {
    DirEntry { path: path.to_string(), is_dir: false }
}

fn dir(path: &str) -> DirEntry {
    DirEntry { path: path.to_string(), is_dir: true }
}

fn expect_list(walk: &mut Walk, path: &str) {
    match walk.next() {
        WalkStep::List(found) => assert_eq!(found, path),
        other => panic!("expected to list {}, got {:?}", path, other),
    }
}

fn expect_read(walk: &mut Walk, name: &str, path: &str) {
    match walk.next() {
        WalkStep::Read { name: found_name, path: found_path } => {
            assert_eq!(found_name, name);
            assert_eq!(found_path, path);
        }
        other => panic!("expected to read {}, got {:?}", path, other),
    }
}

fn expect_done(walk: &mut Walk) {
    assert!(matches!(walk.next(), WalkStep::Done));
}

#[test]
fn roots_are_input_and_output() {
    assert_eq!(INPUT, "input/");
    assert_eq!(OUTPUT, "output/");
}

#[test]
fn create_path_joins_base_and_relative() {
    assert_eq!(create_path("input/", "blog").unwrap(), "input/blog");
    assert_eq!(create_path("input", "blog").unwrap(), "input/blog");
    assert_eq!(create_path("", "blog").unwrap(), "blog");
    assert_eq!(create_path("input/", "").unwrap(), "input/");
    assert_eq!(create_path("input", "").unwrap(), "input/");
    assert_eq!(create_path("output/", "blog/post.html").unwrap(), "output/blog/post.html");
}

#[test]
fn create_path_rejects_an_absolute_path() {
    let error = create_path("input/", "/etc/passwd").unwrap_err();
    assert_eq!(error.kind, ErrorKind::IOError);
    assert_eq!(error.to_string(), "Input path: /etc/passwd was not relative");
    assert_eq!(create_path("input/", "/").unwrap_err().kind, ErrorKind::IOError);
}

#[test]
fn input_and_output_paths_stand_below_their_roots() {
    assert_eq!(input_path("css").unwrap(), "input/css");
    assert_eq!(output_path("index.html").unwrap(), "output/index.html");
    let error = input_path("/css").unwrap_err();
    assert_eq!(error.kind, ErrorKind::IOError);
    assert_eq!(error.to_string(), "Input path: /css was not relative");
    let error = output_path("/tmp/x.html").unwrap_err();
    assert_eq!(error.kind, ErrorKind::IOError);
    assert_eq!(error.to_string(), "Input path: /tmp/x.html was not relative");
}

#[test]
fn check_output_dir_rejects_what_is_no_directory() {
    assert!(check_output_dir("output/blog", false, false).is_ok());
    assert!(check_output_dir("output/blog", true, true).is_ok());
    assert!(check_output_dir("output/blog", false, true).is_ok());
    let error = check_output_dir("output/blog", true, false).unwrap_err();
    assert_eq!(error.kind, ErrorKind::IOError);
    assert_eq!(error.to_string(), "Initializaing directory: output/blog is not a dir");
}

#[test]
fn file_stem_strips_the_extension() {
    assert_eq!(file_stem("input/templates/index.hbs"), Some("index".to_string()));
    assert_eq!(file_stem("index.hbs"), Some("index".to_string()));
    assert_eq!(file_stem("a/b.c/archive.tar.gz"), Some("archive.tar".to_string()));
    assert_eq!(file_stem("a/b.c/readme"), Some("readme".to_string()));
    assert_eq!(file_stem("a/.hidden"), Some(".hidden".to_string()));
    assert_eq!(file_stem("a/.hidden.txt"), Some(".hidden".to_string()));
    assert_eq!(file_stem("a/name."), Some("name".to_string()));
}

#[test]
fn file_stem_of_no_file_name_is_none() {
    assert_eq!(file_stem(""), None);
    assert_eq!(file_stem("a/"), None);
    assert_eq!(file_stem("a/.."), None);
    assert_eq!(file_stem(".."), None);
    assert_eq!(file_stem("a/."), None);
}

#[test]
fn read_dir_starts_below_the_input_root() {
    let mut walk = read_dir("blog").unwrap();
    expect_list(&mut walk, "input/blog");
    expect_done(&mut walk);
}

#[test]
fn read_dir_rejects_an_absolute_path() {
    let error = read_dir("/etc").unwrap_err();
    assert_eq!(error.kind, ErrorKind::IOError);
    assert_eq!(error.to_string(), "Input path: /etc was not relative");
}

#[test]
fn walk_visits_depth_first_in_listing_order() {
    let mut walk = read_dir("templates").unwrap();
    expect_list(&mut walk, "input/templates");
    walk.entered(vec![
        file("input/templates/index.hbs"),
        dir("input/templates/partials"),
        file("input/templates/blog.hbs"),
    ]);
    expect_read(&mut walk, "index", "input/templates/index.hbs");
    expect_list(&mut walk, "input/templates/partials");
    walk.entered(vec![
        file("input/templates/partials/head.hbs"),
        dir("input/templates/partials/deep"),
    ]);
    expect_read(&mut walk, "head", "input/templates/partials/head.hbs");
    expect_list(&mut walk, "input/templates/partials/deep");
    walk.entered(vec![]);
    expect_read(&mut walk, "blog", "input/templates/blog.hbs");
    expect_done(&mut walk);
    expect_done(&mut walk);
}

#[test]
fn walk_passes_over_files_without_a_name() {
    let mut walk = Walk::new("root".to_string());
    expect_list(&mut walk, "root");
    walk.entered(vec![file("root/.."), file("root/a.txt"), file("root/"), file("root/.")]);
    expect_read(&mut walk, "a", "root/a.txt");
    expect_done(&mut walk);
}
