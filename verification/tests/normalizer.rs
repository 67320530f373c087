use config_sync::document::{Config, ConfigError, ConfigUser, DDNSConfig, MountPoint};
use config_sync::paths::{
    accept_parsed, clean_path_string, clean_path_text, clean_source, clean_source_text,
    unify_separators,
};

fn mount(source: &str, name: &str) -> MountPoint {
    MountPoint { source: source.into(), name: name.into() }
}

fn document_with(mount_dirs: Option<Vec<MountPoint>>) -> Config {
    Config {
        album_art_pattern: Some("file\\.png".into()),
        reindex_every_n_seconds: Some(123),
        mount_dirs,
        users: Some(vec![ConfigUser { name: "Teddy".into(), password: "honey".into() }]),
        ydns: Some(DDNSConfig {
            host: "x.ydns.eu".into(),
            username: "u".into(),
            password: "p".into(),
        }),
    }
}

fn native(path: &str) -> String {
    unify_separators(path, std::path::MAIN_SEPARATOR)
}

#[test]
fn test_clean_path_string() {
    let windows = std::path::MAIN_SEPARATOR == '\\';
    let mut correct_path = std::path::PathBuf::new();
    if windows {
        correct_path.push("C:\\");
    } else {
        correct_path.push("/usr");
    }
    correct_path.push("some");
    correct_path.push("path");
    if windows {
        assert_eq!(correct_path, clean_path_string(r#"C:/some/path"#));
        assert_eq!(correct_path, clean_path_string(r#"C:\some\path"#));
        assert_eq!(correct_path, clean_path_string(r#"C:\some\path\"#));
        assert_eq!(correct_path, clean_path_string(r#"C:\some\path\\\\"#));
        assert_eq!(correct_path, clean_path_string(r#"C:\some/path//"#));
    } else {
        assert_eq!(correct_path, clean_path_string(r#"/usr/some/path"#));
        assert_eq!(correct_path, clean_path_string(r#"/usr\some\path"#));
        assert_eq!(correct_path, clean_path_string(r#"/usr\some\path\"#));
        assert_eq!(correct_path, clean_path_string(r#"/usr\some\path\\\\"#));
        assert_eq!(correct_path, clean_path_string(r#"/usr\some/path//"#));
    }
}

#[test]
fn unify_separators_sets_the_separator_everywhere() {
    assert_eq!(unify_separators("C:\\some/path//", '/'), "C:/some/path//");
    assert_eq!(unify_separators("C:\\some/path//", '\\'), "C:\\some\\path\\\\");
    assert_eq!(unify_separators("/usr\\some\\path\\\\\\\\", '/'), "/usr/some/path////");
    assert_eq!(unify_separators("a\\b/c", '+'), "a+b+c");
    assert_eq!(unify_separators("\\", '/'), "/");
    assert_eq!(unify_separators("/", '\\'), "\\");
}

#[test]
fn unify_separators_leaves_the_rest_alone() {
    assert_eq!(unify_separators("", '/'), "");
    assert_eq!(unify_separators("no separator here", '/'), "no separator here");
    assert_eq!(unify_separators("a|b", '/'), "a|b");
    assert_eq!(unify_separators("🎵\\📁/é", '/'), "🎵/📁/é");
    assert_eq!(unify_separators("$1\\${x}/$$", '/'), "$1/${x}/$$");
}

#[test]
fn unify_separators_writes_a_dollar_as_it_stands() {
    assert_eq!(unify_separators("a/b\\c", '$'), "a$b$c");
    assert_eq!(unify_separators("/", '$'), "$");
}

#[test]
fn unify_separators_twice_is_once() {
    let once = unify_separators("C:\\some/path//", '/');
    assert_eq!(unify_separators(&once, '/'), once);
    let once = unify_separators("C:\\some/path//", '\\');
    assert_eq!(unify_separators(&once, '\\'), once);
    assert_eq!(unify_separators("/already/fine", '/'), "/already/fine");
}

#[test]
fn cleaning_a_cleaned_path_changes_nothing() {
    let cleaned = clean_path_string(&native("/usr\\some/path//"));
    assert_eq!(clean_path_string(&cleaned), cleaned);
    assert_eq!(cleaned, native("/usr/some/path"));
}

#[test]
fn paths_that_differ_in_separators_clean_to_the_same() {
    let expected = clean_path_string("some/path");
    assert_eq!(clean_path_string("some\\path\\\\\\\\"), expected);
    assert_eq!(clean_path_string("some/path"), expected);
    assert_eq!(clean_path_string("some\\path//"), expected);
    assert_eq!(expected, native("some/path"));
}

#[test]
fn clean_source_gives_the_native_string() {
    assert_eq!(clean_source("music\\albums//"), Some(native("music/albums")));
    assert_eq!(clean_source("music"), Some("music".to_string()));
    assert_eq!(clean_source(""), Some("".to_string()));
}

#[test]
fn clean_paths_cleans_every_source() {
    let mut document = document_with(Some(vec![
        mount("music\\albums//", "root"),
        mount("other/place\\", "second"),
    ]));
    assert_eq!(document.clean_paths(), Ok(()));
    assert_eq!(
        document,
        document_with(Some(vec![
            mount(&native("music/albums"), "root"),
            mount(&native("other/place"), "second"),
        ]))
    );
}

#[test]
fn clean_paths_without_mount_points_changes_nothing() {
    let mut document = document_with(None);
    assert_eq!(document.clean_paths(), Ok(()));
    assert_eq!(document, document_with(None));
    let mut document = document_with(Some(vec![]));
    assert_eq!(document.clean_paths(), Ok(()));
    assert_eq!(document, document_with(Some(vec![])));
}

#[test]
fn a_source_without_cleaned_form_is_an_invalid_path() {
    let mut mount_point = mount("music\\albums", "root");
    assert_eq!(mount_point.take_cleaned_source(None), Err(ConfigError::InvalidPath));
    assert_eq!(mount_point, mount("music\\albums", "root"));
}

#[test]
fn a_cleaned_source_takes_the_place_of_the_old_one() {
    let mut mount_point = mount("music\\albums", "root");
    assert_eq!(mount_point.take_cleaned_source(Some("music/albums".to_string())), Ok(()));
    assert_eq!(mount_point, mount("music/albums", "root"));
}

#[test]
fn accept_parsed_passes_a_parse_error_on() {
    assert_eq!(
        accept_parsed(Err("expected value at line 1 column 1".to_string())),
        Err(ConfigError::ParseError("expected value at line 1 column 1".to_string()))
    );
}

#[test]
fn accept_parsed_cleans_the_document() {
    assert_eq!(
        accept_parsed(Ok(document_with(Some(vec![mount("music\\albums//", "root")])))),
        Ok(document_with(Some(vec![mount(&native("music/albums"), "root")])))
    );
    assert_eq!(accept_parsed(Ok(document_with(None))), Ok(document_with(None)));
}

#[test]
fn clean_path_text_joins_the_parts_again() {
    if std::path::MAIN_SEPARATOR == '/' {
        assert_eq!(clean_path_text("/usr\\some/path//", '/'), "/usr/some/path");
        assert_eq!(clean_path_text("a//b\\\\c/", '/'), "a/b/c");
        assert_eq!(clean_path_text("/", '/'), "/");
        assert_eq!(clean_path_text("a/./b", '/'), "a/b");
        assert_eq!(clean_path_text("a/../b", '/'), "a/../b");
    }
    assert_eq!(clean_path_text("", std::path::MAIN_SEPARATOR), "");
    assert_eq!(clean_path_text("music", std::path::MAIN_SEPARATOR), "music");
}

#[test]
fn clean_path_text_is_what_the_platform_collects() {
    for path in ["/usr\\some/path//", "a//b", "", "./x/.", "\\\\server\\share", "C:\\Music"] {
        let unified = unify_separators(path, std::path::MAIN_SEPARATOR);
        let collected: std::path::PathBuf = std::path::Path::new(&unified).iter().collect();
        assert_eq!(collected, std::path::PathBuf::from(clean_path_string(path)));
        assert_eq!(collected.to_str().map(str::to_string), clean_source(path));
    }
}

#[test]
fn clean_source_text_gives_the_cleaned_text() {
    assert_eq!(
        clean_source_text("music\\albums//", std::path::MAIN_SEPARATOR),
        Some(native("music/albums"))
    );
    assert_eq!(
        clean_source_text("music", std::path::MAIN_SEPARATOR),
        clean_source("music")
    );
}

#[test]
fn clean_paths_with_cleans_every_source() {
    let mut document = document_with(Some(vec![
        mount("/usr\\some/path//", "a"),
        mount("/usr/some/path", "b"),
    ]));
    assert_eq!(document.clean_paths_with(std::path::MAIN_SEPARATOR), Ok(()));
    assert_eq!(
        document,
        document_with(Some(vec![
            mount(&native("/usr/some/path"), "a"),
            mount(&native("/usr/some/path"), "b"),
        ]))
    );
}

#[test]
fn cleaning_a_cleaned_document_changes_nothing() {
    let mut document = document_with(Some(vec![
        mount("music\\albums//", "root"),
        mount("other/place\\", "second"),
    ]));
    assert_eq!(document.clean_paths(), Ok(()));
    let once = document_with(Some(vec![
        mount(&native("music/albums"), "root"),
        mount(&native("other/place"), "second"),
    ]));
    assert_eq!(document, once);
    assert_eq!(document.clean_paths(), Ok(()));
    assert_eq!(document, once);
}
