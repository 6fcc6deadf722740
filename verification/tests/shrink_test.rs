use croque::config::path::PathAlias;
use croque::segment::shrink::{expand_tilde, shrink_file_name, shrink_path};

#[test]
fn test_expand_tilde() {
    assert_eq!(expand_tilde("~", Some("/home/ayaka")), "/home/ayaka");

    assert_eq!(expand_tilde("~/a", Some("/home/ayaka")), "/home/ayaka/a");

    assert_eq!(expand_tilde("/~/a", Some("/home/ayaka")), "/~/a");

    assert_eq!(expand_tilde("~/a", None), "~/a");

    assert_eq!(expand_tilde("~a", Some("/home/ayaka")), "~a");
}

#[test]
fn test_shrink_file_name() {
    assert_eq!(shrink_file_name("home", 1), "h");
    assert_eq!(shrink_file_name("home", 2), "ho");
    assert_eq!(shrink_file_name("home", 4), "home");
    assert_eq!(shrink_file_name("home", 5), "home");
    assert_eq!(shrink_file_name("home", 0), "");

    assert_eq!(shrink_file_name("あいう", 1), "あ");

    assert_eq!(shrink_file_name(".config", 1), ".c");
    assert_eq!(shrink_file_name(".config", 2), ".co");
    assert_eq!(shrink_file_name(".config", 7), ".config");
    assert_eq!(shrink_file_name(".config", 10), ".config");
    assert_eq!(shrink_file_name(".config", 0), "");

    assert_eq!(shrink_file_name("", 1), "");
}

fn aliases() -> Vec<PathAlias> {
    vec![
        PathAlias {
            path: "~/.Trash".to_string(),
            alias: "\u{f1f8}".to_string(),
        },
        PathAlias {
            path: "~".to_string(),
            alias: "~".to_string(),
        },
    ]
}

#[test]
fn test_shrink_path() {
    let home = Some("/home/ayaka");

    assert_eq!(
        &shrink_path("/home/ayaka/repos/repo_a", home, None, &aliases(), true, 1),
        "~/r/repo_a"
    );

    assert_eq!(
        &shrink_path("/home/ayaka/repos/repo_a", home, None, &aliases(), false, 1),
        "~/repos/repo_a"
    );

    assert_eq!(
        &shrink_path(
            "/home/ayaka/repos/repo_a/src",
            home,
            Some("/home/ayaka/repos/repo_a"),
            &aliases(),
            true,
            1
        ),
        "~/r/repo_a/src"
    );

    assert_eq!(
        &shrink_path("/home/ayaka/.config/croque/", home, None, &aliases(), true, 2),
        "~/.co/croque"
    );

    assert_eq!(
        &shrink_path(
            "/home/ayaka/今日の献立/2023 02 14",
            home,
            None,
            &aliases(),
            true,
            2
        ),
        "~/今日/2023 02 14"
    );

    assert_eq!(
        &shrink_path("/home/ayaka/.Trash/a", home, None, &aliases(), true, 2),
        "\u{f1f8}/a"
    );

    assert_eq!(&shrink_path("/home", home, None, &aliases(), true, 1), "/home");

    assert_eq!(&shrink_path("/home/", home, None, &aliases(), true, 1), "/home");

    assert_eq!(
        &shrink_path("/home/nyan", home, None, &aliases(), true, 1),
        "/h/nyan"
    );

    assert_eq!(&shrink_path("/", home, None, &aliases(), true, 1), "/");
}
