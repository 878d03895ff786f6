use audio_backend::naming::{derive_file_name, file_url, join_file_name, sanitize_title};

#[test]
fn file_url_puts_the_name_under_audio() {
    assert_eq!(file_url("Song-1234.mp3"), "/audio/Song-1234.mp3");
    assert_eq!(file_url(""), "/audio/");
}

#[test]
fn join_file_name_is_stem_hyphen_id_mp3() {
    assert_eq!(join_file_name("Song", "1234"), "Song-1234.mp3");
    assert_eq!(join_file_name("", "abcd"), "-abcd.mp3");
    assert_eq!(join_file_name("a-b", ""), "a-b-.mp3");
}

#[test]
fn sanitize_title_keeps_a_plain_title() {
    assert_eq!(sanitize_title("Song"), "Song");
    assert_eq!(sanitize_title("My Song (live) 2"), "My Song (live) 2");
    assert_eq!(sanitize_title("résumé"), "résumé");
    assert_eq!(sanitize_title(""), "");
}

#[test]
fn sanitize_title_deletes_path_hostile_characters() {
    assert_eq!(sanitize_title("a/b\\c:d*e?f\"g<h>i|j"), "abcdefghij");
    assert_eq!(sanitize_title("../../etc/passwd"), "....etcpasswd");
    assert_eq!(sanitize_title("some-user-defined/../../../string"), "some-user-defined......string");
}

#[test]
fn sanitize_title_deletes_control_characters() {
    assert_eq!(sanitize_title("hello\u{0}world"), "helloworld");
    assert_eq!(sanitize_title("hello\nworld"), "helloworld");
    assert_eq!(sanitize_title("a\u{85}b\u{9f}c"), "abc");
}

#[test]
fn sanitize_title_deletes_a_title_of_dots() {
    assert_eq!(sanitize_title("."), "");
    assert_eq!(sanitize_title(".."), "");
    assert_eq!(sanitize_title("..."), "");
    assert_eq!(sanitize_title(".a."), ".a.");
}

#[test]
fn sanitize_title_is_the_same_on_every_platform() {
    assert_eq!(sanitize_title("con"), "con");
    assert_eq!(sanitize_title("LPT1.txt"), "LPT1.txt");
    assert_eq!(sanitize_title("trailing. "), "trailing. ");
}

#[test]
fn sanitize_title_truncates_to_255_bytes() {
    let long: String = "a".repeat(300);
    let clean: String = sanitize_title(&long);
    assert_eq!(clean.len(), 255);
    assert_eq!(clean, "a".repeat(255));

    let wide: String = "é".repeat(200);
    let clean: String = sanitize_title(&wide);
    assert_eq!(clean, "é".repeat(127));
}

#[test]
fn sanitized_titles_hold_no_hostile_character() {
    let titles: Vec<&str> = vec![
        "Song",
        "a/b",
        "x\\y",
        "q?",
        "<tag>",
        "pipe|pipe",
        "star*",
        "colon:",
        "quote\"",
        "tab\there",
        "\u{1f}\u{80}\u{9f}",
    ];
    for title in titles {
        let clean: String = sanitize_title(title);
        for c in clean.chars() {
            assert!(!"/?<>\\:*|\"".contains(c), "{:?} kept {:?}", title, c);
            let code: u32 = u32::from(c);
            assert!(code > 0x1f, "{:?} kept {:?}", title, c);
            assert!(!(0x80..=0x9f).contains(&code), "{:?} kept {:?}", title, c);
        }
    }
}

#[test]
fn derive_file_name_sanitizes_the_title() {
    let id: &str = "123e4567-e89b-42d3-a456-426614174000";
    assert_eq!(
        derive_file_name("Song", id),
        "Song-123e4567-e89b-42d3-a456-426614174000.mp3"
    );
    assert_eq!(
        derive_file_name("My/Song", id),
        "MySong-123e4567-e89b-42d3-a456-426614174000.mp3"
    );
    assert_eq!(
        derive_file_name("", id),
        "-123e4567-e89b-42d3-a456-426614174000.mp3"
    );
    assert_eq!(
        derive_file_name("../../x", id),
        "....x-123e4567-e89b-42d3-a456-426614174000.mp3"
    );
}

#[test]
fn different_ids_give_different_names() {
    let a: String = derive_file_name("Song", "123e4567-e89b-42d3-a456-426614174000");
    let b: String = derive_file_name("Song", "123e4567-e89b-42d3-a456-426614174001");
    assert_ne!(a, b);
    let c: String = derive_file_name("Song-123e4567", "e89b42d3-a456-4266-9417-400012345678");
    let d: String = derive_file_name("Song", "123e4567-e89b-42d3-a456-426614174000");
    assert_ne!(c, d);
}
