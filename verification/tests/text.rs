use tml::text::{chars_of, clone_strings, split_str, str_contains, str_eq};

#[test]
fn split_cuts_at_every_separator() {
    assert_eq!(split_str("A & B & C", " & "), vec!["A", "B", "C"]);
    assert_eq!(split_str("Solo", " & "), vec!["Solo"]);
    assert_eq!(split_str("", " & "), vec![""]);
    assert_eq!(split_str(" & A & ", " & "), vec!["", "A", ""]);
    assert_eq!(split_str("a,,b", ","), vec!["a", "", "b"]);
}

#[test]
fn split_agrees_with_std_split() {
    for (s, sep) in [
        ("x&&y", "&&"),
        ("aaa", "aa"),
        ("héllo wörld", "ö"),
        ("no separator here", "|"),
        ("|||", "|"),
    ] {
        let expected: Vec<String> = s.split(sep).map(|p| p.to_string()).collect();
        assert_eq!(split_str(s, sep), expected);
    }
}

#[test]
fn joining_the_pieces_gives_back_the_string() {
    for s in ["A & B", " & ", "plain", "x & & y"] {
        assert_eq!(split_str(s, " & ").join(" & "), s);
    }
}

#[test]
fn string_equality_and_containment() {
    assert!(str_eq("flac", "flac"));
    assert!(!str_eq("flac", "FLAC"));
    assert!(!str_eq("mp3", "mp"));
    assert!(str_contains("fk-music_info_music_list-music_list_id", "music_list_id"));
    assert!(!str_contains("music_info_id", "music_list_id"));
    assert!(str_contains("anything", ""));
    assert!(!str_contains("", "a"));
}

#[test]
fn concat_chars_and_copies() {
    assert_eq!(tml::text::concat("Db error: ", "timeout"), "Db error: timeout");
    assert_eq!(chars_of("añb"), vec!['a', 'ñ', 'b']);
    let v = vec!["x".to_string(), "y".to_string()];
    assert_eq!(clone_strings(&v), v);
}
