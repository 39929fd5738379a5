use snapcase::diff::{Chunk, Diff, Render, SIZE_CEILING};

#[test]
fn close_texts_give_a_diff() {
    let diff = Diff::compute("abcdefghij", "abcdefghix").expect("a diff");
    assert_eq!(
        diff.diff,
        vec![Chunk::Equal("abcdefghi"), Chunk::Delete("j"), Chunk::Insert("x")]
    );
    assert_eq!(diff.expected, "abcdefghij");
    assert_eq!(diff.actual, "abcdefghix");
}

#[test]
fn unlike_texts_give_no_diff() {
    assert!(Diff::compute("abc", "xyz").is_none());
}

#[test]
fn equal_texts_give_a_diff_of_one_chunk() {
    let diff = Diff::compute("same\n", "same\n").expect("a diff");
    assert_eq!(diff.diff, vec![Chunk::Equal("same\n")]);
}

#[test]
fn texts_over_the_ceiling_give_no_diff() {
    assert_eq!(SIZE_CEILING, 2048);
    let a = "a".repeat(1025);
    assert!(Diff::compute(&a, &a).is_none());
    let long = "a".repeat(2049);
    assert!(Diff::compute(&long, "").is_none());
    assert!(Diff::compute("", &long).is_none());
}

#[test]
fn texts_at_the_ceiling_give_a_diff() {
    let a = "a".repeat(1024);
    assert!(Diff::compute(&a, &a).is_some());
}

#[test]
fn ceiling_counts_bytes() {
    let e = "\u{e9}".repeat(512);
    let a = "\u{e9}".repeat(513);
    assert!(Diff::compute(&e, &e).is_some());
    assert!(Diff::compute(&e, &a).is_none());
}

#[test]
fn gate_accepts_four_fifths_in_common() {
    let chunks = vec![Chunk::Equal("abcd"), Chunk::Delete("e")];
    assert!(Diff::gate("abcde", "abcd", chunks).is_some());
}

#[test]
fn gate_refuses_less_than_four_fifths_in_common() {
    let chunks = vec![Chunk::Equal("abc"), Chunk::Delete("de")];
    assert!(Diff::gate("abcde", "abc", chunks).is_none());
}

#[test]
fn gate_measures_against_the_longer_side() {
    let chunks = vec![Chunk::Equal("abcd"), Chunk::Insert("efg")];
    assert!(Diff::gate("abcd", "abcdefg", chunks).is_none());
    let chunks = vec![Chunk::Equal("abcd"), Chunk::Insert("e")];
    assert!(Diff::gate("abcd", "abcde", chunks).is_some());
}

#[test]
fn gate_adds_up_all_common_chunks() {
    let chunks = vec![Chunk::Equal("ab"), Chunk::Delete("X"), Chunk::Equal("cd")];
    assert!(Diff::gate("abXcd", "abcd", chunks).is_some());
}

#[test]
fn gate_of_empty_texts_accepts() {
    assert!(Diff::gate("", "", vec![]).is_some());
}

#[test]
fn each_side_shows_its_own_chunks() {
    let diff = Diff::compute("abcdefghij", "abcdefghix").expect("a diff");
    assert_eq!(
        diff.iter("abcdefghij"),
        vec![Render::Common("abcdefghi"), Render::Unique("j")]
    );
    assert_eq!(
        diff.iter("abcdefghix"),
        vec![Render::Common("abcdefghi"), Render::Unique("x")]
    );
}

#[test]
fn another_text_shows_the_common_chunks_only() {
    let diff = Diff::compute("abcdefghij", "abcdefghix").expect("a diff");
    assert_eq!(diff.iter("other"), vec![Render::Common("abcdefghi")]);
}

#[test]
fn equal_sides_show_every_chunk() {
    let diff = Diff {
        expected: "ab",
        actual: "ab",
        diff: vec![Chunk::Delete("a"), Chunk::Equal("b"), Chunk::Insert("a")],
    };
    assert_eq!(
        diff.iter("ab"),
        vec![Render::Unique("a"), Render::Common("b"), Render::Unique("a")]
    );
}
