use snapcase::term::{bold, bold_color, color, reset, Color, ColorSpec, Plan, Segment, Term};

fn seg(start: usize, end: usize, colored: bool, ends_line: bool) -> Segment {
    Segment { start, end, colored, ends_line }
}

fn lines(term: &Term, buf: &[u8]) -> Vec<Segment> {
    match term.plan(buf) {
        Plan::Lines(segs) => segs,
        Plan::Plain => panic!("plain"),
    }
}

#[test]
fn new_terminal_is_plain_at_line_start() {
    let term = Term::new();
    assert_eq!(term.spec, ColorSpec { bold: false, fg: None });
    assert!(term.spec.is_none());
    assert!(term.start_of_line);
}

#[test]
fn plain_text_is_written_in_one_piece() {
    let term = Term::new();
    assert!(matches!(term.plan(b"one\ntwo\n"), Plan::Plain));
    assert!(matches!(term.plan(b""), Plan::Plain));
}

#[test]
fn coloured_text_is_written_line_by_line() {
    let mut term = Term::new();
    bold(&mut term);
    assert_eq!(
        lines(&term, b"ab\ncd\n\nef"),
        vec![seg(0, 3, true, true), seg(3, 6, true, true), seg(6, 7, true, true), seg(7, 9, true, false)]
    );
}

#[test]
fn colour_is_not_set_again_within_a_line() {
    let mut term = Term::new();
    color(&mut term, Color::Red);
    let first = lines(&term, b"ab");
    assert_eq!(first, vec![seg(0, 2, true, false)]);
    term.advance(&first[0]);
    assert!(!term.start_of_line);
    assert_eq!(lines(&term, b"cd\nef\n"), vec![seg(0, 3, false, true), seg(3, 6, true, true)]);
}

#[test]
fn empty_buffer_has_no_segment() {
    let mut term = Term::new();
    bold(&mut term);
    assert_eq!(lines(&term, b""), vec![]);
}

#[test]
fn advance_follows_the_end_of_the_segment() {
    let mut term = Term::new();
    bold(&mut term);
    term.advance(&seg(0, 2, true, false));
    assert!(!term.start_of_line);
    term.advance(&seg(2, 5, false, true));
    assert!(term.start_of_line);
}

#[test]
fn change_of_colour_counts_as_line_start() {
    let mut term = Term { spec: ColorSpec::new(), start_of_line: false };
    bold(&mut term);
    assert_eq!(term.spec, ColorSpec { bold: true, fg: None });
    assert!(term.start_of_line);
}

#[test]
fn same_colour_again_changes_nothing() {
    let mut term = Term { spec: ColorSpec { bold: true, fg: Some(Color::Green) }, start_of_line: false };
    bold_color(&mut term, Color::Green);
    assert!(!term.start_of_line);
    bold_color(&mut term, Color::Ansi256(3));
    assert!(term.start_of_line);
    assert_eq!(term.spec, ColorSpec { bold: true, fg: Some(Color::Ansi256(3)) });
}

#[test]
fn colour_functions_set_the_specification() {
    let mut term = Term::new();
    color(&mut term, Color::Rgb(1, 2, 3));
    assert_eq!(term.spec, ColorSpec { bold: false, fg: Some(Color::Rgb(1, 2, 3)) });
    assert!(!term.spec.is_none());
    bold_color(&mut term, Color::Cyan);
    assert_eq!(term.spec, ColorSpec { bold: true, fg: Some(Color::Cyan) });
}

#[test]
fn reset_shows_plain_text_and_keeps_the_place() {
    let mut term = Term { spec: ColorSpec { bold: true, fg: Some(Color::Red) }, start_of_line: false };
    reset(&mut term);
    assert!(term.spec.is_none());
    assert!(!term.start_of_line);
}

#[test]
fn specifications_compare_by_their_fields() {
    let a = ColorSpec { bold: true, fg: Some(Color::Rgb(1, 2, 3)) };
    assert!(a.same(&ColorSpec { bold: true, fg: Some(Color::Rgb(1, 2, 3)) }));
    assert!(!a.same(&ColorSpec { bold: true, fg: Some(Color::Rgb(1, 2, 4)) }));
    assert!(!a.same(&ColorSpec { bold: false, fg: Some(Color::Rgb(1, 2, 3)) }));
    assert!(!a.same(&ColorSpec { bold: true, fg: None }));
}

#[test]
fn segments_cover_the_buffer_in_order() {
    let mut term = Term::new();
    color(&mut term, Color::Blue);
    for buf in [&b"\n\nab\r\ncd"[..], &b"x"[..], &b"\n"[..], &b"a\nb\nc\n"[..]] {
        let mut written: Vec<u8> = Vec::new();
        let mut at = 0;
        for segment in lines(&term, buf) {
            assert_eq!(segment.start, at);
            assert!(segment.start < segment.end);
            assert_eq!(segment.ends_line, buf[segment.end - 1] == b'\n');
            assert!(!buf[segment.start..segment.end - 1].contains(&b'\n'));
            written.extend_from_slice(&buf[segment.start..segment.end]);
            at = segment.end;
        }
        assert_eq!(written, buf);
    }
}
