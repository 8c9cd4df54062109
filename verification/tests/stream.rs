use json_editor::context::{closes_container, NestingContext};
use json_editor::matcher::matches_segment;
use json_editor::path::{NavigationPath, PathSegment};
use json_editor::text::{count_indent, has_key, has_nested_opening, leading_mark};
use json_editor::writer::MyWriter;

fn key(name: &str) -> PathSegment {
    PathSegment::Key(name.to_string())
}

const DOCUMENT: &[u8] = b"{\n    \"a\": 1,\n    \"b\": {\n        \"c\": 2\n    }\n}\n";

fn flags(writer: &MyWriter) -> Vec<bool> {
    writer.emitted().iter().map(|line| line.highlighted).collect()
}

#[test]
fn write_emits_the_complete_lines() {
    let mut writer = MyWriter::new(&NavigationPath::new());
    assert_eq!(writer.write(b"{\n    \"a\""), 9);
    assert_eq!(writer.emitted().len(), 1);
    assert_eq!(writer.emitted()[0].text, b"{\n".to_vec());
    assert_eq!(writer.write(b": 1\n}"), 5);
    assert_eq!(writer.emitted().len(), 2);
    assert_eq!(writer.emitted()[1].text, b"    \"a\": 1\n".to_vec());
    assert_eq!(writer.write(b"\n"), 1);
    let lines = writer.into_lines();
    assert_eq!(lines.len(), 3);
    assert_eq!(lines[2].text, b"}\n".to_vec());
}

#[test]
fn write_takes_several_lines_at_once() {
    let mut writer = MyWriter::new(&NavigationPath::from_segments(vec![key("b"), key("c")]));
    assert_eq!(writer.write(DOCUMENT), DOCUMENT.len());
    assert_eq!(flags(&writer), vec![false, false, false, true, false, false]);
}

#[test]
fn write_of_nothing_changes_nothing() {
    let mut writer = MyWriter::new(&NavigationPath::new());
    assert_eq!(writer.write(b""), 0);
    assert!(writer.emitted().is_empty());
}

#[test]
fn chunks_do_not_matter() {
    let path = NavigationPath::from_segments(vec![key("b"), key("c")]);
    let mut whole = MyWriter::new(&path);
    whole.write(DOCUMENT);
    let whole = whole.into_lines();
    for cut in 0..DOCUMENT.len() {
        let mut parts = MyWriter::new(&path);
        parts.write(&DOCUMENT[..cut]);
        parts.write(&DOCUMENT[cut..]);
        assert_eq!(parts.into_lines(), whole);
    }
    let mut bytes = MyWriter::new(&path);
    for byte in DOCUMENT {
        bytes.write(&[*byte]);
    }
    assert_eq!(bytes.into_lines(), whole);
}

#[test]
fn writer_works_on_a_copy_of_the_path() {
    let path = NavigationPath::from_segments(vec![key("a")]);
    let mut writer = MyWriter::new(&path);
    writer.write(DOCUMENT);
    assert_eq!(flags(&writer), vec![false, true, false, false, false, false]);
    assert_eq!(path.len(), 1);
    assert_eq!(path.segments, vec![key("a")]);
}

#[test]
fn should_color_consumes_the_path_in_order() {
    let mut writer = MyWriter::new(&NavigationPath::from_segments(vec![
        key("list"),
        PathSegment::Index(1),
    ]));
    assert!(!writer.should_color(b"{\n"));
    assert!(!writer.should_color(b"    \"list\": [\n"));
    assert!(!writer.should_color(b"        10,\n"));
    assert!(writer.should_color(b"        20,\n"));
    assert!(!writer.should_color(b"        20,\n"));
    assert!(!writer.should_color(b"    ]\n"));
    assert!(!writer.should_color(b"}\n"));
    assert!(writer.emitted().is_empty());
}

#[test]
fn should_color_takes_only_the_head_of_the_path() {
    let mut writer = MyWriter::new(&NavigationPath::from_segments(vec![key("b"), key("a")]));
    assert!(!writer.should_color(b"{\n"));
    assert!(!writer.should_color(b"    \"a\": 1,\n"));
    assert!(!writer.should_color(b"    \"b\": 2,\n"));
    assert!(writer.should_color(b"    \"a\": 3\n"));
}

#[test]
fn closing_line_matches_nothing() {
    let mut writer = MyWriter::new(&NavigationPath::from_segments(vec![
        PathSegment::Index(0),
        PathSegment::Index(0),
    ]));
    assert!(!writer.should_color(b"[\n"));
    assert!(!writer.should_color(b"    1\n"));
    assert!(!writer.should_color(b"]\n"));
}

#[test]
fn context_follows_the_lines() {
    let outside = NestingContext { in_object: false, in_array: false, array_index: None };
    let object = NestingContext { in_object: true, in_array: false, array_index: None };
    let array = NestingContext { in_object: false, in_array: true, array_index: None };

    let mut context = NestingContext::new();
    assert_eq!(context, outside);
    context.advance(b"{\n");
    assert_eq!(context, object);
    context.advance(b"    \"a\": 1,\n");
    assert_eq!(context, object);
    context.advance(b"    \"list\": [\n");
    assert_eq!(context, array);
    context.advance(b"        10,\n");
    assert_eq!(context.array_index, Some(0));
    context.advance(b"        20\n");
    assert_eq!(context, NestingContext { array_index: Some(1), ..array });
    context.advance(b"    ],\n");
    assert_eq!(context, NestingContext { array_index: Some(1), ..outside });
    context.advance(b"    \"b\": {\n");
    assert_eq!(context, NestingContext { array_index: Some(1), ..object });
    context.advance(b"    }\n");
    assert_eq!(context, NestingContext { array_index: Some(1), ..outside });
    context.advance(b"[\n");
    assert_eq!(context, array);
    context.advance(b"    {\n");
    assert_eq!(context, NestingContext { array_index: Some(0), ..object });
    context.advance(b"    [\n");
    assert_eq!(context, array);
}

#[test]
fn opening_line_of_an_element_counts_as_the_element() {
    let array = NestingContext { in_object: false, in_array: true, array_index: None };
    let object = NestingContext { in_object: true, in_array: false, array_index: None };

    let mut first = array;
    first.advance(b"    {\n");
    assert_eq!(first, NestingContext { array_index: Some(0), ..object });

    let mut later = NestingContext { array_index: Some(4), ..array };
    later.advance(b"    {\n");
    assert_eq!(later, NestingContext { array_index: Some(5), ..object });

    let mut last = NestingContext { array_index: Some(usize::MAX), ..array };
    last.advance(b"    {\n");
    assert_eq!(last, NestingContext { array_index: Some(usize::MAX), ..object });

    let mut nested = NestingContext { array_index: Some(4), ..array };
    nested.advance(b"    [\n");
    assert_eq!(nested, array);

    let mut member = NestingContext { array_index: Some(4), ..object };
    member.advance(b"    \"a\": {\n");
    assert_eq!(member, NestingContext { array_index: Some(4), ..object });
    member.advance(b"    \"b\": [\n");
    assert_eq!(member, array);
}

#[test]
fn closing_line_keeps_the_position() {
    let outside = NestingContext { in_object: false, in_array: false, array_index: None };
    let mut context = NestingContext { in_object: false, in_array: true, array_index: Some(2) };
    context.advance(b"]\n");
    assert_eq!(context, NestingContext { array_index: Some(2), ..outside });
    let mut context = NestingContext { in_object: true, in_array: false, array_index: Some(0) };
    context.advance(b"    },\n");
    assert_eq!(context, NestingContext { array_index: Some(0), ..outside });
    context.advance(b"    {\n");
    assert_eq!(
        context,
        NestingContext { in_object: true, in_array: false, array_index: Some(0) }
    );
}

#[test]
fn writer_tracks_the_position_of_an_object_element() {
    let mut writer = MyWriter::new(&NavigationPath::from_segments(vec![PathSegment::Index(0)]));
    assert_eq!(
        writer.context(),
        NestingContext { in_object: false, in_array: false, array_index: None }
    );
    assert!(!writer.should_color(b"[\n"));
    assert_eq!(writer.context().array_index, None);
    assert!(writer.should_color(b"    {\n"));
    assert_eq!(
        writer.context(),
        NestingContext { in_object: true, in_array: false, array_index: Some(0) }
    );

    let mut writer = MyWriter::new(&NavigationPath::from_segments(vec![PathSegment::Index(1)]));
    assert!(!writer.should_color(b"[\n"));
    assert!(!writer.should_color(b"    {\n"));
    assert!(!writer.should_color(b"    },\n"));
    assert!(!writer.should_color(b"    {\n"));
    assert_eq!(
        writer.context(),
        NestingContext { in_object: true, in_array: false, array_index: Some(0) }
    );
}

#[test]
fn context_counts_elements_only_in_an_array() {
    let mut context = NestingContext { in_object: true, in_array: false, array_index: None };
    assert_eq!(context.index_of(b"    1,\n"), None);
    context.advance(b"    1,\n");
    assert_eq!(context.array_index, None);

    let array = NestingContext { in_object: false, in_array: true, array_index: Some(4) };
    assert_eq!(array.index_of(b"    1,\n"), Some(5));
    assert_eq!(array.index_of(b"]\n"), Some(4));
    assert_eq!(array.index_of(b"  },\n"), Some(4));
    let full = NestingContext { array_index: Some(usize::MAX), ..array };
    assert_eq!(full.index_of(b"    1,\n"), Some(usize::MAX));
}

#[test]
fn value_of_a_key_decides_over_the_first_byte() {
    let mut context = NestingContext::new();
    context.advance(b"[: {\n");
    assert!(context.in_object && !context.in_array);
    context.advance(b"{: [\n");
    assert!(context.in_array && !context.in_object);
    context.advance(b"    \"a\": {},\n");
    assert!(context.in_array);
    assert_eq!(context.array_index, Some(0));
}

#[test]
fn segment_matches_in_its_context_only() {
    let object = NestingContext { in_object: true, in_array: false, array_index: None };
    let array = NestingContext { in_object: false, in_array: true, array_index: Some(0) };
    assert!(matches_segment(&object, &key("a"), b"    \"a\": 1\n"));
    assert!(!matches_segment(&array, &key("a"), b"    \"a\": 1\n"));
    assert!(!matches_segment(&object, &key("a"), b"    \"ab\": 1\n"));
    assert!(!matches_segment(&object, &key("a"), b"    \"a\" : 1\n"));
    assert!(matches_segment(&array, &PathSegment::Index(1), b"    7,\n"));
    assert!(!matches_segment(&array, &PathSegment::Index(0), b"    7,\n"));
    assert!(!matches_segment(&array, &PathSegment::Index(0), b"]\n"));
    assert!(!matches_segment(&object, &PathSegment::Index(0), b"    7,\n"));
}

#[test]
fn indentation_is_the_leading_spaces() {
    assert_eq!(count_indent(b""), 0);
    assert_eq!(count_indent(b"x "), 0);
    assert_eq!(count_indent(b"    x"), 4);
    assert_eq!(count_indent(b"   "), 3);
    assert_eq!(count_indent(b"\t x"), 0);
    assert_eq!(leading_mark(b"    {\n"), Some(b'{'));
    assert_eq!(leading_mark(b"    "), None);
    assert_eq!(leading_mark(b""), None);
}

#[test]
fn key_is_looked_for_after_the_indentation() {
    assert!(has_key(b"    \"a\": 1\n", b"a"));
    assert!(has_key(b"\"a\":", b"a"));
    assert!(has_key(b"  \"\":1", b""));
    assert!(!has_key(b"    \"a\"", b"a"));
    assert!(!has_key(b"    \"a\" :", b"a"));
    assert!(!has_key(b"    a: 1\n", b"a"));
    assert!(!has_key(b"x   \"a\": 1\n", b"a"));
    assert!(!has_key(b"", b"a"));
    assert!(!has_key(b"    \"b\": 1\n", b"a"));
}

#[test]
fn nested_opening_is_at_the_end_of_the_line() {
    assert!(has_nested_opening(b"    \"a\": {\n", b'{'));
    assert!(has_nested_opening(b": [\n", b'['));
    assert!(!has_nested_opening(b"    \"a\": {\n", b'['));
    assert!(!has_nested_opening(b"    \"a\": {},\n", b'{'));
    assert!(!has_nested_opening(b"    \"a\": {", b'{'));
    assert!(!has_nested_opening(b"    {\n", b'{'));
    assert!(!has_nested_opening(b"{\n", b'{'));
}

#[test]
fn closing_line_begins_with_a_closing_mark() {
    assert!(closes_container(b"    }\n"));
    assert!(closes_container(b"],\n"));
    assert!(!closes_container(b"    {}\n"));
    assert!(!closes_container(b"    \"}\": 1\n"));
    assert!(!closes_container(b"\n"));
}

#[test]
fn paths_are_equal_segment_by_segment() {
    let a = NavigationPath::from_segments(vec![key("a"), PathSegment::Index(1)]);
    let mut b = NavigationPath::new();
    assert!(b.is_empty());
    assert!(!a.same_as(&b));
    b.push(key("a"));
    assert!(!a.same_as(&b));
    b.push(PathSegment::Index(1));
    assert!(a.same_as(&b));
    assert_eq!(b.len(), 2);
    assert!(a.duplicate().same_as(&a));
    assert_eq!(a.duplicate(), a);
    let c = NavigationPath::from_segments(vec![key("a"), PathSegment::Index(2)]);
    assert!(!a.same_as(&c));
    let d = NavigationPath::from_segments(vec![key("a"), key("1")]);
    assert!(!a.same_as(&d));
    assert!(key("a").same_as(&key("a")));
    assert!(!key("a").same_as(&key("b")));
    assert!(!key("0").same_as(&PathSegment::Index(0)));
    assert_eq!(PathSegment::Index(3).duplicate(), PathSegment::Index(3));
}
