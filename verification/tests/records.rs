use llm_client::edit::{SymbolToEdit, SymbolToEditRequest};
use llm_client::identifier::SymbolIdentifier;
use llm_client::initial_request::{InitialRequestData, SymbolEditedItem, SymbolRequestHistoryItem};
use llm_client::text::{chars_of, join_strings, line_spans, span_contains};
use llm_client::text_document::{Position, Range};

fn range(a: usize, b: usize) -> Range {
    Range::new(Position::new(a, 1, 10 * a), Position::new(b, 2, 10 * b))
}

fn symbol() -> SymbolToEdit {
    SymbolToEdit::new(
        "parse".to_owned(),
        range(3, 9),
        "src/parse.rs".to_owned(),
        vec!["rename".to_owned(), "add a test".to_owned()],
        true,
        false,
        true,
        "rename parse".to_owned(),
    )
}

#[test]
fn symbol_to_edit_keeps_what_it_was_made_with() {
    let symbol = symbol();
    assert_eq!(symbol.symbol_name(), "parse");
    assert_eq!(*symbol.range(), range(3, 9));
    assert_eq!(symbol.fs_file_path(), "src/parse.rs");
    assert_eq!(symbol.instructions(), ["rename".to_owned(), "add a test".to_owned()]);
    assert!(symbol.is_outline());
    assert!(!symbol.is_new());
    assert!(symbol.is_full_edit());
    assert_eq!(symbol.original_user_query(), "rename parse");
}

#[test]
fn symbol_to_edit_setters_change_one_field() {
    let mut symbol = symbol();
    symbol.set_fs_file_path("src/new.rs".to_owned());
    assert_eq!(symbol.fs_file_path(), "src/new.rs");
    assert_eq!(*symbol.range(), range(3, 9));
    symbol.set_range(range(1, 2));
    assert_eq!(*symbol.range(), range(1, 2));
    assert_eq!(symbol.fs_file_path(), "src/new.rs");
    assert_eq!(symbol.symbol_name(), "parse");
    assert_eq!(symbol.instructions().len(), 2);
    assert!(symbol.is_outline());
    assert!(!symbol.is_new());
    assert!(symbol.is_full_edit());
    assert_eq!(symbol.original_user_query(), "rename parse");
}

#[test]
fn positions_and_ranges() {
    let position = Position::new(4, 7, 120);
    assert_eq!(position.line(), 4);
    assert_eq!(position.column(), 7);
    assert_eq!(position.to_byte_offset(), 120);
    let range = Range::new(position, Position::new(5, 0, 130));
    assert_eq!(range.start_position(), position);
    assert_eq!(range.end_position().line(), 5);
}

#[test]
fn edit_request_keeps_what_it_was_made_with() {
    let history = vec![SymbolRequestHistoryItem::new(
        "parse".to_owned(),
        "src/parse.rs".to_owned(),
        "make it faster".to_owned(),
    )];
    let request = SymbolToEditRequest::new(
        vec![symbol()],
        SymbolIdentifier::with_file_path("parse", "src/parse.rs"),
        history,
    );
    assert_eq!(request.symbol_identifier().symbol_name(), "parse");
    assert_eq!(request.symbol_identifier().fs_file_path().as_deref(), Some("src/parse.rs"));
    assert_eq!(request.history().len(), 1);
    assert_eq!(request.history()[0].symbol_name(), "parse");
    assert_eq!(request.history()[0].fs_file_path(), "src/parse.rs");
    assert_eq!(request.history()[0].request(), "make it faster");
    let symbols = request.symbols();
    assert_eq!(symbols.len(), 1);
    assert_eq!(symbols[0].symbol_name(), "parse");
    assert_eq!(SymbolIdentifier::new_symbol("x").fs_file_path(), None);
    assert_eq!(SymbolIdentifier::new_symbol("x").clone().symbol_name(), "x");
}

#[test]
fn edited_item_keeps_what_it_was_made_with() {
    let item = SymbolEditedItem::new(
        "run".to_owned(),
        "src/run.rs".to_owned(),
        true,
        "needs a retry".to_owned(),
    );
    assert_eq!(item.name(), "run");
    assert_eq!(item.fs_file_path(), "src/run.rs");
    assert!(item.is_new());
    assert_eq!(item.thinking(), "needs a retry");
    assert_eq!(item.clone().thinking(), "needs a retry");
}

#[test]
fn initial_request_data_keeps_what_it_was_made_with() {
    let data = InitialRequestData::new(
        "why is it slow".to_owned(),
        Some("profile first".to_owned()),
        vec![SymbolRequestHistoryItem::new("a".to_owned(), "b".to_owned(), "c".to_owned())],
        true,
        Some(vec![SymbolEditedItem::new("s".to_owned(), "p".to_owned(), false, "t".to_owned())]),
    );
    assert!(data.full_symbol_request());
    assert_eq!(data.get_original_question(), "why is it slow");
    assert_eq!(data.get_plan().as_deref(), Some("profile first"));
    assert_eq!(data.history().len(), 1);
    assert_eq!(data.history()[0].clone().request(), "c");
    let edited = data.symbols_edited_list().unwrap();
    assert_eq!(edited.len(), 1);
    assert_eq!(edited[0].name(), "s");
    assert!(!edited[0].is_new());
    let bare = InitialRequestData::new("q".to_owned(), None, vec![], false, None);
    assert!(!bare.full_symbol_request());
    assert_eq!(bare.get_plan(), None);
    assert!(bare.history().is_empty());
    assert!(bare.symbols_edited_list().is_none());
}

#[test]
fn joining_puts_the_separator_between_neighbours() {
    let parts = |items: &[&str]| items.iter().map(|s| s.to_string()).collect::<Vec<String>>();
    assert_eq!(join_strings(&parts(&[]), ", "), "");
    assert_eq!(join_strings(&parts(&["a"]), ", "), "a");
    assert_eq!(join_strings(&parts(&["a", "b", "c"]), ", "), "a, b, c");
    assert_eq!(join_strings(&parts(&["", ""]), "\n"), "\n");
}

fn lines_by_spans(text: &str) -> Vec<String> {
    let chars = chars_of(text);
    line_spans(&chars).iter().map(|&(from, to)| chars[from..to].iter().collect()).collect()
}

#[test]
fn line_spans_mark_the_lines() {
    for text in ["", "a", "a\n", "a\nb", "\n", "\n\n", "a\r\nb\r\n", "a\rb", "a\r", "\r\n", "\r\r\n", "ü\nö"] {
        let expected: Vec<String> = text.lines().map(|l| l.to_owned()).collect();
        assert_eq!(lines_by_spans(text), expected, "for {:?}", text);
    }
    assert_eq!(chars_of("aüb"), vec!['a', 'ü', 'b']);
}

#[test]
fn span_contains_finds_patterns_inside_the_span_only() {
    let chars = chars_of("xx<reply>yy");
    let pattern = chars_of("<reply>");
    assert!(span_contains(&chars, 0, chars.len(), &pattern));
    assert!(span_contains(&chars, 2, 9, &pattern));
    assert!(!span_contains(&chars, 3, chars.len(), &pattern));
    assert!(!span_contains(&chars, 0, 8, &pattern));
    assert!(span_contains(&chars, 4, 4, &chars_of("")));
    assert!(!span_contains(&chars, 4, 4, &chars_of("x")));
}
