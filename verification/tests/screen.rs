use peep::control::{apply, key_meaning, query_for_line, query_for_text, Command, Key, KeyMeaning, Outcome};
use peep::error::PeepError;
use peep::models::{ModifierState, PeepFrame};
use peep::render::{
    layout, render, render_controls_guide, render_header, render_table, render_view_data,
    table_from, to_engine_offset, visible_columns, window_request,
};
use polars::prelude::{DataFrame, IntoLazy, LazyFrame, NamedFrom, PolarsError, Series};

fn table(rows: usize, cols: usize) -> LazyFrame {
    let mut columns: Vec<Series> = Vec::new();
    for c in 0..cols {
        let values: Vec<i64> = (0..rows).map(|r| (r * 100 + c) as i64).collect();
        columns.push(Series::new(&format!("c{}", c), values));
    }
    DataFrame::new(columns).unwrap().lazy()
}

fn session(rows: usize, cols: usize, page_rows: usize, page_cols: usize) -> PeepFrame {
    PeepFrame::new("data".to_string(), table(rows, cols), page_rows, page_cols).unwrap()
}

#[test]
fn header_names_the_mode_and_the_label() {
    let mut s = session(100, 12, 7, 5);
    assert_eq!(render_header(&s), "Table name: 'data'");
    s.execute_sql("SELECT * FROM data").unwrap();
    assert_eq!(render_header(&s), "SQL result: 'data'");
    s.shuffle_rows().unwrap();
    assert_eq!(render_header(&s), "Sampling rows: 'data'");
    s.reset_to_original().unwrap();
    assert_eq!(render_header(&s), "Table name: 'data'");
}

#[test]
fn view_data_marks_the_columns_in_the_window() {
    let mut s = session(100, 12, 7, 5);
    assert_eq!(
        render_view_data(&s),
        "(Rows: 0 to 7) out of 100 | Columns shown: ■ ■ ■ ■ ■ □ □ □ □ □ □ □ "
    );
    s.down();
    s.right();
    assert_eq!(
        render_view_data(&s),
        "(Rows: 7 to 14) out of 100 | Columns shown: □ □ □ □ □ ■ ■ ■ ■ ■ □ □ "
    );
}

#[test]
fn view_data_counts_many_columns() {
    let mut s = session(3, 25, 7, 5);
    assert_eq!(render_view_data(&s), "(Rows: 0 to 3) out of 3 | Columns shown: (0 to 5) out of 25");
    s.right();
    s.right();
    assert_eq!(
        render_view_data(&s),
        "(Rows: 0 to 3) out of 3 | Columns shown: (10 to 15) out of 25"
    );
    let wide = session(3, 20, 7, 5);
    assert_eq!(
        render_view_data(&wide),
        "(Rows: 0 to 3) out of 3 | Columns shown: (0 to 5) out of 20"
    );
    let narrow = session(3, 19, 7, 5);
    assert_eq!(
        render_view_data(&narrow),
        "(Rows: 0 to 3) out of 3 | Columns shown: ■ ■ ■ ■ ■ □ □ □ □ □ □ □ □ □ □ □ □ □ □ "
    );
}

#[test]
fn view_data_says_nothing_of_the_rows_of_a_sample() {
    let mut s = session(100, 3, 7, 2);
    s.shuffle_rows().unwrap();
    assert_eq!(render_view_data(&s), "Columns shown: ■ ■ □ ");
}

#[test]
fn view_data_of_a_table_without_columns() {
    let s = PeepFrame::assemble("t".to_string(), table(1, 1), 4, Vec::new(), 7, 5);
    assert_eq!(render_view_data(&s), "(Rows: 0 to 4) out of 4 | Columns shown: ");
}

#[test]
fn controls_guide_lists_the_keys() {
    assert_eq!(
        render_controls_guide(),
        "Arrow keys | [s]ql | [r]andom | [t]ail | [h]ead | [o]riginal | [q]uit"
    );
}

#[test]
fn visible_columns_are_those_in_the_window() {
    let mut s = session(10, 12, 7, 5);
    assert_eq!(visible_columns(&s), vec!["c0", "c1", "c2", "c3", "c4"]);
    s.right();
    s.right();
    assert_eq!(visible_columns(&s), vec!["c7", "c8", "c9", "c10", "c11"]);
    let none = session(10, 12, 7, 0);
    assert_eq!(visible_columns(&none), Vec::<String>::new());
}

#[test]
fn table_shows_the_rows_and_columns_in_the_window() {
    let mut s = session(100, 12, 2, 2);
    s.down();
    s.right();
    let text = render_table(&s).unwrap();
    assert!(text.contains("c2"));
    assert!(text.contains("c3"));
    assert!(!text.contains("c1"));
    assert!(!text.contains("c4"));
    assert!(text.contains("202"));
    assert!(text.contains("303"));
    assert!(!text.contains("402"));
    assert!(!text.contains("102"));
}

#[test]
fn layout_puts_the_parts_below_each_other() {
    let s = session(100, 3, 7, 2);
    assert_eq!(
        layout(&s, "<table>"),
        "Table name: 'data'\n(Rows: 0 to 7) out of 100 | Columns shown: ■ ■ □ \n<table>\nArrow keys | [s]ql | [r]andom | [t]ail | [h]ead | [o]riginal | [q]uit"
    );
}

#[test]
fn render_is_the_layout_of_the_table() {
    let s = session(100, 3, 7, 2);
    let table = render_table(&s).unwrap();
    assert_eq!(render(&s).unwrap(), layout(&s, &table));
}

#[test]
fn engine_offset_is_the_row() {
    assert_eq!(to_engine_offset(0), 0);
    assert_eq!(to_engine_offset(93), 93);
}

#[test]
fn keys_have_their_meaning() {
    assert!(matches!(key_meaning(Key::Down), KeyMeaning::Run(Command::PageDown)));
    assert!(matches!(key_meaning(Key::Up), KeyMeaning::Run(Command::PageUp)));
    assert!(matches!(key_meaning(Key::Left), KeyMeaning::Run(Command::PageLeft)));
    assert!(matches!(key_meaning(Key::Right), KeyMeaning::Run(Command::PageRight)));
    assert!(matches!(key_meaning(Key::Char('t')), KeyMeaning::Run(Command::JumpTail)));
    assert!(matches!(key_meaning(Key::Char('h')), KeyMeaning::Run(Command::JumpHead)));
    assert!(matches!(key_meaning(Key::Char('r')), KeyMeaning::Run(Command::SampleRandom)));
    assert!(matches!(key_meaning(Key::Char('s')), KeyMeaning::AskQuery));
    assert!(matches!(key_meaning(Key::Char('o')), KeyMeaning::Run(Command::Reset)));
    assert!(matches!(key_meaning(Key::Char('q')), KeyMeaning::Run(Command::Quit)));
}

#[test]
fn other_keys_mean_nothing() {
    assert!(matches!(key_meaning(Key::Char('x')), KeyMeaning::Nothing));
    assert!(matches!(key_meaning(Key::Char('Q')), KeyMeaning::Nothing));
    assert!(matches!(key_meaning(Key::Char('T')), KeyMeaning::Nothing));
    assert!(matches!(key_meaning(Key::Other), KeyMeaning::Nothing));
}

#[test]
fn query_line_is_trimmed() {
    match query_for_line("  SELECT * FROM data \n") {
        Some(Command::RunQuery(query)) => assert_eq!(query, "SELECT * FROM data"),
        other => panic!("unexpected: {:?}", other),
    }
    assert!(query_for_line("q\n").is_none());
    assert!(query_for_line("  q  \r\n").is_none());
    match query_for_line("\n") {
        Some(Command::RunQuery(query)) => assert_eq!(query, ""),
        other => panic!("unexpected: {:?}", other),
    }
    match query_for_line("Q\n") {
        Some(Command::RunQuery(query)) => assert_eq!(query, "Q"),
        other => panic!("unexpected: {:?}", other),
    }
}

#[test]
fn query_text_is_taken_as_it_is() {
    assert!(query_for_text("q").is_none());
    match query_for_text(" q") {
        Some(Command::RunQuery(query)) => assert_eq!(query, " q"),
        other => panic!("unexpected: {:?}", other),
    }
    match query_for_text("quit") {
        Some(Command::RunQuery(query)) => assert_eq!(query, "quit"),
        other => panic!("unexpected: {:?}", other),
    }
}

#[test]
fn commands_move_the_windows() {
    let mut s = session(100, 12, 7, 5);
    assert!(matches!(apply(&mut s, &Command::PageDown), Outcome::Done));
    assert_eq!(s.row_slice_state, (7, 14));
    assert!(matches!(apply(&mut s, &Command::PageUp), Outcome::Done));
    assert_eq!(s.row_slice_state, (0, 7));
    assert!(matches!(apply(&mut s, &Command::PageRight), Outcome::Done));
    assert_eq!(s.col_slice_state, (5, 10));
    assert!(matches!(apply(&mut s, &Command::PageLeft), Outcome::Done));
    assert_eq!(s.col_slice_state, (0, 5));
    assert!(matches!(apply(&mut s, &Command::JumpTail), Outcome::Done));
    assert_eq!(s.row_slice_state, (93, 100));
    assert!(matches!(apply(&mut s, &Command::JumpHead), Outcome::Done));
    assert_eq!(s.row_slice_state, (0, 7));
}

#[test]
fn commands_change_the_dataset() {
    let mut s = session(100, 12, 7, 5);
    let query = Command::RunQuery("SELECT c0 FROM data WHERE c0 < 300".to_string());
    assert!(matches!(apply(&mut s, &query), Outcome::Done));
    assert_eq!(s.modifier_state, ModifierState::Queried);
    assert_eq!(s.max_rows, 3);
    assert!(matches!(apply(&mut s, &Command::SampleRandom), Outcome::Done));
    assert_eq!(s.modifier_state, ModifierState::RandomRows);
    assert_eq!(s.max_rows, 7);
    assert!(matches!(apply(&mut s, &Command::Reset), Outcome::Done));
    assert_eq!(s.modifier_state, ModifierState::Original);
    assert_eq!(s.max_rows, 100);
}

#[test]
fn failed_command_reports_and_goes_on() {
    let mut s = session(100, 12, 7, 5);
    s.down();
    let query = Command::RunQuery("not a query".to_string());
    assert!(matches!(apply(&mut s, &query), Outcome::Failed(PeepError::Query(_))));
    assert_eq!(s.modifier_state, ModifierState::Original);
    assert_eq!(s.row_slice_state, (7, 14));
    let mut bare = PeepFrame::assemble("t".to_string(), table(5, 2), 5, Vec::new(), 7, 5);
    assert!(matches!(
        apply(&mut bare, &Command::SampleRandom),
        Outcome::Failed(PeepError::NoColumns)
    ));
}

#[test]
fn quit_leaves_the_session_as_it_is() {
    let mut s = session(100, 12, 7, 5);
    s.down();
    assert!(matches!(apply(&mut s, &Command::Quit), Outcome::Quit));
    assert_eq!(s.row_slice_state, (7, 14));
    assert_eq!(s.modifier_state, ModifierState::Original);
}

#[test]
fn window_request_asks_for_the_window() {
    let mut s = session(100, 12, 7, 5);
    s.down();
    s.down();
    s.right();
    let (first_row, rows, columns) = window_request(&s);
    assert_eq!(first_row, 14);
    assert_eq!(rows, 7);
    assert_eq!(columns, vec!["c5", "c6", "c7", "c8", "c9"]);
    let huge = session(3, 2, usize::MAX, 1);
    let (first_row, rows, columns) = window_request(&huge);
    assert_eq!(first_row, 0);
    assert_eq!(rows, u32::MAX);
    assert_eq!(columns, vec!["c0"]);
}

#[test]
fn printed_table_is_taken_as_it_is() {
    match table_from(Ok("<table>".to_string())) {
        Ok(table) => assert_eq!(table, "<table>"),
        Err(e) => panic!("unexpected failure: {:?}", e),
    }
    match table_from(Ok(String::new())) {
        Ok(table) => assert_eq!(table, ""),
        Err(e) => panic!("unexpected failure: {:?}", e),
    }
}

#[test]
fn failed_print_carries_the_engine_text() {
    let failure = PolarsError::ComputeError("nothing to print".into());
    match table_from(Err(failure)) {
        Err(PeepError::DataAccess(text)) => assert!(text.contains("nothing to print")),
        other => panic!("unexpected: {:?}", other),
    }
}
