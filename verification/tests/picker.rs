use toggl::error::PickerError;
use toggl::models::TimeEntry;
use toggl::picker::fzf::{
    format_as_fzf_input, formatted_lines, fzf_input_of_lines, remove_trailing_newline,
    verdict_of_exit, FzfPicker, SelectorRun, Verdict,
};
use toggl::picker::PickableItem;
use toggl::time::Timestamp;

#[derive(Clone, Debug, PartialEq, Eq)]
struct Label {
    shown: String,
    tag: u32,
}

impl PickableItem for Label {
    fn formatted(&self) -> String {
        self.shown.clone()
    }
}

fn label(shown: &str, tag: u32) -> Label {
    Label { shown: shown.to_string(), tag }
}

fn exited(code: i32, output: &str) -> SelectorRun {
    SelectorRun::Exited { code: Some(code), output: output.as_bytes().to_vec() }
}

fn entry(id: Option<i64>, description: &str) -> TimeEntry {
    TimeEntry {
        id,
        project_id: None,
        task_id: None,
        billable: false,
        start: Timestamp::new(100, 0).unwrap(),
        stop: Some(Timestamp::new(160, 0).unwrap()),
        duration: 60,
        description: description.to_string(),
        created_with: None,
    }
}

#[test]
fn trailing_newline_is_removed() {
    assert_eq!(remove_trailing_newline("b\n".to_string()), "b");
    assert_eq!(remove_trailing_newline("two words\n".to_string()), "two words");
}

#[test]
fn only_one_newline_is_removed() {
    assert_eq!(remove_trailing_newline("b\n\n".to_string()), "b\n");
    assert_eq!(remove_trailing_newline("\n".to_string()), "");
}

#[test]
fn the_last_character_goes_whatever_it_is() {
    assert_eq!(remove_trailing_newline("abc".to_string()), "ab");
    assert_eq!(remove_trailing_newline("caf\u{e9}".to_string()), "caf");
    assert_eq!(remove_trailing_newline("".to_string()), "");
}

#[test]
fn input_joins_lines_with_newlines() {
    let items = vec![label("a", 1), label("b", 2), label("c", 3)];
    assert_eq!(format_as_fzf_input(&items), "a\nb\nc");
}

#[test]
fn input_of_nothing_and_of_one_item() {
    let none: Vec<Label> = vec![];
    assert_eq!(format_as_fzf_input(&none), "");
    assert_eq!(format_as_fzf_input(&vec![label("only", 1)]), "only");
}

#[test]
fn input_holds_each_line_once() {
    let items = vec![label("a", 1), label("b", 2), label("a", 3)];
    let input = format_as_fzf_input(&items);
    assert_eq!(input, "a\nb");
    assert_eq!(input.lines().filter(|line| *line == "a").count(), 1);
}

#[test]
fn input_keeps_the_order_of_first_appearance() {
    let items =
        vec![label("c", 1), label("a", 2), label("c", 3), label("b", 4), label("a", 5)];
    assert_eq!(format_as_fzf_input(&items), "c\na\nb");
}

#[test]
fn of_items_shown_alike_the_last_is_returned() {
    let items = vec![label("a", 1), label("b", 2), label("a", 3)];
    assert_eq!(FzfPicker.pick(items, |_| exited(0, "a\n")), Ok(label("a", 3)));
}

#[test]
fn pick_hands_the_input_to_the_selector_once() {
    let items = vec![label("a", 1), label("b", 2), label("a", 3)];
    let mut seen: Vec<String> = vec![];
    let picked = FzfPicker.pick(items, |input| {
        seen.push(input);
        exited(0, "b\n")
    });
    assert_eq!(picked, Ok(label("b", 2)));
    assert_eq!(seen, vec!["a\nb".to_string()]);
}

#[test]
fn pick_runs_the_selector_even_for_no_items() {
    let none: Vec<Label> = vec![];
    let mut seen: Vec<String> = vec![];
    let picked = FzfPicker.pick(none, |input| {
        seen.push(input);
        exited(130, "")
    });
    assert_eq!(picked, Err(PickerError::Cancelled));
    assert_eq!(seen, vec![String::new()]);
}

#[test]
fn exit_zero_returns_the_item_named() {
    let items = vec![label("a", 1), label("b", 2), label("c", 3)];
    assert_eq!(FzfPicker.pick(items, |_| exited(0, "b\n")), Ok(label("b", 2)));
    let items = vec![label("a", 1), label("b", 2), label("c", 3)];
    assert_eq!(FzfPicker.pick(items, |_| exited(0, "a\n")), Ok(label("a", 1)));
    let items = vec![label("a", 1), label("b", 2), label("c", 3)];
    assert_eq!(FzfPicker.pick(items, |_| exited(0, "c\n")), Ok(label("c", 3)));
}

#[test]
fn exit_130_is_a_cancellation() {
    let items = vec![label("a", 1), label("b", 2)];
    assert_eq!(FzfPicker.pick(items, |_| exited(130, "")), Err(PickerError::Cancelled));
}

#[test]
fn missing_selector_is_reported_as_such() {
    let items = vec![label("a", 1), label("b", 2)];
    assert_eq!(
        FzfPicker.pick(items, |_| SelectorRun::NotFound),
        Err(PickerError::FzfNotInstalled)
    );
}

#[test]
fn exit_two_is_a_failure() {
    let items = vec![label("a", 1), label("b", 2)];
    assert_eq!(FzfPicker.pick(items, |_| exited(2, "")), Err(PickerError::Generic));
}

#[test]
fn exit_one_is_a_failure() {
    let items = vec![label("a", 1), label("b", 2)];
    assert_eq!(FzfPicker.pick(items, |_| exited(1, "b\n")), Err(PickerError::Generic));
}

#[test]
fn a_run_that_broke_is_a_failure() {
    let items = vec![label("a", 1)];
    assert_eq!(FzfPicker.pick(items, |_| SelectorRun::Failed), Err(PickerError::Generic));
}

#[test]
fn an_end_by_signal_is_a_cancellation() {
    let items = vec![label("a", 1)];
    let run = SelectorRun::Exited { code: None, output: b"a\n".to_vec() };
    assert_eq!(FzfPicker.pick(items, |_| run), Err(PickerError::Cancelled));
}

#[test]
fn an_unknown_line_is_a_failure() {
    let items = vec![label("a", 1), label("b", 2)];
    assert_eq!(FzfPicker.pick(items, |_| exited(0, "z\n")), Err(PickerError::Generic));
    let items = vec![label("a", 1), label("b", 2)];
    assert_eq!(FzfPicker.pick(items, |_| exited(0, "")), Err(PickerError::Generic));
    let none: Vec<Label> = vec![];
    assert_eq!(FzfPicker.pick(none, |_| exited(0, "a\n")), Err(PickerError::Generic));
}

#[test]
fn a_line_without_newline_loses_its_last_character() {
    let items = vec![label("a", 1), label("ab", 2)];
    assert_eq!(FzfPicker.pick(items, |_| exited(0, "ab")), Ok(label("a", 1)));
}

#[test]
fn output_that_is_not_text_is_a_failure() {
    let items = vec![label("a", 1)];
    let run = SelectorRun::Exited { code: Some(0), output: vec![0x61, 0xff, 0x0a] };
    assert_eq!(FzfPicker.pick(items, |_| run), Err(PickerError::Generic));
}

#[test]
fn output_beyond_ascii_is_read_as_utf8() {
    let items = vec![label("caf\u{e9} \u{1f600}", 1), label("b", 2)];
    assert_eq!(
        FzfPicker.pick(items, |_| exited(0, "caf\u{e9} \u{1f600}\n")),
        Ok(label("caf\u{e9} \u{1f600}", 1))
    );
}

#[test]
fn lines_are_the_formatted_items_in_order() {
    let items = vec![label("c", 1), label("a", 2), label("c", 3)];
    assert_eq!(formatted_lines(&items), vec!["c".to_string(), "a".to_string(), "c".to_string()]);
    let none: Vec<Label> = vec![];
    assert_eq!(formatted_lines(&none), Vec::<String>::new());
}

#[test]
fn input_of_lines_drops_repetitions() {
    let lines = vec!["x".to_string(), "x".to_string(), "y".to_string(), "x".to_string()];
    assert_eq!(fzf_input_of_lines(lines), "x\ny");
    assert_eq!(fzf_input_of_lines(vec![]), "");
    assert_eq!(fzf_input_of_lines(vec!["".to_string(), "".to_string()]), "");
    assert_eq!(fzf_input_of_lines(vec!["a".to_string(), "".to_string()]), "a\n");
}

#[test]
fn render_pairs_each_item_with_its_line() {
    let items = vec![label("a", 1), label("b", 2), label("a", 3)];
    assert_eq!(
        FzfPicker.render(items),
        vec![
            ("a".to_string(), label("a", 1)),
            ("b".to_string(), label("b", 2)),
            ("a".to_string(), label("a", 3)),
        ]
    );
    let none: Vec<Label> = vec![];
    assert_eq!(FzfPicker.render(none), vec![]);
}

#[test]
fn select_goes_by_the_lines_given() {
    let rendered = vec![("x".to_string(), 10u8), ("y".to_string(), 20u8), ("x".to_string(), 30u8)];
    assert_eq!(FzfPicker.select(rendered, exited(0, "x\n")), Ok(30u8));
    let rendered = vec![("x".to_string(), 10u8), ("y".to_string(), 20u8)];
    assert_eq!(FzfPicker.select(rendered, exited(0, "y\n")), Ok(20u8));
    let rendered = vec![("x".to_string(), 10u8)];
    assert_eq!(FzfPicker.select(rendered, exited(0, "z\n")), Err(PickerError::Generic));
    let rendered = vec![("x".to_string(), 10u8)];
    assert_eq!(FzfPicker.select(rendered, exited(143, "x\n")), Err(PickerError::Cancelled));
}

#[test]
fn exit_codes_map_to_verdicts() {
    assert_eq!(verdict_of_exit(Some(0)), Verdict::Selected);
    assert_eq!(verdict_of_exit(None), Verdict::Cancelled);
    assert_eq!(verdict_of_exit(Some(128)), Verdict::Cancelled);
    assert_eq!(verdict_of_exit(Some(130)), Verdict::Cancelled);
    assert_eq!(verdict_of_exit(Some(254)), Verdict::Cancelled);
    assert_eq!(verdict_of_exit(Some(1)), Verdict::Generic);
    assert_eq!(verdict_of_exit(Some(2)), Verdict::Generic);
    assert_eq!(verdict_of_exit(Some(127)), Verdict::Generic);
    assert_eq!(verdict_of_exit(Some(255)), Verdict::Generic);
    assert_eq!(verdict_of_exit(Some(-1)), Verdict::Generic);
    assert_eq!(verdict_of_exit(Some(i32::MAX)), Verdict::Generic);
}

#[test]
fn selector_is_fzf_with_its_two_arguments() {
    assert_eq!(FzfPicker::PROGRAM, "fzf");
    assert_eq!(FzfPicker::SEARCH_SCOPE, "-n2..");
    assert_eq!(FzfPicker::ANSI, "--ansi");
}

#[test]
fn an_entry_is_shown_by_identifier_and_description() {
    assert_eq!(entry(Some(42), "writing a report").formatted(), "42 writing a report");
    assert_eq!(entry(Some(-7), "").formatted(), "-7 ");
    assert_eq!(entry(None, "draft").formatted(), "- draft");
}

#[test]
fn entries_are_picked_by_their_lines() {
    let items = vec![entry(Some(1), "one"), entry(Some(2), "two"), entry(Some(3), "one")];
    assert_eq!(format_as_fzf_input(&items), "1 one\n2 two\n3 one");
    assert_eq!(FzfPicker.pick(items, |_| exited(0, "2 two\n")), Ok(entry(Some(2), "two")));
}
