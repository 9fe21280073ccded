//! The line protocol spoken with `fzf`, the interactive selector.
//!
//! The selector is given one line per distinct formatted representation on
//! its standard input, and names the chosen line on its standard output.
//! Running it is left to the caller; what to write to it and what its
//! answer means is decided here.

use vstd::prelude::*;
use vstd::utf8::{decode_utf8, valid_utf8};
use crate::error::PickerError;
use crate::picker::PickableItem;

verus! {

/// The selector behind the picker: the `fzf` program.
#[derive(Clone, Copy, Debug, PartialEq, Eq, Structural)]
pub struct FzfPicker;

/// `value` without its last character; the empty text stays empty.
pub open spec fn without_last(value: Seq<char>) -> Seq<char> {
    if value.len() > 0 {
        value.drop_last()
    } else {
        value
    }
}

/// Removes the newline that ends the selector's answer: the last character
/// of `value`, whatever it is.
pub fn remove_trailing_newline(value: String) -> (line: String)
    ensures
        line@ == without_last(value@),
{
    let text = value.as_str();
    let count = text.unicode_len();
    if count == 0 {
        value
    } else {
        String::from_str(text.substring_char(0, count - 1))
    }
}

/// `lines` are formatted representations of `items`, one for each in their
/// order: each line is something that the item's `formatted` may return.
pub open spec fn formatted_as<T: PickableItem>(items: Seq<T>, lines: Seq<String>) -> bool {
    &&& lines.len() == items.len()
    &&& forall|i: int|
        0 <= i < items.len() ==> call_ensures(T::formatted, (&items[i],), #[trigger] lines[i])
}

/// `rendered` pairs each of `items`, in their order, with a formatted
/// representation of it.
pub open spec fn rendering_of<T: PickableItem>(items: Seq<T>, rendered: Seq<(String, T)>) -> bool {
    &&& rendered.len() == items.len()
    &&& forall|i: int|
        0 <= i < items.len() ==> (#[trigger] rendered[i]).1 == items[i] && call_ensures(
            T::formatted,
            (&items[i],),
            rendered[i].0,
        )
}

/// The characters of each line.
pub open spec fn texts(lines: Seq<String>) -> Seq<Seq<char>> {
    Seq::new(lines.len(), |i: int| lines[i]@)
}

/// `lines` without repetitions: of equal lines the first stays, and the
/// lines that stay keep their order.
pub open spec fn first_occurrences(lines: Seq<Seq<char>>) -> Seq<Seq<char>>
    decreases lines.len(),
{
    if lines.len() == 0 {
        Seq::empty()
    } else {
        let before = first_occurrences(lines.drop_last());
        if before.contains(lines.last()) {
            before
        } else {
            before.push(lines.last())
        }
    }
}

/// `lines` with one newline between each two neighbours.
pub open spec fn joined(lines: Seq<Seq<char>>) -> Seq<char>
    decreases lines.len(),
{
    if lines.len() == 0 {
        Seq::empty()
    } else if lines.len() == 1 {
        lines[0]
    } else {
        joined(lines.drop_last()) + seq!['\n'] + lines.last()
    }
}

/// The text handed to the selector for items shown as `lines`: each
/// distinct line once, in the order of first appearance.
pub open spec fn selector_input(lines: Seq<Seq<char>>) -> Seq<char> {
    joined(first_occurrences(lines))
}

/// How one run of the selector ended, as the caller that ran it saw it.
#[derive(Debug, PartialEq, Eq)]
pub enum SelectorRun {
    /// The selector program was not found.
    NotFound,
    /// The selector could not be launched, fed or awaited.
    Failed,
    /// The selector ended with this exit code, absent when a signal ended
    /// it, after writing `output` to its standard output.
    Exited { code: Option<i32>, output: Vec<u8> },
}

/// What a run of the selector amounts to.
#[derive(Clone, Copy, Debug, PartialEq, Eq, Structural)]
pub enum Verdict {
    /// The user selected a line.
    Selected,
    /// The user left without selecting.
    Cancelled,
    /// The run failed.
    Generic,
    /// There is no selector to run.
    NotFound,
}

/// The verdict on an exit code: zero is a selection, the codes from 128 to
/// 254 and an end without code are the user leaving, anything else is a
/// failure.
pub open spec fn exit_verdict(code: Option<i32>) -> Verdict {
    match code {
        None => Verdict::Cancelled,
        Some(c) => if c == 0 {
            Verdict::Selected
        } else if 128 <= c <= 254 {
            Verdict::Cancelled
        } else {
            Verdict::Generic
        },
    }
}

/// The verdict on a run.
pub open spec fn run_verdict(run: SelectorRun) -> Verdict {
    match run {
        SelectorRun::NotFound => Verdict::NotFound,
        SelectorRun::Failed => Verdict::Generic,
        SelectorRun::Exited { code, .. } => exit_verdict(code),
    }
}

/// The line that `output` names: its text without the last character, if it
/// is text at all.
pub open spec fn chosen_line(output: Seq<u8>) -> Option<Seq<char>> {
    if valid_utf8(output) {
        Some(without_last(decode_utf8(output)))
    } else {
        None
    }
}

/// Items with the lines that show them, as mathematical values.
pub open spec fn shown<T>(rendered: Seq<(String, T)>) -> Seq<(Seq<char>, T)> {
    Seq::new(rendered.len(), |i: int| (rendered[i].0@, rendered[i].1))
}

/// The lines by which the `rendered` items are shown, in their order.
pub open spec fn shown_lines<T>(rendered: Seq<(Seq<char>, T)>) -> Seq<Seq<char>> {
    Seq::new(rendered.len(), |i: int| rendered[i].0)
}

/// What is offered to the selector for `items`: `rendered` pairs the items
/// with their formatted representations, and `input` is the text made of
/// these representations.
pub open spec fn offered<T: PickableItem>(
    items: Seq<T>,
    rendered: Seq<(String, T)>,
    input: String,
) -> bool {
    &&& rendering_of(items, rendered)
    &&& input@ == selector_input(shown_lines(shown(rendered)))
}

/// The way back from a line to the item it stands for. Where several items
/// share a line, the last of them owns it.
pub open spec fn element_map<T>(rendered: Seq<(Seq<char>, T)>) -> Map<Seq<char>, T>
    decreases rendered.len(),
{
    if rendered.len() == 0 {
        Map::empty()
    } else {
        element_map(rendered.drop_last()).insert(rendered.last().0, rendered.last().1)
    }
}

/// What the picker returns for `rendered` items after `run`.
pub open spec fn selection<T>(rendered: Seq<(Seq<char>, T)>, run: SelectorRun) -> Result<
    T,
    PickerError,
> {
    match run_verdict(run) {
        Verdict::NotFound => Err(PickerError::FzfNotInstalled),
        Verdict::Cancelled => Err(PickerError::Cancelled),
        Verdict::Generic => Err(PickerError::Generic),
        Verdict::Selected => match chosen_line(run->output@) {
            Some(line) => if element_map(rendered).dom().contains(line) {
                Ok(element_map(rendered)[line])
            } else {
                Err(PickerError::Generic)
            },
            None => Err(PickerError::Generic),
        },
    }
}

/// `i` is the position of the last of the `rendered` items shown as `line`.
pub open spec fn is_last_shown_as<T>(rendered: Seq<(Seq<char>, T)>, line: Seq<char>, i: int) -> bool {
    &&& 0 <= i < rendered.len()
    &&& rendered[i].0 == line
    &&& forall|j: int| i < j < rendered.len() ==> (#[trigger] rendered[j]).0 != line
}

/// A line leads back to an item exactly when some item is shown as that
/// line, and then to the last such item.
pub proof fn lemma_element_map<T>(rendered: Seq<(Seq<char>, T)>, line: Seq<char>)
    ensures
        element_map(rendered).dom().contains(line) <==> exists|i: int|
            0 <= i < rendered.len() && (#[trigger] rendered[i]).0 == line,
        forall|i: int| #[trigger]
            is_last_shown_as(rendered, line, i) ==> element_map(rendered)[line] == rendered[i].1,
    decreases rendered.len(),
{
    if rendered.len() > 0 {
        let front = rendered.drop_last();
        lemma_element_map(front, line);
        if rendered.last().0 == line {
            assert(rendered[rendered.len() - 1].0 == line);
        } else {
            if element_map(rendered).dom().contains(line) {
                let i = choose|i: int| 0 <= i < front.len() && (#[trigger] front[i]).0 == line;
                assert(rendered[i].0 == line);
            }
            if exists|i: int| 0 <= i < rendered.len() && (#[trigger] rendered[i]).0 == line {
                let i = choose|i: int| 0 <= i < rendered.len() && (#[trigger] rendered[i]).0 == line;
                assert(front[i].0 == line);
            }
        }
        assert forall|i: int| #[trigger] is_last_shown_as(rendered, line, i) implies element_map(
            rendered,
        )[line] == rendered[i].1 by {
            if i < rendered.len() - 1 {
                assert(rendered.last() == rendered[rendered.len() - 1]);
                assert(is_last_shown_as(front, line, i)) by {
                    assert forall|j: int| i < j < front.len() implies (#[trigger] front[j]).0
                        != line by {
                        assert(rendered[j].0 != line);
                    }
                }
            }
        }
    }
}

/// A line that leads back to an item leads to one of the items, and to one
/// shown by that line.
pub proof fn lemma_element_map_values<T>(rendered: Seq<(Seq<char>, T)>, line: Seq<char>)
    requires
        element_map(rendered).dom().contains(line),
    ensures
        rendered.contains((line, element_map(rendered)[line])),
    decreases rendered.len(),
{
    if rendered.len() > 0 {
        if rendered.last().0 == line {
            assert(rendered[rendered.len() - 1] == rendered.last());
        } else {
            let front = rendered.drop_last();
            lemma_element_map_values(front, line);
            let i = choose|i: int|
                0 <= i < front.len() && front[i] == (line, element_map(front)[line]);
            assert(rendered[i] == front[i]);
        }
    }
}

/// No line is offered twice, and the lines offered are the lines rendered:
/// each formatted representation stands in the selector's input exactly
/// once.
pub proof fn law_input_lines_distinct(lines: Seq<Seq<char>>)
    ensures
        first_occurrences(lines).no_duplicates(),
        forall|line: Seq<char>| #[trigger]
            first_occurrences(lines).contains(line) <==> lines.contains(line),
    decreases lines.len(),
{
    if lines.len() > 0 {
        let front = lines.drop_last();
        let before = first_occurrences(front);
        law_input_lines_distinct(front);
        assert forall|line: Seq<char>| #[trigger]
            first_occurrences(lines).contains(line) <==> lines.contains(line) by {
            assert(before.contains(line) <==> front.contains(line));
            if lines.contains(line) {
                let i = choose|i: int| 0 <= i < lines.len() && lines[i] == line;
                if i < lines.len() - 1 {
                    assert(front[i] == line);
                }
            }
            if front.contains(line) {
                let i = choose|i: int| 0 <= i < front.len() && front[i] == line;
                assert(lines[i] == line);
            }
            assert(lines[lines.len() - 1] == lines.last());
            if !before.contains(lines.last()) {
                let after = before.push(lines.last());
                assert(after[after.len() - 1] == lines.last());
                if before.contains(line) {
                    let i = choose|i: int| 0 <= i < before.len() && before[i] == line;
                    assert(after[i] == line);
                }
                if after.contains(line) {
                    let i = choose|i: int| 0 <= i < after.len() && after[i] == line;
                    if i < before.len() {
                        assert(before[i] == line);
                    }
                }
            }
        }
    }
}

/// When the selector reports success and names a line by which some item is
/// shown, the picker returns the last item shown by that line.
pub proof fn law_selection_returns_last_owner<T>(
    rendered: Seq<(Seq<char>, T)>,
    output: Vec<u8>,
    i: int,
)
    requires
        0 <= i < rendered.len(),
        chosen_line(output@) == Some(rendered[i].0),
        is_last_shown_as(rendered, rendered[i].0, i),
    ensures
        selection(rendered, SelectorRun::Exited { code: Some(0), output }) == Ok::<T, PickerError>(
            rendered[i].1,
        ),
{
    lemma_element_map(rendered, rendered[i].0);
}

/// Whatever the picker returns is one of the items offered, shown by the
/// line that the selector named after ending with exit code zero.
pub proof fn law_selection_is_an_offered_item<T>(rendered: Seq<(Seq<char>, T)>, run: SelectorRun)
    ensures
        selection(rendered, run) matches Ok(item) ==> {
            &&& run matches SelectorRun::Exited { code, output }
            &&& code == Some(0i32)
            &&& chosen_line(output@) matches Some(line)
            &&& rendered.contains((line, item))
        },
{
    if let Ok(item) = selection(rendered, run) {
        let line = chosen_line(run->output@)->0;
        lemma_element_map_values(rendered, line);
    }
}

/// The verdict on an exit code.
pub fn verdict_of_exit(code: Option<i32>) -> (verdict: Verdict)
    ensures
        verdict == exit_verdict(code),
{
    match code {
        None => Verdict::Cancelled,
        Some(0) => Verdict::Selected,
        Some(c) => if 128 <= c && c <= 254 {
            Verdict::Cancelled
        } else {
            Verdict::Generic
        },
    }
}

/// The formatted representation of each item.
pub fn formatted_lines<T: PickableItem>(items: &[T]) -> (lines: Vec<String>)
    ensures
        formatted_as(items@, lines@),
{
    let mut lines: Vec<String> = Vec::new();
    let mut i: usize = 0;
    while i < items.len()
        invariant
            i <= items.len(),
            lines.len() == i,
            forall|k: int|
                0 <= k < i ==> call_ensures(T::formatted, (&items[k],), #[trigger] lines[k]),
        decreases items.len() - i,
    {
        lines.push(items[i].formatted());
        i += 1;
    }
    lines
}

/// `Itertools::unique` of the itertools crate, run over the lines and
/// collected again.
///
/// Trusted: the adaptor yields each line the first time it meets it and
/// skips it ever after, so what comes out is `first_occurrences` of what
/// went in. Lines are equal when they hold the same characters.
#[verifier::external_body]
fn unique_lines(lines: Vec<String>) -> (kept: Vec<String>)
    ensures
        texts(kept@) == first_occurrences(texts(lines@)),
{
    itertools::Itertools::unique(lines.into_iter()).collect()
}

/// Joins `lines` with newline separators.
fn join_lines(lines: &Vec<String>) -> (text: String)
    ensures
        text@ == joined(texts(lines@)),
{
    let ghost all = texts(lines@);
    let mut text = String::new();
    let mut i: usize = 0;
    while i < lines.len()
        invariant
            i <= lines.len(),
            all == texts(lines@),
            text@ == joined(all.take(i as int)),
        decreases lines.len() - i,
    {
        proof {
            reveal_strlit("\n");
            assert(all.take(i + 1).drop_last() =~= all.take(i as int));
            assert(all.take(i + 1).last() == lines[i as int]@);
        }
        if i > 0 {
            text.append("\n");
            assert("\n"@ =~= seq!['\n']);
        }
        text.append(lines[i].as_str());
        i += 1;
        assert(text@ =~= joined(all.take(i as int)));
    }
    assert(all.take(i as int) =~= all);
    text
}

/// The text to write to the selector's standard input for items shown as
/// `lines`.
pub fn fzf_input_of_lines(lines: Vec<String>) -> (text: String)
    ensures
        text@ == selector_input(texts(lines@)),
{
    let distinct = unique_lines(lines);
    join_lines(&distinct)
}

/// The text to write to the selector's standard input for `items`.
pub fn format_as_fzf_input<T: PickableItem>(items: &[T]) -> (text: String)
    ensures
        exists|lines: Seq<String>| #[trigger]
            formatted_as(items@, lines) && text@ == selector_input(texts(lines)),
{
    let lines = formatted_lines(items);
    let ghost given = lines@;
    let text = fzf_input_of_lines(lines);
    assert(formatted_as(items@, given) && text@ == selector_input(texts(given)));
    text
}

/// `String::from_utf8` of the standard library.
///
/// Trusted: the bytes become a string exactly when they are valid UTF-8, and
/// the string then holds the characters that the bytes encode.
#[verifier::external_body]
fn text_of_utf8(bytes: Vec<u8>) -> (text: Option<String>)
    ensures
        text is Some <==> valid_utf8(bytes@),
        text matches Some(s) ==> s@ == decode_utf8(bytes@),
{
    String::from_utf8(bytes).ok()
}

/// The position of the last of the `rendered` items shown as `line`.
fn position_of_line<T>(rendered: &Vec<(String, T)>, line: &String) -> (found: Option<usize>)
    ensures
        match found {
            Some(i) => is_last_shown_as(shown(rendered@), line@, i as int),
            None => forall|j: int|
                0 <= j < rendered.len() ==> (#[trigger] shown(rendered@)[j]).0 != line@,
        },
{
    let mut i: usize = rendered.len();
    while i > 0
        invariant
            i <= rendered.len(),
            forall|j: int|
                i <= j < rendered.len() ==> (#[trigger] shown(rendered@)[j]).0 != line@,
        decreases i,
    {
        i -= 1;
        if rendered[i].0 == *line {
            return Some(i);
        }
    }
    None
}

impl FzfPicker {
    /// The name of the selector program.
    pub const PROGRAM: &'static str = "fzf";

    /// Searches from the second field of each line on.
    pub const SEARCH_SCOPE: &'static str = "-n2..";

    /// Accepts colour codes in the lines.
    pub const ANSI: &'static str = "--ansi";

    /// Each item together with its formatted representation.
    pub fn render<T: PickableItem>(&self, items: Vec<T>) -> (rendered: Vec<(String, T)>)
        ensures
            rendering_of(items@, rendered@),
    {
        let mut items = items;
        let ghost all = items@;
        let mut backwards: Vec<(String, T)> = Vec::new();
        while items.len() > 0
            invariant
                items@ == all.take(items.len() as int),
                items.len() <= all.len(),
                backwards.len() == all.len() - items.len(),
                forall|k: int|
                    0 <= k < backwards.len() ==> (#[trigger] backwards[k]).1 == all[all.len() - 1
                        - k] && call_ensures(
                        T::formatted,
                        (&all[all.len() - 1 - k],),
                        backwards[k].0,
                    ),
            decreases items.len(),
        {
            let item = items.pop().unwrap();
            let line = item.formatted();
            backwards.push((line, item));
        }
        let mut rendered: Vec<(String, T)> = Vec::new();
        while backwards.len() > 0
            invariant
                backwards.len() + rendered.len() == all.len(),
                forall|k: int|
                    0 <= k < backwards.len() ==> (#[trigger] backwards[k]).1 == all[all.len() - 1
                        - k] && call_ensures(
                        T::formatted,
                        (&all[all.len() - 1 - k],),
                        backwards[k].0,
                    ),
                forall|k: int|
                    0 <= k < rendered.len() ==> (#[trigger] rendered[k]).1 == all[k]
                        && call_ensures(T::formatted, (&all[k],), rendered[k].0),
            decreases backwards.len(),
        {
            let pair = backwards.pop().unwrap();
            rendered.push(pair);
        }
        rendered
    }

    /// The item that the user selected among the `rendered` items, given how
    /// the selector's run ended.
    pub fn select<T>(&self, rendered: Vec<(String, T)>, run: SelectorRun) -> (picked: Result<
        T,
        PickerError,
    >)
        ensures
            picked == selection(shown(rendered@), run),
    {
        let mut rendered = rendered;
        match run {
            SelectorRun::NotFound => Err(PickerError::FzfNotInstalled),
            SelectorRun::Failed => Err(PickerError::Generic),
            SelectorRun::Exited { code, output } => match verdict_of_exit(code) {
                Verdict::Selected => match text_of_utf8(output) {
                    Some(text) => {
                        let line = remove_trailing_newline(text);
                        proof {
                            lemma_element_map(shown(rendered@), line@);
                        }
                        match position_of_line(&rendered, &line) {
                            Some(i) => Ok(rendered.swap_remove(i).1),
                            None => Err(PickerError::Generic),
                        }
                    },
                    None => Err(PickerError::Generic),
                },
                Verdict::Cancelled => Err(PickerError::Cancelled),
                _ => Err(PickerError::Generic),
            },
        }
    }

    /// Lets the user select one of `items`: renders them, hands the text for
    /// the selector's standard input to `run_selector`, which runs the
    /// selector once and says how the run ended, and returns the item that
    /// the run selected.
    pub fn pick<T: PickableItem, R: FnOnce(String) -> SelectorRun>(
        &self,
        items: Vec<T>,
        run_selector: R,
    ) -> (picked: Result<T, PickerError>)
        requires
            forall|input: String| call_requires(run_selector, (input,)),
        ensures
            exists|rendered: Seq<(String, T)>, input: String, run: SelectorRun|
                #![trigger offered(items@, rendered, input), selection(shown(rendered), run)]
                offered(items@, rendered, input) && call_ensures(run_selector, (input,), run)
                    && picked == selection(shown(rendered), run),
    {
        let rendered = self.render(items);
        let input = fzf_input_of_lines(lines_of(&rendered));
        let ghost given = rendered@;
        let ghost fed = input;
        let run = run_selector(input);
        let ghost ended = run;
        let picked = self.select(rendered, run);
        assert(offered(items@, given, fed) && picked == selection(shown(given), ended));
        picked
    }
}

/// The lines of the `rendered` items.
fn lines_of<T>(rendered: &Vec<(String, T)>) -> (lines: Vec<String>)
    ensures
        texts(lines@) == shown_lines(shown(rendered@)),
{
    let mut lines: Vec<String> = Vec::new();
    let mut i: usize = 0;
    while i < rendered.len()
        invariant
            i <= rendered.len(),
            lines.len() == i,
            forall|k: int| 0 <= k < i ==> (#[trigger] lines[k])@ == rendered[k].0@,
        decreases rendered.len() - i,
    {
        lines.push(rendered[i].0.clone());
        i += 1;
    }
    assert(texts(lines@) =~= shown_lines(shown(rendered@)));
    lines
}

} // verus!
