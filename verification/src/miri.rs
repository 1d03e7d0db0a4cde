//! The trace of a fault that the memory-safety checker reports.
//!
//! The checker hands over one record per frame, innermost frame first: the
//! directory and the file name as raw bytes, a line and a column. A record is
//! decoded into a `StackTraceItem`, and the items, with the instruction that
//! the fault came from where the checker names one, make a `StackTrace`,
//! which is put into text outermost frame first.
//!
//! Directory and file name are joined with `/`, as on the Unix hosts on
//! which the checker runs.

use vstd::prelude::*;
use vstd::string::*;
use vstd::utf8::decode_utf8;
use vstd::utf8::valid_utf8;

verus! {

/// The text that a run of bytes is decoded to, where each run of bytes that
/// is no UTF-8 gives way to the replacement character. It names what
/// `String::from_utf8_lossy` returns.
pub uninterp spec fn lossy_text(bytes: Seq<u8>) -> Seq<char>;

/// Whether a character is white space in the sense of Unicode. It names
/// what `char::is_whitespace` returns, which is what `str::trim` goes by.
pub uninterp spec fn white_space(c: char) -> bool;

/// `text` without the white space at its start.
pub open spec fn trimmed_start(text: Seq<char>) -> Seq<char>
    decreases text.len(),
{
    if text.len() > 0 && white_space(text[0]) {
        trimmed_start(text.drop_first())
    } else {
        text
    }
}

/// `text` without the white space at its end.
pub open spec fn trimmed_end(text: Seq<char>) -> Seq<char>
    decreases text.len(),
{
    if text.len() > 0 && white_space(text.last()) {
        trimmed_end(text.drop_last())
    } else {
        text
    }
}

/// `text` without the white space at its start and at its end.
pub open spec fn trimmed(text: Seq<char>) -> Seq<char> {
    trimmed_end(trimmed_start(text))
}

/// The path of a file with the given name in the given directory: the name
/// alone where it is already rooted or the directory is empty, else the
/// directory, a `/` unless the directory ends in one, and the name.
pub open spec fn joined_path(directory: Seq<char>, file: Seq<char>) -> Seq<char> {
    if file.len() > 0 && file[0] == '/' {
        file
    } else if directory.len() == 0 || directory.last() == '/' {
        directory + file
    } else {
        directory + seq!['/'] + file
    }
}

/// The character of a decimal digit.
pub open spec fn digit_char(digit: nat) -> char
    recommends
        digit < 10,
{
    if digit == 0 {
        '0'
    } else if digit == 1 {
        '1'
    } else if digit == 2 {
        '2'
    } else if digit == 3 {
        '3'
    } else if digit == 4 {
        '4'
    } else if digit == 5 {
        '5'
    } else if digit == 6 {
        '6'
    } else if digit == 7 {
        '7'
    } else if digit == 8 {
        '8'
    } else {
        '9'
    }
}

/// A number in decimal digits, without sign or leading zeros.
pub open spec fn decimal(number: nat) -> Seq<char>
    decreases number,
{
    if number < 10 {
        seq![digit_char(number)]
    } else {
        decimal(number / 10) + seq![digit_char(number % 10)]
    }
}

/// The text of one frame: the path, the line and the column, with a colon
/// between them.
pub open spec fn item_text(path: Seq<char>, line: u32, column: u32) -> Seq<char> {
    path + seq![':'] + decimal(line as nat) + seq![':'] + decimal(column as nat)
}

/// The given lines in their order, with a line feed between each two.
pub open spec fn joined_lines(lines: Seq<Seq<char>>) -> Seq<char>
    decreases lines.len(),
{
    if lines.len() == 0 {
        Seq::empty()
    } else if lines.len() == 1 {
        lines[0]
    } else {
        joined_lines(lines.drop_last()) + seq!['\n'] + lines.last()
    }
}

/// The text of a trace whose frames, innermost first, have the texts
/// `frames`: the frames outermost first, one to a line; before them, where
/// the instruction is named, an empty line, `@ ` and the trimmed
/// instruction, and another empty line.
pub open spec fn trace_text(inst: Option<Seq<char>>, frames: Seq<Seq<char>>) -> Seq<char> {
    match inst {
        Some(inst) => seq!['\n', '@', ' '] + trimmed(inst) + seq!['\n', '\n'] + joined_lines(
            frames.reverse(),
        ),
        None => joined_lines(frames.reverse()),
    }
}

/// Three frames, innermost first, are shown outermost first, one to a line.
pub proof fn lemma_three_frames(inner: Seq<char>, middle: Seq<char>, outer: Seq<char>)
    ensures
        trace_text(None, seq![inner, middle, outer]) == outer + seq!['\n'] + middle + seq!['\n']
            + inner,
{
    let frames = seq![inner, middle, outer];
    let shown = frames.reverse();
    assert(shown =~= seq![outer, middle, inner]);
    assert(shown.drop_last() =~= seq![outer, middle]);
    assert(shown.drop_last().drop_last() =~= seq![outer]);
    reveal_with_fuel(joined_lines, 3);
}

/// A trace with a label is the label line between two empty lines, then
/// the trace as it is without a label.
pub proof fn lemma_labelled_trace(inst: Seq<char>, frames: Seq<Seq<char>>)
    ensures
        trace_text(Some(inst), frames) == seq!['\n', '@', ' '] + trimmed(inst) + seq!['\n', '\n']
            + trace_text(None, frames),
{
}

/// A label without white space at either end is shown as it is.
pub proof fn lemma_trimmed_is_identity(text: Seq<char>)
    requires
        text.len() > 0 ==> !white_space(text.first()) && !white_space(text.last()),
    ensures
        trimmed(text) == text,
{
}

/// One frame as the checker hands it over: directory and file name as raw
/// bytes that need not be text in any encoding, a line and a column.
#[derive(Debug, Clone, PartialEq, Eq)]
pub struct MiriErrorTrace {
    pub directory: Vec<u8>,
    pub file: Vec<u8>,
    pub line: u32,
    pub column: u32,
}

/// One frame of a trace: a place in a source file.
#[derive(Debug)]
pub struct StackTraceItem {
    pub line: u32,
    pub column: u32,
    pub file: String,
}

/// A trace: the instruction that the fault came from, where the checker
/// names it, and the frames, innermost first.
#[derive(Debug)]
pub struct StackTrace {
    pub inst: Option<String>,
    pub traces: Vec<StackTraceItem>,
}

/// The text of each of the given frames, each with its own path.
pub open spec fn frame_texts(traces: Seq<StackTraceItem>) -> Seq<Seq<char>> {
    Seq::new(traces.len(), |i: int| item_text(traces[i].file@, traces[i].line, traces[i].column))
}

/// The text of each of the given frames, the frame at `i` with the path
/// `resolved[i]` where there is one and with its own path where there is
/// none.
pub open spec fn resolved_texts(
    traces: Seq<StackTraceItem>,
    resolved: Seq<Option<String>>,
) -> Seq<Seq<char>> {
    Seq::new(
        traces.len(),
        |i: int|
            item_text(
                match resolved[i] {
                    Some(path) => path@,
                    None => traces[i].file@,
                },
                traces[i].line,
                traces[i].column,
            ),
    )
}

/// The view of an instruction label that may be missing.
pub open spec fn label_text(inst: Option<String>) -> Option<Seq<char>> {
    match inst {
        Some(inst) => Some(inst@),
        None => None,
    }
}

/// Decodes bytes as text.
///
/// Trusted: `String::from_utf8_lossy` returns the text that the bytes spell
/// where they are UTF-8, and else that text with the replacement character
/// in place of each run of bytes that is none.
#[verifier::external_body]
fn utf8_lossy(bytes: &[u8]) -> (text: String)
    ensures
        text@ == lossy_text(bytes@),
        valid_utf8(bytes@) ==> text@ == decode_utf8(bytes@),
{
    String::from_utf8_lossy(bytes).into_owned()
}

/// Removes the white space around a text.
///
/// Trusted: `str::trim` returns its argument without the characters at its
/// start and at its end that are white space in the sense of Unicode.
#[verifier::external_body]
fn trim(text: &str) -> (inner: String)
    ensures
        inner@ == trimmed(text@),
        inner@.len() > 0 ==> !white_space(inner@.first()) && !white_space(inner@.last()),
{
    text.trim().to_string()
}

/// The text of one decimal digit.
fn digit_text(digit: u32) -> (text: &'static str)
    requires
        digit < 10,
    ensures
        text@ == seq![digit_char(digit as nat)],
{
    proof {
        reveal_strlit("0");
        reveal_strlit("1");
        reveal_strlit("2");
        reveal_strlit("3");
        reveal_strlit("4");
        reveal_strlit("5");
        reveal_strlit("6");
        reveal_strlit("7");
        reveal_strlit("8");
        reveal_strlit("9");
    }
    let text: &'static str = if digit == 0 {
        "0"
    } else if digit == 1 {
        "1"
    } else if digit == 2 {
        "2"
    } else if digit == 3 {
        "3"
    } else if digit == 4 {
        "4"
    } else if digit == 5 {
        "5"
    } else if digit == 6 {
        "6"
    } else if digit == 7 {
        "7"
    } else if digit == 8 {
        "8"
    } else {
        "9"
    };
    proof {
        assert(text@ =~= seq![digit_char(digit as nat)]);
    }
    text
}

/// A number in decimal digits.
pub fn decimal_string(number: u32) -> (text: String)
    ensures
        text@ == decimal(number as nat),
    decreases number,
{
    if number < 10 {
        String::from_str(digit_text(number))
    } else {
        let mut text: String = decimal_string(number / 10);
        text.append(digit_text(number % 10));
        text
    }
}

/// The path of a file with the given name in the given directory.
pub fn join_path(directory: &str, file: &str) -> (path: String)
    ensures
        path@ == joined_path(directory@, file@),
{
    let file_len: usize = file.unicode_len();
    let directory_len: usize = directory.unicode_len();
    if file_len > 0 && file.get_char(0) == '/' {
        String::from_str(file)
    } else if directory_len == 0 || directory.get_char(directory_len - 1) == '/' {
        let mut path: String = String::from_str(directory);
        path.append(file);
        path
    } else {
        proof {
            reveal_strlit("/");
        }
        let mut path: String = String::from_str(directory);
        path.append("/");
        path.append(file);
        proof {
            assert("/"@ =~= seq!['/']);
        }
        path
    }
}

/// The text `path:line:column`.
fn place_text(path: &str, line: u32, column: u32) -> (text: String)
    ensures
        text@ == item_text(path@, line, column),
{
    proof {
        reveal_strlit(":");
        assert(":"@ =~= seq![':']);
    }
    let mut text: String = String::from_str(path);
    text.append(":");
    let line_text: String = decimal_string(line);
    text.append(line_text.as_str());
    text.append(":");
    let column_text: String = decimal_string(column);
    text.append(column_text.as_str());
    text
}

impl From<&MiriErrorTrace> for StackTraceItem {
    /// Decodes one record of the checker. Directory and file name are
    /// decoded as text whatever bytes they hold, and joined into one path;
    /// line and column are taken as they are.
    fn from(error_trace: &MiriErrorTrace) -> (item: Self)
        ensures
            item.line == error_trace.line,
            item.column == error_trace.column,
            item.file@ == joined_path(
                lossy_text(error_trace.directory@),
                lossy_text(error_trace.file@),
            ),
    {
        let file_string: String = utf8_lossy(error_trace.file.as_slice());
        let dir_string: String = utf8_lossy(error_trace.directory.as_slice());
        let dir: String = join_path(dir_string.as_str(), file_string.as_str());
        StackTraceItem { line: error_trace.line, column: error_trace.column, file: dir }
    }
}

impl vstd::std_specs::convert::FromSpecImpl<&MiriErrorTrace> for StackTraceItem {
    open spec fn obeys_from_spec() -> bool {
        false
    }

    open spec fn from_spec(error_trace: &MiriErrorTrace) -> StackTraceItem {
        arbitrary()
    }
}

impl StackTraceItem {
    /// The text of this frame with the path `canonical`, or with the path
    /// of the frame as it was recorded where there is none.
    pub fn display(&self, canonical: Option<&str>) -> (text: String)
        ensures
            text@ == item_text(
                match canonical {
                    Some(path) => path@,
                    None => self.file@,
                },
                self.line,
                self.column,
            ),
    {
        match canonical {
            Some(path) => place_text(path, self.line, self.column),
            None => place_text(self.file.as_str(), self.line, self.column),
        }
    }

    /// The text of this frame with its path as it was recorded.
    pub fn to_string(&self) -> (text: String)
        ensures
            text@ == item_text(self.file@, self.line, self.column),
    {
        self.display(None)
    }
}

/// The lines in their order, with a line feed between each two, from the
/// last of `texts` to the first.
fn join_reversed(texts: &Vec<String>) -> (joined: String)
    ensures
        joined@ == joined_lines(Seq::new(texts@.len(), |i: int| texts@[i]@).reverse()),
{
    let ghost lines = Seq::new(texts@.len(), |i: int| texts@[i]@);
    let ghost reversed = lines.reverse();
    let count: usize = texts.len();
    let mut joined: String = String::new();
    let mut done: usize = 0;
    proof {
        reveal_strlit("\n");
        assert("\n"@ =~= seq!['\n']);
        assert(reversed.take(0) =~= Seq::<Seq<char>>::empty());
    }
    while done < count
        invariant
            count == texts@.len(),
            lines == Seq::new(texts@.len(), |i: int| texts@[i]@),
            reversed == lines.reverse(),
            done <= count,
            joined@ == joined_lines(reversed.take(done as int)),
            "\n"@ == seq!['\n'],
        decreases count - done,
    {
        let ghost before = reversed.take(done as int);
        let ghost after = reversed.take(done + 1);
        if done > 0 {
            joined.append("\n");
        }
        joined.append(texts[count - 1 - done].as_str());
        proof {
            assert(after.drop_last() =~= before);
            assert(after.last() == texts@[count - 1 - done]@);
            if done == 0 {
                assert(joined@ =~= after[0]);
            }
        }
        done = done + 1;
    }
    proof {
        assert(reversed.take(count as int) =~= reversed);
    }
    joined
}

impl StackTrace {
    /// The trace of the given records, each decoded on its own, in the
    /// order in which they came.
    pub fn new(inst: Option<String>, traces: &[MiriErrorTrace]) -> (trace: Self)
        ensures
            trace.inst == inst,
            trace.traces@.len() == traces@.len(),
            forall|i: int|
                0 <= i < traces@.len() ==> {
                    &&& (#[trigger] trace.traces@[i]).line == traces@[i].line
                    &&& trace.traces@[i].column == traces@[i].column
                    &&& trace.traces@[i].file@ == joined_path(
                        lossy_text(traces@[i].directory@),
                        lossy_text(traces@[i].file@),
                    )
                },
    {
        let mut items: Vec<StackTraceItem> = Vec::new();
        let mut index: usize = 0;
        while index < traces.len()
            invariant
                index <= traces@.len(),
                items@.len() == index,
                forall|i: int|
                    0 <= i < index ==> {
                        &&& (#[trigger] items@[i]).line == traces@[i].line
                        &&& items@[i].column == traces@[i].column
                        &&& items@[i].file@ == joined_path(
                            lossy_text(traces@[i].directory@),
                            lossy_text(traces@[i].file@),
                        )
                    },
            decreases traces@.len() - index,
        {
            items.push(StackTraceItem::from(&traces[index]));
            index = index + 1;
        }
        StackTrace { inst, traces: items }
    }

    /// The text of this trace, the frame at `i` with the path
    /// `canonical[i]` where there is one and with its own path where there
    /// is none.
    pub fn display(&self, canonical: &Vec<Option<String>>) -> (text: String)
        requires
            canonical@.len() == self.traces@.len(),
        ensures
            text@ == trace_text(label_text(self.inst), resolved_texts(self.traces@, canonical@)),
    {
        let ghost wanted = resolved_texts(self.traces@, canonical@);
        let mut texts: Vec<String> = Vec::new();
        let mut index: usize = 0;
        while index < self.traces.len()
            invariant
                canonical@.len() == self.traces@.len(),
                wanted == resolved_texts(self.traces@, canonical@),
                index <= self.traces@.len(),
                texts@.len() == index,
                forall|i: int| 0 <= i < index ==> (#[trigger] texts@[i])@ == wanted[i],
            decreases self.traces@.len() - index,
        {
            let text: String = match &canonical[index] {
                Some(path) => self.traces[index].display(Some(path.as_str())),
                None => self.traces[index].display(None),
            };
            texts.push(text);
            index = index + 1;
        }
        let trace: String = join_reversed(&texts);
        proof {
            assert(Seq::new(texts@.len(), |i: int| texts@[i]@) =~= wanted);
        }
        match &self.inst {
            Some(inst) => {
                proof {
                    reveal_strlit("\n@ ");
                    reveal_strlit("\n\n");
                    assert("\n@ "@ =~= seq!['\n', '@', ' ']);
                    assert("\n\n"@ =~= seq!['\n', '\n']);
                }
                let mut text: String = String::from_str("\n@ ");
                let inner: String = trim(inst.as_str());
                text.append(inner.as_str());
                text.append("\n\n");
                text.append(trace.as_str());
                text
            },
            None => trace,
        }
    }

    /// The text of this trace, each frame with its path as it was
    /// recorded.
    pub fn to_string(&self) -> (text: String)
        ensures
            text@ == trace_text(label_text(self.inst), frame_texts(self.traces@)),
    {
        let mut canonical: Vec<Option<String>> = Vec::new();
        let mut index: usize = 0;
        while index < self.traces.len()
            invariant
                index <= self.traces@.len(),
                canonical@.len() == index,
                forall|i: int| 0 <= i < index ==> (#[trigger] canonical@[i]) is None,
            decreases self.traces@.len() - index,
        {
            canonical.push(None);
            index = index + 1;
        }
        proof {
            assert(resolved_texts(self.traces@, canonical@) =~= frame_texts(self.traces@));
        }
        self.display(&canonical)
    }
}

} // verus!
