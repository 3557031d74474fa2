//! The expanded header: the engine's public header after preprocessing, in
//! which no conditional-compilation directive may be left.

use vstd::prelude::*;
use crate::error::{DataStoreError, ErrorView};
use crate::text::{append_decimal, decimal};

verus! {

/// The line feed that ends a line.
pub const NEWLINE: u8 = 0x0a;

/// The character that opens a directive.
pub const HASH: u8 = 0x23;

/// A space or a tab.
pub open spec fn blank(c: u8) -> bool {
    c == 0x20 || c == 0x09
}

/// A letter, a digit or an underscore.
pub open spec fn word_char(c: u8) -> bool {
    (0x61 <= c <= 0x7a) || (0x41 <= c <= 0x5a) || (0x30 <= c <= 0x39) || c == 0x5f
}

/// Whether a line starts at offset `i`.
pub open spec fn starts_line(text: Seq<u8>, i: int) -> bool {
    0 <= i < text.len() && (i == 0 || text[i - 1] == NEWLINE)
}

/// The first offset at or after `i` that does not hold a blank.
pub open spec fn skip_blanks(text: Seq<u8>, i: int) -> int
    decreases text.len() - i,
{
    if 0 <= i < text.len() && blank(text[i]) {
        skip_blanks(text, i + 1)
    } else {
        i
    }
}

/// The first offset at or after `i` that does not hold a word character.
pub open spec fn word_end(text: Seq<u8>, i: int) -> int
    decreases text.len() - i,
{
    if 0 <= i < text.len() && word_char(text[i]) {
        word_end(text, i + 1)
    } else {
        i
    }
}

/// The name of the directive on the line that starts at `i`: the word after
/// the line's leading `#`, blanks aside. `None` if the line is no directive.
pub open spec fn directive_name(text: Seq<u8>, i: int) -> Option<Seq<u8>> {
    let hash = skip_blanks(text, i);
    if 0 <= hash < text.len() && text[hash] == HASH {
        let start = skip_blanks(text, hash + 1);
        Some(text.subrange(start, word_end(text, start)))
    } else {
        None
    }
}

/// The names of the conditional-compilation directives: `if`, `ifdef`,
/// `ifndef`, `elif`, `else` and `endif`.
pub open spec fn conditional_name(name: Seq<u8>) -> bool {
    ||| name == seq![0x69u8, 0x66]
    ||| name == seq![0x69u8, 0x66, 0x64, 0x65, 0x66]
    ||| name == seq![0x69u8, 0x66, 0x6e, 0x64, 0x65, 0x66]
    ||| name == seq![0x65u8, 0x6c, 0x69, 0x66]
    ||| name == seq![0x65u8, 0x6c, 0x73, 0x65]
    ||| name == seq![0x65u8, 0x6e, 0x64, 0x69, 0x66]
}

/// Whether the line that starts at `i` is a conditional-compilation directive.
pub open spec fn conditional_at(text: Seq<u8>, i: int) -> bool {
    &&& starts_line(text, i)
    &&& directive_name(text, i) is Some
    &&& conditional_name(directive_name(text, i)->Some_0)
}

/// No line of the text is a conditional-compilation directive.
pub open spec fn fully_expanded(text: Seq<u8>) -> bool {
    forall|i: int| 0 <= i < text.len() ==> !conditional_at(text, i)
}

/// The offset of the first conditional-compilation directive at or after
/// `from`, or the length of the text if there is none.
pub open spec fn first_conditional(text: Seq<u8>, from: int) -> int
    decreases text.len() - from,
{
    if from < 0 || from >= text.len() {
        text.len() as int
    } else if conditional_at(text, from) {
        from
    } else {
        first_conditional(text, from + 1)
    }
}

/// What `first_conditional` finds: a directive with none before it, or the
/// end of the text.
pub proof fn first_conditional_is_first(text: Seq<u8>, from: int)
    requires
        0 <= from <= text.len(),
    ensures
        from <= first_conditional(text, from) <= text.len(),
        first_conditional(text, from) < text.len() ==> conditional_at(
            text,
            first_conditional(text, from),
        ),
        forall|j: int| from <= j < first_conditional(text, from) ==> !conditional_at(text, j),
    decreases text.len() - from,
{
    if from < text.len() && !conditional_at(text, from) {
        first_conditional_is_first(text, from + 1);
    }
}

/// A text is fully expanded exactly when the search for a conditional
/// directive runs to the end.
pub proof fn fully_expanded_means_none_found(text: Seq<u8>)
    ensures
        fully_expanded(text) <==> first_conditional(text, 0) == text.len(),
{
    first_conditional_is_first(text, 0);
}

/// Offsets that hold no directive can be skipped.
proof fn skip_to(text: Seq<u8>, from: int, to: int)
    requires
        0 <= from <= to <= text.len(),
        forall|j: int| from <= j < to ==> !conditional_at(text, j),
    ensures
        first_conditional(text, from) == first_conditional(text, to),
    decreases to - from,
{
    if from < to {
        skip_to(text, from + 1, to);
    }
}

/// The bytes a text is stored as.
pub open spec fn stored(text: Seq<char>) -> Seq<u8> {
    vstd::utf8::encode_utf8(text)
}

/// What is reported when a directive is left at offset `at`.
pub open spec fn leftover_message(at: int) -> Seq<char> {
    "conditional directive left at byte "@ + decimal(at as nat)
}

fn after_blanks(text: &[u8], i: usize) -> (end: usize)
    requires
        i <= text@.len(),
    ensures
        end == skip_blanks(text@, i as int),
        i <= end <= text@.len(),
{
    let mut j: usize = i;
    while j < text.len() && (text[j] == 0x20 || text[j] == 0x09)
        invariant
            i <= j <= text@.len(),
            skip_blanks(text@, i as int) == skip_blanks(text@, j as int),
        decreases text@.len() - j,
    {
        j += 1;
    }
    j
}

fn after_word(text: &[u8], i: usize) -> (end: usize)
    requires
        i <= text@.len(),
    ensures
        end == word_end(text@, i as int),
        i <= end <= text@.len(),
{
    let mut j: usize = i;
    while j < text.len() && ((0x61 <= text[j] && text[j] <= 0x7a) || (0x41 <= text[j] && text[j]
        <= 0x5a) || (0x30 <= text[j] && text[j] <= 0x39) || text[j] == 0x5f)
        invariant
            i <= j <= text@.len(),
            word_end(text@, i as int) == word_end(text@, j as int),
        decreases text@.len() - j,
    {
        j += 1;
    }
    j
}

fn names_conditional(text: &[u8], start: usize, end: usize) -> (b: bool)
    requires
        start <= end <= text@.len(),
    ensures
        b == conditional_name(text@.subrange(start as int, end as int)),
{
    let ghost name = text@.subrange(start as int, end as int);
    let n: usize = end - start;
    assert(name.len() == n);
    assert(forall|k: int| 0 <= k < n ==> name[k] == text@[start + k]);
    if n == 2 {
        let b = text[start] == 0x69 && text[start + 1] == 0x66;
        assert(b ==> name =~= seq![0x69u8, 0x66]);
        b
    } else if n == 4 {
        let elif = text[start] == 0x65 && text[start + 1] == 0x6c && text[start + 2] == 0x69
            && text[start + 3] == 0x66;
        let other = text[start] == 0x65 && text[start + 1] == 0x6c && text[start + 2] == 0x73
            && text[start + 3] == 0x65;
        assert(elif ==> name =~= seq![0x65u8, 0x6c, 0x69, 0x66]);
        assert(other ==> name =~= seq![0x65u8, 0x6c, 0x73, 0x65]);
        elif || other
    } else if n == 5 {
        let ifdef = text[start] == 0x69 && text[start + 1] == 0x66 && text[start + 2] == 0x64
            && text[start + 3] == 0x65 && text[start + 4] == 0x66;
        let endif = text[start] == 0x65 && text[start + 1] == 0x6e && text[start + 2] == 0x64
            && text[start + 3] == 0x69 && text[start + 4] == 0x66;
        assert(ifdef ==> name =~= seq![0x69u8, 0x66, 0x64, 0x65, 0x66]);
        assert(endif ==> name =~= seq![0x65u8, 0x6e, 0x64, 0x69, 0x66]);
        ifdef || endif
    } else if n == 6 {
        let b = text[start] == 0x69 && text[start + 1] == 0x66 && text[start + 2] == 0x6e
            && text[start + 3] == 0x64 && text[start + 4] == 0x65 && text[start + 5] == 0x66;
        assert(b ==> name =~= seq![0x69u8, 0x66, 0x6e, 0x64, 0x65, 0x66]);
        b
    } else {
        false
    }
}

fn line_is_conditional(text: &[u8], i: usize) -> (b: bool)
    requires
        starts_line(text@, i as int),
    ensures
        b == conditional_at(text@, i as int),
{
    let hash = after_blanks(text, i);
    if hash < text.len() && text[hash] == HASH {
        let start = after_blanks(text, hash + 1);
        let end = after_word(text, start);
        names_conditional(text, start, end)
    } else {
        false
    }
}

/// Looks for the first line that is a conditional-compilation directive and
/// gives the offset at which that line starts.
pub fn find_conditional(text: &[u8]) -> (found: Option<usize>)
    ensures
        found is None <==> fully_expanded(text@),
        found is Some ==> found->Some_0 == first_conditional(text@, 0),
        found is Some ==> conditional_at(text@, found->Some_0 as int),
{
    proof {
        first_conditional_is_first(text@, 0);
    }
    let mut line: usize = 0;
    while line < text.len()
        invariant
            line <= text@.len(),
            line < text@.len() ==> starts_line(text@, line as int),
            first_conditional(text@, 0) == first_conditional(text@, line as int),
        decreases text@.len() - line,
    {
        if line_is_conditional(text, line) {
            return Some(line);
        }
        let mut next: usize = line;
        while next < text.len() && text[next] != NEWLINE
            invariant
                line <= next <= text@.len(),
                forall|j: int| line <= j < next ==> text@[j] != NEWLINE,
            decreases text@.len() - next,
        {
            next += 1;
        }
        if next < text.len() {
            next += 1;
        }
        proof {
            assert forall|j: int| line <= j < next implies !conditional_at(text@, j) by {
                if j > line {
                    assert(text@[j - 1] != NEWLINE);
                }
            }
            skip_to(text@, line as int, next as int);
        }
        line = next;
    }
    None
}

/// Looks for the first conditional-compilation directive in a text held as
/// a string; the offset counts bytes.
pub fn find_conditional_in(text: &str) -> (found: Option<usize>)
    ensures
        found is None <==> fully_expanded(stored(text@)),
        found is Some ==> found->Some_0 == first_conditional(stored(text@), 0),
{
    find_conditional(text.as_bytes())
}

/// The text of the engine's public header after preprocessing. A value of
/// this type holds no conditional-compilation directive.
#[derive(Debug, PartialEq, Eq)]
pub struct ExpandedHeaderSource {
    text: Vec<u8>,
}

impl View for ExpandedHeaderSource {
    type V = Seq<u8>;

    closed spec fn view(&self) -> Seq<u8> {
        self.text@
    }
}

impl ExpandedHeaderSource {
    #[verifier::type_invariant]
    spec fn inv(self) -> bool {
        fully_expanded(self.text@)
    }

    /// Accepts `text` as an expanded header if no conditional-compilation
    /// directive is left in it. Otherwise expansion is reported as failed,
    /// with the offset of the first directive that was left.
    pub fn new(text: Vec<u8>) -> (result: Result<ExpandedHeaderSource, DataStoreError>)
        ensures
            result is Ok <==> fully_expanded(text@),
            result is Ok ==> result->Ok_0@ == text@,
            result is Err ==> result->Err_0@ == ErrorView::Preprocess(
                leftover_message(first_conditional(text@, 0)),
            ),
    {
        match find_conditional(text.as_slice()) {
            Some(at) => Err(leftover_error(at)),
            None => Ok(ExpandedHeaderSource { text }),
        }
    }

    /// The header text.
    pub fn text(&self) -> (text: &Vec<u8>)
        ensures
            text@ == self@,
            fully_expanded(self@),
    {
        proof {
            use_type_invariant(self);
        }
        &self.text
    }
}

/// The error for a directive left at offset `at`.
pub fn leftover_error(at: usize) -> (error: DataStoreError)
    ensures
        error@ == ErrorView::Preprocess(leftover_message(at as int)),
{
    let mut message = String::from_str("conditional directive left at byte ");
    append_decimal(&mut message, at);
    DataStoreError::Preprocess(message)
}

} // verus!
