//! The structured-output contract between the model and the tool: a response
//! is `EXPLANATION`, one reserved delimiter character, `COMMAND`. Parsing is
//! total — malformed output degrades to plain explanation text with an empty
//! command, never to an error.

use vstd::prelude::*;
use vstd::string::StrSliceExecFns;

use crate::text::trim_spec;
use crate::text::trim_str;

verus! {

/// The reserved character separating the explanation from the command in a
/// suggestion response: the section sign, chosen because it is absent from
/// normal shell command text and natural-language explanations. An internal
/// protocol detail between prompt construction and response parsing, never
/// shown to the end user.
pub const OUTPUT_DELIMITER: char = '\u{A7}';

/// Whether the reserved delimiter occurs anywhere in `s`.
pub open spec fn contains_delimiter(s: Seq<char>) -> bool {
    exists|i: int| 0 <= i < s.len() && s[i] == OUTPUT_DELIMITER
}

/// The index of the first delimiter in `s`, or `s.len()` when there is none.
pub open spec fn first_delimiter(s: Seq<char>) -> int
    decreases s.len(),
{
    if s.len() == 0 {
        0
    } else if s[0] == OUTPUT_DELIMITER {
        0
    } else {
        1 + first_delimiter(s.drop_first())
    }
}

/// What parsing returns: the trimmed text on each side of the first
/// delimiter, or — when no delimiter occurs — the whole trimmed text as
/// explanation with an empty command.
pub open spec fn parse_spec(s: Seq<char>) -> (Seq<char>, Seq<char>) {
    let i = first_delimiter(s);
    if i < s.len() {
        (trim_spec(s.subrange(0, i)), trim_spec(s.subrange(i + 1, s.len() as int)))
    } else {
        (trim_spec(s), Seq::<char>::empty())
    }
}

proof fn lemma_first_delimiter_at(s: Seq<char>, i: int)
    requires
        0 <= i <= s.len(),
        forall|j: int| 0 <= j < i ==> s[j] != OUTPUT_DELIMITER,
        i == s.len() || s[i] == OUTPUT_DELIMITER,
    ensures
        first_delimiter(s) == i,
    decreases i,
{
    if i > 0 {
        let t = s.drop_first();
        assert(forall|j: int| 0 <= j < i - 1 ==> #[trigger] t[j] != OUTPUT_DELIMITER);
        lemma_first_delimiter_at(t, i - 1);
    }
}

/// Split raw completion text on the first occurrence of the reserved
/// delimiter. Total: accepts every string, including the empty one, and
/// cannot fail. When the delimiter is found, the left part trimmed is the
/// explanation and the right part trimmed is the command; when it is not,
/// the entire trimmed text is the explanation and the command is empty.
pub fn parse_response(content: &str) -> (r: (String, String))
    ensures
        r.0@ == parse_spec(content@).0,
        r.1@ == parse_spec(content@).1,
{
    let n = content.unicode_len();
    let mut i: usize = 0;
    while i < n && content.get_char(i) != OUTPUT_DELIMITER
        invariant
            n == content@.len(),
            i <= n,
            forall|j: int| 0 <= j < i ==> content@[j] != OUTPUT_DELIMITER,
        decreases n - i,
    {
        i = i + 1;
    }
    proof {
        lemma_first_delimiter_at(content@, i as int);
    }
    if i < n {
        let explanation = trim_str(content.substring_char(0, i));
        let command = trim_str(content.substring_char(i + 1, n));
        (explanation, command)
    } else {
        (trim_str(content), String::new())
    }
}

/// Interpret a completion body that may be absent: a provider answer with no
/// choices or no message content yields an empty explanation and an empty
/// command; present text is parsed on the delimiter contract.
pub fn parse_completion(content: Option<&str>) -> (r: (String, String))
    ensures
        match content {
            Some(text) => r.0@ == parse_spec(text@).0 && r.1@ == parse_spec(text@).1,
            None => r.0@ == Seq::<char>::empty() && r.1@ == Seq::<char>::empty(),
        },
{
    match content {
        Some(text) => parse_response(text),
        None => (String::new(), String::new()),
    }
}

/// Delimiter split correctness: for any explanation and any command free of
/// the delimiter character, parsing their delimited concatenation yields
/// exactly the two parts, trimmed.
pub proof fn lemma_parse_delimited(e: Seq<char>, c: Seq<char>)
    requires
        !contains_delimiter(e),
        !contains_delimiter(c),
    ensures
        parse_spec(e + seq![OUTPUT_DELIMITER] + c) == (trim_spec(e), trim_spec(c)),
{
    let s = e + seq![OUTPUT_DELIMITER] + c;
    assert(forall|j: int| 0 <= j < e.len() ==> s[j] == e[j]);
    lemma_first_delimiter_at(s, e.len() as int);
    assert(s.subrange(0, e.len() as int) =~= e);
    assert(s.subrange(e.len() as int + 1, s.len() as int) =~= c);
}

/// Degraded mode: a response without the delimiter parses to its trimmed
/// text as explanation, with an empty command.
pub proof fn lemma_parse_undelimited(s: Seq<char>)
    requires
        !contains_delimiter(s),
    ensures
        parse_spec(s) == (trim_spec(s), Seq::<char>::empty()),
{
    assert(forall|j: int| 0 <= j < s.len() ==> s[j] != OUTPUT_DELIMITER);
    lemma_first_delimiter_at(s, s.len() as int);
}

/// No-content degrade: an empty completion body parses to an empty
/// explanation and an empty command.
pub proof fn lemma_parse_empty()
    ensures
        parse_spec(Seq::<char>::empty()) == (Seq::<char>::empty(), Seq::<char>::empty()),
{
    lemma_parse_undelimited(Seq::<char>::empty());
}

} // verus!
