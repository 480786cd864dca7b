//! The patterns that tell statements apart by their first word.
use crate::text::{
    is_white_space, law_trimmed, lemma_trim_end_is_front, lemma_trim_start_skip, trim_start, trimmed,
};
use regex::Regex;
use vstd::prelude::*;

verus! {

/// Matches a text that starts with the word `select`.
pub const SELECT_PATTERN: &'static str = r#"(?i)^\s*select\b"#;

/// Matches a text that starts with the word `select` or the word `pragma`.
pub const QUERY_PATTERN: &'static str = r#"(?i)^\s*(select|pragma)\b"#;

/// Whether the regular expression `pattern` matches somewhere in `text`.
pub uninterp spec fn regex_match(pattern: Seq<char>, text: Seq<char>) -> bool;

/// Whether `c` is the lower-case letter `letter` when case is ignored. The letter `s` has a
/// third form, the long s.
pub open spec fn same_letter(c: char, letter: char) -> bool {
    ||| c == letter
    ||| c as u32 + 32 == letter as u32
    ||| letter == 's' && c as u32 == 0x17f
}

/// Whether the ASCII character `c` is a letter, a digit or an underscore.
pub open spec fn is_ascii_word(c: char) -> bool {
    'a' <= c <= 'z' || 'A' <= c <= 'Z' || '0' <= c <= '9' || c == '_'
}

/// Whether `text` starts, behind white space, with the letters of `word` in any case.
pub open spec fn starts_with_letters(text: Seq<char>, word: Seq<char>) -> bool {
    let t = trim_start(text);
    t.len() >= word.len() && forall|i: int|
        0 <= i < word.len() ==> same_letter(#[trigger] t[i], word[i])
}

/// Whether `text` starts, behind white space, with `word` as a word of its own. `None` where
/// that depends on whether a character beyond ASCII that is no white space belongs to words.
pub open spec fn keyword_verdict(text: Seq<char>, word: Seq<char>) -> Option<bool> {
    let t = trim_start(text);
    let n = word.len() as int;
    if !starts_with_letters(text, word) {
        Some(false)
    } else if t.len() == n {
        Some(true)
    } else if t[n] as u32 <= 0x7f || is_white_space(t[n]) {
        Some(!is_ascii_word(t[n]))
    } else {
        None
    }
}

/// Whether `text` starts with the word `select`, as far as it can be told.
pub open spec fn select_verdict(text: Seq<char>) -> Option<bool> {
    keyword_verdict(text, "select"@)
}

/// Whether `text` starts with the word `select` or the word `pragma`, as far as it can be
/// told.
pub open spec fn query_verdict(text: Seq<char>) -> Option<bool> {
    if starts_with_letters(text, "select"@) {
        keyword_verdict(text, "select"@)
    } else {
        keyword_verdict(text, "pragma"@)
    }
}

/// Whether `text` is a `SELECT`.
pub open spec fn selects(text: Seq<char>) -> bool {
    match select_verdict(text) {
        Some(verdict) => verdict,
        None => regex_match(SELECT_PATTERN@, trimmed(text)),
    }
}

/// Whether `text` is a `SELECT` or a `PRAGMA`.
pub open spec fn queries(text: Seq<char>) -> bool {
    match query_verdict(text) {
        Some(verdict) => verdict,
        None => if starts_with_letters(text, "select"@) {
            regex_match(SELECT_PATTERN@, trimmed(text))
        } else {
            regex_match(QUERY_PATTERN@, trimmed(text))
        },
    }
}

/// `Regex::new(pattern).unwrap().is_match(text)`: whether the pattern, one of the two above,
/// matches in the text. Which text it matches depends on the two alone and has the name
/// `regex_match`. Both patterns are anchored at the start, skip white space, ignore the case
/// of the word and want a word boundary behind it. So the verdicts hold where they decide,
/// and white space at the ends of the text makes no difference: at the start it is skipped,
/// and at the end it bounds a word just as the end of the text does. On a text that starts
/// with the letters of `select` the second pattern matches as the first one does, since no
/// text starts with the letters of both words. What a character beyond ASCII right behind the
/// word does to the match is left unsaid, unless it is white space.
#[verifier::external_body]
fn regex_is_match(pattern: &str, text: &str) -> (r: bool)
    requires
        pattern@ == SELECT_PATTERN@ || pattern@ == QUERY_PATTERN@,
    ensures
        r == regex_match(pattern@, text@),
        r == regex_match(pattern@, trimmed(text@)),
        pattern@ == SELECT_PATTERN@ && select_verdict(text@) is Some ==> r == select_verdict(
            text@,
        )->0,
        pattern@ == QUERY_PATTERN@ && query_verdict(text@) is Some ==> r == query_verdict(
            text@,
        )->0,
        pattern@ == QUERY_PATTERN@ && starts_with_letters(text@, "select"@) ==> r == regex_match(
            SELECT_PATTERN@,
            trimmed(text@),
        ),
{
    Regex::new(pattern).unwrap().is_match(text)
}

/// Tells whether a text is a `SELECT`.
pub fn is_select(text: &str) -> (r: bool)
    ensures
        r == selects(text@),
{
    regex_is_match(SELECT_PATTERN, text)
}

/// Tells whether a text is a `SELECT` or a `PRAGMA`.
pub fn is_query(text: &str) -> (r: bool)
    ensures
        r == queries(text@),
{
    regex_is_match(QUERY_PATTERN, text)
}

proof fn lemma_verdict_of_trimmed(text: Seq<char>, word: Seq<char>)
    requires
        forall|i: int| 0 <= i < word.len() ==> 'a' <= #[trigger] word[i] <= 'z',
    ensures
        starts_with_letters(trimmed(text), word) == starts_with_letters(text, word),
        keyword_verdict(trimmed(text), word) == keyword_verdict(text, word),
{
    let t = trim_start(text);
    let u = trimmed(text);
    let n = word.len() as int;
    law_trimmed(text);
    lemma_trim_end_is_front(t);
    assert(trim_start(u) == u);
    if starts_with_letters(text, word) {
        if u.len() < n {
            assert(same_letter(t[u.len() as int], word[u.len() as int]));
            assert(is_white_space(t[u.len() as int]));
        }
        assert forall|i: int| 0 <= i < n implies same_letter(#[trigger] u[i], word[i]) by {
            assert(u[i] == t[i]);
        }
    } else if starts_with_letters(u, word) {
        assert forall|i: int| 0 <= i < n implies same_letter(#[trigger] t[i], word[i]) by {
            assert(u[i] == t[i]);
        }
    }
}

proof fn lemma_letters_of_keywords()
    ensures
        forall|i: int| 0 <= i < "select"@.len() ==> 'a' <= #[trigger] "select"@[i] <= 'z',
        forall|i: int| 0 <= i < "pragma"@.len() ==> 'a' <= #[trigger] "pragma"@[i] <= 'z',
        "select"@.len() > 0,
        "pragma"@.len() > 0,
        "select"@[0] == 's',
        "pragma"@[0] == 'p',
{
    reveal_strlit("select");
    reveal_strlit("pragma");
}

/// White space at the ends of a text does not change what kind of statement it is.
pub proof fn law_kind_of_trimmed(text: Seq<char>)
    ensures
        selects(trimmed(text)) == selects(text),
        queries(trimmed(text)) == queries(text),
{
    lemma_letters_of_keywords();
    lemma_verdict_of_trimmed(text, "select"@);
    lemma_verdict_of_trimmed(text, "pragma"@);
    law_trimmed(text);
}

/// Each `SELECT` is among the queries. A text that starts with the letters of `pragma` is no
/// `SELECT`.
pub proof fn law_selects_are_queries(text: Seq<char>)
    ensures
        selects(text) ==> queries(text),
        starts_with_letters(text, "pragma"@) ==> !selects(text),
{
    lemma_letters_of_keywords();
    let t = trim_start(text);
    if starts_with_letters(text, "pragma"@) && starts_with_letters(text, "select"@) {
        assert(same_letter(t[0], "pragma"@[0]));
        assert(same_letter(t[0], "select"@[0]));
    }
}

/// Whether `form` is the lower-case word `word` in any case.
pub open spec fn is_form_of(form: Seq<char>, word: Seq<char>) -> bool {
    form.len() == word.len() && forall|i: int|
        0 <= i < word.len() ==> #[trigger] form[i] == word[i] || form[i] as u32 + 32
            == word[i] as u32
}

/// Whether `rest` is such that the word in front of it ends there: nothing follows, or an ASCII
/// character that is no letter, no digit and no underscore.
pub open spec fn ends_a_word(rest: Seq<char>) -> bool {
    rest.len() == 0 || (rest[0] <= '\u{7f}' && !('a' <= rest[0] <= 'z') && !('A' <= rest[0] <= 'Z')
        && !('0' <= rest[0] <= '9') && rest[0] != '_')
}

/// Whether `rest` goes on with the word in front of it: with a letter, a digit or an underscore.
pub open spec fn goes_on_with_a_word(rest: Seq<char>) -> bool {
    rest.len() > 0 && ('a' <= rest[0] <= 'z' || 'A' <= rest[0] <= 'Z' || '0' <= rest[0] <= '9'
        || rest[0] == '_')
}

proof fn lemma_ascii(c: char)
    ensures
        c <= '\u{7f}' <==> c as u32 <= 0x7f,
{
}

proof fn lemma_keyword(lead: Seq<char>, form: Seq<char>, rest: Seq<char>, word: Seq<char>)
    requires
        forall|i: int| 0 <= i < lead.len() ==> is_white_space(#[trigger] lead[i]),
        word.len() > 0,
        forall|i: int| 0 <= i < word.len() ==> 'a' <= #[trigger] word[i] <= 'z',
        is_form_of(form, word),
    ensures
        trim_start(lead + form + rest) == form + rest,
        starts_with_letters(lead + form + rest, word),
        ends_a_word(rest) ==> keyword_verdict(lead + form + rest, word) == Some(true),
        goes_on_with_a_word(rest) ==> keyword_verdict(lead + form + rest, word) == Some(false),
{
    let text = lead + form + rest;
    let t = form + rest;
    assert forall|i: int| 0 <= i < lead.len() implies is_white_space(#[trigger] text[i]) by {
        assert(text[i] == lead[i]);
    }
    lemma_trim_start_skip(text, lead.len() as int);
    assert(text.skip(lead.len() as int) =~= t);
    assert(t[0] == form[0]);
    assert('a' <= word[0] <= 'z');
    assert(same_letter(form[0], word[0]));
    assert(!is_white_space(t[0]));
    assert(trim_start(t) == t);
    assert forall|i: int| 0 <= i < word.len() implies same_letter(#[trigger] t[i], word[i]) by {
        assert(t[i] == form[i]);
    }
    if rest.len() > 0 {
        let c: char = rest[0];
        assert(t[word.len() as int] == c);
        lemma_ascii(c);
        assert(ends_a_word(rest) ==> c as u32 <= 0x7f && !is_ascii_word(c));
    } else {
        assert(t =~= form);
    }
}

/// A text whose first word is `select`, in any case and behind any white space, is a `SELECT`
/// and a query, whatever follows; it is neither where the letters go on.
pub proof fn law_select_is_told_by_its_first_word(
    lead: Seq<char>,
    form: Seq<char>,
    rest: Seq<char>,
)
    requires
        forall|i: int| 0 <= i < lead.len() ==> is_white_space(#[trigger] lead[i]),
        is_form_of(form, "select"@),
    ensures
        ends_a_word(rest) ==> selects(lead + form + rest) && queries(lead + form + rest),
        goes_on_with_a_word(rest) ==> !selects(lead + form + rest) && !queries(
            lead + form + rest,
        ),
{
    lemma_letters_of_keywords();
    lemma_keyword(lead, form, rest, "select"@);
}

/// A text whose first word is `pragma`, in any case and behind any white space, is a query and
/// no `SELECT`, whatever follows; it is no query where the letters go on.
pub proof fn law_pragma_is_told_by_its_first_word(
    lead: Seq<char>,
    form: Seq<char>,
    rest: Seq<char>,
)
    requires
        forall|i: int| 0 <= i < lead.len() ==> is_white_space(#[trigger] lead[i]),
        is_form_of(form, "pragma"@),
    ensures
        ends_a_word(rest) ==> queries(lead + form + rest),
        goes_on_with_a_word(rest) ==> !queries(lead + form + rest),
        !selects(lead + form + rest),
{
    let text = lead + form + rest;
    lemma_letters_of_keywords();
    lemma_keyword(lead, form, rest, "pragma"@);
    law_selects_are_queries(text);
    let t = trim_start(text);
    assert(same_letter(t[0], "pragma"@[0]));
    assert(!starts_with_letters(text, "select"@)) by {
        assert(!same_letter(t[0], "select"@[0]));
    }
}

/// Nothing else is a `SELECT` or a query: behind the white space at its start, such a text has
/// the letters of one of the two words.
pub proof fn law_other_texts_are_no_queries(text: Seq<char>)
    ensures
        selects(text) ==> trim_start(text).len() >= 6 && forall|i: int|
            0 <= i < 6 ==> same_letter(#[trigger] trim_start(text)[i], "select"@[i]),
        queries(text) && !selects(text) ==> trim_start(text).len() >= 6 && forall|i: int|
            0 <= i < 6 ==> same_letter(#[trigger] trim_start(text)[i], "pragma"@[i]),
        queries(text) ==> !('a' <= trim_start(text)[0] <= 'o') && !('A' <= trim_start(text)[0]
            <= 'O') && !('t' <= trim_start(text)[0] <= 'z') && !('T' <= trim_start(text)[0] <= 'Z'),
{
    reveal_strlit("select");
    reveal_strlit("pragma");
    if queries(text) {
        let t = trim_start(text);
        assert(same_letter(t[0], "select"@[0]) || same_letter(t[0], "pragma"@[0]));
    }
}

/// Where a character beyond ASCII behind the word decides, the regular expression does, on the
/// text without the white space at its ends.
pub proof fn law_pattern_decides_the_rest(text: Seq<char>)
    ensures
        select_verdict(text) is None ==> selects(text) == regex_match(
            SELECT_PATTERN@,
            trimmed(text),
        ),
        query_verdict(text) is None && starts_with_letters(text, "select"@) ==> queries(text)
            == selects(text),
        query_verdict(text) is None && !starts_with_letters(text, "select"@) ==> queries(text)
            == regex_match(QUERY_PATTERN@, trimmed(text)),
{
}

} // verus!
