//! Text as sequences of characters: white space, trimming, words, joining, searching and
//! counting lines.
use vstd::prelude::*;

verus! {

/// `String::push` appends the given character to the end of the string.
pub assume_specification[ String::push ](s: &mut String, c: char)
    ensures
        final(s)@ == old(s)@.push(c),
;

/// The characters with the Unicode property `White_Space`.
pub open spec fn is_white_space(c: char) -> bool {
    let u = c as u32;
    ||| 0x9 <= u <= 0xd
    ||| u == 0x20
    ||| u == 0x85
    ||| u == 0xa0
    ||| u == 0x1680
    ||| 0x2000 <= u <= 0x200a
    ||| u == 0x2028
    ||| u == 0x2029
    ||| u == 0x202f
    ||| u == 0x205f
    ||| u == 0x3000
}

/// `s` without the white space at its start.
pub open spec fn trim_start(s: Seq<char>) -> Seq<char>
    decreases s.len(),
{
    if s.len() > 0 && is_white_space(s.first()) {
        trim_start(s.drop_first())
    } else {
        s
    }
}

/// `s` without the white space at its end.
pub open spec fn trim_end(s: Seq<char>) -> Seq<char>
    decreases s.len(),
{
    if s.len() > 0 && is_white_space(s.last()) {
        trim_end(s.drop_last())
    } else {
        s
    }
}

/// `s` without the white space at both ends.
pub open spec fn trimmed(s: Seq<char>) -> Seq<char> {
    trim_end(trim_start(s))
}

/// The maximal runs of characters that are not white space, in order.
///
/// Such a character goes on with the last word when the character before it is no white
/// space either, and opens a new word otherwise.
pub open spec fn words(s: Seq<char>) -> Seq<Seq<char>>
    decreases s.len(),
{
    if s.len() == 0 {
        seq![]
    } else {
        let init = words(s.drop_last());
        if is_white_space(s.last()) {
            init
        } else if ends_in_word(s.drop_last()) && init.len() > 0 {
            init.drop_last().push(init.last().push(s.last()))
        } else {
            init.push(seq![s.last()])
        }
    }
}

/// Whether the last character of `s` is there and is no white space.
pub open spec fn ends_in_word(s: Seq<char>) -> bool {
    s.len() > 0 && !is_white_space(s.last())
}

/// `s` from its first white space on.
pub open spec fn drop_word(s: Seq<char>) -> Seq<char>
    decreases s.len(),
{
    if s.len() > 0 && !is_white_space(s.first()) {
        drop_word(s.drop_first())
    } else {
        s
    }
}

/// What follows the first `n` words of `s`, without the white space before it.
pub open spec fn after_words(s: Seq<char>, n: nat) -> Seq<char>
    decreases n,
{
    if n == 0 {
        trim_start(s)
    } else {
        after_words(drop_word(trim_start(s)), (n - 1) as nat)
    }
}

/// What follows the first `n` words of `line`, without white space at its ends.
pub open spec fn behind_words(line: Seq<char>, n: nat) -> Seq<char> {
    after_words(trimmed(line), n)
}

/// The parts one after the other, with `sep` between neighbours.
pub open spec fn joined(parts: Seq<Seq<char>>, sep: Seq<char>) -> Seq<char>
    decreases parts.len(),
{
    if parts.len() == 0 {
        seq![]
    } else if parts.len() == 1 {
        parts[0]
    } else {
        joined(parts.drop_last(), sep) + sep + parts.last()
    }
}

/// Whether `part` stands somewhere in `s`.
pub open spec fn has_part(s: Seq<char>, part: Seq<char>) -> bool {
    exists|i: int| part_at(s, part, i)
}

/// Whether `part` stands in `s` from position `i` on.
pub open spec fn part_at(s: Seq<char>, part: Seq<char>, i: int) -> bool {
    0 <= i && i + part.len() <= s.len() && s.subrange(i, i + part.len()) == part
}

/// The number of line feeds in `s`.
pub open spec fn line_feeds(s: Seq<char>) -> nat
    decreases s.len(),
{
    if s.len() == 0 {
        0
    } else if s.last() == '\n' {
        line_feeds(s.drop_last()) + 1
    } else {
        line_feeds(s.drop_last())
    }
}

/// The number of lines in `s`: each line feed ends one, and what follows the last line feed
/// is one more line unless it is empty.
pub open spec fn line_count(s: Seq<char>) -> nat {
    if s.len() > 0 && s.last() != '\n' {
        line_feeds(s) + 1
    } else {
        line_feeds(s)
    }
}

/// A word as `words` gives them: not empty and free of white space.
pub open spec fn is_word(w: Seq<char>) -> bool {
    w.len() > 0 && forall|i: int| 0 <= i < w.len() ==> !is_white_space(#[trigger] w[i])
}

/// Tells whether `c` is white space.
pub fn white_space(c: char) -> (r: bool)
    ensures
        r == is_white_space(c),
{
    let u: u32 = c as u32;
    (0x9 <= u && u <= 0xd) || u == 0x20 || u == 0x85 || u == 0xa0 || u == 0x1680 || (0x2000 <= u
        && u <= 0x200a) || u == 0x2028 || u == 0x2029 || u == 0x202f || u == 0x205f || u == 0x3000
}

/// Tells whether the two texts are equal.
pub fn same(a: &str, b: &str) -> (r: bool)
    ensures
        r == (a@ == b@),
{
    a.to_owned() == b.to_owned()
}

/// The characters of a text.
pub fn chars_of(s: &str) -> (r: Vec<char>)
    ensures
        r@ == s@,
{
    let mut out: Vec<char> = Vec::new();
    for c in it: s.chars()
        invariant
            out@ == s@.take(it.index()),
            it.seq() == s@,
    {
        out.push(c);
    }
    out
}

/// The text made of the characters `from..to`.
pub(crate) fn text_of(chars: &Vec<char>, from: usize, to: usize) -> (r: String)
    requires
        from <= to <= chars@.len(),
    ensures
        r@ == chars@.subrange(from as int, to as int),
{
    let mut out = String::new();
    let mut i: usize = from;
    while i < to
        invariant
            from <= i <= to <= chars@.len(),
            out@ == chars@.subrange(from as int, i as int),
        decreases to - i,
    {
        out.push(chars[i]);
        i += 1;
    }
    out
}

/// White space at the start of a text does not matter to what is left of it.
pub proof fn lemma_trim_start_skip(s: Seq<char>, n: int)
    requires
        0 <= n <= s.len(),
        forall|i: int| 0 <= i < n ==> is_white_space(#[trigger] s[i]),
    ensures
        trim_start(s) == trim_start(s.skip(n)),
    decreases n,
{
    if n > 0 {
        assert(s.skip(n) =~= s.drop_first().skip(n - 1));
        assert forall|i: int| 0 <= i < n - 1 implies is_white_space(
            #[trigger] s.drop_first()[i],
        ) by {
            assert(s.drop_first()[i] == s[i + 1]);
        }
        lemma_trim_start_skip(s.drop_first(), n - 1);
    } else {
        assert(s.skip(0) =~= s);
    }
}

proof fn lemma_trim_end_take(s: Seq<char>, n: int)
    requires
        0 <= n <= s.len(),
        forall|i: int| n <= i < s.len() ==> is_white_space(#[trigger] s[i]),
    ensures
        trim_end(s) == trim_end(s.take(n)),
    decreases s.len() - n,
{
    if n < s.len() {
        assert(s.take(n) =~= s.drop_last().take(n));
        lemma_trim_end_take(s.drop_last(), n);
    } else {
        assert(s.take(n) =~= s);
    }
}

/// Drops the white space at both ends of a text.
pub fn trim(s: &str) -> (r: String)
    ensures
        r@ == trimmed(s@),
{
    let chars = chars_of(s);
    let mut from: usize = 0;
    while from < chars.len() && white_space(chars[from])
        invariant
            from <= chars@.len(),
            chars@ == s@,
            forall|i: int| 0 <= i < from ==> is_white_space(#[trigger] s@[i]),
        decreases chars@.len() - from,
    {
        from += 1;
    }
    proof {
        lemma_trim_start_skip(s@, from as int);
        if from < chars@.len() {
            assert(s@.skip(from as int).first() == s@[from as int]);
        }
    }
    let ghost rest = s@.skip(from as int);
    let mut to: usize = chars.len();
    while from < to && white_space(chars[to - 1])
        invariant
            from <= to <= chars@.len(),
            chars@ == s@,
            rest == s@.skip(from as int),
            forall|i: int| to - from <= i < rest.len() ==> is_white_space(#[trigger] rest[i]),
        decreases to,
    {
        to -= 1;
    }
    proof {
        lemma_trim_end_take(rest, to - from);
        assert(rest.take(to - from) =~= s@.subrange(from as int, to as int));
    }
    text_of(&chars, from, to)
}

/// Splits a text at its white space.
pub fn split_words(s: &str) -> (r: Vec<String>)
    ensures
        r.deep_view() == words(s@),
{
    let chars = chars_of(s);
    let mut out: Vec<String> = Vec::new();
    let mut word = String::new();
    let mut in_word: bool = false;
    let mut i: usize = 0;
    while i < chars.len()
        invariant
            i <= chars@.len(),
            chars@ == s@,
            in_word == ends_in_word(s@.take(i as int)),
            !in_word ==> word@.len() == 0,
            words(s@.take(i as int)) == if in_word {
                out.deep_view().push(word@)
            } else {
                out.deep_view()
            },
        decreases chars@.len() - i,
    {
        let ghost before = s@.take(i as int);
        let ghost after = s@.take(i + 1);
        proof {
            assert(after.drop_last() =~= before);
            assert(after.last() == s@[i as int]);
        }
        let c = chars[i];
        if white_space(c) {
            if in_word {
                let ghost words_before = out.deep_view();
                out.push(word);
                assert(out.deep_view() =~= words_before.push(out@.last()@));
                word = String::new();
                in_word = false;
            }
        } else {
            let ghost word_before = word@;
            word.push(c);
            proof {
                if in_word {
                    assert(words(before).drop_last() =~= out.deep_view());
                } else {
                    assert(word@ =~= seq![c]);
                }
            }
            in_word = true;
        }
        i += 1;
    }
    proof {
        assert(s@.take(i as int) =~= s@);
    }
    if in_word {
        let ghost words_before = out.deep_view();
        out.push(word);
        assert(out.deep_view() =~= words_before.push(out@.last()@));
    }
    out
}

proof fn lemma_drop_word_skip(s: Seq<char>, n: int)
    requires
        0 <= n <= s.len(),
        forall|i: int| 0 <= i < n ==> !is_white_space(#[trigger] s[i]),
    ensures
        drop_word(s) == drop_word(s.skip(n)),
    decreases n,
{
    if n > 0 {
        assert(!is_white_space(s[0]));
        assert(s.skip(n) =~= s.drop_first().skip(n - 1));
        assert forall|i: int| 0 <= i < n - 1 implies !is_white_space(
            #[trigger] s.drop_first()[i],
        ) by {
            assert(s.drop_first()[i] == s[i + 1]);
        }
        lemma_drop_word_skip(s.drop_first(), n - 1);
    } else {
        assert(s.skip(0) =~= s);
    }
}

/// The first position from `from` on that holds no white space, or else the end.
fn skip_white(chars: &Vec<char>, from: usize) -> (r: usize)
    requires
        from <= chars@.len(),
    ensures
        from <= r <= chars@.len(),
        chars@.skip(r as int) == trim_start(chars@.skip(from as int)),
{
    let ghost rest = chars@.skip(from as int);
    let mut i: usize = from;
    while i < chars.len() && white_space(chars[i])
        invariant
            from <= i <= chars@.len(),
            rest == chars@.skip(from as int),
            forall|k: int| 0 <= k < i - from ==> is_white_space(#[trigger] rest[k]),
        decreases chars@.len() - i,
    {
        i += 1;
    }
    proof {
        lemma_trim_start_skip(rest, i - from);
        assert(rest.skip(i - from) =~= chars@.skip(i as int));
        if i < chars@.len() {
            assert(chars@.skip(i as int).first() == chars@[i as int]);
        }
    }
    i
}

/// The first position from `from` on that holds white space, or else the end.
fn skip_word(chars: &Vec<char>, from: usize) -> (r: usize)
    requires
        from <= chars@.len(),
    ensures
        from <= r <= chars@.len(),
        chars@.skip(r as int) == drop_word(chars@.skip(from as int)),
{
    let ghost rest = chars@.skip(from as int);
    let mut i: usize = from;
    while i < chars.len() && !white_space(chars[i])
        invariant
            from <= i <= chars@.len(),
            rest == chars@.skip(from as int),
            forall|k: int| 0 <= k < i - from ==> !is_white_space(#[trigger] rest[k]),
        decreases chars@.len() - i,
    {
        i += 1;
    }
    proof {
        lemma_drop_word_skip(rest, i - from);
        assert(rest.skip(i - from) =~= chars@.skip(i as int));
        if i < chars@.len() {
            assert(chars@.skip(i as int).first() == chars@[i as int]);
        }
    }
    i
}

/// What follows the first `n` words of a line, as it stands there.
pub fn rest_behind(line: &str, n: usize) -> (r: String)
    ensures
        r@ == behind_words(line@, n as nat),
{
    let text = trim(line);
    let chars = chars_of(text.as_str());
    let mut at: usize = 0;
    let mut left: usize = n;
    proof {
        assert(text@.skip(0) =~= text@);
    }
    while left > 0
        invariant
            at <= chars@.len(),
            chars@ == text@,
            after_words(text@, n as nat) == after_words(text@.skip(at as int), left as nat),
        decreases left,
    {
        at = skip_white(&chars, at);
        at = skip_word(&chars, at);
        left -= 1;
    }
    at = skip_white(&chars, at);
    proof {
        assert(text@.skip(at as int) =~= text@.subrange(at as int, text@.len() as int));
    }
    text_of(&chars, at, chars.len())
}

/// Joins the parts, with `sep` between neighbours.
pub(crate) fn join(parts: &Vec<String>, sep: &str) -> (r: String)
    ensures
        r@ == joined(parts.deep_view(), sep@),
{
    let ghost all = parts.deep_view();
    let mut out = String::new();
    let mut i: usize = 0;
    while i < parts.len()
        invariant
            i <= parts@.len(),
            all == parts.deep_view(),
            out@ == joined(all.take(i as int), sep@),
        decreases parts@.len() - i,
    {
        let ghost next = all.take(i + 1);
        proof {
            assert(next.drop_last() =~= all.take(i as int));
            assert(next.last() == parts@[i as int]@);
        }
        if i > 0 {
            out.append(sep);
        }
        out.append(parts[i].as_str());
        proof {
            if i == 0 {
                assert(out@ =~= next[0]);
            }
        }
        i += 1;
    }
    proof {
        assert(all.take(i as int) =~= all);
    }
    out
}

/// Tells whether `part` stands somewhere in `s`.
pub fn contains(s: &str, part: &str) -> (r: bool)
    ensures
        r == has_part(s@, part@),
{
    let hay = chars_of(s);
    let needle = chars_of(part);
    if needle.len() > hay.len() {
        return false;
    }
    let last: usize = hay.len() - needle.len();
    let mut i: usize = 0;
    while i <= last
        invariant
            hay@ == s@,
            needle@ == part@,
            last == hay@.len() - needle@.len(),
            hay@.len() <= usize::MAX,
            i <= last + 1,
            forall|k: int| 0 <= k < i ==> !part_at(s@, part@, k),
        decreases last + 1 - i,
    {
        let mut j: usize = 0;
        while j < needle.len() && hay[i + j] == needle[j]
            invariant
                hay@ == s@,
                needle@ == part@,
                last == hay@.len() - needle@.len(),
                hay@.len() <= usize::MAX,
                i <= last,
                j <= needle@.len(),
                forall|k: int| 0 <= k < j ==> s@[i + k] == #[trigger] part@[k],
            decreases needle@.len() - j,
        {
            j += 1;
        }
        if j == needle.len() {
            assert(s@.subrange(i as int, i + part@.len()) =~= part@);
            assert(part_at(s@, part@, i as int));
            return true;
        }
        proof {
            assert(s@.subrange(i as int, i + part@.len())[j as int] != part@[j as int]);
        }
        if i == last {
            return false;
        }
        i += 1;
    }
    false
}

proof fn lemma_line_feeds_bound(s: Seq<char>)
    ensures
        line_feeds(s) <= s.len(),
    decreases s.len(),
{
    if s.len() > 0 {
        lemma_line_feeds_bound(s.drop_last());
    }
}

/// Counts the lines of a text.
pub fn count_lines(s: &str) -> (r: usize)
    ensures
        r == line_count(s@),
{
    let chars = chars_of(s);
    let mut n: usize = 0;
    let mut i: usize = 0;
    while i < chars.len()
        invariant
            i <= chars@.len(),
            chars@ == s@,
            n == line_feeds(s@.take(i as int)),
            n <= i,
        decreases chars@.len() - i,
    {
        proof {
            assert(s@.take(i + 1).drop_last() =~= s@.take(i as int));
        }
        if chars[i] == '\n' {
            n += 1;
        }
        i += 1;
    }
    proof {
        assert(s@.take(i as int) =~= s@);
        if s@.len() > 0 {
            lemma_line_feeds_bound(s@.drop_last());
        }
    }
    if chars.len() > 0 && chars[chars.len() - 1] != '\n' {
        n += 1;
    }
    n
}

proof fn lemma_words_after_break(b: Seq<char>, w: Seq<char>)
    requires
        !ends_in_word(b),
        is_word(w),
    ensures
        words(b + w) == words(b).push(w),
    decreases w.len(),
{
    let s = b + w;
    let init = w.drop_last();
    assert(s.drop_last() =~= b + init);
    assert(s.last() == w.last());
    assert(!is_white_space(w[w.len() - 1]));
    if init.len() == 0 {
        assert(b + init =~= b);
        assert(seq![w.last()] =~= w);
    } else {
        assert forall|i: int| 0 <= i < init.len() implies !is_white_space(#[trigger] init[i]) by {
            assert(init[i] == w[i]);
        }
        lemma_words_after_break(b, init);
        assert((b + init).last() == init.last());
        assert(!is_white_space(init[init.len() - 1]));
        assert(words(b).push(init).drop_last() =~= words(b));
        assert(init.push(w.last()) =~= w);
    }
}

proof fn lemma_words_after_white(s: Seq<char>)
    requires
        s.len() > 0,
        is_white_space(s[0]),
    ensures
        words(s) == words(s.drop_first()),
    decreases s.len(),
{
    let tail = s.drop_first();
    if s.len() > 1 {
        lemma_words_after_white(s.drop_last());
        assert(s.drop_last().drop_first() =~= tail.drop_last());
        if s.len() > 2 {
            assert(s.drop_last().last() == tail.drop_last().last());
        } else {
            assert(tail.drop_last() =~= seq![]);
            assert(words(tail.drop_last()) =~= seq![]);
        }
    } else {
        assert(s.drop_last() =~= tail);
    }
}

/// A text splits into words: none is empty and none holds white space.
pub proof fn law_words_are_words(s: Seq<char>)
    ensures
        forall|i: int| 0 <= i < words(s).len() ==> is_word(#[trigger] words(s)[i]),
    decreases s.len(),
{
    if s.len() > 0 {
        let init = words(s.drop_last());
        law_words_are_words(s.drop_last());
        assert forall|i: int| 0 <= i < words(s).len() implies is_word(#[trigger] words(s)[i]) by {
            if i < init.len() && words(s)[i] == init[i] {
                assert(is_word(init[i]));
            } else if ends_in_word(s.drop_last()) && init.len() > 0 {
                let w = init.last();
                assert(is_word(init[init.len() - 1]));
                assert(words(s)[i] == w.push(s.last()));
            }
        }
    }
}

/// Words that are joined with single spaces split into the same words again.
pub proof fn law_joined_words(ws: Seq<Seq<char>>)
    requires
        forall|i: int| 0 <= i < ws.len() ==> is_word(#[trigger] ws[i]),
    ensures
        words(joined(ws, seq![' '])) == ws,
    decreases ws.len(),
{
    let empty = Seq::<char>::empty();
    if ws.len() == 0 {
        assert(words(empty) =~= ws);
    } else if ws.len() == 1 {
        assert(is_word(ws[0]));
        lemma_words_after_break(empty, ws[0]);
        assert(empty + ws[0] =~= ws[0]);
        assert(words(empty).push(ws[0]) =~= ws);
    } else {
        let init = ws.drop_last();
        assert forall|i: int| 0 <= i < init.len() implies is_word(#[trigger] init[i]) by {
            assert(init[i] == ws[i]);
        }
        law_joined_words(init);
        let b = joined(init, seq![' ']) + seq![' '];
        assert(b.drop_last() =~= joined(init, seq![' ']));
        assert(b.last() == ' ');
        assert(words(b) == init);
        assert(is_word(ws[ws.len() - 1]));
        lemma_words_after_break(b, ws.last());
        assert(init.push(ws.last()) =~= ws);
    }
}

proof fn lemma_trim_start_keeps_words(s: Seq<char>)
    ensures
        words(trim_start(s)) == words(s),
        trim_start(s).len() > 0 ==> !is_white_space(trim_start(s)[0]),
        trim_start(s).len() > 0 ==> trim_start(s).last() == s.last(),
    decreases s.len(),
{
    if s.len() > 0 && is_white_space(s.first()) {
        lemma_words_after_white(s);
        lemma_trim_start_keeps_words(s.drop_first());
    }
}

proof fn lemma_trim_end_keeps_words(s: Seq<char>)
    ensures
        words(trim_end(s)) == words(s),
        trim_end(s).len() > 0 ==> !is_white_space(trim_end(s).last()),
        trim_end(s).len() > 0 ==> trim_end(s)[0] == s[0],
    decreases s.len(),
{
    if s.len() > 0 && is_white_space(s.last()) {
        lemma_trim_end_keeps_words(s.drop_last());
    }
}

/// Trimming takes away white space only: the words stay the same, the ends are no white space
/// any more, and trimming again changes nothing.
pub proof fn law_trimmed(s: Seq<char>)
    ensures
        words(trimmed(s)) == words(s),
        trimmed(s).len() > 0 ==> !is_white_space(trimmed(s)[0]),
        trimmed(s).len() > 0 ==> !is_white_space(trimmed(s).last()),
        trimmed(trimmed(s)) == trimmed(s),
{
    lemma_trim_start_keeps_words(s);
    lemma_trim_end_keeps_words(trim_start(s));
}

proof fn lemma_trim_start_is_end(s: Seq<char>)
    ensures
        trim_start(s).len() <= s.len(),
        trim_start(s) == s.skip(s.len() - trim_start(s).len()),
    decreases s.len(),
{
    if s.len() > 0 && is_white_space(s.first()) {
        let tail = s.drop_first();
        lemma_trim_start_is_end(tail);
        assert(s.skip(s.len() - trim_start(s).len()) =~= tail.skip(
            tail.len() - trim_start(s).len(),
        ));
    } else {
        assert(s.skip(0) =~= s);
    }
}

proof fn lemma_drop_word_is_end(s: Seq<char>)
    ensures
        drop_word(s).len() <= s.len(),
        drop_word(s) == s.skip(s.len() - drop_word(s).len()),
        forall|i: int|
            0 <= i < s.len() - drop_word(s).len() ==> !is_white_space(#[trigger] s[i]),
        drop_word(s).len() > 0 ==> is_white_space(drop_word(s)[0]),
    decreases s.len(),
{
    if s.len() > 0 && !is_white_space(s.first()) {
        let tail = s.drop_first();
        lemma_drop_word_is_end(tail);
        assert(s.skip(s.len() - drop_word(s).len()) =~= tail.skip(
            tail.len() - drop_word(s).len(),
        ));
        assert forall|i: int| 0 <= i < s.len() - drop_word(s).len() implies !is_white_space(
            #[trigger] s[i],
        ) by {
            if i > 0 {
                assert(tail[i - 1] == s[i]);
            }
        }
    } else {
        assert(s.skip(0) =~= s);
    }
}

proof fn lemma_words_behind_word(w: Seq<char>, rest: Seq<char>)
    requires
        is_word(w),
        rest.len() > 0 ==> is_white_space(rest[0]),
    ensures
        words(w + rest) == seq![w] + words(rest),
    decreases rest.len(),
{
    let s = w + rest;
    if rest.len() == 0 {
        let empty = Seq::<char>::empty();
        lemma_words_after_break(empty, w);
        assert(empty + w =~= w);
        assert(s =~= w);
        assert(words(empty).push(w) =~= seq![w] + words(rest));
    } else {
        let init = rest.drop_last();
        lemma_words_behind_word(w, init);
        assert(s.drop_last() =~= w + init);
        assert(s.last() == rest.last());
        if !is_white_space(rest.last()) {
            assert(init.len() > 0);
            assert((w + init).last() == init.last());
            let before = words(init);
            if ends_in_word(init) {
                assert(before.len() > 0);
                assert((seq![w] + before).drop_last() =~= seq![w] + before.drop_last());
                assert((seq![w] + before).last() == before.last());
            }
            assert(words(s) =~= seq![w] + words(rest));
        }
    }
}

proof fn lemma_after_words(s: Seq<char>, n: nat)
    ensures
        after_words(s, n).len() <= s.len(),
        after_words(s, n) == s.skip(s.len() - after_words(s, n).len()),
        after_words(s, n).len() > 0 ==> !is_white_space(after_words(s, n)[0]),
        n <= words(s).len() ==> words(after_words(s, n)) == words(s).skip(n as int),
        n > words(s).len() ==> after_words(s, n).len() == 0,
    decreases n,
{
    let t = trim_start(s);
    lemma_trim_start_is_end(s);
    lemma_trim_start_keeps_words(s);
    if n == 0 {
        assert(words(s).skip(0) =~= words(s));
    } else {
        let rest = drop_word(t);
        let q = after_words(s, n);
        lemma_drop_word_is_end(t);
        lemma_after_words(rest, (n - 1) as nat);
        assert(s.skip(s.len() - q.len()) =~= rest.skip(rest.len() - q.len()));
        if t.len() > 0 {
            let w = t.take(t.len() - rest.len());
            assert(!is_white_space(t[0]));
            assert(is_word(w));
            lemma_words_behind_word(w, rest);
            assert(w + rest =~= t);
            if n <= words(s).len() {
                assert(words(s).skip(n as int) =~= words(rest).skip(n - 1));
            }
        }
    }
}

/// Trimming the end of a text takes away white space only.
pub proof fn lemma_trim_end_is_front(s: Seq<char>)
    ensures
        trim_end(s).len() <= s.len(),
        trim_end(s) == s.take(trim_end(s).len() as int),
        forall|i: int| trim_end(s).len() <= i < s.len() ==> is_white_space(#[trigger] s[i]),
    decreases s.len(),
{
    if s.len() > 0 && is_white_space(s.last()) {
        let init = s.drop_last();
        lemma_trim_end_is_front(init);
        assert(s.take(trim_end(s).len() as int) =~= init.take(trim_end(s).len() as int));
        assert forall|i: int| trim_end(s).len() <= i < s.len() implies is_white_space(
            #[trigger] s[i],
        ) by {
            if i < init.len() {
                assert(init[i] == s[i]);
            }
        }
    } else {
        assert(s.take(s.len() as int) =~= s);
    }
}

/// What follows the first words of a line stands there as it was typed: it holds the other
/// words and is an end of the line, without white space at either of its own ends. It is
/// empty exactly when no word is left for it.
pub proof fn law_behind_words(line: Seq<char>, n: nat)
    ensures
        n <= words(line).len() ==> words(behind_words(line, n)) == words(line).skip(n as int),
        trimmed(behind_words(line, n)) == behind_words(line, n),
        exists|k: int|
            0 <= k <= trimmed(line).len() && behind_words(line, n) == #[trigger] trimmed(line).skip(
                k,
            ),
        behind_words(line, n).len() == 0 <==> words(line).len() <= n,
{
    let t = trimmed(line);
    let q = behind_words(line, n);
    law_trimmed(line);
    lemma_after_words(t, n);
    assert(q == t.skip(t.len() - q.len()));
    if q.len() > 0 {
        assert(q.last() == t.last());
        assert(words(q).len() > 0);
    } else {
        assert(words(q) =~= seq![]);
    }
}

/// White space is the space, the controls from tab to carriage return, the next-line control
/// and the spaces and separators beyond ASCII. No other character is, in particular none that
/// is seen.
pub proof fn law_white_space(c: char)
    ensures
        is_white_space(c) <==> c == ' ' || '\t' <= c <= '\r' || c == '\u{85}' || c == '\u{a0}' || c
            == '\u{1680}' || '\u{2000}' <= c <= '\u{200a}' || c == '\u{2028}' || c == '\u{2029}' || c
            == '\u{202f}' || c == '\u{205f}' || c == '\u{3000}',
        '!' <= c <= '~' ==> !is_white_space(c),
{
}

proof fn lemma_trim_start_drops_white(s: Seq<char>)
    ensures
        forall|i: int|
            0 <= i < s.len() - trim_start(s).len() ==> is_white_space(#[trigger] s[i]),
    decreases s.len(),
{
    if s.len() > 0 && is_white_space(s.first()) {
        let tail = s.drop_first();
        lemma_trim_start_drops_white(tail);
        assert forall|i: int| 0 <= i < s.len() - trim_start(s).len() implies is_white_space(
            #[trigger] s[i],
        ) by {
            if i > 0 {
                assert(tail[i - 1] == s[i]);
            }
        }
    }
}

/// Trimming keeps a stretch of the text as it stands there, and all that it takes away, on
/// either side, is white space.
pub proof fn law_trimming_keeps_a_stretch(s: Seq<char>)
    ensures
        exists|i: int, j: int|
            {
                &&& 0 <= i <= j <= s.len()
                &&& trimmed(s) == #[trigger] s.subrange(i, j)
                &&& forall|k: int| 0 <= k < i ==> is_white_space(#[trigger] s[k])
                &&& forall|k: int| j <= k < s.len() ==> is_white_space(#[trigger] s[k])
            },
{
    let t = trim_start(s);
    let u = trimmed(s);
    lemma_trim_start_is_end(s);
    lemma_trim_start_drops_white(s);
    lemma_trim_end_is_front(t);
    let i = s.len() - t.len();
    let j = i + u.len();
    assert(u =~= s.subrange(i, j));
    assert forall|k: int| j <= k < s.len() implies is_white_space(#[trigger] s[k]) by {
        assert(t[k - i] == s[k]);
    }
}

/// White space parts words and does nothing else: the words of a text are those in front of
/// any of its white space, followed by those behind it. What holds no white space is one word,
/// as it is.
pub proof fn law_white_space_parts_words(a: Seq<char>, c: char, b: Seq<char>)
    requires
        is_white_space(c),
    ensures
        words(a + seq![c] + b) == words(a) + words(b),
        is_word(a) ==> words(a) == seq![a],
        a.len() == 0 ==> words(a).len() == 0,
    decreases b.len(),
{
    let empty = Seq::<char>::empty();
    if is_word(a) {
        lemma_words_after_break(empty, a);
        assert(empty + a =~= a);
        assert(words(empty).push(a) =~= seq![a]);
    }
    let s = a + seq![c] + b;
    if b.len() == 0 {
        assert(s.drop_last() =~= a);
        assert(s.last() == c);
        assert(words(b) =~= seq![]);
        assert(words(a) + words(b) =~= words(a));
    } else {
        let init = b.drop_last();
        let front = a + seq![c] + init;
        law_white_space_parts_words(a, c, init);
        assert(s.drop_last() =~= front);
        assert(s.last() == b.last());
        if init.len() > 0 {
            assert(front.last() == init.last());
        } else {
            assert(front.last() == c);
        }
        if !is_white_space(b.last()) && ends_in_word(init) {
            assert(words(init).len() > 0);
            assert((words(a) + words(init)).drop_last() =~= words(a) + words(init).drop_last());
        }
        assert(words(s) =~= words(a) + words(b));
    }
}

/// Joining puts the separator between neighbours and nowhere else, and leaves the parts as
/// they are and in their order.
pub proof fn law_joining(a: Seq<Seq<char>>, b: Seq<Seq<char>>, sep: Seq<char>)
    requires
        a.len() > 0,
        b.len() > 0,
    ensures
        joined(a + b, sep) == joined(a, sep) + sep + joined(b, sep),
        a.len() == 1 ==> joined(a, sep) == a[0],
        joined(seq![], sep).len() == 0,
    decreases b.len(),
{
    let all = a + b;
    assert(all.last() == b.last());
    if b.len() == 1 {
        assert(all.drop_last() =~= a);
    } else {
        law_joining(a, b.drop_last(), sep);
        assert(all.drop_last() =~= a + b.drop_last());
        assert(joined(all, sep) =~= joined(a, sep) + sep + joined(b, sep));
    }
}

/// A part is found wherever it stands, and where it is found it stands, character for
/// character.
pub proof fn law_parts_are_found(a: Seq<char>, part: Seq<char>, b: Seq<char>, s: Seq<char>)
    ensures
        has_part(a + part + b, part),
        has_part(s, part) <==> exists|front: Seq<char>, back: Seq<char>|
            s == #[trigger] (front + part + back),
{
    let t = a + part + b;
    assert(t.subrange(a.len() as int, a.len() as int + part.len()) =~= part);
    assert(part_at(t, part, a.len() as int));
    if has_part(s, part) {
        let i = choose|i: int| part_at(s, part, i);
        assert(s =~= s.take(i) + part + s.skip(i + part.len()));
    }
    if exists|front: Seq<char>, back: Seq<char>| s == #[trigger] (front + part + back) {
        let (front, back) = choose|front: Seq<char>, back: Seq<char>|
            s == #[trigger] (front + part + back);
        assert(s.subrange(front.len() as int, front.len() as int + part.len()) =~= part);
        assert(part_at(s, part, front.len() as int));
    }
}

proof fn lemma_line_feeds_of_parts(a: Seq<char>, b: Seq<char>)
    ensures
        line_feeds(a + b) == line_feeds(a) + line_feeds(b),
    decreases b.len(),
{
    if b.len() == 0 {
        assert(a + b =~= a);
    } else {
        lemma_line_feeds_of_parts(a, b.drop_last());
        assert((a + b).drop_last() =~= a + b.drop_last());
        assert((a + b).last() == b.last());
    }
}

proof fn lemma_no_line_feeds(t: Seq<char>)
    requires
        !t.contains('\n'),
    ensures
        line_feeds(t) == 0,
    decreases t.len(),
{
    if t.len() > 0 {
        assert(t.contains(t[t.len() - 1]));
        assert forall|c: char| t.drop_last().contains(c) implies t.contains(c) by {
            let i = choose|i: int| 0 <= i < t.drop_last().len() && t.drop_last()[i] == c;
            assert(t[i] == c);
        }
        lemma_no_line_feeds(t.drop_last());
    }
}

/// Lines are counted one by one: a stretch without line feeds is one line, with or without a
/// line feed behind it; what follows a line feed is counted on its own; and an empty text has
/// no line.
pub proof fn law_lines_are_counted(a: Seq<char>, b: Seq<char>, t: Seq<char>)
    requires
        !t.contains('\n'),
    ensures
        line_count(a + seq!['\n'] + b) == line_count(a + seq!['\n']) + line_count(b),
        line_count(t + seq!['\n']) == 1,
        line_count(t) == if t.len() > 0 {
            1nat
        } else {
            0nat
        },
{
    let front = a + seq!['\n'];
    assert(front.last() == '\n');
    lemma_line_feeds_of_parts(front, b);
    assert(a + seq!['\n'] + b =~= front + b);
    if b.len() > 0 {
        assert((front + b).last() == b.last());
    } else {
        assert(front + b =~= front);
    }
    lemma_no_line_feeds(t);
    let line = t + seq!['\n'];
    assert(line.drop_last() =~= t);
    assert(line.last() == '\n');
    if t.len() > 0 {
        assert(t.contains(t[t.len() - 1]));
    }
}

/// The first word of a text starts with its first character that is no white space.
pub proof fn law_first_word_starts_the_text(s: Seq<char>)
    ensures
        trimmed(s).len() > 0 <==> words(s).len() > 0,
        words(s).len() > 0 ==> words(s)[0].len() > 0 && words(s)[0][0] == trimmed(s)[0],
{
    let t = trimmed(s);
    law_trimmed(s);
    law_words_are_words(s);
    if t.len() > 0 {
        lemma_first_word(t);
    } else {
        assert(words(t) =~= seq![]);
    }
}

proof fn lemma_first_word(t: Seq<char>)
    requires
        t.len() > 0,
        !is_white_space(t[0]),
    ensures
        words(t).len() > 0,
        words(t)[0].len() > 0,
        words(t)[0][0] == t[0],
    decreases t.len(),
{
    if t.len() == 1 {
        assert(words(t.drop_last()) =~= seq![]);
        assert(words(t) =~= seq![seq![t[0]]]);
    } else {
        lemma_first_word(t.drop_last());
        assert(t.drop_last()[0] == t[0]);
    }
}

} // verus!
