//! Double quotes: how a quote inside a quoted text is escaped, and how such a text is read.
use crate::text::chars_of;
use vstd::prelude::*;

verus! {

/// `s` with each double quote written twice.
pub open spec fn doubled(s: Seq<char>) -> Seq<char>
    decreases s.len(),
{
    if s.len() == 0 {
        seq![]
    } else if s.last() == '"' {
        doubled(s.drop_last()) + seq!['"', '"']
    } else {
        doubled(s.drop_last()).push(s.last())
    }
}

/// `s` between double quotes, with each double quote inside written twice.
pub open spec fn quoted(s: Seq<char>) -> Seq<char> {
    seq!['"'] + doubled(s) + seq!['"']
}

/// Reads a quoted text whose opening quote has been read: two quotes in a row stand for one,
/// a lone quote closes the text. Gives what was quoted and what follows the closing quote.
pub open spec fn read_quoted(s: Seq<char>) -> Option<(Seq<char>, Seq<char>)>
    decreases s.len(),
{
    if s.len() == 0 {
        None
    } else if s[0] != '"' {
        match read_quoted(s.skip(1)) {
            Some((inside, rest)) => Some((seq![s[0]] + inside, rest)),
            None => None,
        }
    } else if s.len() > 1 && s[1] == '"' {
        match read_quoted(s.skip(2)) {
            Some((inside, rest)) => Some((seq!['"'] + inside, rest)),
            None => None,
        }
    } else {
        Some((seq![], s.skip(1)))
    }
}

/// Writes each double quote of a text twice.
pub fn double_quotes(s: &str) -> (r: String)
    ensures
        r@ == doubled(s@),
{
    let chars = chars_of(s);
    let mut out = String::new();
    let mut i: usize = 0;
    while i < chars.len()
        invariant
            i <= chars@.len(),
            chars@ == s@,
            out@ == doubled(s@.take(i as int)),
        decreases chars@.len() - i,
    {
        proof {
            assert(s@.take(i + 1).drop_last() =~= s@.take(i as int));
        }
        let c = chars[i];
        out.push(c);
        if c == '"' {
            out.push(c);
            assert(out@ =~= doubled(s@.take(i as int)) + seq!['"', '"']);
        }
        i += 1;
    }
    proof {
        assert(s@.take(i as int) =~= s@);
    }
    out
}

/// Puts a text between double quotes.
pub fn quote(s: &str) -> (r: String)
    ensures
        r@ == quoted(s@),
{
    let mut out = String::new();
    out.push('"');
    out.append(double_quotes(s).as_str());
    out.push('"');
    assert(out@ =~= quoted(s@));
    out
}

proof fn lemma_doubled_front(s: Seq<char>)
    requires
        s.len() > 0,
    ensures
        doubled(s) == if s[0] == '"' {
            seq!['"', '"'] + doubled(s.skip(1))
        } else {
            seq![s[0]] + doubled(s.skip(1))
        },
    decreases s.len(),
{
    if s.len() == 1 {
        assert(s.drop_last() =~= Seq::<char>::empty());
        assert(s.skip(1) =~= Seq::<char>::empty());
        assert(doubled(s.drop_last()) =~= Seq::<char>::empty());
        assert(doubled(s) =~= if s[0] == '"' {
            seq!['"', '"']
        } else {
            seq![s[0]]
        });
        assert(doubled(s.skip(1)) =~= Seq::<char>::empty());
    } else {
        lemma_doubled_front(s.drop_last());
        assert(s.drop_last().skip(1) =~= s.skip(1).drop_last());
        let front = if s[0] == '"' {
            seq!['"', '"']
        } else {
            seq![s[0]]
        };
        assert(doubled(s.drop_last()) =~= front + doubled(s.skip(1).drop_last()));
        assert(doubled(s) =~= front + doubled(s.skip(1)));
    }
}

/// Reading a quoted text gives back exactly what was quoted, and stops at the quote that was
/// put behind it, whatever quotes it holds, as long as no quote follows at once.
pub proof fn law_quoted_round_trip(s: Seq<char>, rest: Seq<char>)
    requires
        rest.len() == 0 || rest[0] != '"',
    ensures
        read_quoted(doubled(s) + seq!['"'] + rest) == Some((s, rest)),
        (quoted(s) + rest).len() > 0,
        (quoted(s) + rest)[0] == '"',
        read_quoted((quoted(s) + rest).skip(1)) == Some((s, rest)),
    decreases s.len(),
{
    let t = doubled(s) + seq!['"'] + rest;
    assert((quoted(s) + rest).skip(1) =~= t);
    if s.len() == 0 {
        assert(t =~= seq!['"'] + rest);
        assert(t.skip(1) =~= rest);
        assert(s =~= Seq::<char>::empty());
    } else {
        lemma_doubled_front(s);
        law_quoted_round_trip(s.skip(1), rest);
        let u = doubled(s.skip(1)) + seq!['"'] + rest;
        assert(seq![s[0]] + s.skip(1) =~= s);
        if s[0] == '"' {
            assert(t =~= seq!['"', '"'] + u);
            assert(t.skip(2) =~= u);
        } else {
            assert(t =~= seq![s[0]] + u);
            assert(t.skip(1) =~= u);
        }
    }
}

/// Doubling goes character by character: each quote becomes two, everything else stays.
pub proof fn law_doubling(a: Seq<char>, b: Seq<char>, c: char)
    ensures
        doubled(a + b) == doubled(a) + doubled(b),
        doubled(seq!['"']) == seq!['"', '"'],
        c != '"' ==> doubled(seq![c]) == seq![c],
        doubled(seq![]).len() == 0,
    decreases b.len(),
{
    let empty = Seq::<char>::empty();
    assert(doubled(empty) =~= empty);
    assert(seq!['"'].drop_last() =~= empty);
    assert(seq![c].drop_last() =~= empty);
    assert(doubled(seq!['"']) =~= seq!['"', '"']);
    if c != '"' {
        assert(doubled(seq![c]) =~= seq![c]);
    }
    if b.len() == 0 {
        assert(a + b =~= a);
        assert(doubled(a) + doubled(b) =~= doubled(a));
    } else {
        law_doubling(a, b.drop_last(), c);
        assert((a + b).drop_last() =~= a + b.drop_last());
        assert((a + b).last() == b.last());
        assert(doubled(a + b) =~= doubled(a) + doubled(b));
    }
}

/// A text without quotes stands between quotes as it is.
pub proof fn law_quoting_plain_text(s: Seq<char>)
    requires
        !s.contains('"'),
    ensures
        quoted(s) == seq!['"'] + s + seq!['"'],
    decreases s.len(),
{
    if s.len() > 0 {
        let init = s.drop_last();
        assert(s.contains(s[s.len() - 1]));
        assert forall|c: char| init.contains(c) implies s.contains(c) by {
            let i = choose|i: int| 0 <= i < init.len() && init[i] == c;
            assert(s[i] == c);
        }
        law_quoting_plain_text(init);
        assert(quoted(init).subrange(1, quoted(init).len() - 1) =~= doubled(init));
        assert((seq!['"'] + init + seq!['"']).subrange(1, init.len() as int + 1) =~= init);
        assert(doubled(s) =~= s);
    } else {
        assert(doubled(s) =~= s);
    }
}

} // verus!
