//! Searching table names.
use crate::order::{in_order, law_ordered_is_in_order, ordered, sort_texts};
use crate::text::{contains, has_part, part_at};
use vstd::prelude::*;
use vstd::utf8::is_ascii_chars;

verus! {

/// The lower-case form of a text that `str::to_lowercase` gives.
pub uninterp spec fn lowercase(text: Seq<char>) -> Seq<char>;

/// The lower-case form of an ASCII character.
pub open spec fn ascii_lower(c: char) -> char {
    if 'A' <= c <= 'Z' {
        (c as u32 + 32) as char
    } else {
        c
    }
}

/// The lower-case form of a text.
pub open spec fn lower(text: Seq<char>) -> Seq<char> {
    if is_ascii_chars(text) {
        text.map_values(|c: char| ascii_lower(c))
    } else {
        lowercase(text)
    }
}

/// The names whose lower-case form holds `pattern`, in the order of `names`.
pub open spec fn hits(
    names: Seq<Seq<char>>,
    lowered: Seq<Seq<char>>,
    pattern: Seq<char>,
) -> Seq<Seq<char>>
    decreases names.len(),
{
    if names.len() == 0 {
        seq![]
    } else {
        let init = hits(names.drop_last(), lowered.drop_last(), pattern);
        if has_part(lowered.last(), pattern) {
            init.push(names.last())
        } else {
            init
        }
    }
}

/// The lower-case forms of the names.
pub open spec fn lowered_names(names: Seq<Seq<char>>) -> Seq<Seq<char>> {
    names.map_values(|name: Seq<char>| lower(name))
}

/// The names that hold `pattern` when their case is ignored, in order.
pub open spec fn found(names: Seq<Seq<char>>, pattern: Seq<char>) -> Seq<Seq<char>> {
    ordered(hits(names, lowered_names(names), pattern))
}

/// `str::to_lowercase` gives the lower-case form of a text, which depends on the text alone
/// and has the name `lowercase`. In an ASCII text the letters `A` to `Z` become `a` to `z` and
/// nothing else changes.
#[verifier::external_body]
fn to_lowercase(text: &str) -> (r: String)
    ensures
        r@ == lowercase(text@),
        is_ascii_chars(text@) ==> r@ == text@.map_values(|c: char| ascii_lower(c)),
{
    text.to_lowercase()
}

/// Gives the lower-case form of a text.
pub fn lower_text(text: &str) -> (r: String)
    ensures
        r@ == lower(text@),
{
    to_lowercase(text)
}

/// Picks the names whose lower-case form holds the pattern.
pub fn pick(names: &Vec<String>, lowered: &Vec<String>, pattern: &str) -> (r: Vec<String>)
    requires
        names@.len() == lowered@.len(),
    ensures
        r.deep_view() == hits(names.deep_view(), lowered.deep_view(), pattern@),
{
    let ghost all = names.deep_view();
    let ghost low = lowered.deep_view();
    let mut out: Vec<String> = Vec::new();
    let mut i: usize = 0;
    assert(out.deep_view() =~= hits(all.take(0), low.take(0), pattern@));
    while i < names.len()
        invariant
            i <= names@.len(),
            names@.len() == lowered@.len(),
            all == names.deep_view(),
            low == lowered.deep_view(),
            out.deep_view() == hits(all.take(i as int), low.take(i as int), pattern@),
        decreases names@.len() - i,
    {
        let ghost before = out.deep_view();
        proof {
            assert(all.take(i + 1).drop_last() =~= all.take(i as int));
            assert(low.take(i + 1).drop_last() =~= low.take(i as int));
            assert(all.take(i + 1).last() == names@[i as int]@);
            assert(low.take(i + 1).last() == lowered@[i as int]@);
        }
        if contains(lowered[i].as_str(), pattern) {
            out.push(names[i].clone());
            assert(out.deep_view() =~= before.push(names@[i as int]@));
        }
        i += 1;
    }
    proof {
        assert(all.take(i as int) =~= all);
        assert(low.take(i as int) =~= low);
    }
    out
}

/// Finds the names that hold the pattern when their case is ignored, and puts them in order.
/// The pattern is given in lower case.
pub fn find_tables(names: &Vec<String>, pattern: &str) -> (r: Vec<String>)
    ensures
        r.deep_view() == found(names.deep_view(), pattern@),
{
    let mut lowered: Vec<String> = Vec::new();
    let mut i: usize = 0;
    while i < names.len()
        invariant
            i <= names@.len(),
            lowered@.len() == i,
            forall|k: int| 0 <= k < i ==> (#[trigger] lowered@[k])@ == lower(names@[k]@),
        decreases names@.len() - i,
    {
        lowered.push(lower_text(names[i].as_str()));
        i += 1;
    }
    assert(lowered.deep_view() =~= lowered_names(names.deep_view()));
    sort_texts(pick(names, &lowered, pattern))
}

proof fn lemma_hits(names: Seq<Seq<char>>, pattern: Seq<char>, name: Seq<char>)
    ensures
        hits(names, lowered_names(names), pattern).contains(name) <==> names.contains(name)
            && has_part(lower(name), pattern),
    decreases names.len(),
{
    if names.len() > 0 {
        let init = names.drop_last();
        assert(lowered_names(names).drop_last() =~= lowered_names(init));
        lemma_hits(init, pattern, name);
        let before = hits(init, lowered_names(init), pattern);
        assert(names =~= init.push(names.last()));
        assert(names.contains(name) <==> init.contains(name) || name == names.last()) by {
            if init.contains(name) {
                let i = choose|i: int| 0 <= i < init.len() && init[i] == name;
                assert(names[i] == name);
            }
            if name == names.last() {
                assert(names[names.len() - 1] == name);
            }
        }
        let after = before.push(names.last());
        assert(after.contains(name) <==> before.contains(name) || name == names.last()) by {
            if before.contains(name) {
                let i = choose|i: int| 0 <= i < before.len() && before[i] == name;
                assert(after[i] == name);
            }
            if name == names.last() {
                assert(after[after.len() - 1] == name);
            }
        }
    }
}

/// A search finds exactly the names that hold the pattern when their case is ignored, and
/// gives them in order.
pub proof fn law_found(names: Seq<Seq<char>>, pattern: Seq<char>, name: Seq<char>)
    ensures
        found(names, pattern).contains(name) <==> names.contains(name) && has_part(
            lower(name),
            pattern,
        ),
        in_order(found(names, pattern)),
{
    let h = hits(names, lowered_names(names), pattern);
    lemma_hits(names, pattern, name);
    law_ordered_is_in_order(h);
    h.to_multiset_ensures();
    ordered(h).to_multiset_ensures();
    assert(h.contains(name) <==> h.to_multiset().count(name) > 0);
    assert(ordered(h).contains(name) <==> ordered(h).to_multiset().count(name) > 0);
}

/// Whether two ASCII texts are the same but for the case of their letters.
pub open spec fn same_but_case(a: Seq<char>, b: Seq<char>) -> bool {
    &&& is_ascii_chars(a)
    &&& is_ascii_chars(b)
    &&& a.len() == b.len()
    &&& forall|i: int| 0 <= i < a.len() ==> ascii_lower(#[trigger] a[i]) == ascii_lower(b[i])
}

/// Case does not count in a search: texts that are the same but for the case of their letters
/// have the same lower-case form, so as patterns they find the same names, and as names they
/// are found by the same patterns.
pub proof fn law_case_does_not_count(
    a: Seq<char>,
    b: Seq<char>,
    names: Seq<Seq<char>>,
    pattern: Seq<char>,
)
    requires
        same_but_case(a, b),
    ensures
        lower(a) == lower(b),
        found(names, lower(a)) == found(names, lower(b)),
        names.contains(a) && names.contains(b) ==> (found(names, pattern).contains(a) <==> found(
            names,
            pattern,
        ).contains(b)),
{
    assert(lower(a) =~= lower(b));
    law_found(names, pattern, a);
    law_found(names, pattern, b);
}

/// The lower-case form of an ASCII text has its characters one by one: the letters `A` to `Z`
/// become `a` to `z`, and nothing else changes.
pub proof fn law_lower_case_of_ascii(text: Seq<char>, i: int)
    requires
        is_ascii_chars(text),
        0 <= i < text.len(),
    ensures
        lower(text).len() == text.len(),
        'A' <= text[i] <= 'Z' ==> lower(text)[i] as u32 == text[i] as u32 + 32,
        !('A' <= text[i] <= 'Z') ==> lower(text)[i] == text[i],
{
}

proof fn lemma_hits_as_often(names: Seq<Seq<char>>, pattern: Seq<char>, name: Seq<char>)
    ensures
        hits(names, lowered_names(names), pattern).to_multiset().count(name) == if has_part(
            lower(name),
            pattern,
        ) {
            names.to_multiset().count(name)
        } else {
            0
        },
    decreases names.len(),
{
    let h = hits(names, lowered_names(names), pattern);
    if names.len() == 0 {
        assert(h =~= names);
        names.to_multiset_ensures();
    } else {
        let init = names.drop_last();
        assert(lowered_names(names).drop_last() =~= lowered_names(init));
        lemma_hits_as_often(init, pattern, name);
        assert(names =~= init.push(names.last()));
        vstd::seq_lib::to_multiset_build(init, names.last());
        vstd::seq_lib::to_multiset_build(hits(init, lowered_names(init), pattern), names.last());
    }
}

/// A search gives each name that holds the pattern as often as it is in the list, and no other
/// name.
pub proof fn law_found_as_often(names: Seq<Seq<char>>, pattern: Seq<char>, name: Seq<char>)
    ensures
        found(names, pattern).to_multiset().count(name) == if has_part(lower(name), pattern) {
            names.to_multiset().count(name)
        } else {
            0
        },
{
    lemma_hits_as_often(names, pattern, name);
    law_ordered_is_in_order(hits(names, lowered_names(names), pattern));
}

/// Whether two characters are the same but for the case of an ASCII letter.
pub open spec fn same_letter_but_case(a: char, b: char) -> bool {
    ||| a == b
    ||| 'A' <= a <= 'Z' && b as u32 == a as u32 + 32
    ||| 'A' <= b <= 'Z' && a as u32 == b as u32 + 32
}

/// Whether `part` stands in `s` from position `i` on, but for the case of letters.
pub open spec fn stands_at(s: Seq<char>, part: Seq<char>, i: int) -> bool {
    0 <= i && i + part.len() <= s.len() && forall|k: int|
        0 <= k < part.len() ==> same_letter_but_case(s[i + k], #[trigger] part[k])
}

proof fn lemma_same_lower(a: char, b: char)
    ensures
        ascii_lower(a) == ascii_lower(b) <==> same_letter_but_case(a, b),
{
}

/// A search for an ASCII pattern, in whatever case it was typed, finds an ASCII name exactly
/// when the name is in the list and the pattern stands somewhere in it, but for case.
pub proof fn law_search_ignores_case(names: Seq<Seq<char>>, typed: Seq<char>, name: Seq<char>)
    requires
        is_ascii_chars(typed),
        is_ascii_chars(name),
    ensures
        found(names, lower(typed)).contains(name) <==> names.contains(name) && exists|i: int|
            stands_at(name, typed, i),
{
    law_found(names, lower(typed), name);
    let low = lower(name);
    let part = lower(typed);
    if has_part(low, part) {
        let i = choose|i: int| part_at(low, part, i);
        assert forall|k: int| 0 <= k < typed.len() implies same_letter_but_case(
            name[i + k],
            #[trigger] typed[k],
        ) by {
            assert(low.subrange(i, i + part.len())[k] == part[k]);
            lemma_same_lower(name[i + k], typed[k]);
        }
        assert(stands_at(name, typed, i));
    }
    if exists|i: int| stands_at(name, typed, i) {
        let i = choose|i: int| stands_at(name, typed, i);
        assert forall|k: int| 0 <= k < part.len() implies #[trigger] low.subrange(
            i,
            i + part.len(),
        )[k] == part[k] by {
            assert(same_letter_but_case(name[i + k], typed[k]));
            lemma_same_lower(name[i + k], typed[k]);
        }
        assert(low.subrange(i, i + part.len()) =~= part);
        assert(part_at(low, part, i));
    }
}

/// The lower-case form of any other text is the one that `str::to_lowercase` gives.
pub proof fn law_lower_case_beyond_ascii(text: Seq<char>)
    requires
        !is_ascii_chars(text),
    ensures
        lower(text) == lowercase(text),
{
}

} // verus!
