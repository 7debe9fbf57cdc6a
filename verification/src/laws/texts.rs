//! What the small operations on text, numbers and trees mean.

use crate::hooks::shell::replaced;
use crate::mcp_cred_refs::first_place;
use crate::numbers::{digit, digits, is_digits, parsed_i32, signed, value_of};
use crate::text::{
    ascii_lower, contains_text, is_blank, is_space, lemma_until_is, listed, lower, occurs_at,
    precedes, texts_are, trimmed, trimmed_end, trimmed_start, until,
};
use crate::value::{field_of, lookup, text_field_of, Tree};
use vstd::prelude::*;

verus! {

/// Lowering a text moves the letters from A to Z, each by the same step, and nothing else.
pub proof fn law_lowering_moves_capitals(s: Seq<char>, i: int)
    requires
        0 <= i < s.len(),
    ensures
        ascii_lower(s).len() == s.len(),
        'A' <= s[i] && s[i] <= 'Z' ==> ascii_lower(s)[i] as u32 == s[i] as u32 + 32 && 'a'
            <= ascii_lower(s)[i] && ascii_lower(s)[i] <= 'z',
        !('A' <= s[i] && s[i] <= 'Z') ==> ascii_lower(s)[i] == s[i],
{
}

/// Two texts are lowered to the same text exactly where they differ at most in the case of
/// letters.
pub proof fn law_lowering_forgets_case(a: Seq<char>, b: Seq<char>)
    requires
        ascii_lower(a) == ascii_lower(b),
    ensures
        a.len() == b.len(),
        forall|i: int|
            0 <= i < a.len() ==> (#[trigger] a[i]) == b[i] || a[i] as u32 == b[i] as u32 + 32
                || b[i] as u32 == a[i] as u32 + 32,
{
    let (la, lb) = (ascii_lower(a), ascii_lower(b));
    assert(la.len() == a.len());
    assert(lb.len() == b.len());
    assert forall|i: int| 0 <= i < a.len() implies (#[trigger] a[i]) == b[i] || a[i] as u32
        == b[i] as u32 + 32 || b[i] as u32 == a[i] as u32 + 32 by {
        assert(ascii_lower(a)[i] == ascii_lower(b)[i]);
        assert(ascii_lower(a)[i] == lower(a[i]));
        assert(ascii_lower(b)[i] == lower(b[i]));
    }
}

/// A text contains another exactly where it is that other with something before and after.
pub proof fn law_contained_text_stands_between(hay: Seq<char>, needle: Seq<char>)
    ensures
        contains_text(hay, needle) <==> exists|before: Seq<char>, after: Seq<char>|
            hay == #[trigger] (before + needle + after),
{
    if contains_text(hay, needle) {
        let i = choose|i: int| occurs_at(hay, needle, i);
        let before = hay.take(i);
        let after = hay.skip(i + needle.len());
        assert(hay =~= before + needle + after) by {
            assert(forall|k: int| 0 <= k < needle.len() ==> hay.subrange(i, i + needle.len())[k]
                == needle[k]);
            assert forall|j: int| 0 <= j < hay.len() implies hay[j]
                == (before + needle + after)[j] by {
                if i <= j < i + needle.len() {
                    assert(hay.subrange(i, i + needle.len())[j - i] == hay[j]);
                }
            }
        }
    }
    if exists|before: Seq<char>, after: Seq<char>| hay == #[trigger] (before + needle + after) {
        let (before, after) = choose|before: Seq<char>, after: Seq<char>|
            hay == #[trigger] (before + needle + after);
        let i = before.len() as int;
        assert(hay.subrange(i, i + needle.len()) =~= needle);
        assert(occurs_at(hay, needle, i));
    }
}

/// Blanks are the space, the tab, the line ends and the other blanks of Unicode; no printable
/// character of ASCII is one.
pub proof fn law_what_is_blank(c: char)
    ensures
        c == ' ' || c == '\t' || c == '\n' || c == '\r' || c == '\u{b}' || c == '\u{c}' || c
            == '\u{85}' || c == '\u{a0}' || c == '\u{3000}' || c == '\u{2028}' || c == '\u{2029}'
            ==> is_space(c),
        '!' <= c && c <= '~' ==> !is_space(c),
        c <= '\u{8}' ==> !is_space(c),
{
}

/// Trimming takes blanks off both ends and nothing else: what is left begins and ends with no
/// blank, and what was taken off is blank.
pub proof fn law_trimming_takes_blanks_off(s: Seq<char>)
    ensures
        trimmed(s).len() > 0 ==> !is_space(trimmed(s)[0]) && !is_space(trimmed(s).last()),
        exists|before: Seq<char>, after: Seq<char>|
            s == #[trigger] (before + trimmed(s) + after) && is_blank(before) && is_blank(after),
        is_blank(s) <==> trimmed(s).len() == 0,
{
    let t = trimmed_start(s);
    lemma_trimmed_start(s);
    lemma_trimmed_end(t);
    let before = s.take(s.len() - t.len());
    let after = t.skip(trimmed(s).len() as int);
    assert(s =~= before + t);
    assert(t =~= trimmed(s) + after);
    assert(s =~= before + trimmed(s) + after);
    if trimmed(s).len() > 0 {
        assert(trimmed(s)[0] == t[0]);
    }
    if is_blank(s) {
        if t.len() > 0 {
            assert(t[0] == s[s.len() - t.len()]);
        }
    }
    if trimmed(s).len() == 0 {
        assert forall|i: int| 0 <= i < s.len() implies is_space(#[trigger] s[i]) by {
            if i < before.len() {
                assert(before[i] == s[i]);
            } else {
                assert(after[i - before.len()] == s[i]);
            }
        }
    }
}

proof fn lemma_trimmed_start(s: Seq<char>)
    ensures
        trimmed_start(s).len() <= s.len(),
        s.skip(s.len() - trimmed_start(s).len()) == trimmed_start(s),
        is_blank(s.take(s.len() - trimmed_start(s).len())),
        trimmed_start(s).len() > 0 ==> !is_space(trimmed_start(s)[0]),
    decreases s.len(),
{
    if s.len() > 0 && is_space(s[0]) {
        let rest = s.drop_first();
        lemma_trimmed_start(rest);
        let n = s.len() - trimmed_start(s).len();
        assert(s.skip(n) =~= rest.skip(n - 1));
        let head = s.take(n);
        assert forall|i: int| 0 <= i < head.len() implies is_space(#[trigger] head[i]) by {
            if i > 0 {
                assert(rest.take(n - 1)[i - 1] == head[i]);
            }
        }
    } else {
        assert(s.skip(0) =~= s);
    }
}

proof fn lemma_trimmed_end(s: Seq<char>)
    ensures
        trimmed_end(s).len() <= s.len(),
        s.take(trimmed_end(s).len() as int) == trimmed_end(s),
        is_blank(s.skip(trimmed_end(s).len() as int)),
        trimmed_end(s).len() > 0 ==> !is_space(trimmed_end(s).last()),
    decreases s.len(),
{
    if s.len() > 0 && is_space(s.last()) {
        let rest = s.drop_last();
        lemma_trimmed_end(rest);
        let n = trimmed_end(s).len() as int;
        assert(s.take(n) =~= rest.take(n));
        let tail = s.skip(n);
        assert forall|i: int| 0 <= i < tail.len() implies is_space(#[trigger] tail[i]) by {
            if i < tail.len() - 1 {
                assert(rest.skip(n)[i] == tail[i]);
            }
        }
    } else {
        assert(s.take(s.len() as int) =~= s);
    }
}

/// Texts are ordered by their first difference, a text before any longer one that begins with it.
pub proof fn law_order_of_texts(
    start: Seq<char>,
    x: char,
    y: char,
    a: Seq<char>,
    b: Seq<char>,
)
    ensures
        x < y ==> precedes(start + seq![x] + a, start + seq![y] + b),
        x > y ==> !precedes(start + seq![x] + a, start + seq![y] + b),
        precedes(start, start + seq![x] + a),
        !precedes(start, start),
        !precedes(start + seq![x] + a, start),
    decreases start.len(),
{
    let p = start + seq![x] + a;
    let q = start + seq![y] + b;
    if start.len() > 0 {
        let rest = start.drop_first();
        law_order_of_texts(rest, x, y, a, b);
        assert(p.drop_first() =~= rest + seq![x] + a);
        assert(q.drop_first() =~= rest + seq![y] + b);
        assert(p[0] == start[0] && q[0] == start[0]);
    } else {
        assert(p[0] == x && q[0] == y);
    }
}

/// The first place of a character: everything before it differs, and where it does not occur the
/// place is the end.
pub proof fn law_first_place_of_a_character(before: Seq<char>, c: char, after: Seq<char>)
    requires
        forall|i: int| 0 <= i < before.len() ==> (#[trigger] before[i]) != c,
    ensures
        until(before + seq![c] + after, c) == before.len(),
        until(before, c) == before.len(),
{
    let s = before + seq![c] + after;
    assert forall|i: int| 0 <= i < before.len() implies s[i] != c by {
        assert(s[i] == before[i]);
    }
    lemma_until_is(s, c, before.len() as int);
    lemma_until_is(before, c, before.len() as int);
}

/// The first place of a text: it stands there and nowhere before, and where there is no place the
/// text does not occur.
pub proof fn law_first_place_of_a_text(s: Seq<char>, needle: Seq<char>)
    ensures
        match first_place(s, needle) {
            Some(at) => occurs_at(s, needle, at) && forall|j: int|
                0 <= j < at ==> !occurs_at(s, needle, j),
            None => forall|j: int| !occurs_at(s, needle, j),
        },
    decreases s.len(),
{
    if !occurs_at(s, needle, 0) && s.len() > 0 {
        let rest = s.drop_first();
        law_first_place_of_a_text(rest, needle);
        assert forall|j: int| j > 0 implies (occurs_at(s, needle, j) <==> occurs_at(
            rest,
            needle,
            j - 1,
        )) by {
            if j + needle.len() <= s.len() {
                assert(s.subrange(j, j + needle.len()) =~= rest.subrange(
                    j - 1,
                    j - 1 + needle.len(),
                ));
            }
        }
        match first_place(rest, needle) {
            Some(at) => {
                assert(occurs_at(s, needle, at + 1));
                assert forall|j: int| 0 <= j < at + 1 implies !occurs_at(s, needle, j) by {
                    if j > 0 {
                        assert(!occurs_at(rest, needle, j - 1));
                    }
                }
            },
            None => {
                assert forall|j: int| !occurs_at(s, needle, j) by {
                    if j > 0 {
                        assert(!occurs_at(rest, needle, j - 1));
                    }
                }
            },
        }
    } else if s.len() == 0 && !occurs_at(s, needle, 0) {
        assert forall|j: int| !occurs_at(s, needle, j) by {
            if occurs_at(s, needle, j) {
                assert(s.subrange(0, 0) =~= needle);
            }
        }
    }
}

/// Replacing leaves a text alone in which the text to replace does not occur, and otherwise puts
/// the new text in its first place and goes on behind it.
pub proof fn law_replacing(before: Seq<char>, needle: Seq<char>, after: Seq<char>, with: Seq<char>)
    requires
        needle.len() > 0,
        first_place(before + needle + after, needle) == Some(before.len() as int),
    ensures
        replaced(before + needle + after, needle, with) == before + with + replaced(
            after,
            needle,
            with,
        ),
{
    let s = before + needle + after;
    let at = before.len() as int;
    assert(s.take(at) =~= before);
    assert(s.skip(at + needle.len()) =~= after);
}

/// A text without the text to replace stays as it is.
pub proof fn law_replacing_nothing(s: Seq<char>, needle: Seq<char>, with: Seq<char>)
    requires
        !contains_text(s, needle),
    ensures
        replaced(s, needle, with) == s,
{
    law_first_place_of_a_text(s, needle);
}

/// A text is listed where some string of the list is that text; a list is the wanted one where it
/// has the wanted texts in their order and no others.
pub proof fn law_lists_of_texts(list: Seq<String>, want: Seq<Seq<char>>, s: Seq<char>)
    ensures
        listed(list, s) <==> list.map_values(|x: String| x@).contains(s),
        texts_are(list, want) <==> list.map_values(|x: String| x@) == want,
{
    let views = list.map_values(|x: String| x@);
    if listed(list, s) {
        let i = choose|i: int| 0 <= i < list.len() && (#[trigger] list[i])@ == s;
        assert(views[i] == s);
    }
    if views.contains(s) {
        let i = choose|i: int| 0 <= i < views.len() && views[i] == s;
        assert(list[i]@ == s);
    }
    if texts_are(list, want) {
        assert(views =~= want);
    }
    if views == want {
        assert forall|i: int| 0 <= i < list.len() implies (#[trigger] list[i])@ == want[i] by {
            assert(views[i] == list[i]@);
        }
    }
}

/// A key of a table stands for the value of the first entry that has it.
pub proof fn law_lookup_finds_the_first(entries: Seq<(Seq<char>, Tree)>, key: Seq<char>, i: int)
    requires
        0 <= i < entries.len(),
        entries[i].0 == key,
        forall|j: int| 0 <= j < i ==> (#[trigger] entries[j]).0 != key,
    ensures
        lookup(entries, key) == Some(entries[i].1),
        field_of(Tree::Table(entries), key) == Some(entries[i].1),
        entries[i].1 matches Tree::Text(s) ==> text_field_of(Tree::Table(entries), key) == Some(s),
        !(entries[i].1 is Text) ==> text_field_of(Tree::Table(entries), key) is None,
    decreases i,
{
    if i > 0 {
        let rest = entries.drop_first();
        assert(entries[0].0 != key);
        assert forall|j: int| 0 <= j < i - 1 implies (#[trigger] rest[j]).0 != key by {
            assert(rest[j] == entries[j + 1]);
        }
        law_lookup_finds_the_first(rest, key, i - 1);
    }
}

/// A key that no entry has stands for nothing, and what is no table has no keys.
pub proof fn law_lookup_of_a_missing_key(
    entries: Seq<(Seq<char>, Tree)>,
    key: Seq<char>,
    other: Tree,
)
    requires
        forall|j: int| 0 <= j < entries.len() ==> (#[trigger] entries[j]).0 != key,
        !(other is Table),
    ensures
        lookup(entries, key) is None,
        text_field_of(Tree::Table(entries), key) is None,
        field_of(other, key) is None,
        text_field_of(other, key) is None,
    decreases entries.len(),
{
    if entries.len() > 0 {
        let rest = entries.drop_first();
        assert(entries[0].0 != key);
        assert forall|j: int| 0 <= j < rest.len() implies (#[trigger] rest[j]).0 != key by {
            assert(rest[j] == entries[j + 1]);
        }
        law_lookup_of_a_missing_key(rest, key, other);
    }
}

/// A number written in decimal reads back as itself, and is written with digits alone and no
/// leading zero.
pub proof fn law_decimal_reads_back(n: nat)
    ensures
        value_of(digits(n, 10)) == n,
        is_digits(digits(n, 10)),
        n > 0 ==> digits(n, 10)[0] != '0',
        n == 0 ==> digits(n, 10) == seq!['0'],
    decreases n,
{
    let s = digits(n, 10);
    if n < 10 {
        assert(s.drop_last() =~= Seq::empty());
        assert(value_of(s.drop_last()) == 0);
        assert(s.last() == digit(n as int));
        assert(digit(n as int) as nat == n + 48);
    } else {
        let front = digits(n / 10, 10);
        law_decimal_reads_back(n / 10);
        assert(s.drop_last() =~= front);
        assert(s.last() == digit((n % 10) as int));
        assert(digit((n % 10) as int) as nat == n % 10 + 48);
        assert(value_of(s) == value_of(front) * 10 + n % 10);
        assert(s[0] == front[0]);
        assert forall|i: int| 0 <= i < s.len() implies '0' <= #[trigger] s[i] && s[i] <= '9' by {
            if i < front.len() {
                assert(s[i] == front[i]);
            }
        }
    }
}

/// A signed number within range reads back from its decimal text, also behind a plus sign.
pub proof fn law_signed_decimal_reads_back(n: int)
    requires
        i32::MIN <= n <= i32::MAX,
    ensures
        parsed_i32(signed(n)) == Some(n),
        n >= 0 ==> parsed_i32(seq!['+'] + digits(n as nat, 10)) == Some(n),
{
    reveal_strlit("-");
    let m = if n < 0 {
        -n
    } else {
        n
    };
    let body = digits(m as nat, 10);
    law_decimal_reads_back(m as nat);
    assert('0' <= body[0] && body[0] <= '9');
    if n < 0 {
        let s = "-"@ + body;
        assert(s[0] == '-');
        assert(s.drop_first() =~= body);
    } else {
        let s = seq!['+'] + body;
        assert(s[0] == '+');
        assert(s.drop_first() =~= body);
    }
}

/// A text that is no sign and digits is no number, and neither is one out of range.
pub proof fn law_other_texts_are_no_numbers(s: Seq<char>)
    ensures
        s.len() == 0 ==> parsed_i32(s) is None,
        s.len() > 0 && s[0] != '-' && s[0] != '+' && !('0' <= s[0] && s[0] <= '9')
            ==> parsed_i32(s) is None,
        s.len() > 1 && !('0' <= s.last() && s.last() <= '9') ==> parsed_i32(s) is None,
        parsed_i32(s) matches Some(n) ==> i32::MIN <= n <= i32::MAX,
{
    if s.len() > 1 && !('0' <= s.last() && s.last() <= '9') {
        assert(s.drop_first().last() == s.last());
        assert(s.drop_first()[s.len() - 2] == s.last());
    }
}

} // verus!
