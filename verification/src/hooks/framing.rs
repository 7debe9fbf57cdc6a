//! Defusing untrusted text that is put between the host's own tags.

use vstd::prelude::*;

use crate::text::{ascii_lower, chars_of, lower, lower_char, string_of};

verus! {

/// Whether `s` begins, in any letter case, with `<` and then `tag`.
pub open spec fn opens(s: Seq<char>, tag: Seq<char>) -> bool {
    &&& s.len() >= 1 + tag.len()
    &&& s[0] == '<'
    &&& ascii_lower(s.subrange(1, tag.len() + 1int)) == tag
}

/// Whether `s` begins with one of the host's tags.
pub open spec fn opens_host_tag(s: Seq<char>) -> bool {
    ||| opens(s, "plugin-context"@)
    ||| opens(s, "/plugin-context"@)
    ||| opens(s, "system-reminder"@)
    ||| opens(s, "/system-reminder"@)
}

/// `s` with each `<` that begins a host tag replaced by `&lt;`.
pub open spec fn neutral(s: Seq<char>) -> Seq<char>
    decreases s.len(),
{
    if s.len() == 0 {
        s
    } else if opens_host_tag(s) {
        "&lt;"@ + neutral(s.drop_first())
    } else {
        seq![s[0]] + neutral(s.drop_first())
    }
}

fn begins(cs: &Vec<char>, at: usize, tag: &str) -> (r: bool)
    requires
        at < cs@.len(),
        cs@[at as int] == '<',
    ensures
        r == opens(cs@.skip(at as int), tag@),
{
    let t = chars_of(tag);
    let ghost s = cs@.skip(at as int);
    if cs.len() - at < 1 || cs.len() - at - 1 < t.len() {
        return false;
    }
    let ghost body = s.subrange(1, t@.len() + 1int);
    let mut i: usize = 0;
    while i < t.len()
        invariant
            i <= t@.len(),
            at + 1 + t@.len() <= cs.len(),
            s == cs@.skip(at as int),
            body == s.subrange(1, t@.len() + 1int),
            t@ == tag@,
            forall|j: int| 0 <= j < i ==> lower(body[j]) == t@[j],
        decreases t.len() - i,
    {
        let c = cs[at + 1 + i];
        assert(body[i as int] == c);
        if lower_char(c) != t[i] {
            proof {
                assert(ascii_lower(body)[i as int] != t@[i as int]);
            }
            return false;
        }
        i = i + 1;
    }
    assert(ascii_lower(body) =~= t@);
    true
}

/// `s` with each `<` that begins one of the host's tags, in any letter case, replaced by
/// `&lt;`. Every other character stays.
pub fn neutralize_trust_delimiters(s: &str) -> (r: String)
    ensures
        r@ == neutral(s@),
{
    let cs = chars_of(s);
    let mut out: Vec<char> = Vec::new();
    let mut i: usize = 0;
    proof {
        reveal_strlit("&lt;");
        assert(cs@.skip(0) =~= cs@);
        assert(out@ + neutral(cs@) =~= neutral(cs@));
    }
    while i < cs.len()
        invariant
            i <= cs@.len(),
            cs@ == s@,
            "&lt;"@ =~= seq!['&', 'l', 't', ';'],
            out@ + neutral(cs@.skip(i as int)) == neutral(s@),
        decreases cs.len() - i,
    {
        let ghost rest = cs@.skip(i as int);
        let ghost before = out@;
        proof {
            assert(rest[0] == cs@[i as int]);
            assert(rest.drop_first() =~= cs@.skip(i as int + 1));
        }
        if cs[i] == '<' && (begins(&cs, i, "plugin-context") || begins(&cs, i, "/plugin-context")
            || begins(&cs, i, "system-reminder") || begins(&cs, i, "/system-reminder")) {
            out.push('&');
            out.push('l');
            out.push('t');
            out.push(';');
            proof {
                assert(out@ + neutral(rest.drop_first()) =~= before + ("&lt;"@ + neutral(
                    rest.drop_first(),
                )));
            }
        } else {
            out.push(cs[i]);
            proof {
                assert(!opens_host_tag(rest));
                assert(out@ + neutral(rest.drop_first()) =~= before + (seq![rest[0]] + neutral(
                    rest.drop_first(),
                )));
            }
        }
        i = i + 1;
    }
    proof {
        assert(cs@.skip(i as int) =~= Seq::empty());
        assert(out@ + Seq::<char>::empty() =~= out@);
    }
    string_of(&out)
}

/// What comes out of [`neutral`] without an ampersand is what went in.
proof fn lemma_prefix_as_is(s: Seq<char>, n: int)
    requires
        0 <= n <= neutral(s).len(),
        forall|i: int| 0 <= i < n ==> (#[trigger] neutral(s)[i]) != '&',
    ensures
        n <= s.len(),
        neutral(s).take(n) == s.take(n),
    decreases s.len(),
{
    reveal_strlit("&lt;");
    if n == 0 {
        assert(neutral(s).take(0) =~= s.take(0));
    } else if s.len() > 0 {
        if opens_host_tag(s) {
            assert(neutral(s)[0] == '&');
        } else {
            let rest = s.drop_first();
            assert forall|i: int| 0 <= i < n - 1 implies (#[trigger] neutral(rest)[i]) != '&' by {
                assert(neutral(s)[i + 1] == neutral(rest)[i]);
            }
            lemma_prefix_as_is(rest, n - 1);
            assert(neutral(s).take(n) =~= seq![s[0]] + neutral(rest).take(n - 1));
            assert(s.take(n) =~= seq![s[0]] + rest.take(n - 1));
        }
    }
}

/// No ampersand stands in a tag.
proof fn lemma_tag_opens_before(s: Seq<char>, tag: Seq<char>)
    requires
        s.len() > 0,
        s[0] == '<',
        !opens_host_tag(s),
        opens(neutral(s), tag),
        forall|i: int| 0 <= i < tag.len() ==> (#[trigger] tag[i]) != '&',
    ensures
        opens(s, tag),
{
    let rest = s.drop_first();
    let out = neutral(s);
    let n = tag.len() as int;
    assert(out =~= seq!['<'] + neutral(rest));
    let body = out.subrange(1, 1 + n);
    assert forall|i: int| 0 <= i < n implies (#[trigger] neutral(rest)[i]) != '&' by {
        assert(neutral(rest)[i] == body[i]);
        assert(ascii_lower(body)[i] == tag[i]);
        if body[i] == '&' {
            assert(lower('&') == '&');
            assert(tag[i] == '&');
        }
    }
    lemma_prefix_as_is(rest, n);
    assert(body =~= neutral(rest).take(n));
    assert(s.subrange(1, 1 + n) =~= rest.take(n));
}

/// What is neutral has no place at which a host tag begins.
pub proof fn law_neutral_text_opens_no_host_tag(s: Seq<char>, at: int)
    requires
        0 <= at <= neutral(s).len(),
    ensures
        !opens_host_tag(neutral(s).skip(at)),
    decreases s.len(),
{
    reveal_strlit("&lt;");
    let out = neutral(s);
    if s.len() > 0 {
        let rest = s.drop_first();
        if opens_host_tag(s) {
            if at < 4 {
                assert(out.skip(at)[0] == "&lt;"@[at]);
            } else {
                law_neutral_text_opens_no_host_tag(rest, at - 4);
                assert(out.skip(at) =~= neutral(rest).skip(at - 4));
            }
        } else if at == 0 {
            assert(out.skip(0) =~= out);
            if opens_host_tag(out) {
                assert(out[0] == s[0]);
                lemma_no_ampersand();
                if opens(out, "plugin-context"@) {
                    lemma_tag_opens_before(s, "plugin-context"@);
                } else if opens(out, "/plugin-context"@) {
                    lemma_tag_opens_before(s, "/plugin-context"@);
                } else if opens(out, "system-reminder"@) {
                    lemma_tag_opens_before(s, "system-reminder"@);
                } else {
                    lemma_tag_opens_before(s, "/system-reminder"@);
                }
            }
        } else {
            law_neutral_text_opens_no_host_tag(rest, at - 1);
            assert(out.skip(at) =~= neutral(rest).skip(at - 1));
        }
    }
}

/// Whether none of the first `n` characters of `s` is an ampersand.
spec fn free_of_ampersand(s: Seq<char>, n: nat) -> bool
    decreases n,
{
    n == 0 || (s[n - 1] != '&' && free_of_ampersand(s, (n - 1) as nat))
}

proof fn lemma_free(s: Seq<char>, n: nat)
    requires
        free_of_ampersand(s, n),
    ensures
        forall|i: int| 0 <= i < n ==> (#[trigger] s[i]) != '&',
    decreases n,
{
    if n > 0 {
        lemma_free(s, (n - 1) as nat);
    }
}

proof fn lemma_no_ampersand()
    ensures
        forall|i: int|
            0 <= i < "plugin-context"@.len() ==> (#[trigger] "plugin-context"@[i]) != '&',
        forall|i: int|
            0 <= i < "/plugin-context"@.len() ==> (#[trigger] "/plugin-context"@[i]) != '&',
        forall|i: int|
            0 <= i < "system-reminder"@.len() ==> (#[trigger] "system-reminder"@[i]) != '&',
        forall|i: int|
            0 <= i < "/system-reminder"@.len() ==> (#[trigger] "/system-reminder"@[i]) != '&',
{
    reveal_strlit("plugin-context");
    reveal_strlit("/plugin-context");
    reveal_strlit("system-reminder");
    reveal_strlit("/system-reminder");
    reveal_with_fuel(free_of_ampersand, 18);
    lemma_free("plugin-context"@, "plugin-context"@.len());
    lemma_free("/plugin-context"@, "/plugin-context"@.len());
    lemma_free("system-reminder"@, "system-reminder"@.len());
    lemma_free("/system-reminder"@, "/system-reminder"@.len());
}

/// Text in which no host tag begins stays as it is.
pub proof fn law_harmless_text_stays(s: Seq<char>)
    requires
        forall|at: int| 0 <= at <= s.len() ==> !opens_host_tag(#[trigger] s.skip(at)),
    ensures
        neutral(s) == s,
    decreases s.len(),
{
    if s.len() > 0 {
        assert(s.skip(0) =~= s);
        let rest = s.drop_first();
        assert forall|at: int| 0 <= at <= rest.len() implies !opens_host_tag(
            #[trigger] rest.skip(at),
        ) by {
            assert(rest.skip(at) =~= s.skip(at + 1));
        }
        law_harmless_text_stays(rest);
        assert(seq![s[0]] + rest =~= s);
    }
}

/// Neutralizing twice is neutralizing once.
pub proof fn law_neutralizing_is_idempotent(s: Seq<char>)
    ensures
        neutral(neutral(s)) == neutral(s),
{
    let out = neutral(s);
    assert forall|at: int| 0 <= at <= out.len() implies !opens_host_tag(#[trigger] out.skip(at)) by {
        law_neutral_text_opens_no_host_tag(s, at);
    }
    law_harmless_text_stays(out);
}

/// Whether `c` may stand in an identifier.
pub open spec fn is_ident_char(c: char) -> bool {
    ||| 'a' <= c && c <= 'z'
    ||| 'A' <= c && c <= 'Z'
    ||| '0' <= c && c <= '9'
    ||| c == '.'
    ||| c == '_'
    ||| c == '-'
}

/// `s` with every character that may not stand in an identifier replaced by `_`.
pub open spec fn ident_of(s: Seq<char>) -> Seq<char> {
    Seq::new(
        s.len(),
        |i: int|
            if is_ident_char(s[i]) {
                s[i]
            } else {
                '_'
            },
    )
}

/// `s` with every character outside `[A-Za-z0-9._-]` replaced by `_`.
pub fn sanitize_ident(s: &str) -> (r: String)
    ensures
        r@ == ident_of(s@),
{
    let cs = chars_of(s);
    let mut out: Vec<char> = Vec::new();
    let mut i: usize = 0;
    while i < cs.len()
        invariant
            i <= cs@.len(),
            out@ == ident_of(cs@).take(i as int),
        decreases cs.len() - i,
    {
        let c = cs[i];
        let ok = ('a' <= c && c <= 'z') || ('A' <= c && c <= 'Z') || ('0' <= c && c <= '9') || c
            == '.' || c == '_' || c == '-';
        let safe = if ok {
            c
        } else {
            '_'
        };
        out.push(safe);
        proof {
            assert(ident_of(cs@).take(i as int + 1) =~= ident_of(cs@).take(i as int).push(safe));
        }
        i = i + 1;
    }
    proof {
        assert(ident_of(cs@).take(cs@.len() as int) =~= ident_of(cs@));
    }
    string_of(&out)
}

/// A sanitized identifier holds safe characters alone, and a safe one stays as it is.
pub proof fn law_sanitized_identifier_is_safe(s: Seq<char>)
    ensures
        forall|i: int| 0 <= i < ident_of(s).len() ==> is_ident_char(#[trigger] ident_of(s)[i]),
        (forall|i: int| 0 <= i < s.len() ==> is_ident_char(#[trigger] s[i])) ==> ident_of(s) == s,
{
    if forall|i: int| 0 <= i < s.len() ==> is_ident_char(#[trigger] s[i]) {
        assert(ident_of(s) =~= s);
    }
}

} // verus!
