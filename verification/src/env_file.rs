//! The dotenv file that holds provider credentials: its grammar, the checks on what
//! may be written to it, and which of its entries reach the process environment.

use vstd::prelude::*;

use crate::quote::{quote, quoted};
use crate::table::{
    ascending, distinct_keys, has_key, lemma_map_of_index, lemma_map_of_push, map_of,
    texts_in, StrMap,
};
use crate::text::{
    chars_of, concat, concat3, ends_with, find_char, is_listed, is_space, lemma_precedes_irreflexive,
    lemma_precedes_transitive, lemma_until, lemma_until_is, listed, precedes, same_text, slice_of,
    space, string_of, trim_chars, trimmed, trimmed_end, trimmed_start, until,
};

verus! {

/// Why the dotenv file was not written.
#[derive(Debug)]
pub enum EnvFileError {
    /// The name of the variable does not match `^[A-Z][A-Z0-9_]*$`.
    InvalidKey(String),
    /// The value holds a newline, a carriage return or a NUL.
    InvalidValue,
    /// Opening, writing or protecting the file failed, with the reason.
    Io(String),
    /// Moving the new file into place failed, with the reason.
    Persist(String),
}

impl EnvFileError {
    /// What the error says to the user.
    pub open spec fn says(self) -> Seq<char> {
        match self {
            EnvFileError::InvalidKey(key) => "invalid env var key: "@ + quoted(key@)
                + " (must match ^[A-Z][A-Z0-9_]*$)"@,
            EnvFileError::InvalidValue =>
                "invalid env var value: contains newline, carriage-return, or NUL byte"@,
            EnvFileError::Io(why) => "env file I/O error: "@ + why@,
            EnvFileError::Persist(why) => "env file persist error: "@ + why@,
        }
    }

    /// What the error says to the user.
    pub fn message(&self) -> (r: String)
        ensures
            r@ == self.says(),
    {
        match self {
            EnvFileError::InvalidKey(key) => concat3(
                "invalid env var key: ",
                quote(key.as_str()).as_str(),
                " (must match ^[A-Z][A-Z0-9_]*$)",
            ),
            EnvFileError::InvalidValue =>
                "invalid env var value: contains newline, carriage-return, or NUL byte".to_owned(),
            EnvFileError::Io(why) => concat("env file I/O error: ", why.as_str()),
            EnvFileError::Persist(why) => concat("env file persist error: ", why.as_str()),
        }
    }
}

/// Whether `c` may stand in the name of a variable after its first character.
pub open spec fn is_key_char(c: char) -> bool {
    ('A' <= c && c <= 'Z') || ('0' <= c && c <= '9') || c == '_'
}

/// Whether `s` matches `^[A-Z][A-Z0-9_]*$`.
pub open spec fn is_key(s: Seq<char>) -> bool {
    &&& s.len() > 0
    &&& 'A' <= s[0] && s[0] <= 'Z'
    &&& forall|i: int| 0 <= i < s.len() ==> is_key_char(#[trigger] s[i])
}

/// Whether `s` can stand as a value on one line.
pub open spec fn is_value(s: Seq<char>) -> bool {
    forall|i: int|
        0 <= i < s.len() ==> (#[trigger] s[i]) != '\n' && s[i] != '\r' && s[i] != '\0'
}

fn key_ok(cs: &Vec<char>) -> (r: bool)
    ensures
        r == is_key(cs@),
{
    if cs.len() == 0 || !('A' <= cs[0] && cs[0] <= 'Z') {
        return false;
    }
    let mut i: usize = 0;
    while i < cs.len()
        invariant
            i <= cs@.len(),
            forall|j: int| 0 <= j < i ==> is_key_char(#[trigger] cs@[j]),
        decreases cs.len() - i,
    {
        let c = cs[i];
        if !(('A' <= c && c <= 'Z') || ('0' <= c && c <= '9') || c == '_') {
            assert(!is_key_char(cs@[i as int]));
            return false;
        }
        i = i + 1;
    }
    true
}

/// Refuses a name that does not match `^[A-Z][A-Z0-9_]*$`.
pub fn validate_key(key: &str) -> (r: Result<(), EnvFileError>)
    ensures
        match r {
            Ok(_) => is_key(key@),
            Err(e) => !is_key(key@) && (e matches EnvFileError::InvalidKey(k) && k@ == key@),
        },
{
    if key_ok(&chars_of(key)) {
        Ok(())
    } else {
        Err(EnvFileError::InvalidKey(key.to_owned()))
    }
}

/// Refuses a value that would not stay on its line.
pub fn validate_value(value: &str) -> (r: Result<(), EnvFileError>)
    ensures
        match r {
            Ok(_) => is_value(value@),
            Err(e) => !is_value(value@) && e is InvalidValue,
        },
{
    let cs = chars_of(value);
    let mut i: usize = 0;
    while i < cs.len()
        invariant
            i <= cs@.len(),
            cs@ == value@,
            forall|j: int|
                0 <= j < i ==> (#[trigger] cs@[j]) != '\n' && cs@[j] != '\r' && cs@[j] != '\0',
        decreases cs.len() - i,
    {
        if cs[i] == '\n' || cs[i] == '\r' || cs[i] == '\0' {
            return Err(EnvFileError::InvalidValue);
        }
        i = i + 1;
    }
    Ok(())
}

/// `s` without the backslash before each double quote. Any other backslash stays.
pub open spec fn unescaped(s: Seq<char>) -> Seq<char>
    decreases s.len(),
{
    if s.len() == 0 {
        s
    } else if s.len() >= 2 && s[0] == '\\' && s[1] == '"' {
        seq![s[1]] + unescaped(s.skip(2))
    } else {
        seq![s[0]] + unescaped(s.skip(1))
    }
}

/// What a value in the file stands for: between double quotes its escapes are undone, else it
/// stands for itself.
pub open spec fn unquoted(s: Seq<char>) -> Seq<char> {
    if s.len() >= 2 && s[0] == '"' && s.last() == '"' {
        unescaped(s.subrange(1, s.len() - 1))
    } else {
        s
    }
}

/// Computes [`unescaped`].
fn unescape(s: &Vec<char>) -> (r: Vec<char>)
    ensures
        r@ == unescaped(s@),
{
    let mut out: Vec<char> = Vec::new();
    let mut i: usize = 0;
    proof {
        assert(s@.skip(0) =~= s@);
        assert(out@ + unescaped(s@) =~= unescaped(s@));
    }
    while i < s.len()
        invariant
            i <= s@.len(),
            out@ + unescaped(s@.skip(i as int)) == unescaped(s@),
        decreases s.len() - i,
    {
        let ghost rest = s@.skip(i as int);
        let ghost before = out@;
        let pair = i + 1 < s.len() && s[i] == '\\' && s[i + 1] == '"';
        let step: usize = if pair {
            2
        } else {
            1
        };
        out.push(s[i + step - 1]);
        proof {
            assert(rest[0] == s@[i as int]);
            if pair {
                assert(rest[1] == s@[i + 1]);
            }
            assert(rest.skip(step as int) =~= s@.skip(i + step));
            assert(before + (seq![s@[i + step - 1]] + unescaped(s@.skip(i + step))) =~= out@
                + unescaped(s@.skip(i + step)));
        }
        i = i + step;
    }
    proof {
        assert(s@.skip(s@.len() as int) =~= Seq::<char>::empty());
        assert(out@ + Seq::<char>::empty() =~= out@);
    }
    out
}

/// The entry that one line holds: the name and the value around the first `=`. Blank
/// lines, comments, lines without `=` and lines whose name is not valid hold none.
pub open spec fn line_entry(line: Seq<char>) -> Option<(Seq<char>, Seq<char>)> {
    let t = trimmed(line);
    let at = until(t, '=') as int;
    if t.len() == 0 || t[0] == '#' || at == t.len() {
        None
    } else if !is_key(trimmed(t.take(at))) {
        None
    } else {
        Some((trimmed(t.take(at)), unquoted(trimmed(t.skip(at + 1)))))
    }
}

/// `m` with the entry of `line`, if it holds one.
pub open spec fn with_line(m: Map<Seq<char>, Seq<char>>, line: Seq<char>) -> Map<
    Seq<char>,
    Seq<char>,
> {
    match line_entry(line) {
        Some((k, v)) => m.insert(k, v),
        None => m,
    }
}

/// `m` with the entries of the lines of `body`, a later entry in place of an earlier one.
pub open spec fn with_lines(m: Map<Seq<char>, Seq<char>>, body: Seq<char>) -> Map<
    Seq<char>,
    Seq<char>,
>
    decreases body.len(),
{
    if body.len() == 0 {
        m
    } else {
        let end = until(body, '\n') as int;
        let next = with_line(m, body.take(end));
        if end < body.len() {
            with_lines(next, body.skip(end + 1))
        } else {
            next
        }
    }
}

/// What a dotenv file holds.
pub open spec fn parsed(body: Seq<char>) -> Map<Seq<char>, Seq<char>> {
    with_lines(Map::empty(), body)
}

fn read_line(line: &Vec<char>) -> (r: Option<(String, String)>)
    ensures
        match r {
            Some(e) => line_entry(line@) == Some((e.0@, e.1@)),
            None => line_entry(line@) is None,
        },
{
    let t = trim_chars(line);
    if t.len() == 0 || t[0] == '#' {
        return None;
    }
    proof {
        assert(t@.skip(0) =~= t@);
    }
    let at = find_char(&t, '=', 0);
    if at == t.len() {
        return None;
    }
    proof {
        assert(t@.subrange(0, at as int) =~= t@.take(at as int));
        assert(t@.subrange(at + 1, t@.len() as int) =~= t@.skip(at + 1));
    }
    let key = trim_chars(&slice_of(&t, 0, at));
    if !key_ok(&key) {
        return None;
    }
    let value = trim_chars(&slice_of(&t, at + 1, t.len()));
    let n: usize = value.len();
    let bare = if n >= 2 && value[0] == '"' && value[n - 1] == '"' {
        unescape(&slice_of(&value, 1, n - 1))
    } else {
        value
    };
    Some((string_of(&key), string_of(&bare)))
}

/// The entries of a dotenv file.
pub fn parse_env(body: &str) -> (r: StrMap<String>)
    ensures
        texts_in(r@) == parsed(body@),
{
    let cs = chars_of(body);
    let mut out: StrMap<String> = StrMap::new();
    let mut at: usize = 0;
    proof {
        assert(texts_in(out@) =~= Map::empty());
        assert(cs@.skip(0) =~= cs@);
    }
    while at < cs.len()
        invariant
            at <= cs@.len(),
            cs@ == body@,
            with_lines(texts_in(out@), cs@.skip(at as int)) == parsed(body@),
        decreases cs.len() - at,
    {
        let ghost rest = cs@.skip(at as int);
        let ghost before = out@;
        let end = find_char(&cs, '\n', at);
        let line = slice_of(&cs, at, end);
        proof {
            assert(line@ =~= rest.take(end - at));
        }
        match read_line(&line) {
            Some((key, value)) => {
                out.insert(key, value);
                proof {
                    assert(texts_in(out@) =~= texts_in(before).insert(key@, value@));
                }
            },
            None => {},
        }
        proof {
            assert(texts_in(out@) == with_line(texts_in(before), line@));
            if end < cs@.len() {
                assert(rest.skip(end - at + 1) =~= cs@.skip(end + 1));
            } else {
                assert(cs@.skip(end as int) =~= Seq::<char>::empty());
            }
        }
        at = if end < cs.len() {
            end + 1
        } else {
            end
        };
    }
    out
}

/// Every entry of the dotenv file whose text is `body`; a file that is not there holds
/// none.
pub fn read_env_vars(body: Option<&str>) -> (r: StrMap<String>)
    ensures
        texts_in(r@) == match body {
            Some(text) => parsed(text@),
            None => Map::empty(),
        },
{
    match body {
        Some(text) => parse_env(text),
        None => {
            let r: StrMap<String> = StrMap::new();
            proof {
                assert(texts_in(r@) =~= Map::empty());
            }
            r
        },
    }
}

/// The first comment line of the file.
pub const TITLE: &'static str = "# Wayland credentials store \u{2014} managed by the Config TUI.";

/// The second comment line of the file.
pub const NOTICE: &'static str =
    "# Do not edit values that contain newlines; one entry per line only.";

/// The comment lines at the head of the file.
pub open spec fn header() -> Seq<char> {
    TITLE@ + seq!['\n'] + NOTICE@ + seq!['\n']
}

/// Whether a value is written between double quotes: it has white space, `=` or a double
/// quote.
pub open spec fn needs_quotes(v: Seq<char>) -> bool {
    exists|i: int| 0 <= i < v.len() && is_delicate(#[trigger] v[i])
}

/// Whether `c` makes the quotes around a value necessary.
pub open spec fn is_delicate(c: char) -> bool {
    is_space(c) || c == '=' || c == '"'
}

/// `v` with a backslash before each double quote.
pub open spec fn escaped(v: Seq<char>) -> Seq<char>
    decreases v.len(),
{
    if v.len() == 0 {
        v
    } else if v.last() == '"' {
        escaped(v.drop_last()).push('\\').push(v.last())
    } else {
        escaped(v.drop_last()).push(v.last())
    }
}

/// A value as it is written.
pub open spec fn encoded(v: Seq<char>) -> Seq<char> {
    if needs_quotes(v) {
        seq!['"'] + escaped(v) + seq!['"']
    } else {
        v
    }
}

/// One entry as it is written, with the newline.
pub open spec fn entry_line(k: Seq<char>, v: Seq<char>) -> Seq<char> {
    k + seq!['='] + encoded(v) + seq!['\n']
}

/// The head of the file and the entries in their order.
pub open spec fn rendered(entries: Seq<(String, String)>) -> Seq<char>
    decreases entries.len(),
{
    if entries.len() == 0 {
        header()
    } else {
        rendered(entries.drop_last()) + entry_line(entries.last().0@, entries.last().1@)
    }
}

/// Whether `body` is the file for the entries `m`: one line for each, in ascending order of
/// their names.
pub open spec fn is_file_of(body: Seq<char>, m: Map<Seq<char>, Seq<char>>) -> bool {
    exists|entries: Seq<(String, String)>|
        ascending(entries) && texts_in(map_of(entries)) == m && body == #[trigger] rendered(entries)
}

fn append(out: &mut Vec<char>, more: &Vec<char>)
    ensures
        final(out)@ == old(out)@ + more@,
{
    let ghost before = out@;
    let mut i: usize = 0;
    while i < more.len()
        invariant
            i <= more@.len(),
            out@ == before + more@.take(i as int),
        decreases more.len() - i,
    {
        out.push(more[i]);
        proof {
            assert(more@.take(i as int + 1) =~= more@.take(i as int).push(more@[i as int]));
        }
        i = i + 1;
    }
    proof {
        assert(more@.take(more@.len() as int) =~= more@);
    }
}

fn encode(value: &Vec<char>) -> (r: Vec<char>)
    ensures
        r@ == encoded(value@),
{
    let mut i: usize = 0;
    while i < value.len() && !space(value[i]) && value[i] != '=' && value[i] != '"'
        invariant
            i <= value@.len(),
            forall|j: int| 0 <= j < i ==> !is_delicate(#[trigger] value@[j]),
        decreases value.len() - i,
    {
        i = i + 1;
    }
    let mut out: Vec<char> = Vec::new();
    if i == value.len() {
        append(&mut out, value);
        assert(out@ =~= value@);
        return out;
    }
    assert(is_delicate(value@[i as int]));
    out.push('"');
    let mut j: usize = 0;
    while j < value.len()
        invariant
            j <= value@.len(),
            out@ == seq!['"'] + escaped(value@.take(j as int)),
        decreases value.len() - j,
    {
        proof {
            let next = value@.take(j as int + 1);
            assert(next.drop_last() =~= value@.take(j as int));
            assert(next.last() == value@[j as int]);
        }
        if value[j] == '"' {
            out.push('\\');
        }
        out.push(value[j]);
        proof {
            assert(out@ =~= seq!['"'] + escaped(value@.take(j as int + 1)));
        }
        j = j + 1;
    }
    out.push('"');
    proof {
        assert(value@.take(value@.len() as int) =~= value@);
        assert(out@ =~= seq!['"'] + escaped(value@) + seq!['"']);
    }
    out
}

/// The file for `entries`.
pub fn serialise_env(entries: StrMap<String>) -> (r: String)
    ensures
        is_file_of(r@, texts_in(entries@)),
{
    let pairs = entries.into_sorted_entries();
    let mut out = chars_of(TITLE);
    out.push('\n');
    append(&mut out, &chars_of(NOTICE));
    out.push('\n');
    let mut i: usize = 0;
    proof {
        assert(out@ =~= header());
        assert(pairs@.take(0) =~= Seq::<(String, String)>::empty());
    }
    while i < pairs.len()
        invariant
            i <= pairs@.len(),
            out@ == rendered(pairs@.take(i as int)),
        decreases pairs.len() - i,
    {
        let ghost before = out@;
        let ghost k = pairs@[i as int].0@;
        let ghost v = pairs@[i as int].1@;
        append(&mut out, &chars_of(pairs[i].0.as_str()));
        out.push('=');
        append(&mut out, &encode(&chars_of(pairs[i].1.as_str())));
        out.push('\n');
        proof {
            let next = pairs@.take(i as int + 1);
            assert(next.drop_last() =~= pairs@.take(i as int));
            assert(next.last() == pairs@[i as int]);
            assert(out@ =~= before + entry_line(k, v));
        }
        i = i + 1;
    }
    proof {
        assert(pairs@.take(pairs@.len() as int) =~= pairs@);
        assert(rendered(pairs@) == out@);
    }
    string_of(&out)
}

/// The dotenv file after setting `key` to `value` in the file whose text is `body`. Every
/// other entry stays.
pub fn write_env_var(body: &str, key: &str, value: &str) -> (r: Result<String, EnvFileError>)
    ensures
        match r {
            Ok(text) => {
                &&& is_key(key@)
                &&& is_value(value@)
                &&& is_file_of(text@, parsed(body@).insert(key@, value@))
            },
            Err(EnvFileError::InvalidKey(k)) => !is_key(key@) && k@ == key@,
            Err(EnvFileError::InvalidValue) => is_key(key@) && !is_value(value@),
            Err(_) => false,
        },
{
    match validate_key(key) {
        Ok(_) => {},
        Err(e) => {
            return Err(e);
        },
    }
    match validate_value(value) {
        Ok(_) => {},
        Err(e) => {
            return Err(e);
        },
    }
    let mut entries = parse_env(body);
    let ghost before = entries@;
    entries.insert(key.to_owned(), value.to_owned());
    proof {
        assert(texts_in(entries@) =~= texts_in(before).insert(key@, value@));
    }
    Ok(serialise_env(entries))
}

/// Whether none of the first `n` characters of `s` is a newline.
spec fn one_line(s: Seq<char>, n: nat) -> bool
    decreases n,
{
    n == 0 || (s[n - 1] != '\n' && one_line(s, (n - 1) as nat))
}

proof fn lemma_one_line(s: Seq<char>, n: nat)
    requires
        one_line(s, n),
    ensures
        forall|i: int| 0 <= i < n ==> s[i] != '\n',
    decreases n,
{
    if n > 0 {
        lemma_one_line(s, (n - 1) as nat);
    }
}

/// A line in front of `rest` is read before it.
proof fn lemma_first_line(m: Map<Seq<char>, Seq<char>>, line: Seq<char>, rest: Seq<char>)
    requires
        forall|i: int| 0 <= i < line.len() ==> line[i] != '\n',
    ensures
        with_lines(m, line + seq!['\n'] + rest) == with_lines(with_line(m, line), rest),
{
    let body = line + seq!['\n'] + rest;
    let end = line.len() as int;
    assert forall|i: int| 0 <= i < end implies body[i] != '\n' by {
        assert(body[i] == line[i]);
    }
    assert(body[end] == '\n');
    lemma_until_is(body, '\n', end);
    assert(body.take(end) =~= line);
    assert(body.skip(end + 1) =~= rest);
}

/// Whole lines in front of `rest` are read before it.
proof fn lemma_lines_before(m: Map<Seq<char>, Seq<char>>, lines: Seq<char>, rest: Seq<char>)
    requires
        lines.len() > 0 ==> lines.last() == '\n',
    ensures
        with_lines(m, lines + rest) == with_lines(with_lines(m, lines), rest),
    decreases lines.len(),
{
    if lines.len() == 0 {
        assert(lines + rest =~= rest);
    } else {
        lemma_until(lines, '\n');
        let end = until(lines, '\n') as int;
        assert(lines[lines.len() - 1] == '\n');
        let first = lines.take(end);
        let more = lines.skip(end + 1);
        if more.len() > 0 {
            assert(more.last() == lines.last());
        }
        assert(lines + rest =~= first + seq!['\n'] + (more + rest));
        lemma_first_line(m, first, more + rest);
        lemma_lines_before(with_line(m, first), more, rest);
    }
}

/// The comment lines hold no entry.
proof fn lemma_header()
    ensures
        with_lines(Map::empty(), header()) == Map::<Seq<char>, Seq<char>>::empty(),
        header().len() > 0,
        header().last() == '\n',
{
    let none = Map::<Seq<char>, Seq<char>>::empty();
    reveal_strlit("# Wayland credentials store \u{2014} managed by the Config TUI.");
    reveal_strlit("# Do not edit values that contain newlines; one entry per line only.");
    let a = TITLE@;
    let b = NOTICE@;
    assert(one_line(a, a.len())) by {
        reveal_with_fuel(one_line, 64);
    }
    assert(one_line(b, b.len())) by {
        reveal_with_fuel(one_line, 72);
    }
    lemma_one_line(a, a.len());
    lemma_one_line(b, b.len());
    assert(trimmed(a) == a);
    assert(trimmed(b) == b);
    let tail = b + seq!['\n'];
    assert(header() =~= a + seq!['\n'] + tail);
    lemma_first_line(none, a, tail);
    assert(tail =~= b + seq!['\n'] + Seq::<char>::empty());
    lemma_first_line(none, b, Seq::empty());
}

/// Undoing the escapes of an escaped text in front of another gives the text back.
proof fn lemma_unescaped_before(v: Seq<char>, rest: Seq<char>)
    requires
        rest.len() > 0 ==> rest[0] != '"',
    ensures
        unescaped(escaped(v) + rest) == v + unescaped(rest),
    decreases v.len(),
{
    if v.len() == 0 {
        assert(escaped(v) + rest =~= rest);
        assert(v + unescaped(rest) =~= unescaped(rest));
    } else {
        let front = v.drop_last();
        let c = v.last();
        let tail = if c == '"' {
            seq!['\\', c] + rest
        } else {
            seq![c] + rest
        };
        assert(escaped(v) + rest =~= escaped(front) + tail);
        lemma_unescaped_before(front, tail);
        if c == '"' {
            assert(tail.skip(2) =~= rest);
        } else {
            assert(tail.skip(1) =~= rest);
        }
        assert(unescaped(tail) == seq![c] + unescaped(rest));
        assert(front + (seq![c] + unescaped(rest)) =~= v + unescaped(rest));
    }
}

/// Undoing the escapes of an escaped text gives the text back.
proof fn lemma_unescaped(v: Seq<char>)
    ensures
        unescaped(escaped(v)) == v,
{
    lemma_unescaped_before(v, Seq::empty());
    assert(escaped(v) + Seq::<char>::empty() =~= escaped(v));
    assert(v + unescaped(Seq::<char>::empty()) =~= v);
}

proof fn lemma_escaped_stays_on_line(v: Seq<char>)
    requires
        forall|i: int| 0 <= i < v.len() ==> (#[trigger] v[i]) != '\n',
    ensures
        forall|i: int| 0 <= i < escaped(v).len() ==> (#[trigger] escaped(v)[i]) != '\n',
    decreases v.len(),
{
    if v.len() > 0 {
        let front = v.drop_last();
        assert forall|i: int| 0 <= i < front.len() implies (#[trigger] front[i]) != '\n' by {
            assert(front[i] == v[i]);
        }
        lemma_escaped_stays_on_line(front);
        assert(v.last() == v[v.len() - 1]);
        let less = escaped(front);
        assert forall|i: int| 0 <= i < escaped(v).len() implies (#[trigger] escaped(v)[i])
            != '\n' by {
            if i < less.len() {
                assert(escaped(v)[i] == less[i]);
            }
        }
    }
}

/// Trimming the end of a text leaves what comes before a character that is no white space.
proof fn lemma_trimmed_end_keeps(s: Seq<char>, at: int)
    requires
        0 <= at < s.len(),
        !is_space(s[at]),
    ensures
        at < trimmed_end(s).len() <= s.len(),
        trimmed_end(s) == s.take(trimmed_end(s).len() as int),
    decreases s.len(),
{
    if is_space(s.last()) {
        lemma_trimmed_end_keeps(s.drop_last(), at);
        let n = trimmed_end(s).len() as int;
        assert(s.drop_last().take(n) =~= s.take(n));
    } else {
        assert(s.take(s.len() as int) =~= s);
    }
}

/// The line of an entry holds that entry.
proof fn lemma_entry_line(k: Seq<char>, v: Seq<char>)
    requires
        is_key(k),
        forall|i: int| 0 <= i < v.len() ==> (#[trigger] v[i]) != '\n',
    ensures
        forall|i: int|
            0 <= i < (k + seq!['='] + encoded(v)).len() ==> (#[trigger] (k + seq!['=']
                + encoded(v))[i]) != '\n',
        match line_entry(k + seq!['='] + encoded(v)) {
            Some((name, value)) => name == k && value == v,
            None => false,
        },
{
    let e = encoded(v);
    let line = k + seq!['='] + e;
    let n = k.len() as int;
    lemma_escaped_stays_on_line(v);
    assert forall|i: int| 0 <= i < line.len() implies (#[trigger] line[i]) != '\n' by {
        if i < n {
            assert(is_key_char(k[i]));
        } else if i > n {
            assert(line[i] == e[i - n - 1]);
            if needs_quotes(v) {
                let q = escaped(v);
                if 0 < i - n - 1 < e.len() - 1 {
                    assert(e[i - n - 1] == q[i - n - 2]);
                }
            }
        }
    }
    assert(line[0] == k[0]);
    assert(!is_space(line[0]));
    assert(trimmed_start(line) == line);
    assert(line[n] == '=');
    lemma_trimmed_end_keeps(line, n);
    let t = trimmed(line);
    assert(t[0] == line[0]);
    assert(t[n] == '=');
    assert forall|i: int| 0 <= i < n implies t[i] != '=' by {
        assert(t[i] == k[i]);
        assert(is_key_char(k[i]));
    }
    lemma_until_is(t, '=', n);
    assert(t.take(n) =~= k);
    assert(is_key_char(k[n - 1]));
    assert(trimmed(k) == k);
    if needs_quotes(v) {
        assert(e == seq!['"'] + escaped(v) + seq!['"']);
        assert(line.last() == '"');
        assert(t == line);
        assert(t.skip(n + 1) =~= e);
        assert(e[0] == '"' && e.last() == '"');
        assert(trimmed(e) == e);
        assert(e.subrange(1, e.len() - 1) =~= escaped(v));
        lemma_unescaped(v);
    } else {
        if v.len() > 0 {
            assert(!is_delicate(v[0]));
            assert(!is_delicate(v[v.len() - 1]));
            assert(line.last() == v.last());
            assert(trimmed(v) == v);
        } else {
            assert(line.last() == '=');
        }
        assert(t == line);
        assert(t.skip(n + 1) =~= v);
        assert(unquoted(v) == v);
    }
}

/// Whether `m` holds names and values that the file can hold.
pub open spec fn can_be_held(m: Map<Seq<char>, Seq<char>>) -> bool {
    forall|k: Seq<char>| #[trigger]
        m.contains_key(k) ==> is_key(k) && forall|i: int|
            0 <= i < m[k].len() ==> (#[trigger] m[k][i]) != '\n'
}

proof fn lemma_rendered(entries: Seq<(String, String)>)
    requires
        distinct_keys(entries),
        can_be_held(texts_in(map_of(entries))),
    ensures
        parsed(rendered(entries)) == texts_in(map_of(entries)),
        rendered(entries).last() == '\n',
        rendered(entries).len() > 0,
    decreases entries.len(),
{
    let m = texts_in(map_of(entries));
    if entries.len() == 0 {
        lemma_header();
        assert(m =~= Map::empty());
    } else {
        let front = entries.drop_last();
        let (key, value) = entries.last();
        assert(entries =~= front.push((key, value)));
        assert forall|i: int, j: int| 0 <= i < j < front.len() implies (
        #[trigger] front[i]).0@ != (#[trigger] front[j]).0@ by {
            assert(front[i] == entries[i] && front[j] == entries[j]);
        }
        crate::table::lemma_fresh_last(front, key, value);
        lemma_map_of_push(front, key, value);
        let less = texts_in(map_of(front));
        assert(m =~= less.insert(key@, value@));
        assert forall|k: Seq<char>| #[trigger] less.contains_key(k) implies is_key(k) && forall|i: int|
            0 <= i < less[k].len() ==> (#[trigger] less[k][i]) != '\n' by {
            assert(m.contains_key(k));
            assert(k != key@);
            assert(m[k] == less[k]);
        }
        lemma_rendered(front);
        assert(m.contains_key(key@));
        assert(m[key@] == value@);
        let line = key@ + seq!['='] + encoded(value@);
        lemma_entry_line(key@, value@);
        let read = parsed(rendered(front));
        lemma_lines_before(Map::empty(), rendered(front), entry_line(key@, value@));
        assert(entry_line(key@, value@) =~= line + seq!['\n'] + Seq::<char>::empty());
        lemma_first_line(read, line, Seq::empty());
        assert(parsed(rendered(entries)) == with_line(read, line));
    }
}

/// Reading the file that was written for some entries gives those entries.
pub proof fn law_file_reads_back(body: Seq<char>, m: Map<Seq<char>, Seq<char>>)
    requires
        can_be_held(m),
        is_file_of(body, m),
    ensures
        parsed(body) == m,
{
    let entries = choose|entries: Seq<(String, String)>|
        ascending(entries) && texts_in(map_of(entries)) == m && body == #[trigger] rendered(entries);
    assert forall|i: int, j: int| 0 <= i < j < entries.len() implies (
    #[trigger] entries[i]).0@ != (#[trigger] entries[j]).0@ by {
        lemma_precedes_irreflexive(entries[i].0@);
    }
    lemma_rendered(entries);
}

proof fn lemma_read_can_be_held(m: Map<Seq<char>, Seq<char>>, body: Seq<char>)
    requires
        can_be_held(m),
    ensures
        can_be_held(with_lines(m, body)),
    decreases body.len(),
{
    if body.len() > 0 {
        lemma_until(body, '\n');
        let end = until(body, '\n') as int;
        let line = body.take(end);
        let next = with_line(m, line);
        assert(can_be_held(next)) by {
            match line_entry(line) {
                Some((k, v)) => {
                    let t = trimmed(line);
                    let at = until(t, '=') as int;
                    lemma_until(t, '=');
                    lemma_trimmed_within(line);
                    let tail = t.skip(at + 1);
                    lemma_trimmed_within(tail);
                    let w = trimmed(tail);
                    assert forall|i: int| 0 <= i < v.len() implies (#[trigger] v[i]) != '\n' by {
                        lemma_unquoted_within(w);
                        assert(w.contains(v[i]));
                        let j = choose|j: int| 0 <= j < w.len() && w[j] == v[i];
                        assert(tail.contains(w[j]));
                        let x = choose|x: int| 0 <= x < tail.len() && tail[x] == w[j];
                        assert(t[at + 1 + x] == w[j]);
                        assert(line.contains(t[at + 1 + x]));
                    }
                },
                None => {},
            }
        }
        if end < body.len() {
            lemma_read_can_be_held(next, body.skip(end + 1));
        }
    }
}

/// Undoing escapes adds no character.
proof fn lemma_unescaped_within(s: Seq<char>)
    ensures
        forall|i: int| 0 <= i < unescaped(s).len() ==> s.contains(#[trigger] unescaped(s)[i]),
    decreases s.len(),
{
    if s.len() > 0 {
        let step: int = if s.len() >= 2 && s[0] == '\\' && s[1] == '"' {
            2
        } else {
            1
        };
        let rest = s.skip(step);
        lemma_unescaped_within(rest);
        assert forall|i: int| 0 <= i < unescaped(s).len() implies s.contains(
            #[trigger] unescaped(s)[i],
        ) by {
            if i == 0 {
                assert(s[step - 1] == unescaped(s)[0]);
            } else {
                assert(unescaped(s)[i] == unescaped(rest)[i - 1]);
                let j = choose|j: int| 0 <= j < rest.len() && rest[j] == unescaped(rest)[i - 1];
                assert(s[j + step] == rest[j]);
            }
        }
    }
}

/// Taking the quotes off adds no character.
proof fn lemma_unquoted_within(s: Seq<char>)
    ensures
        forall|i: int| 0 <= i < unquoted(s).len() ==> s.contains(#[trigger] unquoted(s)[i]),
{
    if s.len() >= 2 && s[0] == '"' && s.last() == '"' {
        let inner = s.subrange(1, s.len() - 1);
        lemma_unescaped_within(inner);
        assert forall|i: int| 0 <= i < unquoted(s).len() implies s.contains(
            #[trigger] unquoted(s)[i],
        ) by {
            assert(inner.contains(unescaped(inner)[i]));
            let j = choose|j: int| 0 <= j < inner.len() && inner[j] == unescaped(inner)[i];
            assert(s[j + 1] == inner[j]);
        }
    }
}

/// Trimming adds no character.
proof fn lemma_trimmed_within(s: Seq<char>)
    ensures
        forall|i: int| 0 <= i < trimmed(s).len() ==> s.contains(#[trigger] trimmed(s)[i]),
{
    lemma_start_within(s);
    lemma_end_within(trimmed_start(s));
    assert forall|i: int| 0 <= i < trimmed(s).len() implies s.contains(#[trigger] trimmed(s)[i]) by {
        let a = trimmed_start(s);
        assert(a.contains(trimmed_end(a)[i]));
        let j = choose|j: int| 0 <= j < a.len() && a[j] == trimmed_end(a)[i];
        assert(s.contains(a[j]));
    }
}

proof fn lemma_start_within(s: Seq<char>)
    ensures
        forall|i: int| 0 <= i < trimmed_start(s).len() ==> s.contains(#[trigger] trimmed_start(s)[i]),
    decreases s.len(),
{
    if s.len() > 0 && is_space(s[0]) {
        let rest = s.drop_first();
        lemma_start_within(rest);
        assert forall|i: int| 0 <= i < trimmed_start(s).len() implies s.contains(
            #[trigger] trimmed_start(s)[i],
        ) by {
            assert(rest.contains(trimmed_start(rest)[i]));
            let j = choose|j: int| 0 <= j < rest.len() && rest[j] == trimmed_start(rest)[i];
            assert(s[j + 1] == rest[j]);
        }
    }
}

proof fn lemma_end_within(s: Seq<char>)
    ensures
        forall|i: int| 0 <= i < trimmed_end(s).len() ==> s.contains(#[trigger] trimmed_end(s)[i]),
    decreases s.len(),
{
    if s.len() > 0 && is_space(s.last()) {
        let rest = s.drop_last();
        lemma_end_within(rest);
        assert forall|i: int| 0 <= i < trimmed_end(s).len() implies s.contains(
            #[trigger] trimmed_end(s)[i],
        ) by {
            assert(rest.contains(trimmed_end(rest)[i]));
            let j = choose|j: int| 0 <= j < rest.len() && rest[j] == trimmed_end(rest)[i];
            assert(s[j] == rest[j]);
        }
    }
}

/// After a write, reading the file gives the new value, and for every other name what it gave
/// before.
pub proof fn law_written_variable_is_read(
    before: Seq<char>,
    key: Seq<char>,
    value: Seq<char>,
    after: Seq<char>,
)
    requires
        is_key(key),
        is_value(value),
        is_file_of(after, parsed(before).insert(key, value)),
    ensures
        parsed(after) == parsed(before).insert(key, value),
{
    lemma_read_can_be_held(Map::empty(), before);
    let m = parsed(before).insert(key, value);
    assert forall|k: Seq<char>| #[trigger] m.contains_key(k) implies is_key(k) && forall|i: int|
        0 <= i < m[k].len() ==> (#[trigger] m[k][i]) != '\n' by {
        if k != key {
            assert(parsed(before).contains_key(k));
        }
    }
    law_file_reads_back(after, m);
}

/// Writing a variable again changes nothing in the file.
pub proof fn law_writing_again_changes_nothing(
    before: Seq<char>,
    key: Seq<char>,
    value: Seq<char>,
    after: Seq<char>,
    again: Seq<char>,
)
    requires
        is_key(key),
        is_value(value),
        is_file_of(after, parsed(before).insert(key, value)),
        is_file_of(again, parsed(after).insert(key, value)),
    ensures
        again == after,
{
    law_written_variable_is_read(before, key, value, after);
    let m = parsed(after);
    assert(m.insert(key, value) =~= m);
    let a = choose|a: Seq<(String, String)>|
        ascending(a) && texts_in(map_of(a)) == m && after == #[trigger] rendered(a);
    let b = choose|b: Seq<(String, String)>|
        ascending(b) && texts_in(map_of(b)) == m && again == #[trigger] rendered(b);
    lemma_file_is_determined(a, b);
}

proof fn lemma_ascending_is_distinct(s: Seq<(String, String)>)
    requires
        ascending(s),
    ensures
        distinct_keys(s),
{
    assert forall|i: int, j: int| 0 <= i < j < s.len() implies (#[trigger] s[i]).0@ != (
    #[trigger] s[j]).0@ by {
        lemma_precedes_irreflexive(s[i].0@);
    }
}

/// The last of ascending entries is taken out of the map with its key.
proof fn lemma_without_last(s: Seq<(String, String)>)
    requires
        ascending(s),
        s.len() > 0,
    ensures
        ascending(s.drop_last()),
        texts_in(map_of(s.drop_last())) == texts_in(map_of(s)).remove(s.last().0@),
        texts_in(map_of(s)).contains_key(s.last().0@),
        texts_in(map_of(s))[s.last().0@] == s.last().1@,
        forall|k: Seq<char>|
            texts_in(map_of(s)).contains_key(k) && k != s.last().0@ ==> #[trigger] precedes(
                k,
                s.last().0@,
            ),
{
    lemma_ascending_is_distinct(s);
    let front = s.drop_last();
    let (key, value) = s.last();
    assert(s =~= front.push((key, value)));
    assert forall|i: int, j: int| 0 <= i < j < front.len() implies precedes(
        (#[trigger] front[i]).0@,
        (#[trigger] front[j]).0@,
    ) by {
        assert(front[i] == s[i] && front[j] == s[j]);
    }
    lemma_ascending_is_distinct(front);
    crate::table::lemma_fresh_last(front, key, value);
    lemma_map_of_push(front, key, value);
    assert(texts_in(map_of(front)) =~= texts_in(map_of(s)).remove(key@));
    assert forall|k: Seq<char>|
        texts_in(map_of(s)).contains_key(k) && k != key@ implies #[trigger] precedes(k, key@) by {
        assert(has_key(s, k));
        let i = choose|i: int| 0 <= i < s.len() && (#[trigger] s[i]).0@ == k;
        assert(s[s.len() - 1] == s.last());
        assert(precedes(s[i].0@, s[s.len() - 1].0@));
    }
}

/// Entries of the same map, both in ascending order, are written the same.
proof fn lemma_file_is_determined(a: Seq<(String, String)>, b: Seq<(String, String)>)
    requires
        ascending(a),
        ascending(b),
        texts_in(map_of(a)) == texts_in(map_of(b)),
    ensures
        rendered(a) == rendered(b),
    decreases a.len(),
{
    if a.len() == 0 {
        if b.len() > 0 {
            lemma_without_last(b);
            assert(has_key(a, b.last().0@));
        }
    } else if b.len() == 0 {
        lemma_without_last(a);
        assert(has_key(b, a.last().0@));
    } else {
        lemma_without_last(a);
        lemma_without_last(b);
        let x = a.last().0@;
        let y = b.last().0@;
        if x != y {
            assert(precedes(x, y));
            assert(precedes(y, x));
            lemma_precedes_transitive(x, y, x);
            lemma_precedes_irreflexive(x);
        }
        lemma_file_is_determined(a.drop_last(), b.drop_last());
    }
}

/// Whether a variable holds a credential: `API_KEY`, or a name that ends in `_API_KEY`.
pub open spec fn names_credential(k: Seq<char>) -> bool {
    k == "API_KEY"@ || "_API_KEY"@.is_suffix_of(k)
}

/// Decides [`names_credential`].
pub fn is_credential_key(key: &str) -> (r: bool)
    ensures
        r == names_credential(key@),
{
    same_text(key, "API_KEY") || ends_with(&chars_of(key), "_API_KEY")
}

/// The variables that the dotenv file adds to an environment in which the names of
/// `environment` are set: its credentials that are not set there.
pub fn load_wayland_env_file(body: Option<&str>, environment: &Vec<String>) -> (r: StrMap<String>)
    ensures
        ({
            let held = match body {
                Some(text) => parsed(text@),
                None => Map::empty(),
            };
            &&& forall|k: Seq<char>|
                #[trigger] r@.contains_key(k) <==> held.contains_key(k) && names_credential(k)
                    && !listed(environment@, k)
            &&& forall|k: Seq<char>| #[trigger] r@.contains_key(k) ==> r@[k]@ == held[k]
        }),
{
    let file = read_env_vars(body);
    let ghost held = texts_in(file@);
    let mut pairs = file.into_entries();
    let ghost all = pairs@;
    let mut out: StrMap<String> = StrMap::new();
    while pairs.len() > 0
        invariant
            distinct_keys(all),
            texts_in(map_of(all)) == held,
            pairs@.len() <= all.len(),
            pairs@ == all.take(pairs@.len() as int),
            forall|k: Seq<char>|
                #[trigger] out@.contains_key(k) <==> names_credential(k) && !listed(environment@, k)
                    && has_key(all.skip(pairs@.len() as int), k),
            forall|k: Seq<char>| #[trigger] out@.contains_key(k) ==> out@[k]@ == held[k],
        decreases pairs@.len(),
    {
        let ghost before = pairs@;
        let ghost kept = out@;
        let (key, value) = pairs.pop().unwrap();
        let ghost at = before.len() - 1;
        let ghost name = key@;
        proof {
            assert(before.last() == all[at]);
            assert(pairs@ =~= all.take(at));
            lemma_map_of_index(all, at);
            assert(held[name] == value@);
        }
        if is_credential_key(key.as_str()) && !is_listed(environment, key.as_str()) {
            out.insert(key, value);
        }
        proof {
            assert forall|k: Seq<char>|
                has_key(all.skip(at), k) == (k == name || has_key(all.skip(at + 1), k)) by {
                let long = all.skip(at);
                let short = all.skip(at + 1);
                assert(long[0] == all[at]);
                if k == name {
                    assert(long[0].0@ == k);
                }
                if has_key(short, k) {
                    let i = choose|i: int| 0 <= i < short.len() && (#[trigger] short[i]).0@ == k;
                    assert(long[i + 1].0@ == k);
                }
                if has_key(long, k) && k != name {
                    let i = choose|i: int| 0 <= i < long.len() && (#[trigger] long[i]).0@ == k;
                    assert(short[i - 1].0@ == k);
                }
            }
        }
    }
    proof {
        assert(all.skip(0) =~= all);
        assert forall|k: Seq<char>| held.contains_key(k) == has_key(all, k) by {}
    }
    out
}

} // verus!
