//! Names of isolated profiles.

use vstd::prelude::*;
use vstd::utf8::encode_utf8;

use crate::quote::{quote, quoted};
use crate::text::{
    ascii_lower, chars_of, concat, concat3, find_char, lemma_until_is, lower, lower_char, slice_of,
    until,
};

verus! {

/// The longest name, in bytes.
pub const MAX_PROFILE_NAME_LEN: usize = 64;

/// Why a name was refused.
#[derive(Debug)]
pub enum ProfileError {
    /// The name is not valid.
    InvalidName {
        /// The name.
        name: String,
        /// The reason.
        reason: &'static str,
    },
}

impl ProfileError {
    /// What the error says to the user.
    pub open spec fn says(self) -> Seq<char> {
        match self {
            ProfileError::InvalidName { name, reason } => "invalid profile name "@ + quoted(name@)
                + ": "@ + reason@,
        }
    }

    /// What the error says to the user.
    pub fn message(&self) -> (r: String)
        ensures
            r@ == self.says(),
    {
        match self {
            ProfileError::InvalidName { name, reason } => {
                let head = concat3("invalid profile name ", quote(name.as_str()).as_str(), ": ");
                concat(head.as_str(), reason)
            },
        }
    }
}

/// Whether `c` may stand in a name.
pub open spec fn is_name_char(c: char) -> bool {
    ||| 'a' <= c && c <= 'z'
    ||| 'A' <= c && c <= 'Z'
    ||| '0' <= c && c <= '9'
    ||| c == '.'
    ||| c == '_'
    ||| c == '-'
}

/// Whether `s` is a device name that Windows reserves, in lowercase.
pub open spec fn is_device(s: Seq<char>) -> bool {
    ||| s == "con"@
    ||| s == "prn"@
    ||| s == "aux"@
    ||| s == "nul"@
    ||| is_port(s, 'c', 'o', 'm')
    ||| is_port(s, 'l', 'p', 't')
}

/// Whether `s` is a row of three letters and a digit.
pub open spec fn is_port(s: Seq<char>, a: char, b: char, c: char) -> bool {
    s.len() == 4 && s[0] == a && s[1] == b && s[2] == c && '0' <= s[3] && s[3] <= '9'
}

/// The name up to its first dot, in lowercase.
pub open spec fn stem(name: Seq<char>) -> Seq<char> {
    ascii_lower(name.take(until(name, '.') as int))
}

/// The reason for refusing a name, if there is one. The reasons are tested in this order.
pub open spec fn refusal(name: Seq<char>) -> Option<Seq<char>> {
    if name.len() == 0 {
        Some("name must not be empty"@)
    } else if encode_utf8(name).len() > MAX_PROFILE_NAME_LEN {
        Some("name too long (max 64 bytes)"@)
    } else if exists|i: int| 0 <= i < name.len() && !is_name_char(#[trigger] name[i]) {
        Some("only ASCII letters, digits, '.', '_', '-' are allowed"@)
    } else if forall|i: int| 0 <= i < name.len() ==> (#[trigger] name[i]) == '.' {
        Some("name must not be all dots ('.', '..')"@)
    } else if name[0] == '.' {
        Some("name must not start with '.'"@)
    } else if name[0] == '-' {
        Some("name must not start with '-'"@)
    } else if name.last() == '.' {
        Some("name must not end with '.'"@)
    } else if is_device(stem(name)) {
        Some("name is a reserved device name on Windows"@)
    } else if ascii_lower(name) == "active"@ {
        Some("name is reserved for the profiles control plane"@)
    } else {
        None
    }
}

/// Each character takes one to four bytes.
proof fn lemma_byte_len(s: Seq<char>)
    ensures
        s.len() <= encode_utf8(s).len() <= 4 * s.len(),
    decreases s.len(),
{
    if s.len() > 0 {
        lemma_byte_len(s.drop_first());
        vstd::utf8::char_is_scalar(s[0]);
        reveal_with_fuel(encode_utf8, 2);
    }
}

fn same_chars(cs: &Vec<char>, text: &str) -> (r: bool)
    ensures
        r == (cs@ == text@),
{
    let t = chars_of(text);
    if cs.len() != t.len() {
        return false;
    }
    let mut i: usize = 0;
    while i < cs.len()
        invariant
            i <= cs@.len(),
            cs@.len() == t@.len(),
            t@ == text@,
            forall|j: int| 0 <= j < i ==> cs@[j] == t@[j],
        decreases cs.len() - i,
    {
        if cs[i] != t[i] {
            return false;
        }
        i = i + 1;
    }
    assert(cs@ =~= t@);
    true
}

fn port(s: &Vec<char>, a: char, b: char, c: char) -> (r: bool)
    ensures
        r == is_port(s@, a, b, c),
{
    s.len() == 4 && s[0] == a && s[1] == b && s[2] == c && '0' <= s[3] && s[3] <= '9'
}

fn lower_all(cs: &Vec<char>) -> (r: Vec<char>)
    ensures
        r@ == ascii_lower(cs@),
{
    let mut out: Vec<char> = Vec::new();
    let mut i: usize = 0;
    while i < cs.len()
        invariant
            i <= cs@.len(),
            out@ == ascii_lower(cs@).take(i as int),
        decreases cs.len() - i,
    {
        out.push(lower_char(cs[i]));
        proof {
            assert(ascii_lower(cs@).take(i as int + 1) =~= ascii_lower(cs@).take(i as int).push(
                lower(cs@[i as int]),
            ));
        }
        i = i + 1;
    }
    out
}

fn reason_against(name: &str) -> (r: Option<&'static str>)
    ensures
        match r {
            Some(why) => refusal(name@) == Some(why@),
            None => refusal(name@) is None,
        },
{
    let cs = chars_of(name);
    proof {
        lemma_byte_len(name@);
    }
    if cs.len() == 0 {
        return Some("name must not be empty");
    }
    if cs.len() > MAX_PROFILE_NAME_LEN || name.len() > MAX_PROFILE_NAME_LEN {
        return Some("name too long (max 64 bytes)");
    }
    let mut i: usize = 0;
    let mut all_dots = true;
    while i < cs.len()
        invariant
            i <= cs@.len(),
            cs@ == name@,
            0 < cs@.len(),
            encode_utf8(name@).len() <= MAX_PROFILE_NAME_LEN,
            forall|j: int| 0 <= j < i ==> is_name_char(#[trigger] name@[j]),
            all_dots <==> forall|j: int| 0 <= j < i ==> (#[trigger] name@[j]) == '.',
        decreases cs.len() - i,
    {
        let c = cs[i];
        if !(('a' <= c && c <= 'z') || ('A' <= c && c <= 'Z') || ('0' <= c && c <= '9') || c == '.'
            || c == '_' || c == '-') {
            assert(!is_name_char(name@[i as int]));
            return Some("only ASCII letters, digits, '.', '_', '-' are allowed");
        }
        if c != '.' {
            all_dots = false;
            assert(name@[i as int] != '.');
        }
        i = i + 1;
    }
    if all_dots {
        return Some("name must not be all dots ('.', '..')");
    }
    if cs[0] == '.' {
        return Some("name must not start with '.'");
    }
    if cs[0] == '-' {
        return Some("name must not start with '-'");
    }
    if cs[cs.len() - 1] == '.' {
        return Some("name must not end with '.'");
    }
    proof {
        assert(cs@.skip(0) =~= cs@);
    }
    let dot = find_char(&cs, '.', 0);
    let head = lower_all(&slice_of(&cs, 0, dot));
    proof {
        assert(cs@.subrange(0, dot as int) =~= cs@.take(dot as int));
    }
    if same_chars(&head, "con") || same_chars(&head, "prn") || same_chars(&head, "aux")
        || same_chars(&head, "nul") || port(&head, 'c', 'o', 'm') || port(&head, 'l', 'p', 't') {
        return Some("name is a reserved device name on Windows");
    }
    if same_chars(&lower_all(&cs), "active") {
        return Some("name is reserved for the profiles control plane");
    }
    None
}

/// Refuses a name that cannot be the name of a directory on every platform or that the
/// control plane uses itself.
pub fn validate_profile_name(name: &str) -> (r: Result<(), ProfileError>)
    ensures
        match r {
            Ok(_) => refusal(name@) is None,
            Err(ProfileError::InvalidName { name: n, reason }) => n@ == name@ && refusal(name@)
                == Some(reason@),
        },
{
    match reason_against(name) {
        Some(reason) => Err(ProfileError::InvalidName { name: name.to_owned(), reason }),
        None => Ok(()),
    }
}

proof fn lemma_lower(c: char)
    requires
        is_name_char(c),
    ensures
        is_name_char(lower(c)),
        lower(lower(c)) == lower(c),
        lower(c) == '.' <==> c == '.',
        lower(c) == '-' <==> c == '-',
        lower(c) != '/',
{
}

/// A valid name holds no path separator and is neither `.` nor `..`.
pub proof fn law_valid_name_is_one_component(name: Seq<char>)
    requires
        refusal(name) is None,
    ensures
        forall|i: int| 0 <= i < name.len() ==> (#[trigger] name[i]) != '/' && name[i] != '\\',
        name.len() > 0,
        name != "."@,
        name != ".."@,
{
    reveal_strlit(".");
    reveal_strlit("..");
    assert forall|i: int| 0 <= i < name.len() implies (#[trigger] name[i]) != '/' && name[i]
        != '\\' by {
        assert(is_name_char(name[i]));
    }
}

/// Lowercasing a valid name gives a valid name, which lowercasing leaves as it is.
pub proof fn law_lowercase_name_is_valid(name: Seq<char>)
    requires
        refusal(name) is None,
    ensures
        refusal(ascii_lower(name)) is None,
        ascii_lower(ascii_lower(name)) == ascii_lower(name),
{
    let low = ascii_lower(name);
    assert forall|i: int| 0 <= i < name.len() implies is_name_char(#[trigger] low[i]) && lower(
        low[i],
    ) == low[i] && (low[i] == '.' <==> name[i] == '.') && (low[i] == '-' <==> name[i] == '-') by {
        assert(is_name_char(name[i]));
        lemma_lower(name[i]);
    }
    assert(ascii_lower(low) =~= low);
    lemma_ascii_bytes(name);
    lemma_ascii_bytes(low);
    let some = choose|i: int| 0 <= i < name.len() && (#[trigger] name[i]) != '.';
    assert(low[some] != '.');
    crate::text::lemma_until(name, '.');
    let n = until(name, '.') as int;
    assert forall|i: int| 0 <= i < n implies low[i] != '.' by {
        assert(name[i] != '.');
    }
    if n < low.len() {
        assert(low[n] == '.');
    }
    lemma_until_is(low, '.', n);
    assert(ascii_lower(low.take(n)) =~= ascii_lower(name.take(n)));
    assert(low.last() == low[low.len() - 1]);
}

/// A name of valid characters takes one byte for each.
proof fn lemma_ascii_bytes(s: Seq<char>)
    requires
        forall|i: int| 0 <= i < s.len() ==> is_name_char(#[trigger] s[i]),
    ensures
        encode_utf8(s).len() == s.len(),
    decreases s.len(),
{
    if s.len() > 0 {
        let rest = s.drop_first();
        assert forall|i: int| 0 <= i < rest.len() implies is_name_char(#[trigger] rest[i]) by {
            assert(rest[i] == s[i + 1]);
        }
        lemma_ascii_bytes(rest);
        assert(is_name_char(s[0]));
        vstd::utf8::char_is_scalar(s[0]);
        reveal_with_fuel(encode_utf8, 2);
    }
}

} // verus!
