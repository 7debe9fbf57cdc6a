//! Shell hooks: which of them a tool call triggers, what they are given, and what their
//! outcome means.

use glob::Pattern;
use vstd::prelude::*;

use crate::hooks::{HookDef, HooksConfig};
use crate::json::{json_text, to_json};
use crate::laws::hooks::law_fields_reach_the_environment;
use crate::mcp_cred_refs::{first_place, lemma_first_place, lemma_first_place_is};
use crate::numbers::{decimal, digits};
use crate::table::{texts_in, StrMap};
use crate::text::{
    chars_of, concat, concat3, find_from, occurs_at, same_text, slice_of, string_of, trim, trimmed,
};
use crate::value::{lookup, text_field_of, Tree, Value};

verus! {

/// Whether the glob `pattern` matches `value`, where a backslash separates the parts of a path
/// or does not. A pattern that is not valid matches nothing.
pub uninterp spec fn glob_matches(
    pattern: Seq<char>,
    value: Seq<char>,
    backslash_separates: bool,
) -> bool;

/// Whether `s` has a backslash.
pub open spec fn has_backslash(s: Seq<char>) -> bool {
    s.contains('\\')
}

/// `Pattern::new` and `Pattern::matches` of the `glob` crate, with no match for a pattern that
/// is not valid: a function of the two texts and of whether a backslash separates the parts
/// of a path, as it does on Windows alone. Which of the two holds is up to the platform; it
/// does not count for texts without a backslash.
#[verifier::external_body]
fn glob_match(pattern: &str, value: &str) -> (r: bool)
    ensures
        r == glob_matches(pattern@, value@, true) || r == glob_matches(pattern@, value@, false),
        !has_backslash(pattern@) && !has_backslash(value@) ==> r == glob_matches(
            pattern@,
            value@,
            true,
        ) && r == glob_matches(pattern@, value@, false),
{
    match Pattern::new(pattern) {
        Ok(p) => p.matches(value),
        Err(_) => false,
    }
}

/// Whether `hit` tells whether `pattern` matches `value`: as on Windows or as elsewhere, which
/// is the same for texts without a backslash.
pub open spec fn is_hit(hit: bool, pattern: Seq<char>, value: Seq<char>) -> bool {
    &&& hit == glob_matches(pattern, value, true) || hit == glob_matches(pattern, value, false)
    &&& !has_backslash(pattern) && !has_backslash(value) ==> hit == glob_matches(
        pattern,
        value,
        true,
    ) && hit == glob_matches(pattern, value, false)
}

/// Whether `hits` tells for each of `patterns` whether it matches `value`.
pub open spec fn are_hits(hits: Seq<bool>, patterns: Seq<String>, value: Seq<char>) -> bool {
    &&& hits.len() == patterns.len()
    &&& forall|i: int|
        0 <= i < patterns.len() ==> is_hit(hits[i], (#[trigger] patterns[i])@, value)
}

/// Whether one of `hits` is a match.
pub open spec fn any_hit(hits: Seq<bool>) -> bool {
    exists|i: int| 0 <= i < hits.len() && #[trigger] hits[i]
}

/// Whether a hook applies, given which of its patterns match: each list of patterns must be
/// empty or have a match. Without a file path no file pattern matches.
pub open spec fn applies(
    hook: HookDef,
    tool_hits: Seq<bool>,
    has_path: bool,
    file_hits: Seq<bool>,
) -> bool {
    &&& hook.tool_match@.len() == 0 || any_hit(tool_hits)
    &&& hook.file_match@.len() == 0 || (has_path && any_hit(file_hits))
}

/// Whether `r` is a right answer to whether `hook` applies to a call of `tool` for the file
/// `path`.
pub open spec fn is_answer_for(r: bool, hook: HookDef, tool: Seq<char>, path: Seq<char>) -> bool {
    exists|t: Seq<bool>, f: Seq<bool>| #[trigger]
        are_hits(t, hook.tool_match@, tool) && #[trigger] are_hits(f, hook.file_match@, path) && r
            == applies(hook, t, true, f)
}

/// Whether `r` is a right answer to whether `hook` applies to a tool call.
pub open spec fn is_answer(r: bool, hook: HookDef, tool: Seq<char>, input: Tree) -> bool {
    match text_field_of(input, "file_path"@) {
        Some(path) => is_answer_for(r, hook, tool, path),
        None => exists|t: Seq<bool>| #[trigger] are_hits(t, hook.tool_match@, tool) && r
            == applies(hook, t, false, Seq::empty()),
    }
}

fn find_hits(patterns: &Vec<String>, value: &str) -> (r: Vec<bool>)
    ensures
        are_hits(r@, patterns@, value@),
{
    let mut out: Vec<bool> = Vec::new();
    let mut i: usize = 0;
    while i < patterns.len()
        invariant
            i <= patterns@.len(),
            out@.len() == i,
            forall|j: int|
                0 <= j < i ==> is_hit(out@[j], (#[trigger] patterns@[j])@, value@),
        decreases patterns.len() - i,
    {
        let hit = glob_match(patterns[i].as_str(), value);
        out.push(hit);
        i = i + 1;
    }
    out
}

fn some_hit(hits: &Vec<bool>) -> (r: bool)
    ensures
        r == any_hit(hits@),
{
    let mut i: usize = 0;
    while i < hits.len()
        invariant
            i <= hits@.len(),
            forall|j: int| 0 <= j < i ==> !#[trigger] hits@[j],
        decreases hits.len() - i,
    {
        if hits[i] {
            return true;
        }
        i = i + 1;
    }
    false
}

/// Whether `hook` applies, given which of its patterns match.
pub fn applies_with(
    hook: &HookDef,
    tool_hits: &Vec<bool>,
    has_path: bool,
    file_hits: &Vec<bool>,
) -> (r: bool)
    ensures
        r == applies(*hook, tool_hits@, has_path, file_hits@),
{
    (hook.tool_match.len() == 0 || some_hit(tool_hits)) && (hook.file_match.len() == 0 || (has_path
        && some_hit(file_hits)))
}

/// Whether `hook` applies to a call of `tool_name` with `input`.
pub fn matches_tool(hook: &HookDef, tool_name: &str, input: &Value) -> (r: bool)
    ensures
        is_answer(r, *hook, tool_name@, input@),
{
    let tool_hits = find_hits(&hook.tool_match, tool_name);
    match input.text_field("file_path") {
        Some(path) => {
            let file_hits = find_hits(&hook.file_match, path);
            let r = applies_with(hook, &tool_hits, true, &file_hits);
            proof {
                assert(are_hits(tool_hits@, hook.tool_match@, tool_name@));
                assert(are_hits(file_hits@, hook.file_match@, path@));
                assert(r == applies(*hook, tool_hits@, true, file_hits@));
                assert(is_answer_for(r, *hook, tool_name@, path@));
            }
            r
        },
        None => {
            let none: Vec<bool> = Vec::new();
            let r = applies_with(hook, &tool_hits, false, &none);
            proof {
                assert(none@ =~= Seq::<bool>::empty());
                assert(are_hits(tool_hits@, hook.tool_match@, tool_name@));
                assert(r == applies(*hook, tool_hits@, false, Seq::empty()));
            }
            r
        },
    }
}

/// Where the patterns, the tool name and the file path have no backslash, whether a hook
/// applies follows from them alone.
pub proof fn law_answer_is_decided(
    a: bool,
    b: bool,
    hook: HookDef,
    tool: Seq<char>,
    input: Tree,
)
    requires
        is_answer(a, hook, tool, input),
        is_answer(b, hook, tool, input),
        !has_backslash(tool),
        forall|i: int|
            0 <= i < hook.tool_match@.len() ==> !has_backslash((#[trigger] hook.tool_match@[i])@),
        forall|i: int|
            0 <= i < hook.file_match@.len() ==> !has_backslash((#[trigger] hook.file_match@[i])@),
        text_field_of(input, "file_path"@) matches Some(path) ==> !has_backslash(path),
    ensures
        a == b,
{
    match text_field_of(input, "file_path"@) {
        Some(path) => {
            let (t, f) = choose|t: Seq<bool>, f: Seq<bool>| #[trigger]
                are_hits(t, hook.tool_match@, tool) && #[trigger] are_hits(f, hook.file_match@, path)
                    && a == applies(hook, t, true, f);
            let (u, g) = choose|t: Seq<bool>, f: Seq<bool>| #[trigger]
                are_hits(t, hook.tool_match@, tool) && #[trigger] are_hits(f, hook.file_match@, path)
                    && b == applies(hook, t, true, f);
            assert(t =~= u) by {
                assert forall|i: int| 0 <= i < t.len() implies t[i] == u[i] by {
                    assert(!has_backslash(hook.tool_match@[i]@));
                }
            }
            assert(f =~= g) by {
                assert forall|i: int| 0 <= i < f.len() implies f[i] == g[i] by {
                    assert(!has_backslash(hook.file_match@[i]@));
                }
            }
        },
        None => {
            let t = choose|t: Seq<bool>| #[trigger] are_hits(t, hook.tool_match@, tool) && a
                == applies(hook, t, false, Seq::empty());
            let u = choose|t: Seq<bool>| #[trigger] are_hits(t, hook.tool_match@, tool) && b
                == applies(hook, t, false, Seq::empty());
            assert(t =~= u) by {
                assert forall|i: int| 0 <= i < t.len() implies t[i] == u[i] by {
                    assert(!has_backslash(hook.tool_match@[i]@));
                }
            }
        },
    }
}

/// Sets `key` in `env` to the string that `input` has under `field`, if it has one.
pub open spec fn with_field(
    env: Map<Seq<char>, Seq<char>>,
    key: Seq<char>,
    input: Tree,
    field: Seq<char>,
) -> Map<Seq<char>, Seq<char>> {
    match text_field_of(input, field) {
        Some(s) => env.insert(key, s),
        None => env,
    }
}

/// The environment of a hook for a call of `tool` with `input`, whose JSON text is
/// `input_text`.
pub open spec fn hook_env(tool: Seq<char>, input: Tree, input_text: Seq<char>) -> Map<
    Seq<char>,
    Seq<char>,
> {
    let base = Map::<Seq<char>, Seq<char>>::empty().insert("TOOL_NAME"@, tool).insert(
        "TOOL_INPUT"@,
        input_text,
    );
    let a = with_field(base, "TOOL_INPUT_FILE_PATH"@, input, "file_path"@);
    let b = with_field(a, "TOOL_INPUT_COMMAND"@, input, "command"@);
    with_field(b, "TOOL_INPUT_PATTERN"@, input, "pattern"@)
}

fn set_variable(env: &mut StrMap<String>, key: &str, value: &str)
    ensures
        texts_in(final(env)@) == texts_in(old(env)@).insert(key@, value@),
{
    let ghost before = env@;
    env.insert(key.to_owned(), value.to_owned());
    proof {
        assert(texts_in(env@) =~= texts_in(before).insert(key@, value@));
    }
}

fn set_from_field(env: &mut StrMap<String>, key: &str, input: &Value, field: &str)
    ensures
        texts_in(final(env)@) == with_field(texts_in(old(env)@), key@, input@, field@),
{
    match input.text_field(field) {
        Some(s) => {
            set_variable(env, key, s);
        },
        None => {},
    }
}

/// The environment of a hook for a call of `tool_name` with `input`, whose JSON text is
/// `input_text`.
pub fn env_vars_with(tool_name: &str, input: &Value, input_text: &str) -> (r: StrMap<String>)
    ensures
        texts_in(r@) == hook_env(tool_name@, input@, input_text@),
        input@ is Table ==> (lookup(input@->Table_0, "file_path"@) matches Some(Tree::Text(s))
            ==> r@.contains_key("TOOL_INPUT_FILE_PATH"@) && r@["TOOL_INPUT_FILE_PATH"@]@ == s),
        input@ is Table ==> (lookup(input@->Table_0, "command"@) matches Some(Tree::Text(s))
            ==> r@.contains_key("TOOL_INPUT_COMMAND"@) && r@["TOOL_INPUT_COMMAND"@]@ == s),
        input@ is Table ==> (lookup(input@->Table_0, "pattern"@) matches Some(Tree::Text(s))
            ==> r@.contains_key("TOOL_INPUT_PATTERN"@) && r@["TOOL_INPUT_PATTERN"@]@ == s),
{
    let mut env: StrMap<String> = StrMap::new();
    proof {
        assert(texts_in(env@) =~= Map::empty());
    }
    set_variable(&mut env, "TOOL_NAME", tool_name);
    set_variable(&mut env, "TOOL_INPUT", input_text);
    set_from_field(&mut env, "TOOL_INPUT_FILE_PATH", input, "file_path");
    set_from_field(&mut env, "TOOL_INPUT_COMMAND", input, "command");
    set_from_field(&mut env, "TOOL_INPUT_PATTERN", input, "pattern");
    proof {
        if let Tree::Table(fields) = input@ {
            law_fields_reach_the_environment(env@, tool_name@, fields, input_text@);
        }
    }
    env
}

/// The environment of a hook for a call of `tool_name` with `input`.
pub fn build_env_vars(tool_name: &str, input: &Value) -> (r: StrMap<String>)
    ensures
        texts_in(r@) == hook_env(tool_name@, input@, json_text(input@)),
        input@ is Table ==> (lookup(input@->Table_0, "file_path"@) matches Some(Tree::Text(s))
            ==> r@.contains_key("TOOL_INPUT_FILE_PATH"@) && r@["TOOL_INPUT_FILE_PATH"@]@ == s),
        input@ is Table ==> (lookup(input@->Table_0, "command"@) matches Some(Tree::Text(s))
            ==> r@.contains_key("TOOL_INPUT_COMMAND"@) && r@["TOOL_INPUT_COMMAND"@]@ == s),
        input@ is Table ==> (lookup(input@->Table_0, "pattern"@) matches Some(Tree::Text(s))
            ==> r@.contains_key("TOOL_INPUT_PATTERN"@) && r@["TOOL_INPUT_PATTERN"@]@ == s),
{
    env_vars_with(tool_name, input, to_json(input).as_str())
}

/// `s` with each `needle` replaced by `with`, from left to right.
pub open spec fn replaced(s: Seq<char>, needle: Seq<char>, with: Seq<char>) -> Seq<char>
    decreases s.len(),
{
    match first_place(s, needle) {
        Some(at) if needle.len() > 0 && 0 <= at && at + needle.len() <= s.len() => s.take(at) + with
            + replaced(s.skip(at + needle.len()), needle, with),
        _ => s,
    }
}

fn replace(s: &Vec<char>, needle: &Vec<char>, with: &Vec<char>) -> (r: Vec<char>)
    requires
        needle@.len() > 0,
    ensures
        r@ == replaced(s@, needle@, with@),
{
    let mut out: Vec<char> = Vec::new();
    let mut from: usize = 0;
    proof {
        assert(s@.skip(0) =~= s@);
        assert(out@ + replaced(s@, needle@, with@) =~= replaced(s@, needle@, with@));
    }
    loop
        invariant
            needle@.len() > 0,
            from <= s@.len(),
            out@ + replaced(s@.skip(from as int), needle@, with@) == replaced(s@, needle@, with@),
        decreases s@.len() - from,
    {
        let ghost rest = s@.skip(from as int);
        let ghost n = needle@.len() as int;
        proof {
            assert forall|j: int| j >= 0 implies occurs_at(rest, needle@, j) == occurs_at(
                s@,
                needle@,
                from + j,
            ) by {
                if from + j + n <= s@.len() {
                    assert(rest.subrange(j, j + n) =~= s@.subrange(from + j, from + j + n));
                }
            }
        }
        match find_from(s, needle, from) {
            None => {
                proof {
                    lemma_first_place(rest, needle@);
                    match first_place(rest, needle@) {
                        Some(i) => {
                            assert(occurs_at(s@, needle@, from + i));
                        },
                        None => {},
                    }
                    assert(rest =~= s@.subrange(from as int, s@.len() as int));
                }
                let mut tail = slice_of(s, from, s.len());
                out.append(&mut tail);
                return out;
            },
            Some(at) => {
                proof {
                    assert(occurs_at(rest, needle@, at - from));
                    assert forall|j: int| 0 <= j < at - from implies !occurs_at(rest, needle@, j) by {
                        assert(!occurs_at(s@, needle@, from + j));
                    }
                    lemma_first_place_is(rest, needle@, at - from);
                    assert(occurs_at(s@, needle@, at as int));
                    assert(at + needle.len() <= s.len());
                    assert(rest.skip(at - from + n) =~= s@.skip(at + n));
                    assert(s@.subrange(from as int, at as int) =~= rest.take(at - from));
                }
                let ghost before = out@;
                let mut plain = slice_of(s, from, at);
                let mut put = slice_of(with, 0, with.len());
                out.append(&mut plain);
                out.append(&mut put);
                proof {
                    assert(with@.subrange(0, with@.len() as int) =~= with@);
                    let more = replaced(s@.skip(at + n), needle@, with@);
                    assert(out@ + more =~= before + (rest.take(at - from) + with@ + more));
                }
                from = at + needle.len();
            },
        }
    }
}

/// A command with the reference to each of `keys` in the form of the Windows shell.
pub open spec fn shellified(command: Seq<char>, keys: Seq<String>) -> Seq<char>
    decreases keys.len(),
{
    if keys.len() == 0 {
        command
    } else {
        let key = keys.last()@;
        replaced(
            shellified(command, keys.drop_last()),
            "${"@ + key + "}"@,
            "!"@ + key + "!"@,
        )
    }
}

/// The command as the shell gets it. References `${KEY}` are left to a POSIX shell and become
/// `!KEY!` for the Windows shell; the values are never put into the command.
pub fn shellify_hook_vars(command: &str, keys: &Vec<String>, windows: bool) -> (r: String)
    ensures
        r@ == if windows {
            shellified(command@, keys@)
        } else {
            command@
        },
{
    if !windows {
        return command.to_owned();
    }
    let mut out = chars_of(command);
    let mut i: usize = 0;
    proof {
        assert(keys@.take(0) =~= Seq::empty());
    }
    while i < keys.len()
        invariant
            i <= keys@.len(),
            out@ == shellified(command@, keys@.take(i as int)),
        decreases keys.len() - i,
    {
        let needle = chars_of(concat3("${", keys[i].as_str(), "}").as_str());
        let with = chars_of(concat3("!", keys[i].as_str(), "!").as_str());
        proof {
            reveal_strlit("${");
            assert(needle@.len() > 0);
            assert(keys@.take(i as int + 1).drop_last() =~= keys@.take(i as int));
            assert(keys@.take(i as int + 1).last() == keys@[i as int]);
        }
        out = replace(&out, &needle, &with);
        i = i + 1;
    }
    proof {
        assert(keys@.take(keys@.len() as int) =~= keys@);
    }
    string_of(&out)
}

/// Why a hook stopped a tool call or could not run.
#[derive(Debug)]
pub enum HookError {
    /// The hook refused the call.
    Blocked {
        /// The name of the hook.
        hook_name: String,
        /// What it printed.
        output: String,
    },
    /// The command could not be run, with the reason.
    ExecutionFailed(String),
    /// The command took longer than this many milliseconds.
    Timeout(u64),
}

impl HookError {
    /// What the error says to the user.
    pub open spec fn says(self) -> Seq<char> {
        match self {
            HookError::Blocked { hook_name, output } => "Hook '"@ + hook_name@
                + "' blocked execution: "@ + output@,
            HookError::ExecutionFailed(why) => "Hook execution failed: "@ + why@,
            HookError::Timeout(ms) => "Hook timed out after "@ + digits(ms as nat, 10) + "ms"@,
        }
    }

    /// What the error says to the user.
    pub fn message(&self) -> (r: String)
        ensures
            r@ == self.says(),
    {
        match self {
            HookError::Blocked { hook_name, output } => {
                let head = concat3("Hook '", hook_name.as_str(), "' blocked execution: ");
                concat(head.as_str(), output.as_str())
            },
            HookError::ExecutionFailed(why) => concat("Hook execution failed: ", why.as_str()),
            HookError::Timeout(ms) => concat3(
                "Hook timed out after ",
                decimal(*ms).as_str(),
                "ms",
            ),
        }
    }
}

/// What a hook that ran came to.
#[derive(Debug)]
pub struct HookResult {
    /// Its command succeeded.
    pub success: bool,
    /// What it printed.
    pub output: String,
}

/// How running a command ended.
pub enum CommandOutcome {
    /// It ran.
    Finished {
        /// It succeeded.
        success: bool,
        /// Its standard output.
        stdout: String,
        /// Its standard error.
        stderr: String,
    },
    /// It could not be started, with the reason.
    NotRun(String),
    /// It was still running when its time was over.
    TimedOut,
}

/// Both outputs of a command as one: the one that is not empty, or both with a newline
/// between them.
pub open spec fn combined(stdout: Seq<char>, stderr: Seq<char>) -> Seq<char> {
    if stderr.len() == 0 {
        stdout
    } else if stdout.len() == 0 {
        stderr
    } else {
        stdout + "\n"@ + stderr
    }
}

/// What running the command of a hook came to.
pub fn hook_result(outcome: CommandOutcome, timeout_ms: u64) -> (r: Result<HookResult, HookError>)
    ensures
        match outcome {
            CommandOutcome::Finished { success, stdout, stderr } => r matches Ok(h) && h.success
                == success && h.output@ == combined(stdout@, stderr@),
            CommandOutcome::NotRun(why) => r matches Err(HookError::ExecutionFailed(w)) && w == why,
            CommandOutcome::TimedOut => r matches Err(HookError::Timeout(ms)) && ms == timeout_ms,
        },
{
    match outcome {
        CommandOutcome::Finished { success, stdout, stderr } => {
            let output = if stderr.as_str().is_empty() {
                stdout
            } else if stdout.as_str().is_empty() {
                stderr
            } else {
                concat3(stdout.as_str(), "\n", stderr.as_str())
            };
            Ok(HookResult { success, output })
        },
        CommandOutcome::NotRun(why) => Err(HookError::ExecutionFailed(why)),
        CommandOutcome::TimedOut => Err(HookError::Timeout(timeout_ms)),
    }
}

/// Whether a tool call may go on after a hook: an error of the hook stops it, and so does a
/// command that failed.
pub fn after_pre_hook(hook: &HookDef, result: Result<HookResult, HookError>) -> (r: Result<
    (),
    HookError,
>)
    ensures
        match result {
            Ok(h) => if h.success {
                r is Ok
            } else {
                r matches Err(HookError::Blocked { hook_name, output }) && hook_name@ == hook.name@
                    && output == h.output
            },
            Err(e) => r == Err::<(), HookError>(e),
        },
{
    match result {
        Ok(h) => if h.success {
            Ok(())
        } else {
            Err(HookError::Blocked { hook_name: hook.name.clone(), output: h.output })
        },
        Err(e) => Err(e),
    }
}

/// What is reported of a hook that ran after a tool call or at the end: its output without
/// the white space around it, nothing where it printed nothing, or its error.
pub open spec fn report(name: Seq<char>, result: Result<HookResult, HookError>) -> Option<Seq<char>> {
    match result {
        Ok(h) => if h.output@.len() == 0 {
            None
        } else {
            Some("[hook:"@ + name + "] "@ + trimmed(h.output@))
        },
        Err(e) => Some("[hook:"@ + name + "] error: "@ + e.says()),
    }
}

/// What is reported of a hook that ran after a tool call or at the end.
pub fn hook_report(hook: &HookDef, result: &Result<HookResult, HookError>) -> (r: Option<String>)
    ensures
        match r {
            Some(m) => report(hook.name@, *result) == Some(m@),
            None => report(hook.name@, *result) is None,
        },
{
    match result {
        Ok(h) => {
            if h.output.as_str().is_empty() {
                None
            } else {
                let head = concat3("[hook:", hook.name.as_str(), "] ");
                Some(concat(head.as_str(), trim(h.output.as_str()).as_str()))
            }
        },
        Err(e) => {
            let head = concat3("[hook:", hook.name.as_str(), "] error: ");
            Some(concat(head.as_str(), e.message().as_str()))
        },
    }
}

/// The places at which `answers` is true, in ascending order.
pub open spec fn places(answers: Seq<bool>) -> Seq<int>
    decreases answers.len(),
{
    if answers.len() == 0 {
        Seq::empty()
    } else if answers.last() {
        places(answers.drop_last()).push(answers.len() - 1)
    } else {
        places(answers.drop_last())
    }
}

/// Whether `r` are the places of the hooks that apply to a tool call, in order.
pub open spec fn are_triggered(
    r: Seq<usize>,
    hooks: Seq<HookDef>,
    tool: Seq<char>,
    input: Tree,
) -> bool {
    exists|answers: Seq<bool>|
        answers.len() == hooks.len() && (forall|i: int|
            0 <= i < hooks.len() ==> is_answer(#[trigger] answers[i], hooks[i], tool, input))
            && r.map_values(|i: usize| i as int) == #[trigger] places(answers)
}

fn triggered(hooks: &Vec<HookDef>, tool_name: &str, input: &Value) -> (r: Vec<usize>)
    ensures
        are_triggered(r@, hooks@, tool_name@, input@),
{
    let mut out: Vec<usize> = Vec::new();
    let ghost mut answers: Seq<bool> = Seq::empty();
    let mut i: usize = 0;
    proof {
        assert(out@.map_values(|i: usize| i as int) =~= places(answers));
    }
    while i < hooks.len()
        invariant
            i <= hooks@.len(),
            answers.len() == i,
            forall|j: int|
                0 <= j < i ==> is_answer(#[trigger] answers[j], hooks@[j], tool_name@, input@),
            out@.map_values(|i: usize| i as int) == places(answers),
        decreases hooks.len() - i,
    {
        let ghost was = out@;
        let yes = matches_tool(&hooks[i], tool_name, input);
        proof {
            let more = answers.push(yes);
            assert(more.drop_last() =~= answers);
            answers = more;
        }
        if yes {
            out.push(i);
            proof {
                assert(out@.map_values(|i: usize| i as int) =~= was.map_values(
                    |i: usize| i as int,
                ).push(i as int));
            }
        }
        i = i + 1;
    }
    out
}

/// Whether `list` has a hook with this name.
pub open spec fn has_name(list: Seq<HookDef>, name: Seq<char>) -> bool {
    exists|i: int| 0 <= i < list.len() && (#[trigger] list[i]).name@ == name
}

/// `list` with the hooks of `more` behind it whose names it does not have.
pub open spec fn with_hooks(list: Seq<HookDef>, more: Seq<HookDef>) -> Seq<HookDef>
    decreases more.len(),
{
    if more.len() == 0 {
        list
    } else {
        let before = with_hooks(list, more.drop_last());
        if has_name(before, more.last().name@) {
            before
        } else {
            before.push(more.last())
        }
    }
}

fn knows_name(list: &Vec<HookDef>, name: &str) -> (r: bool)
    ensures
        r == has_name(list@, name@),
{
    let mut i: usize = 0;
    while i < list.len()
        invariant
            i <= list@.len(),
            forall|j: int| 0 <= j < i ==> (#[trigger] list@[j]).name@ != name@,
        decreases list.len() - i,
    {
        if same_text(list[i].name.as_str(), name) {
            return true;
        }
        i = i + 1;
    }
    false
}

fn merge_vec(existing: Vec<HookDef>, incoming: Vec<HookDef>) -> (r: Vec<HookDef>)
    ensures
        r@ == with_hooks(existing@, incoming@),
{
    let ghost all = incoming@;
    let mut rest = incoming;
    let mut queue: Vec<HookDef> = Vec::new();
    while rest.len() > 0
        invariant
            rest@.len() <= all.len(),
            rest@ == all.take(rest@.len() as int),
            queue@.len() == all.len() - rest@.len(),
            forall|i: int| 0 <= i < queue@.len() ==> queue@[i] == all[all.len() - 1 - i],
        decreases rest@.len(),
    {
        let ghost before = rest@;
        let hook = rest.pop().unwrap();
        proof {
            assert(before.last() == all[before.len() - 1]);
            assert(rest@ =~= all.take(rest@.len() as int));
        }
        queue.push(hook);
    }
    let ghost backwards = queue@;
    let mut out = existing;
    proof {
        assert(all.take(0) =~= Seq::empty());
    }
    while queue.len() > 0
        invariant
            backwards.len() == all.len(),
            queue@.len() <= backwards.len(),
            queue@ == backwards.take(queue@.len() as int),
            forall|i: int| 0 <= i < backwards.len() ==> backwards[i] == all[all.len() - 1 - i],
            out@ == with_hooks(existing@, all.take(all.len() - queue@.len())),
        decreases queue@.len(),
    {
        let ghost before = queue@;
        let hook = queue.pop().unwrap();
        proof {
            let at = before.len() - 1;
            assert(before.last() == backwards[at]);
            assert(hook == all[all.len() - 1 - at]);
            assert(queue@ =~= backwards.take(queue@.len() as int));
            let next = all.take(all.len() - queue@.len());
            assert(next.drop_last() =~= all.take(all.len() - before.len()));
            assert(next.last() == hook);
        }
        if !knows_name(&out, hook.name.as_str()) {
            out.push(hook);
        }
    }
    proof {
        assert(all.take(all.len() as int) =~= all);
    }
    out
}

/// The hooks of a session.
pub struct ShellHooks {
    /// Their configuration.
    pub config: HooksConfig,
}

impl ShellHooks {
    /// The hooks of `config`.
    pub fn new(config: HooksConfig) -> (r: Self)
        ensures
            r.config == config,
    {
        ShellHooks { config }
    }

    /// The places of the hooks to run before a tool call, in order.
    pub fn run_pre_tool_use(&self, tool_name: &str, input: &Value) -> (r: Vec<usize>)
        ensures
            are_triggered(r@, self.config.pre_tool_use@, tool_name@, input@),
    {
        triggered(&self.config.pre_tool_use, tool_name, input)
    }

    /// The places of the hooks to run after a tool call, in order, and their environment.
    pub fn run_post_tool_use(
        &self,
        tool_name: &str,
        input: &Value,
        tool_output: &str,
    ) -> (r: (Vec<usize>, StrMap<String>))
        ensures
            are_triggered(r.0@, self.config.post_tool_use@, tool_name@, input@),
            texts_in(r.1@) == hook_env(tool_name@, input@, json_text(input@)).insert(
                "TOOL_OUTPUT"@,
                tool_output@,
            ),
    {
        let mut env = build_env_vars(tool_name, input);
        set_variable(&mut env, "TOOL_OUTPUT", tool_output);
        (triggered(&self.config.post_tool_use, tool_name, input), env)
    }

    /// The hooks to run at the end of a session, all of them in order.
    pub fn run_stop(&self) -> (r: &Vec<HookDef>)
        ensures
            r == self.config.stop,
    {
        &self.config.stop
    }

    /// Whether there is any hook.
    pub fn has_hooks(&self) -> (r: bool)
        ensures
            r == (self.config.pre_tool_use@.len() > 0 || self.config.post_tool_use@.len() > 0
                || self.config.stop@.len() > 0),
    {
        self.config.pre_tool_use.len() > 0 || self.config.post_tool_use.len() > 0
            || self.config.stop.len() > 0
    }

    /// Adds the hooks of `additional` whose names are not taken. The other settings stay.
    pub fn merge_hooks(&mut self, additional: HooksConfig)
        ensures
            final(self).config.pre_tool_use@ == with_hooks(
                old(self).config.pre_tool_use@,
                additional.pre_tool_use@,
            ),
            final(self).config.post_tool_use@ == with_hooks(
                old(self).config.post_tool_use@,
                additional.post_tool_use@,
            ),
            final(self).config.stop@ == with_hooks(old(self).config.stop@, additional.stop@),
            final(self).config.dispatch_enabled == old(self).config.dispatch_enabled,
            final(self).config.trust_project_hooks == old(self).config.trust_project_hooks,
    {
        let mut pre: Vec<HookDef> = Vec::new();
        let mut post: Vec<HookDef> = Vec::new();
        let mut stop: Vec<HookDef> = Vec::new();
        std::mem::swap(&mut pre, &mut self.config.pre_tool_use);
        std::mem::swap(&mut post, &mut self.config.post_tool_use);
        std::mem::swap(&mut stop, &mut self.config.stop);
        self.config.pre_tool_use = merge_vec(pre, additional.pre_tool_use);
        self.config.post_tool_use = merge_vec(post, additional.post_tool_use);
        self.config.stop = merge_vec(stop, additional.stop);
    }
}

proof fn lemma_names_kept(list: Seq<HookDef>, more: Seq<HookDef>)
    ensures
        forall|n: Seq<char>| has_name(list, n) ==> #[trigger] has_name(with_hooks(list, more), n),
        forall|i: int|
            0 <= i < more.len() ==> has_name(
                with_hooks(list, more),
                (#[trigger] more[i]).name@,
            ),
    decreases more.len(),
{
    if more.len() > 0 {
        let less = more.drop_last();
        let before = with_hooks(list, less);
        let after = with_hooks(list, more);
        lemma_names_kept(list, less);
        assert forall|n: Seq<char>| has_name(before, n) implies has_name(after, n) by {
            let i = choose|i: int| 0 <= i < before.len() && (#[trigger] before[i]).name@ == n;
            assert(after[i].name@ == n);
        }
        assert forall|i: int| 0 <= i < more.len() implies has_name(
            after,
            (#[trigger] more[i]).name@,
        ) by {
            if i < less.len() {
                assert(less[i] == more[i]);
                assert(has_name(before, less[i].name@));
            } else if !has_name(before, more.last().name@) {
                assert(after[after.len() - 1].name@ == more[i].name@);
            }
        }
    }
}

proof fn lemma_known_add_nothing(list: Seq<HookDef>, more: Seq<HookDef>)
    requires
        forall|i: int| 0 <= i < more.len() ==> has_name(list, (#[trigger] more[i]).name@),
    ensures
        with_hooks(list, more) == list,
    decreases more.len(),
{
    if more.len() > 0 {
        let less = more.drop_last();
        assert forall|i: int| 0 <= i < less.len() implies has_name(
            list,
            (#[trigger] less[i]).name@,
        ) by {
            assert(less[i] == more[i]);
        }
        lemma_known_add_nothing(list, less);
        assert(has_name(list, more[more.len() - 1].name@));
    }
}

/// Adding the same hooks again changes nothing.
pub proof fn law_merging_hooks_is_idempotent(list: Seq<HookDef>, more: Seq<HookDef>)
    ensures
        with_hooks(with_hooks(list, more), more) == with_hooks(list, more),
{
    lemma_names_kept(list, more);
    lemma_known_add_nothing(with_hooks(list, more), more);
}

/// Merging keeps the hooks that were there, in their places.
pub proof fn law_merging_hooks_keeps_the_old_ones(list: Seq<HookDef>, more: Seq<HookDef>)
    ensures
        list.is_prefix_of(with_hooks(list, more)),
    decreases more.len(),
{
    if more.len() > 0 {
        law_merging_hooks_keeps_the_old_ones(list, more.drop_last());
    }
}

} // verus!
