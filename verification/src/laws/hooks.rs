//! What a hook is told, when it runs, what is said of it, and what a plugin's text may hold.

use crate::hooks::HookDef;
use crate::hooks::framing::{
    ident_of, law_neutral_text_opens_no_host_tag, neutral, opens, opens_host_tag,
};
use crate::hooks::shell::{
    any_hit, applies, are_hits, are_triggered, combined, glob_matches, has_name, hook_env,
    is_answer, is_hit, places, report, shellified, with_hooks, HookError, HookResult,
};
use crate::mcp_cred_refs::first_place;
use crate::numbers::digits;
use crate::table::texts_in;
use crate::text::{ascii_lower, trimmed};
use crate::value::{lookup, Tree};
use vstd::prelude::*;

verus! {

/// The environment of a hook holds the tool's name and its whole input, and of the input's fields
/// `file_path`, `command` and `pattern` each that is a text, under its own variable. It holds
/// nothing else.
pub proof fn law_fields_reach_the_environment(
    env: Map<Seq<char>, String>,
    tool: Seq<char>,
    fields: Seq<(Seq<char>, Tree)>,
    input_text: Seq<char>,
)
    requires
        texts_in(env) == hook_env(tool, Tree::Table(fields), input_text),
    ensures
        env.contains_key("TOOL_NAME"@) && env["TOOL_NAME"@]@ == tool,
        env.contains_key("TOOL_INPUT"@) && env["TOOL_INPUT"@]@ == input_text,
        match lookup(fields, "file_path"@) {
            Some(Tree::Text(s)) => env.contains_key("TOOL_INPUT_FILE_PATH"@)
                && env["TOOL_INPUT_FILE_PATH"@]@ == s,
            _ => !env.contains_key("TOOL_INPUT_FILE_PATH"@),
        },
        match lookup(fields, "command"@) {
            Some(Tree::Text(s)) => env.contains_key("TOOL_INPUT_COMMAND"@)
                && env["TOOL_INPUT_COMMAND"@]@ == s,
            _ => !env.contains_key("TOOL_INPUT_COMMAND"@),
        },
        match lookup(fields, "pattern"@) {
            Some(Tree::Text(s)) => env.contains_key("TOOL_INPUT_PATTERN"@)
                && env["TOOL_INPUT_PATTERN"@]@ == s,
            _ => !env.contains_key("TOOL_INPUT_PATTERN"@),
        },
        forall|k: Seq<char>| #[trigger]
            env.contains_key(k) ==> k == "TOOL_NAME"@ || k == "TOOL_INPUT"@ || k
                == "TOOL_INPUT_FILE_PATH"@ || k == "TOOL_INPUT_COMMAND"@ || k
                == "TOOL_INPUT_PATTERN"@,
{
    lemma_variable_names();
    let goal = hook_env(tool, Tree::Table(fields), input_text);
    assert forall|k: Seq<char>| env.contains_key(k) <==> #[trigger] goal.contains_key(k) by {
        assert(texts_in(env).contains_key(k) <==> env.contains_key(k));
    }
    assert forall|k: Seq<char>| #[trigger] goal.contains_key(k) implies env[k]@ == goal[k] by {
        assert(texts_in(env)[k] == env[k]@);
    }
    assert(goal.contains_key("TOOL_NAME"@));
    assert(goal.contains_key("TOOL_INPUT"@));
    assert(goal.contains_key("TOOL_INPUT_FILE_PATH"@) <==> lookup(fields, "file_path"@)
        matches Some(Tree::Text(_)));
    assert(goal.contains_key("TOOL_INPUT_COMMAND"@) <==> lookup(fields, "command"@)
        matches Some(Tree::Text(_)));
    assert(goal.contains_key("TOOL_INPUT_PATTERN"@) <==> lookup(fields, "pattern"@)
        matches Some(Tree::Text(_)));
    assert forall|k: Seq<char>| #[trigger] env.contains_key(k) implies k == "TOOL_NAME"@ || k
        == "TOOL_INPUT"@ || k == "TOOL_INPUT_FILE_PATH"@ || k == "TOOL_INPUT_COMMAND"@ || k
        == "TOOL_INPUT_PATTERN"@ by {
        assert(goal.contains_key(k));
    }
}

/// An input that is no table gives a hook the tool's name and the input's text alone.
pub proof fn law_plain_input_has_no_fields(
    env: Map<Seq<char>, String>,
    tool: Seq<char>,
    input: Tree,
    input_text: Seq<char>,
)
    requires
        texts_in(env) == hook_env(tool, input, input_text),
        !(input is Table),
    ensures
        env.contains_key("TOOL_NAME"@) && env["TOOL_NAME"@]@ == tool,
        env.contains_key("TOOL_INPUT"@) && env["TOOL_INPUT"@]@ == input_text,
        forall|k: Seq<char>| #[trigger]
            env.contains_key(k) ==> k == "TOOL_NAME"@ || k == "TOOL_INPUT"@,
{
    lemma_variable_names();
    let goal = hook_env(tool, input, input_text);
    assert forall|k: Seq<char>| env.contains_key(k) <==> #[trigger] goal.contains_key(k) by {
        assert(texts_in(env).contains_key(k) <==> env.contains_key(k));
    }
    assert forall|k: Seq<char>| #[trigger] goal.contains_key(k) implies env[k]@ == goal[k] by {
        assert(texts_in(env)[k] == env[k]@);
    }
    assert(goal.contains_key("TOOL_NAME"@));
    assert(goal.contains_key("TOOL_INPUT"@));
    assert forall|k: Seq<char>| #[trigger] env.contains_key(k) implies k == "TOOL_NAME"@ || k
        == "TOOL_INPUT"@ by {
        assert(goal.contains_key(k));
    }
}

proof fn lemma_variable_names()
    ensures
        "TOOL_NAME"@.len() == 9,
        "TOOL_INPUT"@.len() == 10,
        "TOOL_INPUT_FILE_PATH"@.len() == 20,
        "TOOL_INPUT_COMMAND"@.len() == 18,
        "TOOL_INPUT_PATTERN"@.len() == 18,
        "TOOL_INPUT_COMMAND"@ != "TOOL_INPUT_PATTERN"@,
{
    reveal_strlit("TOOL_NAME");
    reveal_strlit("TOOL_INPUT");
    reveal_strlit("TOOL_INPUT_FILE_PATH");
    reveal_strlit("TOOL_INPUT_COMMAND");
    reveal_strlit("TOOL_INPUT_PATTERN");
    assert("TOOL_INPUT_COMMAND"@[11] == 'C');
    assert("TOOL_INPUT_PATTERN"@[11] == 'P');
}

/// A hook without patterns runs always. One with tool patterns runs only where one of them hits,
/// and one with file patterns only where the input names a file and one of them hits.
pub proof fn law_when_a_hook_applies(
    hook: HookDef,
    tool_hits: Seq<bool>,
    has_path: bool,
    file_hits: Seq<bool>,
)
    ensures
        hook.tool_match@.len() == 0 && hook.file_match@.len() == 0 ==> applies(
            hook,
            tool_hits,
            has_path,
            file_hits,
        ),
        hook.tool_match@.len() > 0 && !tool_hits.contains(true) ==> !applies(
            hook,
            tool_hits,
            has_path,
            file_hits,
        ),
        hook.file_match@.len() > 0 && !has_path ==> !applies(hook, tool_hits, has_path, file_hits),
        hook.file_match@.len() > 0 && !file_hits.contains(true) ==> !applies(
            hook,
            tool_hits,
            has_path,
            file_hits,
        ),
        tool_hits.contains(true) && hook.file_match@.len() == 0 ==> applies(
            hook,
            tool_hits,
            has_path,
            file_hits,
        ),
        hook.tool_match@.len() == 0 && has_path && file_hits.contains(true) ==> applies(
            hook,
            tool_hits,
            has_path,
            file_hits,
        ),
        tool_hits.contains(true) && has_path && file_hits.contains(true) ==> applies(
            hook,
            tool_hits,
            has_path,
            file_hits,
        ),
{
    assert(any_hit(tool_hits) <==> tool_hits.contains(true)) by {
        if any_hit(tool_hits) {
            let i = choose|i: int| 0 <= i < tool_hits.len() && #[trigger] tool_hits[i];
            assert(tool_hits[i] == true);
        }
        if tool_hits.contains(true) {
            let i = choose|i: int| 0 <= i < tool_hits.len() && tool_hits[i] == true;
            assert(tool_hits[i]);
        }
    }
    assert(any_hit(file_hits) <==> file_hits.contains(true)) by {
        if any_hit(file_hits) {
            let i = choose|i: int| 0 <= i < file_hits.len() && #[trigger] file_hits[i];
            assert(file_hits[i] == true);
        }
        if file_hits.contains(true) {
            let i = choose|i: int| 0 <= i < file_hits.len() && file_hits[i] == true;
            assert(file_hits[i]);
        }
    }
}

/// The same of the answer for a tool and its input: a hook without patterns is answered yes, a hook
/// with file patterns no where the input names no file, a hook none of whose tool patterns match
/// no, and a hook without file patterns one of whose tool patterns matches yes.
pub proof fn law_answers_follow_the_patterns(
    r: bool,
    hook: HookDef,
    tool: Seq<char>,
    fields: Seq<(Seq<char>, Tree)>,
    i: int,
)
    requires
        is_answer(r, hook, tool, Tree::Table(fields)),
    ensures
        hook.tool_match@.len() == 0 && hook.file_match@.len() == 0 ==> r,
        hook.file_match@.len() > 0 && !(lookup(fields, "file_path"@) matches Some(Tree::Text(_)))
            ==> !r,
        hook.tool_match@.len() > 0 && (forall|j: int|
            0 <= j < hook.tool_match@.len() ==> !glob_matches(
                (#[trigger] hook.tool_match@[j])@,
                tool,
                true,
            ) && !glob_matches(hook.tool_match@[j]@, tool, false)) ==> !r,
        hook.file_match@.len() == 0 && 0 <= i < hook.tool_match@.len() && glob_matches(
            hook.tool_match@[i]@,
            tool,
            true,
        ) && glob_matches(hook.tool_match@[i]@, tool, false) ==> r,
{
    let no_hit = forall|j: int|
        0 <= j < hook.tool_match@.len() ==> !glob_matches(
            (#[trigger] hook.tool_match@[j])@,
            tool,
            true,
        ) && !glob_matches(hook.tool_match@[j]@, tool, false);
    match lookup(fields, "file_path"@) {
        Some(Tree::Text(path)) => {
            let (t, f) = choose|t: Seq<bool>, f: Seq<bool>| #[trigger]
                are_hits(t, hook.tool_match@, tool) && #[trigger] are_hits(
                    f,
                    hook.file_match@,
                    path,
                ) && r == applies(hook, t, true, f);
            lemma_hits_decide(t, hook.tool_match@, tool, no_hit, i);
            law_when_a_hook_applies(hook, t, true, f);
        },
        _ => {
            let t = choose|t: Seq<bool>| #[trigger] are_hits(t, hook.tool_match@, tool) && r
                == applies(hook, t, false, Seq::empty());
            lemma_hits_decide(t, hook.tool_match@, tool, no_hit, i);
            law_when_a_hook_applies(hook, t, false, Seq::empty());
        },
    }
}

proof fn lemma_hits_decide(
    hits: Seq<bool>,
    patterns: Seq<String>,
    value: Seq<char>,
    none: bool,
    i: int,
)
    requires
        are_hits(hits, patterns, value),
        none ==> forall|j: int|
            0 <= j < patterns.len() ==> !glob_matches((#[trigger] patterns[j])@, value, true)
                && !glob_matches(patterns[j]@, value, false),
    ensures
        none ==> !hits.contains(true),
        0 <= i < patterns.len() && glob_matches(patterns[i]@, value, true) && glob_matches(
            patterns[i]@,
            value,
            false,
        ) ==> hits.contains(true),
{
    if none {
        assert forall|j: int| 0 <= j < hits.len() implies hits[j] == false by {
            assert(is_hit(hits[j], patterns[j]@, value));
        }
    }
    if 0 <= i < patterns.len() && glob_matches(patterns[i]@, value, true) && glob_matches(
        patterns[i]@,
        value,
        false,
    ) {
        assert(is_hit(hits[i], patterns[i]@, value));
        assert(hits[i] == true);
    }
}

/// The hooks to run are listed by their places, each once and in ascending order: exactly those
/// answered yes.
pub proof fn law_places_of_the_answers(answers: Seq<bool>, i: int)
    ensures
        places(answers).contains(i) <==> 0 <= i < answers.len() && answers[i],
        forall|a: int, b: int|
            0 <= a < b < places(answers).len() ==> #[trigger] places(answers)[a]
                < #[trigger] places(answers)[b],
        forall|a: int|
            0 <= a < places(answers).len() ==> 0 <= #[trigger] places(answers)[a] < answers.len(),
    decreases answers.len(),
{
    if answers.len() > 0 {
        let front = answers.drop_last();
        law_places_of_the_answers(front, i);
        let before = places(front);
        if answers.last() {
            let all = before.push(answers.len() - 1);
            assert(all.last() == answers.len() - 1);
            if all.contains(i) {
                let k = choose|k: int| 0 <= k < all.len() && all[k] == i;
                if k < before.len() {
                    assert(before[k] == i);
                }
            }
            if before.contains(i) {
                let k = choose|k: int| 0 <= k < before.len() && before[k] == i;
                assert(all[k] == i);
            }
            if i == answers.len() - 1 {
                assert(all[before.len() as int] == i);
            }
        }
    }
}

/// The hooks that are run for a tool: in their order, each once, each one that is there, and never
/// one with file patterns where the input names no file.
pub proof fn law_triggered_hooks(
    r: Seq<usize>,
    hooks: Seq<HookDef>,
    tool: Seq<char>,
    fields: Seq<(Seq<char>, Tree)>,
    i: usize,
)
    requires
        are_triggered(r, hooks, tool, Tree::Table(fields)),
    ensures
        forall|a: int, b: int| 0 <= a < b < r.len() ==> #[trigger] r[a] < #[trigger] r[b],
        forall|a: int| 0 <= a < r.len() ==> #[trigger] r[a] < hooks.len(),
        i < hooks.len() && hooks[i as int].tool_match@.len() == 0
            && hooks[i as int].file_match@.len() == 0 ==> r.contains(i),
        i < hooks.len() && hooks[i as int].file_match@.len() > 0 && !(lookup(fields, "file_path"@)
            matches Some(Tree::Text(_))) ==> !r.contains(i),
        i < hooks.len() && hooks[i as int].tool_match@.len() > 0 && (forall|j: int|
            0 <= j < hooks[i as int].tool_match@.len() ==> !glob_matches(
                (#[trigger] hooks[i as int].tool_match@[j])@,
                tool,
                true,
            ) && !glob_matches(hooks[i as int].tool_match@[j]@, tool, false)) ==> !r.contains(i),
{
    let input = Tree::Table(fields);
    let answers = choose|answers: Seq<bool>|
        answers.len() == hooks.len() && (forall|k: int|
            0 <= k < hooks.len() ==> is_answer(#[trigger] answers[k], hooks[k], tool, input))
            && r.map_values(|k: usize| k as int) == #[trigger] places(answers);
    let at = places(answers);
    let ints = r.map_values(|k: usize| k as int);
    law_places_of_the_answers(answers, i as int);
    assert forall|a: int, b: int| 0 <= a < b < r.len() implies #[trigger] r[a]
        < #[trigger] r[b] by {
        assert(ints[a] == r[a] as int && ints[b] == r[b] as int);
        assert(at[a] < at[b]);
    }
    assert forall|a: int| 0 <= a < r.len() implies #[trigger] r[a] < hooks.len() by {
        assert(ints[a] == r[a] as int);
        assert(at[a] < answers.len());
    }
    assert(r.contains(i) <==> at.contains(i as int)) by {
        if r.contains(i) {
            let k = choose|k: int| 0 <= k < r.len() && r[k] == i;
            assert(ints[k] == i as int);
        }
        if at.contains(i as int) {
            let k = choose|k: int| 0 <= k < at.len() && at[k] == i as int;
            assert(ints[k] == r[k] as int);
        }
    }
    if i < hooks.len() {
        assert(is_answer(answers[i as int], hooks[i as int], tool, input));
        law_answers_follow_the_patterns(answers[i as int], hooks[i as int], tool, fields, 0);
    }
}

/// On Windows a reference to a variable in a command is written in that shell's way; a command
/// without one stays.
pub proof fn law_variable_references_are_rewritten(
    before: Seq<char>,
    key: String,
    after: Seq<char>,
)
    requires
        first_place(before + ("${"@ + key@ + "}"@) + after, "${"@ + key@ + "}"@) == Some(
            before.len() as int,
        ),
    ensures
        shellified(before + ("${"@ + key@ + "}"@) + after, seq![key]) == before + ("!"@ + key@
            + "!"@) + shellified(after, seq![key]),
        shellified(before, seq![]) == before,
{
    let keys = seq![key];
    let needle = "${"@ + key@ + "}"@;
    reveal_strlit("${");
    assert(needle.len() > 0);
    assert(keys.drop_last() =~= Seq::empty());
    assert(keys.last() == key);
    let s = before + needle + after;
    assert(shellified(s, keys.drop_last()) == s);
    assert(shellified(after, keys.drop_last()) == after);
    crate::laws::texts::law_replacing(before, needle, after, "!"@ + key@ + "!"@);
}

/// What a command printed is its output and then its errors, on lines of their own; where one of
/// the two is empty it is the other.
pub proof fn law_printed_text(stdout: Seq<char>, stderr: Seq<char>)
    ensures
        stderr.len() == 0 ==> combined(stdout, stderr) == stdout,
        stdout.len() == 0 ==> combined(stdout, stderr) == stderr,
        stdout.len() > 0 && stderr.len() > 0 ==> combined(stdout, stderr) == stdout + seq!['\n']
            + stderr,
{
    reveal_strlit("\n");
    assert("\n"@ =~= seq!['\n']);
    if stdout.len() == 0 && stderr.len() == 0 {
        assert(stdout =~= stderr);
    }
}

/// What is said of a hook that ran: nothing where it printed nothing, else its name and what it
/// printed; of one that did not run, its name and why.
pub proof fn law_hook_reports(name: Seq<char>, h: HookResult, e: HookError)
    ensures
        h.output@.len() == 0 ==> report(name, Ok(h)) is None,
        h.output@.len() > 0 ==> report(name, Ok(h)) == Some(
            "[hook:"@ + name + "] "@ + trimmed(h.output@),
        ),
        report(name, Err(e)) == Some("[hook:"@ + name + "] error: "@ + e.says()),
        e matches HookError::Blocked { hook_name, output } ==> e.says() == "Hook '"@ + hook_name@
            + "' blocked execution: "@ + output@,
        e matches HookError::ExecutionFailed(why) ==> e.says() == "Hook execution failed: "@ + why@,
        e matches HookError::Timeout(ms) ==> e.says() == "Hook timed out after "@ + digits(
            ms as nat,
            10,
        ) + "ms"@,
{
}

/// Hooks that are added keep their order behind those that are there; one whose name is taken, by
/// a hook that is there or by one added before it, is left out, and no name is lost.
pub proof fn law_added_hooks(list: Seq<HookDef>, more: Seq<HookDef>, name: Seq<char>)
    ensures
        list.is_prefix_of(with_hooks(list, more)),
        has_name(with_hooks(list, more), name) <==> (exists|i: int|
            0 <= i < list.len() && (#[trigger] list[i]).name@ == name) || (exists|i: int|
            0 <= i < more.len() && (#[trigger] more[i]).name@ == name),
        forall|i: int|
            list.len() <= i < with_hooks(list, more).len() ==> more.contains(
                #[trigger] with_hooks(list, more)[i],
            ),
        forall|i: int, j: int|
            0 <= i < j && list.len() <= j < with_hooks(list, more).len() ==> (
            #[trigger] with_hooks(list, more)[i]).name@ != (#[trigger] with_hooks(
                list,
                more,
            )[j]).name@,
    decreases more.len(),
{
    let got = with_hooks(list, more);
    if more.len() == 0 {
        assert(!exists|i: int| 0 <= i < more.len() && (#[trigger] more[i]).name@ == name);
    } else {
        let front = more.drop_last();
        let last = more.last();
        let before = with_hooks(list, front);
        law_added_hooks(list, front, name);
        law_added_hooks(list, front, last.name@);
        assert forall|i: int| list.len() <= i < before.len() implies more.contains(
            #[trigger] before[i],
        ) by {
            let k = choose|k: int| 0 <= k < front.len() && front[k] == before[i];
            assert(more[k] == before[i]);
        }
        assert(more[more.len() - 1] == last);
        if exists|i: int| 0 <= i < front.len() && (#[trigger] front[i]).name@ == name {
            let i = choose|i: int| 0 <= i < front.len() && (#[trigger] front[i]).name@ == name;
            assert(more[i].name@ == name);
        }
        if exists|i: int| 0 <= i < more.len() && (#[trigger] more[i]).name@ == name {
            let i = choose|i: int| 0 <= i < more.len() && (#[trigger] more[i]).name@ == name;
            if i < front.len() {
                assert(front[i].name@ == name);
            }
        }
        if has_name(before, last.name@) {
            assert(got == before);
        } else {
            assert(got == before.push(last));
            assert(got[before.len() as int] == last);
            if has_name(before, name) {
                let i = choose|i: int| 0 <= i < before.len() && (#[trigger] before[i]).name@
                    == name;
                assert(got[i].name@ == name);
            }
            if has_name(got, name) {
                let i = choose|i: int| 0 <= i < got.len() && (#[trigger] got[i]).name@ == name;
                if i < before.len() {
                    assert(before[i].name@ == name);
                }
            }
            assert forall|i: int, j: int|
                0 <= i < j && list.len() <= j < got.len() implies (#[trigger] got[i]).name@ != (
            #[trigger] got[j]).name@ by {
                if j == before.len() {
                    assert(before[i] == got[i]);
                    assert(before[i].name@ != last.name@);
                } else {
                    assert(before[i] == got[i] && before[j] == got[j]);
                }
            }
        }
    }
}

/// Text that was made neutral opens or closes neither of the host's two tags, in whatever case.
pub proof fn law_host_tags_are_gone(s: Seq<char>, at: int)
    requires
        0 <= at <= neutral(s).len(),
    ensures
        ({
            let t = neutral(s);
            &&& at + 16 <= t.len() && t[at] == '<' ==> ascii_lower(t.subrange(at + 1, at + 16))
                != "system-reminder"@
            &&& at + 17 <= t.len() && t[at] == '<' ==> ascii_lower(t.subrange(at + 1, at + 17))
                != "/system-reminder"@
            &&& at + 15 <= t.len() && t[at] == '<' ==> ascii_lower(t.subrange(at + 1, at + 15))
                != "plugin-context"@
            &&& at + 16 <= t.len() && t[at] == '<' ==> ascii_lower(t.subrange(at + 1, at + 16))
                != "/plugin-context"@
        }),
{
    law_neutral_text_opens_no_host_tag(s, at);
    let t = neutral(s);
    let rest = t.skip(at);
    reveal_strlit("system-reminder");
    reveal_strlit("/system-reminder");
    reveal_strlit("plugin-context");
    reveal_strlit("/plugin-context");
    if at + 15 <= t.len() {
        assert(rest[0] == t[at]);
        assert(rest.subrange(1, 15) =~= t.subrange(at + 1, at + 15));
    }
    if at + 16 <= t.len() {
        assert(rest.subrange(1, 16) =~= t.subrange(at + 1, at + 16));
    }
    if at + 17 <= t.len() {
        assert(rest.subrange(1, 17) =~= t.subrange(at + 1, at + 17));
    }
}

/// Making text neutral writes `&lt;` for the bracket of a host tag and changes no other character.
pub proof fn law_neutral_text_keeps_the_rest(s: Seq<char>)
    requires
        s.len() > 0,
    ensures
        s[0] != '<' ==> neutral(s) == seq![s[0]] + neutral(s.drop_first()),
        s.len() >= 16 && s[0] == '<' && ascii_lower(s.subrange(1, 16)) == "system-reminder"@
            ==> neutral(s) == seq!['&', 'l', 't', ';'] + neutral(s.drop_first()),
        s.len() >= 17 && s[0] == '<' && ascii_lower(s.subrange(1, 17)) == "/system-reminder"@
            ==> neutral(s) == seq!['&', 'l', 't', ';'] + neutral(s.drop_first()),
        s.len() >= 15 && s[0] == '<' && ascii_lower(s.subrange(1, 15)) == "plugin-context"@
            ==> neutral(s) == seq!['&', 'l', 't', ';'] + neutral(s.drop_first()),
        s.len() >= 16 && s[0] == '<' && ascii_lower(s.subrange(1, 16)) == "/plugin-context"@
            ==> neutral(s) == seq!['&', 'l', 't', ';'] + neutral(s.drop_first()),
        s.len() > 1 && s[0] == '<' && s[1] != 's' && s[1] != 'S' && s[1] != 'p' && s[1] != 'P'
            && s[1] != '/' ==> neutral(s) == seq!['<'] + neutral(s.drop_first()),
{
    reveal_strlit("&lt;");
    assert("&lt;"@ =~= seq!['&', 'l', 't', ';']);
    reveal_strlit("system-reminder");
    reveal_strlit("/system-reminder");
    reveal_strlit("plugin-context");
    reveal_strlit("/plugin-context");
    assert("system-reminder"@.len() == 15);
    assert("/system-reminder"@.len() == 16);
    assert("plugin-context"@.len() == 14);
    assert("/plugin-context"@.len() == 15);
    if s.len() > 1 && s[0] == '<' && s[1] != 's' && s[1] != 'S' && s[1] != 'p' && s[1] != 'P'
        && s[1]
        != '/' && opens_host_tag(s) {
        let c = ascii_lower(seq![s[1]])[0];
        if opens(s, "system-reminder"@) {
            assert(ascii_lower(s.subrange(1, 16))[0] == c);
            assert("system-reminder"@[0] == 's');
        } else if opens(s, "/system-reminder"@) {
            assert(ascii_lower(s.subrange(1, 17))[0] == c);
            assert("/system-reminder"@[0] == '/');
        } else if opens(s, "plugin-context"@) {
            assert(ascii_lower(s.subrange(1, 15))[0] == c);
            assert("plugin-context"@[0] == 'p');
        } else {
            assert(ascii_lower(s.subrange(1, 16))[0] == c);
            assert("/plugin-context"@[0] == '/');
        }
    }
}

/// A sanitised identifier has the length of the text; letters and digits of ASCII, dots,
/// underscores and hyphens stay, and every other character is an underscore.
pub proof fn law_identifiers(s: Seq<char>, i: int)
    requires
        0 <= i < s.len(),
    ensures
        ident_of(s).len() == s.len(),
        ('a' <= s[i] && s[i] <= 'z') || ('A' <= s[i] && s[i] <= 'Z') || ('0' <= s[i] && s[i] <= '9')
            || s[i] == '.' || s[i] == '_' || s[i] == '-' ==> ident_of(s)[i] == s[i],
        !(('a' <= s[i] && s[i] <= 'z') || ('A' <= s[i] && s[i] <= 'Z') || ('0' <= s[i] && s[i]
            <= '9') || s[i] == '.' || s[i] == '_' || s[i] == '-') ==> ident_of(s)[i] == '_',
{
}

} // verus!
