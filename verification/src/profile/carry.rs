//! What a copy leaves on disk: the tree that was copied.

use vstd::prelude::*;

use crate::config::paths::joined;
use crate::profile::copy::{
    entry_steps, is_component, plain_entries, plain_names, tree_steps, Node, Step,
};
use crate::profile::launch::ProfilesDisk;
use crate::profile::name::{law_lowercase_name_is_valid, law_valid_name_is_one_component};
use crate::profile::ops::{home_of, is_export, is_import, Export, SourceKind};
use crate::text::ascii_lower;

verus! {

/// What stands at a path.
pub enum Item {
    /// A directory.
    Dir,
    /// A file with this content.
    File(Seq<u8>),
}

/// What stands where once `steps` were carried out in their order.
pub open spec fn performed(fs: Map<Seq<char>, Item>, steps: Seq<Step>) -> Map<Seq<char>, Item>
    decreases steps.len(),
{
    if steps.len() == 0 {
        fs
    } else {
        let before = performed(fs, steps.drop_last());
        match steps.last() {
            Step::Make(path) => before.insert(path, Item::Dir),
            Step::Copy(from, to) => before.insert(to, before[from]),
        }
    }
}

/// `dir` with a slash at its end.
pub open spec fn slashed(dir: Seq<char>) -> Seq<char> {
    if dir.last() == '/' {
        dir
    } else {
        dir + "/"@
    }
}

/// Whether `p` is `at` or stands below it.
pub open spec fn at_or_below(p: Seq<char>, at: Seq<char>) -> bool {
    p == at || slashed(at).is_prefix_of(p)
}

/// Whether nothing stands at `dir` or below it.
pub open spec fn absent(fs: Map<Seq<char>, Item>, dir: Seq<char>) -> bool {
    forall|p: Seq<char>| #[trigger] fs.contains_key(p) ==> !at_or_below(p, dir)
}

/// Whether no two entries of one directory have the same name, at any depth.
pub open spec fn distinct_names(entries: Seq<(String, Node)>) -> bool
    decreases entries,
{
    entries.len() == 0 || {
        &&& distinct_names(entries.drop_last())
        &&& forall|i: int| 0 <= i < entries.len() - 1 ==> (#[trigger] entries[i]).0@
            != entries.last().0@
        &&& names_below_differ(entries.last().1)
    }
}

/// [`distinct_names`] of what is below an entry.
pub open spec fn names_below_differ(node: Node) -> bool
    decreases node,
{
    match node {
        Node::Dir(entries) => distinct_names(entries@),
        _ => true,
    }
}

/// Whether the tree of `entries` stands at `dir`.
pub open spec fn stands(
    fs: Map<Seq<char>, Item>,
    dir: Seq<char>,
    entries: Seq<(String, Node)>,
) -> bool
    decreases entries,
{
    entries.len() == 0 || {
        &&& stands(fs, dir, entries.drop_last())
        &&& entry_stands(fs, joined(dir, entries.last().0@), entries.last().1)
    }
}

/// Whether an entry stands at `path`, with what is below it.
pub open spec fn entry_stands(fs: Map<Seq<char>, Item>, path: Seq<char>, node: Node) -> bool
    decreases node,
{
    match node {
        Node::Link => true,
        Node::File => fs.contains_key(path) && fs[path] is File,
        Node::Dir(entries) => {
            &&& fs.contains_key(path)
            &&& fs[path] == Item::Dir
            &&& stands(fs, path, entries@)
        },
    }
}

/// Whether the tree of `entries` stands at `dir` in `fs` as it stands at `source` in `old_fs`,
/// files with their contents. A link has no copy.
pub open spec fn same_tree(
    fs: Map<Seq<char>, Item>,
    dir: Seq<char>,
    old_fs: Map<Seq<char>, Item>,
    source: Seq<char>,
    entries: Seq<(String, Node)>,
) -> bool
    decreases entries,
{
    entries.len() == 0 || {
        &&& same_tree(fs, dir, old_fs, source, entries.drop_last())
        &&& same_entry(
            fs,
            joined(dir, entries.last().0@),
            old_fs,
            joined(source, entries.last().0@),
            entries.last().1,
        )
    }
}

/// Whether an entry stands at `path` in `fs` as it stands at `from` in `old_fs`.
pub open spec fn same_entry(
    fs: Map<Seq<char>, Item>,
    path: Seq<char>,
    old_fs: Map<Seq<char>, Item>,
    from: Seq<char>,
    node: Node,
) -> bool
    decreases node,
{
    match node {
        Node::Link => true,
        Node::File => fs.contains_key(path) && fs[path] == old_fs[from],
        Node::Dir(entries) => {
            &&& fs.contains_key(path)
            &&& fs[path] == Item::Dir
            &&& same_tree(fs, path, old_fs, from, entries@)
        },
    }
}

/// Whether `p` is the path of an entry, at any depth, of a tree at `dir`.
pub open spec fn is_path(p: Seq<char>, dir: Seq<char>, entries: Seq<(String, Node)>) -> bool
    decreases entries,
{
    entries.len() > 0 && {
        ||| is_path(p, dir, entries.drop_last())
        ||| is_path_of(p, joined(dir, entries.last().0@), entries.last().1)
    }
}

/// Whether `p` is the path `at` of an entry or of one below it.
pub open spec fn is_path_of(p: Seq<char>, at: Seq<char>, node: Node) -> bool
    decreases node,
{
    match node {
        Node::Link => false,
        Node::File => p == at,
        Node::Dir(entries) => p == at || is_path(p, at, entries@),
    }
}

proof fn lemma_performed_add(fs: Map<Seq<char>, Item>, a: Seq<Step>, b: Seq<Step>)
    ensures
        performed(fs, a + b) == performed(performed(fs, a), b),
    decreases b.len(),
{
    if b.len() == 0 {
        assert(a + b =~= a);
    } else {
        lemma_performed_add(fs, a, b.drop_last());
        assert((a + b).drop_last() =~= a + b.drop_last());
        assert((a + b).last() == b.last());
    }
}

proof fn lemma_performed_one(fs: Map<Seq<char>, Item>, step: Step)
    ensures
        performed(fs, seq![step]) == match step {
            Step::Make(path) => fs.insert(path, Item::Dir),
            Step::Copy(from, to) => fs.insert(to, fs[from]),
        },
{
    assert(seq![step].drop_last() =~= Seq::empty());
    assert(performed(fs, seq![step].drop_last()) == fs);
}

proof fn lemma_joined(dir: Seq<char>, name: Seq<char>)
    requires
        dir.len() > 0,
        is_component(name),
    ensures
        joined(dir, name) == slashed(dir) + name,
        joined(dir, name).len() > 0,
        slashed(joined(dir, name)) == slashed(dir) + name + "/"@,
        slashed(dir).is_prefix_of(joined(dir, name)),
        slashed(dir).is_prefix_of(slashed(joined(dir, name))),
{
    reveal_strlit("/");
    assert(name[0] != '/');
    let j = joined(dir, name);
    assert(j =~= slashed(dir) + name);
    assert(name[name.len() - 1] != '/');
    assert(j.last() == name[name.len() - 1]);
    assert(j.subrange(0, slashed(dir).len() as int) =~= slashed(dir));
    let s = slashed(j);
    assert(s =~= slashed(dir) + name + "/"@);
    assert(s.subrange(0, slashed(dir).len() as int) =~= slashed(dir));
}

proof fn lemma_prefix_through(a: Seq<char>, b: Seq<char>, c: Seq<char>)
    requires
        a.is_prefix_of(b),
        b.is_prefix_of(c),
    ensures
        a.is_prefix_of(c),
{
    assert(a =~= b.subrange(0, a.len() as int));
    assert(b =~= c.subrange(0, b.len() as int));
    assert(c.subrange(0, a.len() as int) =~= a);
}

/// Whether the same stands at `p` in both.
spec fn agree(a: Map<Seq<char>, Item>, b: Map<Seq<char>, Item>, p: Seq<char>) -> bool {
    a.contains_key(p) == b.contains_key(p) && a[p] == b[p]
}

/// Whether no path of a tree at `src` is below `dst`.
spec fn clear_of(dst: Seq<char>, src: Seq<char>, entries: Seq<(String, Node)>) -> bool {
    forall|p: Seq<char>| #[trigger] is_path(p, src, entries) ==> !slashed(dst).is_prefix_of(p)
}

/// What stands somewhere has something at each of its paths.
proof fn lemma_stands(
    fs: Map<Seq<char>, Item>,
    dir: Seq<char>,
    entries: Seq<(String, Node)>,
    p: Seq<char>,
)
    requires
        stands(fs, dir, entries),
        is_path(p, dir, entries),
    ensures
        fs.contains_key(p),
    decreases entries,
{
    let (key, node) = entries.last();
    let at = joined(dir, key@);
    assert(entry_stands(fs, at, node));
    if is_path(p, dir, entries.drop_last()) {
        lemma_stands(fs, dir, entries.drop_last(), p);
    } else {
        assert(is_path_of(p, at, node));
        match node {
            Node::Dir(inner) => {
                assert(decreases_to!(entries => entries[entries.len() - 1]));
                assert(decreases_to!(entries.last() => entries.last().1));
                assert(decreases_to!(entries.last().1 => entries.last().1->Dir_0));
                assert(decreases_to!(inner => inner@));
                assert(stands(fs, at, inner@));
                if p != at {
                    assert(is_path(p, at, inner@));
                    lemma_stands(fs, at, inner@, p);
                }
            },
            _ => {},
        }
    }
}

/// Entries with different names have no path in common.
proof fn lemma_names_part(dir: Seq<char>, a: Seq<char>, b: Seq<char>, p: Seq<char>)
    requires
        dir.len() > 0,
        is_component(a),
        is_component(b),
        at_or_below(p, joined(dir, a)),
        at_or_below(p, joined(dir, b)),
    ensures
        a == b,
{
    reveal_strlit("/");
    lemma_joined(dir, a);
    lemma_joined(dir, b);
    let d = slashed(dir).len() as int;
    let r = p.skip(d);
    lemma_rest(dir, a, p);
    lemma_rest(dir, b, p);
    if a.len() < b.len() {
        assert(r[a.len() as int] == '/');
        assert(b[a.len() as int] == r[a.len() as int]);
    } else if b.len() < a.len() {
        assert(r[b.len() as int] == '/');
        assert(a[b.len() as int] == r[b.len() as int]);
    }
    assert(a =~= b);
}

/// What follows the directory in a path at or below one of its entries.
proof fn lemma_rest(dir: Seq<char>, a: Seq<char>, p: Seq<char>)
    requires
        dir.len() > 0,
        is_component(a),
        at_or_below(p, joined(dir, a)),
    ensures
        p.len() >= slashed(dir).len() + a.len(),
        p.skip(slashed(dir).len() as int).take(a.len() as int) == a,
        p.len() > slashed(dir).len() + a.len() ==> p.skip(slashed(dir).len() as int)[a.len() as int]
            == '/',
{
    reveal_strlit("/");
    lemma_joined(dir, a);
    let d = slashed(dir).len() as int;
    if p == joined(dir, a) {
        assert(p.skip(d).take(a.len() as int) =~= a);
    } else {
        let s = slashed(joined(dir, a));
        assert(s =~= p.subrange(0, s.len() as int));
        assert forall|i: int| 0 <= i < a.len() implies p[d + i] == a[i] by {
            assert(p[d + i] == s[d + i]);
        }
        assert(p.skip(d).take(a.len() as int) =~= a);
        assert(p[d + a.len()] == s[d + a.len()]);
    }
}

/// A path below an entry is below its directory.
proof fn lemma_below_dir(dir: Seq<char>, name: Seq<char>, p: Seq<char>)
    requires
        dir.len() > 0,
        is_component(name),
        at_or_below(p, joined(dir, name)),
    ensures
        slashed(dir).is_prefix_of(p),
{
    lemma_joined(dir, name);
    if p != joined(dir, name) {
        lemma_prefix_through(slashed(dir), slashed(joined(dir, name)), p);
    }
}

/// Whether a tree stands the same depends on what stands below its directory, among the paths
/// at or below the names of its entries.
proof fn lemma_same_tree_kept(
    fs: Map<Seq<char>, Item>,
    next: Map<Seq<char>, Item>,
    dir: Seq<char>,
    old_fs: Map<Seq<char>, Item>,
    source: Seq<char>,
    entries: Seq<(String, Node)>,
)
    requires
        dir.len() > 0,
        plain_entries(entries),
        same_tree(fs, dir, old_fs, source, entries),
        forall|p: Seq<char>, i: int|
            0 <= i < entries.len() && at_or_below(p, joined(dir, (#[trigger] entries[i]).0@))
                ==> #[trigger] agree(next, fs, p),
    ensures
        same_tree(next, dir, old_fs, source, entries),
    decreases entries,
{
    if entries.len() > 0 {
        let front = entries.drop_last();
        assert forall|p: Seq<char>, i: int|
            0 <= i < front.len() && at_or_below(
                p,
                joined(dir, (#[trigger] front[i]).0@),
            ) implies #[trigger] agree(next, fs, p) by {
            assert(front[i] == entries[i]);
            assert(at_or_below(p, joined(dir, entries[i].0@)));
        }
        lemma_same_tree_kept(fs, next, dir, old_fs, source, front);
        let (key, node) = entries.last();
        let at = joined(dir, key@);
        let last = entries.len() - 1;
        assert(entries[last] == entries.last());
        lemma_joined(dir, key@);
        assert(at_or_below(at, at));
        assert(agree(next, fs, at));
        match node {
            Node::Dir(inner) => {
                assert(plain_names(node));
                assert(plain_entries(inner@));
                assert(same_entry(fs, at, old_fs, joined(source, key@), node));
                assert(same_tree(fs, at, old_fs, joined(source, key@), inner@));
                assert(decreases_to!(entries => entries[entries.len() - 1]));
                assert(decreases_to!(entries.last() => entries.last().1));
                assert(decreases_to!(entries.last().1 => entries.last().1->Dir_0));
                assert(decreases_to!(inner => inner@));
                assert forall|p: Seq<char>, i: int|
                    0 <= i < inner@.len() && at_or_below(
                        p,
                        joined(at, (#[trigger] inner@[i]).0@),
                    ) implies #[trigger] agree(next, fs, p) by {
                    lemma_component(inner@, i);
                    lemma_below_dir(at, inner@[i].0@, p);
                    assert(at_or_below(p, joined(dir, entries[last].0@)));
                }
                lemma_same_tree_kept(
                    fs,
                    next,
                    at,
                    old_fs,
                    joined(source, key@),
                    inner@,
                );
                assert(same_entry(next, at, old_fs, joined(source, key@), node));
            },
            _ => {
                assert(same_entry(fs, at, old_fs, joined(source, key@), node));
                assert(same_entry(next, at, old_fs, joined(source, key@), node));
            },
        }
    }
}

proof fn lemma_component(entries: Seq<(String, Node)>, i: int)
    requires
        plain_entries(entries),
        0 <= i < entries.len(),
    ensures
        is_component(entries[i].0@),
    decreases entries.len(),
{
    if i < entries.len() - 1 {
        lemma_component(entries.drop_last(), i);
        assert(entries.drop_last()[i] == entries[i]);
    }
}

/// Whether a tree stands the same depends on what stands at the paths of its source.
proof fn lemma_same_source(
    fs: Map<Seq<char>, Item>,
    dir: Seq<char>,
    a: Map<Seq<char>, Item>,
    b: Map<Seq<char>, Item>,
    source: Seq<char>,
    entries: Seq<(String, Node)>,
)
    requires
        source.len() > 0,
        plain_entries(entries),
        same_tree(fs, dir, a, source, entries),
        forall|p: Seq<char>| #[trigger] is_path(p, source, entries) ==> a[p] == b[p],
    ensures
        same_tree(fs, dir, b, source, entries),
    decreases entries,
{
    if entries.len() > 0 {
        assert forall|p: Seq<char>| #[trigger] is_path(
            p,
            source,
            entries.drop_last(),
        ) implies a[p] == b[p] by {
            assert(is_path(p, source, entries));
        }
        lemma_same_source(fs, dir, a, b, source, entries.drop_last());
        let (key, node) = entries.last();
        let from = joined(source, key@);
        if !(node is Link) {
            assert(is_path_of(from, from, node));
            assert(is_path(from, source, entries));
        }
        match node {
            Node::Dir(inner) => {
                assert(plain_names(node));
                assert(decreases_to!(entries => entries[entries.len() - 1]));
                assert(decreases_to!(entries.last() => entries.last().1));
                assert(decreases_to!(entries.last().1 => entries.last().1->Dir_0));
                assert(decreases_to!(inner => inner@));
                assert forall|p: Seq<char>| #[trigger] is_path(p, from, inner@) implies a[p]
                    == b[p] by {
                    assert(is_path_of(p, from, node));
                    assert(is_path(p, source, entries));
                }
                assert(plain_entries(inner@));
                assert(same_entry(fs, joined(dir, key@), a, from, node));
                assert(same_tree(fs, joined(dir, key@), a, from, inner@));
                lemma_same_source(fs, joined(dir, key@), a, b, from, inner@);
                assert(same_entry(fs, joined(dir, key@), b, from, node));
            },
            _ => {
                assert(same_entry(fs, joined(dir, key@), a, from, node));
                assert(same_entry(fs, joined(dir, key@), b, from, node));
            },
        }
    }
}

/// Copying a tree leaves it at its target as it stands at its source, and touches nothing but
/// what is below the target.
proof fn lemma_copied(
    fs: Map<Seq<char>, Item>,
    entries: Seq<(String, Node)>,
    src: Seq<char>,
    dst: Seq<char>,
)
    requires
        plain_entries(entries),
        distinct_names(entries),
        src.len() > 0,
        dst.len() > 0,
        clear_of(dst, src, entries),
    ensures
        ({
            let after = performed(fs, tree_steps(entries, src, dst, false));
            &&& same_tree(after, dst, fs, src, entries)
            &&& forall|p: Seq<char>|
                p == dst || !slashed(dst).is_prefix_of(p) ==> #[trigger] agree(after, fs, p)
            &&& forall|p: Seq<char>| #[trigger]
                after.contains_key(p) <==> fs.contains_key(p) || is_path(p, dst, entries)
        }),
    decreases entries,
{
    if entries.len() > 0 {
        let front = entries.drop_last();
        let (key, node) = entries.last();
        let name = key@;
        assert forall|p: Seq<char>| #[trigger] is_path(p, src, front) implies !slashed(
            dst,
        ).is_prefix_of(p) by {
            assert(is_path(p, src, entries));
        }
        lemma_copied(fs, front, src, dst);
        let mid = performed(fs, tree_steps(front, src, dst, false));
        let steps = entry_steps(name, node, src, dst, false);
        let after = performed(fs, tree_steps(entries, src, dst, false));
        lemma_performed_add(fs, tree_steps(front, src, dst, false), steps);
        assert(after == performed(mid, steps));
        let from = joined(src, name);
        let to = joined(dst, name);
        lemma_joined(src, name);
        lemma_joined(dst, name);
        if !(node is Link) {
            assert(is_path_of(from, from, node));
            assert(is_path(from, src, entries));
            assert(agree(mid, fs, from));
        }
        match node {
            Node::Link => {
                assert(performed(mid, steps) == mid);
            },
            Node::File => {
                lemma_performed_one(mid, Step::Copy(from, to));
            },
            Node::Dir(inner) => {
                assert(plain_names(node));
                assert(plain_entries(inner@));
                assert(names_below_differ(node));
                assert(distinct_names(inner@));
                assert(decreases_to!(entries => entries[entries.len() - 1]));
                assert(decreases_to!(entries.last() => entries.last().1));
                assert(decreases_to!(entries.last().1 => entries.last().1->Dir_0));
                assert(decreases_to!(inner => inner@));
                let made = mid.insert(to, Item::Dir);
                lemma_performed_one(mid, Step::Make(to));
                lemma_performed_add(
                    mid,
                    seq![Step::Make(to)],
                    tree_steps(inner@, from, to, false),
                );
                assert forall|p: Seq<char>| #[trigger] is_path(p, from, inner@) implies !slashed(
                    dst,
                ).is_prefix_of(p) by {
                    assert(is_path_of(p, from, node));
                    assert(is_path(p, src, entries));
                }
                assert forall|p: Seq<char>| #[trigger] is_path(p, from, inner@) implies !slashed(
                    to,
                ).is_prefix_of(p) by {
                    if slashed(to).is_prefix_of(p) {
                        lemma_prefix_through(slashed(dst), slashed(to), p);
                    }
                }
                lemma_copied(made, inner@, from, to);
                assert(after == performed(made, tree_steps(inner@, from, to, false)));
                assert forall|p: Seq<char>| #[trigger] is_path(p, from, inner@) implies made[p]
                    == fs[p] by {
                    assert(agree(mid, fs, p));
                }
                lemma_same_source(after, to, made, fs, from, inner@);
                assert(agree(after, made, to));
                assert(same_entry(after, to, fs, from, node));
                assert forall|p: Seq<char>| #[trigger] after.contains_key(p) <==> mid.contains_key(p)
                    || is_path_of(p, to, node) by {
                    assert(is_path_of(p, to, node) <==> p == to || is_path(p, to, inner@));
                }
                assert forall|p: Seq<char>| !at_or_below(p, to) implies #[trigger] agree(after, mid, p) by {
                    assert(agree(after, made, p));
                }
            },
        }
        assert(same_entry(after, to, fs, from, node));
        assert forall|p: Seq<char>, i: int|
            0 <= i < front.len() && at_or_below(
                p,
                joined(dst, (#[trigger] front[i]).0@),
            ) implies #[trigger] agree(after, mid, p) by {
            assert(front[i] == entries[i]);
            lemma_component(front, i);
            if at_or_below(p, to) {
                lemma_names_part(dst, front[i].0@, name, p);
            }
            assert(agree(after, mid, p));
        }
        lemma_same_tree_kept(mid, after, dst, fs, src, front);
        assert forall|p: Seq<char>|
            p == dst || !slashed(dst).is_prefix_of(p) implies #[trigger] agree(after, fs, p) by {
            if at_or_below(p, to) {
                lemma_below_dir(dst, name, p);
                assert(slashed(to).len() > to.len() > dst.len());
            }
            assert(agree(after, mid, p));
            assert(agree(mid, fs, p));
        }
        assert forall|p: Seq<char>| #[trigger] after.contains_key(p) <==> fs.contains_key(p)
            || is_path(p, dst, entries) by {
            assert(after.contains_key(p) <==> mid.contains_key(p) || is_path_of(p, to, node));
            assert(mid.contains_key(p) <==> fs.contains_key(p) || is_path(p, dst, front));
            assert(is_path(p, dst, entries) <==> is_path(p, dst, front) || is_path_of(p, to, node));
        }
        assert(same_tree(after, dst, fs, src, entries));
    }
}

/// What stands where after the tree of `entries` at `src` was copied to `dst`, which is made
/// first. Secrets may stay behind.
pub open spec fn copied(
    fs: Map<Seq<char>, Item>,
    entries: Seq<(String, Node)>,
    src: Seq<char>,
    dst: Seq<char>,
    skip_secrets: bool,
) -> Map<Seq<char>, Item> {
    performed(fs, seq![Step::Make(dst)] + tree_steps(entries, src, dst, skip_secrets))
}

proof fn lemma_copied_to_absent(
    fs: Map<Seq<char>, Item>,
    entries: Seq<(String, Node)>,
    src: Seq<char>,
    dst: Seq<char>,
)
    requires
        plain_entries(entries),
        distinct_names(entries),
        src.len() > 0,
        dst.len() > 0,
        forall|p: Seq<char>| #[trigger] is_path(p, src, entries) ==> fs.contains_key(p),
        absent(fs, dst),
    ensures
        ({
            let after = copied(fs, entries, src, dst, false);
            &&& same_tree(after, dst, fs, src, entries)
            &&& after.contains_key(dst) && after[dst] == Item::Dir
            &&& forall|p: Seq<char>| fs.contains_key(p) ==> #[trigger] agree(after, fs, p)
            &&& forall|p: Seq<char>| #[trigger]
                after.contains_key(p) <==> p == dst || fs.contains_key(p) || is_path(p, dst, entries)
        }),
{
    let steps = tree_steps(entries, src, dst, false);
    let made = fs.insert(dst, Item::Dir);
    lemma_performed_one(fs, Step::Make(dst));
    lemma_performed_add(fs, seq![Step::Make(dst)], steps);
    assert(clear_of(dst, src, entries)) by {
        assert forall|p: Seq<char>| #[trigger] is_path(p, src, entries) implies !slashed(
            dst,
        ).is_prefix_of(p) by {
            assert(fs.contains_key(p));
            assert(!at_or_below(p, dst));
        }
    }
    lemma_copied(made, entries, src, dst);
    let after = performed(made, steps);
    assert forall|p: Seq<char>| #[trigger] is_path(p, src, entries) implies made[p] == fs[p] by {
        assert(fs.contains_key(p));
        assert(!at_or_below(p, dst));
    }
    lemma_same_source(after, dst, made, fs, src, entries);
    assert forall|p: Seq<char>| fs.contains_key(p) implies #[trigger] agree(after, fs, p) by {
        assert(!at_or_below(p, dst));
        assert(agree(after, made, p));
    }
    assert(agree(after, made, dst));
}

/// Exporting a profile with its secrets to a directory that is not there, and importing the
/// result as a new profile, gives the new profile the same tree, files with their contents and
/// nothing else, and changes nothing that was there before. `entries` is what stands in the
/// home of the profile, each name once.
pub proof fn law_export_and_import_keep_the_tree(
    fs: Map<Seq<char>, Item>,
    entries: Seq<(String, Node)>,
    export: Export,
    dir: Seq<char>,
    new_home: String,
    name: Seq<char>,
    new_name: Seq<char>,
    before: ProfilesDisk,
    between: ProfilesDisk,
)
    requires
        is_export(Ok(export), name, true, before),
        is_import(Ok(new_home), new_name, dir, SourceKind::Directory, between),
        dir.len() > 0,
        plain_entries(entries),
        distinct_names(entries),
        stands(fs, export.from@, entries),
        absent(fs, dir),
        absent(copied(fs, entries, export.from@, dir, export.skip_secrets), new_home@),
    ensures
        ({
            let exported = copied(fs, entries, export.from@, dir, export.skip_secrets);
            let imported = copied(exported, entries, dir, new_home@, false);
            &&& new_home@ == home_of(between, new_name)
            &&& same_tree(imported, new_home@, fs, home_of(before, name), entries)
            &&& imported.contains_key(new_home@) && imported[new_home@] == Item::Dir
            &&& forall|p: Seq<char>|
                at_or_below(p, new_home@) && p != new_home@ ==> (
                #[trigger] imported.contains_key(p) <==> is_path(p, new_home@, entries))
            &&& forall|p: Seq<char>|
                fs.contains_key(p) ==> imported.contains_key(p) && #[trigger] imported[p] == fs[p]
        }),
{
    let home = export.from@;
    law_lowercase_name_is_valid(name);
    law_valid_name_is_one_component(ascii_lower(name));
    law_lowercase_name_is_valid(new_name);
    law_valid_name_is_one_component(ascii_lower(new_name));
    assert(home.len() > 0);
    assert(new_home@.len() > 0);
    assert forall|p: Seq<char>| #[trigger] is_path(p, home, entries) implies fs.contains_key(p) by {
        lemma_stands(fs, home, entries, p);
    }
    lemma_copied_to_absent(fs, entries, home, dir);
    let exported = copied(fs, entries, home, dir, false);
    lemma_copied_to_absent(exported, entries, dir, new_home@);
    let imported = copied(exported, entries, dir, new_home@, false);
    lemma_same_twice(imported, new_home@, exported, dir, fs, home, entries);
    assert forall|p: Seq<char>| fs.contains_key(p) implies imported.contains_key(p)
        && #[trigger] imported[p] == fs[p] by {
        assert(agree(exported, fs, p));
        assert(agree(imported, exported, p));
    }
}

/// A tree that stands as a copy stands, stands as what was copied.
proof fn lemma_same_twice(
    fs: Map<Seq<char>, Item>,
    dir: Seq<char>,
    mid: Map<Seq<char>, Item>,
    between: Seq<char>,
    old_fs: Map<Seq<char>, Item>,
    source: Seq<char>,
    entries: Seq<(String, Node)>,
)
    requires
        same_tree(fs, dir, mid, between, entries),
        same_tree(mid, between, old_fs, source, entries),
    ensures
        same_tree(fs, dir, old_fs, source, entries),
    decreases entries,
{
    if entries.len() > 0 {
        lemma_same_twice(fs, dir, mid, between, old_fs, source, entries.drop_last());
        let (key, node) = entries.last();
        match node {
            Node::Dir(inner) => {
                assert(decreases_to!(entries => entries[entries.len() - 1]));
                assert(decreases_to!(entries.last() => entries.last().1));
                assert(decreases_to!(entries.last().1 => entries.last().1->Dir_0));
                assert(decreases_to!(inner => inner@));
                assert(same_entry(fs, joined(dir, key@), mid, joined(between, key@), node));
                assert(same_entry(mid, joined(between, key@), old_fs, joined(source, key@), node));
                assert(same_tree(fs, joined(dir, key@), mid, joined(between, key@), inner@));
                assert(same_tree(mid, joined(between, key@), old_fs, joined(source, key@), inner@));
                lemma_same_twice(
                    fs,
                    joined(dir, key@),
                    mid,
                    joined(between, key@),
                    old_fs,
                    joined(source, key@),
                    inner@,
                );
                assert(same_entry(fs, joined(dir, key@), old_fs, joined(source, key@), node));
            },
            _ => {
                assert(same_entry(fs, joined(dir, key@), mid, joined(between, key@), node));
                assert(same_entry(mid, joined(between, key@), old_fs, joined(source, key@), node));
                assert(same_entry(fs, joined(dir, key@), old_fs, joined(source, key@), node));
            },
        }
    }
}

} // verus!
