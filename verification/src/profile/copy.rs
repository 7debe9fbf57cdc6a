//! Copying a profile tree: which files go where, and what stays behind.

use vstd::prelude::*;

use crate::config::paths::{join_path, joined};
use crate::text::{chars_of, same_text, starts_with};

verus! {

/// What a directory entry is. Nothing behind a link is ever looked at.
pub enum Node {
    /// A symbolic link or another redirection.
    Link,
    /// A file.
    File,
    /// A directory with its entries.
    Dir(Vec<(String, Node)>),
}

/// One step of a copy.
pub enum CopyStep {
    /// Make this directory.
    MakeDir(String),
    /// Copy a file.
    CopyFile {
        /// From here.
        from: String,
        /// To here.
        to: String,
    },
}

/// The model of a [`CopyStep`].
pub enum Step {
    /// Make this directory.
    Make(Seq<char>),
    /// Copy a file from the first path to the second.
    Copy(Seq<char>, Seq<char>),
}

impl View for CopyStep {
    type V = Step;

    open spec fn view(&self) -> Step {
        match self {
            CopyStep::MakeDir(path) => Step::Make(path@),
            CopyStep::CopyFile { from, to } => Step::Copy(from@, to@),
        }
    }
}

/// The models of a list of steps.
pub open spec fn steps_of(list: Seq<CopyStep>) -> Seq<Step> {
    list.map_values(|s: CopyStep| s@)
}

/// Whether an entry of a profile home holds secrets: the `oauth` directory and the
/// `credentials` files.
pub open spec fn is_secret(name: Seq<char>) -> bool {
    name == "oauth"@ || name == "credentials"@ || "credentials."@.is_prefix_of(name)
}

/// Decides [`is_secret`].
pub fn is_secret_entry(name: &str) -> (r: bool)
    ensures
        r == is_secret(name@),
{
    same_text(name, "oauth") || same_text(name, "credentials") || starts_with(
        &chars_of(name),
        "credentials.",
    )
}

/// The steps that copy one entry from `src` to `dst`.
pub open spec fn entry_steps(
    name: Seq<char>,
    node: Node,
    src: Seq<char>,
    dst: Seq<char>,
    skip_secrets: bool,
) -> Seq<Step>
    decreases node,
{
    if skip_secrets && is_secret(name) {
        Seq::empty()
    } else {
        match node {
            Node::Link => Seq::empty(),
            Node::File => seq![Step::Copy(joined(src, name), joined(dst, name))],
            Node::Dir(entries) => seq![Step::Make(joined(dst, name))] + tree_steps(
                entries@,
                joined(src, name),
                joined(dst, name),
                false,
            ),
        }
    }
}

/// The steps that copy the entries of `src` into `dst`. Secrets are left out at this level
/// alone.
pub open spec fn tree_steps(
    entries: Seq<(String, Node)>,
    src: Seq<char>,
    dst: Seq<char>,
    skip_secrets: bool,
) -> Seq<Step>
    decreases entries,
{
    if entries.len() == 0 {
        Seq::empty()
    } else {
        tree_steps(entries.drop_last(), src, dst, skip_secrets) + entry_steps(
            entries.last().0@,
            entries.last().1,
            src,
            dst,
            skip_secrets,
        )
    }
}

fn copy_tree_inner(entries: &Vec<(String, Node)>, src: &str, dst: &str, skip_secrets: bool) -> (r:
    Vec<CopyStep>)
    ensures
        steps_of(r@) == tree_steps(entries@, src@, dst@, skip_secrets),
    decreases entries,
{
    let mut out: Vec<CopyStep> = Vec::new();
    let mut i: usize = 0;
    proof {
        assert(entries@.take(0) =~= Seq::empty());
        assert(steps_of(out@) =~= Seq::empty());
    }
    while i < entries.len()
        invariant
            i <= entries@.len(),
            steps_of(out@) == tree_steps(entries@.take(i as int), src@, dst@, skip_secrets),
        decreases entries.len() - i,
    {
        let ghost done = out@;
        let ghost name = entries@[i as int].0@;
        let ghost node = entries@[i as int].1;
        proof {
            let next = entries@.take(i as int + 1);
            assert(next.drop_last() =~= entries@.take(i as int));
            assert(next.last() == entries@[i as int]);
        }
        if !(skip_secrets && is_secret_entry(entries[i].0.as_str())) {
            let to = join_path(dst, entries[i].0.as_str());
            match &entries[i].1 {
                Node::Link => {},
                Node::File => {
                    let from = join_path(src, entries[i].0.as_str());
                    out.push(CopyStep::CopyFile { from, to });
                    proof {
                        assert(steps_of(out@) =~= steps_of(done) + entry_steps(
                            name,
                            node,
                            src@,
                            dst@,
                            skip_secrets,
                        ));
                    }
                },
                Node::Dir(inner) => {
                    let from = join_path(src, entries[i].0.as_str());
                    proof {
                        assert(decreases_to!(*entries => entries@));
                        assert(decreases_to!(entries@ => entries@[i as int]));
                        assert(decreases_to!(entries@[i as int] => entries@[i as int].1));
                        assert(decreases_to!(entries@[i as int].1 => entries@[i as int].1->Dir_0));
                        assert(entries@[i as int].1->Dir_0 == *inner);
                    }
                    let mut below = copy_tree_inner(inner, from.as_str(), to.as_str(), false);
                    let ghost more = below@;
                    out.push(CopyStep::MakeDir(to));
                    out.append(&mut below);
                    proof {
                        assert(steps_of(out@) =~= steps_of(done) + (seq![Step::Make(to@)]
                            + steps_of(more)));
                    }
                },
            }
        }
        proof {
            assert(steps_of(out@) =~= steps_of(done) + entry_steps(
                name,
                node,
                src@,
                dst@,
                skip_secrets,
            ));
        }
        i = i + 1;
    }
    proof {
        assert(entries@.take(entries@.len() as int) =~= entries@);
    }
    out
}

/// The steps that copy the tree with these entries from `src` to `dst`, beginning with the
/// directory `dst` itself.
pub fn copy_tree_filtered(
    entries: &Vec<(String, Node)>,
    src: &str,
    dst: &str,
    skip_secrets: bool,
) -> (r: Vec<CopyStep>)
    ensures
        steps_of(r@) == seq![Step::Make(dst@)] + tree_steps(entries@, src@, dst@, skip_secrets),
{
    let mut out: Vec<CopyStep> = Vec::new();
    out.push(CopyStep::MakeDir(dst.to_owned()));
    let mut below = copy_tree_inner(entries, src, dst, skip_secrets);
    let ghost more = below@;
    out.append(&mut below);
    proof {
        assert(steps_of(out@) =~= seq![Step::Make(dst@)] + steps_of(more));
    }
    out
}

/// The entries that hold no secrets.
pub open spec fn without_secrets(entries: Seq<(String, Node)>) -> Seq<(String, Node)>
    decreases entries.len(),
{
    if entries.len() == 0 {
        entries
    } else if is_secret(entries.last().0@) {
        without_secrets(entries.drop_last())
    } else {
        without_secrets(entries.drop_last()).push(entries.last())
    }
}

/// A copy that leaves secrets out is the copy of a tree that never had them.
pub proof fn law_export_leaves_secrets_behind(
    entries: Seq<(String, Node)>,
    src: Seq<char>,
    dst: Seq<char>,
)
    ensures
        tree_steps(entries, src, dst, true) == tree_steps(
            without_secrets(entries),
            src,
            dst,
            false,
        ),
    decreases entries.len(),
{
    if entries.len() > 0 {
        law_export_leaves_secrets_behind(entries.drop_last(), src, dst);
        let less = without_secrets(entries.drop_last());
        if is_secret(entries.last().0@) {
            let (key, node) = entries.last();
            assert(entry_steps(key@, node, src, dst, true) == Seq::<Step>::empty());
            assert(tree_steps(entries, src, dst, true) =~= tree_steps(
                entries.drop_last(),
                src,
                dst,
                true,
            ));
        } else {
            let (key, node) = entries.last();
            let more = less.push(entries.last());
            assert(more.drop_last() =~= less);
            assert(more.last() == entries.last());
            assert(entry_steps(key@, node, src, dst, true) == entry_steps(
                key@,
                node,
                src,
                dst,
                false,
            ));
            assert(tree_steps(more, src, dst, false) == tree_steps(less, src, dst, false)
                + entry_steps(key@, node, src, dst, false));
            assert(tree_steps(entries, src, dst, true) == tree_steps(
                entries.drop_last(),
                src,
                dst,
                true,
            ) + entry_steps(key@, node, src, dst, true));
        }
    }
}

/// Whether every name in a tree is one path component.
pub open spec fn plain_names(node: Node) -> bool
    decreases node,
{
    match node {
        Node::Dir(entries) => plain_entries(entries@),
        _ => true,
    }
}

/// Whether every name in a list of entries, and below it, is one path component.
pub open spec fn plain_entries(entries: Seq<(String, Node)>) -> bool
    decreases entries,
{
    entries.len() == 0 || {
        &&& plain_entries(entries.drop_last())
        &&& is_component(entries.last().0@)
        &&& plain_names(entries.last().1)
    }
}

/// Whether `name` is one path component.
pub open spec fn is_component(name: Seq<char>) -> bool {
    name.len() > 0 && forall|i: int| 0 <= i < name.len() ==> (#[trigger] name[i]) != '/'
}

/// Whether the path `path` is `dir` or begins with it.
pub open spec fn within(path: Seq<char>, dir: Seq<char>) -> bool {
    dir.is_prefix_of(path)
}

/// Whether every step reads below `src` and writes below `dst`.
pub open spec fn stays_inside(steps: Seq<Step>, src: Seq<char>, dst: Seq<char>) -> bool {
    forall|i: int|
        0 <= i < steps.len() ==> match #[trigger] steps[i] {
            Step::Make(to) => within(to, dst),
            Step::Copy(from, to) => within(from, src) && within(to, dst),
        }
}

proof fn lemma_within(dir: Seq<char>, name: Seq<char>)
    requires
        dir.len() > 0,
        is_component(name),
    ensures
        within(joined(dir, name), dir),
        joined(dir, name).len() > 0,
{
    assert(name[0] != '/');
    let j = joined(dir, name);
    assert(j.subrange(0, dir.len() as int) =~= dir);
}

proof fn lemma_within_through(a: Seq<char>, b: Seq<char>, c: Seq<char>)
    requires
        within(a, b),
        within(b, c),
    ensures
        within(a, c),
{
    assert(a.subrange(0, c.len() as int) =~= b.subrange(0, c.len() as int));
}

/// A copy reads nothing outside the tree it copies and writes nothing outside its target.
pub proof fn law_copy_stays_inside(
    entries: Seq<(String, Node)>,
    src: Seq<char>,
    dst: Seq<char>,
    skip_secrets: bool,
)
    requires
        plain_entries(entries),
        src.len() > 0,
        dst.len() > 0,
    ensures
        stays_inside(tree_steps(entries, src, dst, skip_secrets), src, dst),
    decreases entries,
{
    if entries.len() > 0 {
        law_copy_stays_inside(entries.drop_last(), src, dst, skip_secrets);
        let (key, node) = entries.last();
        lemma_within(src, key@);
        lemma_within(dst, key@);
        let below_src = joined(src, key@);
        let below_dst = joined(dst, key@);
        match node {
            Node::Dir(inner) => {
                assert(plain_names(node));
                assert(plain_entries(inner@));
                assert(decreases_to!(entries => entries[entries.len() - 1]));
                assert(decreases_to!(entries.last() => entries.last().1));
                assert(decreases_to!(entries.last().1 => entries.last().1->Dir_0));
                assert(decreases_to!(inner => inner@));
                law_copy_stays_inside(inner@, below_src, below_dst, false);
                let below = tree_steps(inner@, below_src, below_dst, false);
                assert forall|i: int| 0 <= i < below.len() implies match #[trigger] below[i] {
                    Step::Make(to) => within(to, dst),
                    Step::Copy(from, to) => within(from, src) && within(to, dst),
                } by {
                    match below[i] {
                        Step::Make(to) => {
                            lemma_within_through(to, below_dst, dst);
                        },
                        Step::Copy(from, to) => {
                            lemma_within_through(from, below_src, src);
                            lemma_within_through(to, below_dst, dst);
                        },
                    }
                }
            },
            _ => {},
        }
        let front = tree_steps(entries.drop_last(), src, dst, skip_secrets);
        let back = entry_steps(key@, node, src, dst, skip_secrets);
        let all = tree_steps(entries, src, dst, skip_secrets);
        assert(all == front + back);
        assert forall|i: int| 0 <= i < all.len() implies match #[trigger] all[i] {
            Step::Make(to) => within(to, dst),
            Step::Copy(from, to) => within(from, src) && within(to, dst),
        } by {
            if i < front.len() {
                assert(all[i] == front[i]);
            } else {
                assert(all[i] == back[i - front.len()]);
                match node {
                    Node::Dir(inner) => {
                        if i > front.len() && !(skip_secrets && is_secret(key@)) {
                            let below = tree_steps(inner@, below_src, below_dst, false);
                            assert(back[i - front.len()] == below[i - front.len() - 1]);
                        }
                    },
                    _ => {},
                }
            }
        }
    }
}

} // verus!
