//! The node tree of a Figma file drawn as text, one node per line with
//! box-drawing connectors.
use vstd::prelude::*;
use crate::figma::output::AsciiTreeOptions;
use crate::text::{extend_chars, from_chars, to_chars, views};

verus! {

/// What the drawing reads of a node: id, name, type and children.
#[derive(Debug)]
pub struct TreeNode {
    pub id: String,
    pub name: String,
    pub node_type: String,
    pub children: Vec<TreeNode>,
}

/// A node's label: `name (type)`, with ` [id]` where ids are shown.
pub open spec fn node_label(n: TreeNode, show_id: bool) -> Seq<char> {
    if show_id {
        n.name@ + " ("@ + n.node_type@ + ") ["@ + n.id@ + "]"@
    } else {
        n.name@ + " ("@ + n.node_type@ + ")"@
    }
}

/// The number of levels of a tree.
pub open spec fn tree_height(n: TreeNode) -> nat
    decreases n, 0int,
{
    1 + forest_height(n.children@, 0)
}

/// The greatest height among the trees from index `i` on.
pub open spec fn forest_height(cs: Seq<TreeNode>, i: int) -> nat
    decreases cs, cs.len() - i,
{
    if i < 0 || i >= cs.len() {
        0
    } else {
        let h = tree_height(cs[i]);
        let rest = forest_height(cs, i + 1);
        if h > rest {
            h
        } else {
            rest
        }
    }
}

/// The lines of a node at `depth` and its subtree: nothing below the
/// depth limit (a negative limit draws everything); else the prefix, the
/// connector (`└── ` for the last child, `├── ` otherwise) and the label,
/// then the children under a prefix extended by `    ` or `│   `.
pub open spec fn subtree_lines(
    n: TreeNode,
    prefix: Seq<char>,
    is_last: bool,
    depth: int,
    max_depth: int,
    show_id: bool,
) -> Seq<Seq<char>>
    decreases n, 0int,
{
    if max_depth >= 0 && depth > max_depth {
        seq![]
    } else {
        let connector = if is_last {
            "\u{2514}\u{2500}\u{2500} "@
        } else {
            "\u{251c}\u{2500}\u{2500} "@
        };
        let child_prefix = prefix + if is_last {
            "    "@
        } else {
            "\u{2502}   "@
        };
        seq![prefix + connector + node_label(n, show_id)] + forest_lines(
            n.children@,
            child_prefix,
            depth + 1,
            max_depth,
            show_id,
            0,
        )
    }
}

/// The lines of the children from index `i` on, in order.
pub open spec fn forest_lines(
    cs: Seq<TreeNode>,
    prefix: Seq<char>,
    depth: int,
    max_depth: int,
    show_id: bool,
    i: int,
) -> Seq<Seq<char>>
    decreases cs, cs.len() - i,
{
    if i < 0 || i >= cs.len() {
        seq![]
    } else {
        subtree_lines(cs[i], prefix, i == cs.len() - 1, depth, max_depth, show_id) + forest_lines(
            cs,
            prefix,
            depth,
            max_depth,
            show_id,
            i + 1,
        )
    }
}

/// The drawing of a tree: the root as `name (type)`, then its children at
/// depth 1.
pub open spec fn ascii_tree_spec(root: TreeNode, opts: AsciiTreeOptions) -> Seq<Seq<char>> {
    seq![root.name@ + " ("@ + root.node_type@ + ")"@] + forest_lines(
        root.children@,
        Seq::<char>::empty(),
        1,
        opts.max_depth as int,
        opts.show_id,
        0,
    )
}

proof fn lemma_forest_height_bound(cs: Seq<TreeNode>, i: int, j: int)
    requires
        0 <= i <= j < cs.len(),
    ensures
        tree_height(cs[j]) <= forest_height(cs, i),
    decreases j - i,
{
    if i < j {
        lemma_forest_height_bound(cs, i + 1, j);
    }
}

fn label_exec(n: &TreeNode, show_id: bool) -> (r: Vec<char>)
    ensures
        r@ == node_label(*n, show_id),
{
    let mut v = to_chars(n.name.as_str());
    extend_chars(&mut v, to_chars(" (").as_slice());
    extend_chars(&mut v, to_chars(n.node_type.as_str()).as_slice());
    if show_id {
        extend_chars(&mut v, to_chars(") [").as_slice());
        extend_chars(&mut v, to_chars(n.id.as_str()).as_slice());
        extend_chars(&mut v, to_chars("]").as_slice());
    } else {
        extend_chars(&mut v, to_chars(")").as_slice());
    }
    v
}

fn subtree_exec(
    n: &TreeNode,
    prefix: &Vec<char>,
    is_last: bool,
    depth: i32,
    opts: &AsciiTreeOptions,
    out: &mut Vec<Vec<char>>,
)
    requires
        depth >= 1,
        depth + tree_height(*n) <= i32::MAX,
    ensures
        views(final(out)@) == views(old(out)@) + subtree_lines(
            *n,
            prefix@,
            is_last,
            depth as int,
            opts.max_depth as int,
            opts.show_id,
        ),
    decreases n, 0int,
{
    if opts.max_depth >= 0 && depth > opts.max_depth {
        assert(views(out@) =~= views(old(out)@) + Seq::<Seq<char>>::empty());
        return;
    }
    let mut line = prefix.clone();
    assert(line@ == prefix@);
    if is_last {
        extend_chars(&mut line, to_chars("\u{2514}\u{2500}\u{2500} ").as_slice());
    } else {
        extend_chars(&mut line, to_chars("\u{251c}\u{2500}\u{2500} ").as_slice());
    }
    extend_chars(&mut line, label_exec(n, opts.show_id).as_slice());
    let ghost before = views(out@);
    out.push(line);
    assert(views(out@) =~= before.push(line@));
    let mut child_prefix = prefix.clone();
    assert(child_prefix@ == prefix@);
    if is_last {
        extend_chars(&mut child_prefix, to_chars("    ").as_slice());
    } else {
        extend_chars(&mut child_prefix, to_chars("\u{2502}   ").as_slice());
    }
    proof {
        assert(tree_height(*n) == 1 + forest_height(n.children@, 0));
    }
    forest_exec(&n.children, &child_prefix, depth + 1, opts, out, Ghost(tree_height(*n) - 1));
    assert(views(out@) =~= views(old(out)@) + subtree_lines(
        *n,
        prefix@,
        is_last,
        depth as int,
        opts.max_depth as int,
        opts.show_id,
    ));
}

fn forest_exec(
    cs: &Vec<TreeNode>,
    prefix: &Vec<char>,
    depth: i32,
    opts: &AsciiTreeOptions,
    out: &mut Vec<Vec<char>>,
    Ghost(h): Ghost<int>,
)
    requires
        depth >= 1,
        h == forest_height(cs@, 0),
        depth + h <= i32::MAX,
    ensures
        views(final(out)@) == views(old(out)@) + forest_lines(
            cs@,
            prefix@,
            depth as int,
            opts.max_depth as int,
            opts.show_id,
            0,
        ),
    decreases cs@, cs@.len(),
{
    let mut i: usize = 0;
    while i < cs.len()
        invariant
            i <= cs.len(),
            depth >= 1,
            h == forest_height(cs@, 0),
            depth + h <= i32::MAX,
            views(out@) + forest_lines(
                cs@,
                prefix@,
                depth as int,
                opts.max_depth as int,
                opts.show_id,
                i as int,
            ) == views(old(out)@) + forest_lines(
                cs@,
                prefix@,
                depth as int,
                opts.max_depth as int,
                opts.show_id,
                0,
            ),
        decreases cs.len() - i,
    {
        proof {
            lemma_forest_height_bound(cs@, 0, i as int);
        }
        let ghost before = views(out@);
        subtree_exec(&cs[i], prefix, i == cs.len() - 1, depth, opts, out);
        assert(before + forest_lines(
            cs@,
            prefix@,
            depth as int,
            opts.max_depth as int,
            opts.show_id,
            i as int,
        ) =~= views(out@) + forest_lines(
            cs@,
            prefix@,
            depth as int,
            opts.max_depth as int,
            opts.show_id,
            i + 1,
        ));
        i = i + 1;
    }
    assert(views(out@) + Seq::<Seq<char>>::empty() =~= views(out@));
}

/// Draws a node tree: see `ascii_tree_spec`. The tree must be less deep
/// than the largest `i32`, the type of the depth counter.
pub fn render_ascii_tree(root: &TreeNode, opts: &AsciiTreeOptions) -> (r: Vec<String>)
    requires
        tree_height(*root) < i32::MAX,
    ensures
        r@.map_values(|s: String| s@) == ascii_tree_spec(*root, *opts),
{
    let mut out: Vec<Vec<char>> = Vec::new();
    let mut first = to_chars(root.name.as_str());
    extend_chars(&mut first, to_chars(" (").as_slice());
    extend_chars(&mut first, to_chars(root.node_type.as_str()).as_slice());
    extend_chars(&mut first, to_chars(")").as_slice());
    out.push(first);
    let empty: Vec<char> = Vec::new();
    proof {
        assert(tree_height(*root) == 1 + forest_height(root.children@, 0));
    }
    forest_exec(&root.children, &empty, 1, opts, &mut out, Ghost(tree_height(*root) - 1));
    let mut lines: Vec<String> = Vec::new();
    let mut i: usize = 0;
    while i < out.len()
        invariant
            i <= out.len(),
            lines@.map_values(|s: String| s@) == views(out@).take(i as int),
        decreases out.len() - i,
    {
        let ghost prev = lines@.map_values(|s: String| s@);
        let s = from_chars(out[i].as_slice());
        lines.push(s);
        assert(lines@.map_values(|s: String| s@) =~= prev.push(s@));
        assert(views(out@).take(i + 1) =~= views(out@).take(i as int).push(out@[i as int]@));
        i = i + 1;
    }
    assert(views(out@).take(out.len() as int) =~= views(out@));
    assert(views(out@) =~= ascii_tree_spec(*root, *opts));
    lines
}

} // verus!
