use crate::paths::{join_path, joined_path};
use crate::transfer::{
    clone_opt_string, media_of, opt_string_view, targets_view, DownloadTarget, MediaType,
    TargetModel, TargetType,
};
use vstd::prelude::*;
use vstd::string::*;

verus! {

/// The lower-case form of a string, as std's `str::to_lowercase` gives it.
pub uninterp spec fn lowercase_of(s: Seq<char>) -> Seq<char>;

/// Relies on `str::to_lowercase`: the result depends on the characters alone.
#[verifier::external_body]
fn lowercased(s: &str) -> (r: String)
    ensures
        r@ == lowercase_of(s@),
{
    s.to_lowercase()
}

/// A node of a transfer's remote file tree, as the remote service lists it:
/// a folder with its children, or a leaf with the fetch URL that the service
/// handed out for it (looked up only for media leaves).
#[derive(Debug)]
pub struct RemoteNode {
    pub id: u64,
    pub name: String,
    pub file_type: String,
    pub url: Option<String>,
    pub children: Vec<RemoteNode>,
}

/// What has to be fetched from the remote service to complete a node.
#[derive(PartialEq, Eq, Structural, Clone, Copy, Debug)]
pub enum NodeNeed {
    /// A folder that is not skipped: its children are listed.
    Children,
    /// A media leaf: its fetch URL is resolved.
    Url,
    /// Nothing more is needed (a skipped folder or a non-media leaf).
    Nothing,
}

/// The models of a list of names.
pub open spec fn names_view(v: Seq<String>) -> Seq<Seq<char>> {
    v.map_values(|s: String| s@)
}

/// A folder is skipped when its lower-cased name is one of the skip names.
pub open spec fn skipped_name(name: Seq<char>, skip: Seq<Seq<char>>) -> bool {
    skip.contains(lowercase_of(name))
}

/// The file type of folders.
pub open spec fn is_folder_type(file_type: Seq<char>) -> bool {
    file_type == "FOLDER"@
}

/// What must be fetched for a node with this name and file type.
pub open spec fn need_of(name: Seq<char>, file_type: Seq<char>, skip: Seq<Seq<char>>) -> NodeNeed {
    if is_folder_type(file_type) {
        if skipped_name(name, skip) {
            NodeNeed::Nothing
        } else {
            NodeNeed::Children
        }
    } else if media_of(file_type) is Some {
        NodeNeed::Url
    } else {
        NodeNeed::Nothing
    }
}

/// The targets that the tree below `node` resolves to, in pre-order, with
/// `base` the local directory that `node` lands in.
pub open spec fn node_targets(
    node: RemoteNode,
    base: Seq<char>,
    skip: Seq<Seq<char>>,
    hash: Seq<char>,
    top: bool,
) -> Seq<TargetModel>
    decreases node, 1int, 0int,
{
    let to = joined_path(base, node.name@);
    if is_folder_type(node.file_type@) {
        if skipped_name(node.name@, skip) {
            Seq::empty()
        } else {
            seq![
                TargetModel {
                    from: None,
                    to: to,
                    target_type: TargetType::Directory,
                    top_level: top,
                    transfer_hash: hash,
                    media_type: None,
                },
            ] + children_targets(node, node.children@.len() as int, to, skip, hash)
        }
    } else if media_of(node.file_type@) is Some {
        seq![
            TargetModel {
                from: opt_string_view(node.url),
                to: to,
                target_type: TargetType::File,
                top_level: top,
                transfer_hash: hash,
                media_type: media_of(node.file_type@),
            },
        ]
    } else {
        Seq::empty()
    }
}

/// The targets of the first `n` children of `node`, one after the other.
pub open spec fn children_targets(
    node: RemoteNode,
    n: int,
    base: Seq<char>,
    skip: Seq<Seq<char>>,
    hash: Seq<char>,
) -> Seq<TargetModel>
    decreases node, 0int, n,
{
    if n <= 0 || n > node.children@.len() {
        Seq::empty()
    } else {
        children_targets(node, n - 1, base, skip, hash) + node_targets(
            node.children@[n - 1],
            base,
            skip,
            hash,
            false,
        )
    }
}

fn is_folder(file_type: &String) -> (r: bool)
    ensures
        r == is_folder_type(file_type@),
{
    *file_type == String::from_str("FOLDER")
}

/// Whether the lower-cased `name` is one of `skip`.
pub fn is_skipped(name: &str, skip: &Vec<String>) -> (r: bool)
    ensures
        r == skipped_name(name@, names_view(skip@)),
{
    let lower = lowercased(name);
    let mut i: usize = 0;
    while i < skip.len()
        invariant
            i <= skip.len(),
            lower@ == lowercase_of(name@),
            forall|k: int| 0 <= k < i ==> skip@[k]@ != lower@,
        decreases skip.len() - i,
    {
        if skip[i] == lower {
            assert(names_view(skip@)[i as int] == lower@);
            return true;
        }
        i = i + 1;
    }
    assert(!names_view(skip@).contains(lower@));
    false
}

/// What the remote service must be asked next to complete a node with this
/// name and file type.
pub fn node_need(name: &str, file_type: &String, skip: &Vec<String>) -> (r: NodeNeed)
    ensures
        r == need_of(name@, file_type@, names_view(skip@)),
{
    if is_folder(file_type) {
        if is_skipped(name, skip) {
            NodeNeed::Nothing
        } else {
            NodeNeed::Children
        }
    } else if MediaType::from_file_type_str(file_type.as_str()).is_some() {
        NodeNeed::Url
    } else {
        NodeNeed::Nothing
    }
}

/// Resolves the tree below `node` into its download targets, in pre-order:
/// a folder is followed by the targets of its children, skipped folders and
/// non-media leaves give nothing, and only `node` itself carries `top`.
pub fn resolve_node(node: &RemoteNode, base: &str, skip: &Vec<String>, hash: &str, top: bool) -> (r:
    Vec<DownloadTarget>)
    ensures
        targets_view(r@) == node_targets(*node, base@, names_view(skip@), hash@, top),
    decreases node,
{
    let to = join_path(base, node.name.as_str());
    if is_folder(&node.file_type) {
        if is_skipped(node.name.as_str(), skip) {
            assert(targets_view(Seq::<DownloadTarget>::empty()) =~= Seq::<TargetModel>::empty());
            return Vec::new();
        }
        let mut r: Vec<DownloadTarget> = Vec::new();
        r.push(
            DownloadTarget {
                from: None,
                to: to.clone(),
                target_type: TargetType::Directory,
                top_level: top,
                transfer_hash: String::from_str(hash),
                media_type: None,
            },
        );
        let ghost head = targets_view(r@);
        let mut i: usize = 0;
        while i < node.children.len()
            invariant
                i <= node.children@.len(),
                targets_view(r@) == head + children_targets(
                    *node,
                    i as int,
                    to@,
                    names_view(skip@),
                    hash@,
                ),
            decreases node.children@.len() - i,
        {
            assert(decreases_to!(*node => node.children@[i as int]));
            let mut sub = resolve_node(&node.children[i], to.as_str(), skip, hash, false);
            let ghost before = r@;
            let ghost added = sub@;
            r.append(&mut sub);
            assert(targets_view(r@) =~= targets_view(before) + targets_view(added));
            i = i + 1;
        }
        assert(targets_view(r@) =~= node_targets(*node, base@, names_view(skip@), hash@, top));
        r
    } else {
        let media = MediaType::from_file_type_str(node.file_type.as_str());
        match media {
            Some(_) => {
                let mut r: Vec<DownloadTarget> = Vec::new();
                r.push(
                    DownloadTarget {
                        from: clone_opt_string(&node.url),
                        to: to,
                        target_type: TargetType::File,
                        top_level: top,
                        transfer_hash: String::from_str(hash),
                        media_type: media,
                    },
                );
                assert(targets_view(r@) =~= node_targets(*node, base@, names_view(skip@), hash@, top));
                r
            },
            None => {
                assert(targets_view(Seq::<DownloadTarget>::empty()) =~= Seq::<TargetModel>::empty());
                Vec::new()
            },
        }
    }
}

/// No target of a subtree resolved without the top-level flag carries it.
proof fn lemma_no_top_level(node: RemoteNode, base: Seq<char>, skip: Seq<Seq<char>>, hash: Seq<char>)
    ensures
        forall|i: int|
            0 <= i < node_targets(node, base, skip, hash, false).len() ==> !(#[trigger] node_targets(
                node,
                base,
                skip,
                hash,
                false,
            )[i]).top_level,
    decreases node, 1int, 0int,
{
    let to = joined_path(base, node.name@);
    if is_folder_type(node.file_type@) && !skipped_name(node.name@, skip) {
        lemma_children_no_top_level(node, node.children@.len() as int, to, skip, hash);
    }
}

proof fn lemma_children_no_top_level(
    node: RemoteNode,
    n: int,
    base: Seq<char>,
    skip: Seq<Seq<char>>,
    hash: Seq<char>,
)
    ensures
        forall|i: int|
            0 <= i < children_targets(node, n, base, skip, hash).len() ==> !(
            #[trigger] children_targets(node, n, base, skip, hash)[i]).top_level,
    decreases node, 0int, n,
{
    if n > 0 && n <= node.children@.len() {
        lemma_children_no_top_level(node, n - 1, base, skip, hash);
        assert(decreases_to!(node => node.children@[n - 1]));
        lemma_no_top_level(node.children@[n - 1], base, skip, hash);
    }
}

/// Resolving a tree is a function of the tree, the base directory, the skip
/// names and the hash: two resolutions of an unchanged tree give the same
/// ordered list. Unless the root itself gives nothing, exactly one target of
/// that list, the first, is top-level.
pub proof fn lemma_resolution_stable(
    root: RemoteNode,
    base: Seq<char>,
    skip: Seq<Seq<char>>,
    hash: Seq<char>,
    first: Seq<TargetModel>,
    second: Seq<TargetModel>,
)
    requires
        first == node_targets(root, base, skip, hash, true),
        second == node_targets(root, base, skip, hash, true),
    ensures
        first == second,
        first.len() > 0 ==> first[0].top_level,
        forall|i: int| 1 <= i < first.len() ==> !(#[trigger] first[i]).top_level,
{
    let to = joined_path(base, root.name@);
    if is_folder_type(root.file_type@) && !skipped_name(root.name@, skip) {
        lemma_children_no_top_level(root, root.children@.len() as int, to, skip, hash);
        let rest = children_targets(root, root.children@.len() as int, to, skip, hash);
        assert forall|i: int| 1 <= i < first.len() implies !(#[trigger] first[i]).top_level by {
            assert(first[i] == rest[i - 1]);
        }
    }
}

/// A folder that the skip names exclude.
pub open spec fn skipped_folder(node: RemoteNode, skip: Seq<Seq<char>>) -> bool {
    is_folder_type(node.file_type@) && skipped_name(node.name@, skip)
}

/// The node reached from `node` by following the child indices `path`.
pub open spec fn subtree_at(node: RemoteNode, path: Seq<int>) -> Option<RemoteNode>
    decreases path.len(),
{
    if path.len() == 0 {
        Some(node)
    } else if 0 <= path[0] < node.children@.len() {
        subtree_at(node.children@[path[0]], path.drop_first())
    } else {
        None
    }
}

/// For each target that [`node_targets`] gives, in the same order, the child
/// indices that lead from `node` to the node it was made from.
pub open spec fn node_origins(node: RemoteNode, skip: Seq<Seq<char>>) -> Seq<Seq<int>>
    decreases node, 1int, 0int,
{
    if is_folder_type(node.file_type@) {
        if skipped_name(node.name@, skip) {
            Seq::empty()
        } else {
            seq![Seq::<int>::empty()] + children_origins(node, node.children@.len() as int, skip)
        }
    } else if media_of(node.file_type@) is Some {
        seq![Seq::<int>::empty()]
    } else {
        Seq::empty()
    }
}

/// The origins of the targets of the first `n` children of `node`.
pub open spec fn children_origins(node: RemoteNode, n: int, skip: Seq<Seq<char>>) -> Seq<Seq<int>>
    decreases node, 0int, n,
{
    if n <= 0 || n > node.children@.len() {
        Seq::empty()
    } else {
        children_origins(node, n - 1, skip) + node_origins(node.children@[n - 1], skip).map_values(
            |p: Seq<int>| seq![n - 1] + p,
        )
    }
}

pub open spec fn is_prefix(p: Seq<int>, q: Seq<int>) -> bool {
    p.len() <= q.len() && q.subrange(0, p.len() as int) == p
}

/// There is one origin per target.
proof fn lemma_origins_len(node: RemoteNode, base: Seq<char>, skip: Seq<Seq<char>>, hash: Seq<char>, top: bool)
    ensures
        node_origins(node, skip).len() == node_targets(node, base, skip, hash, top).len(),
    decreases node, 1int, 0int,
{
    let to = joined_path(base, node.name@);
    if is_folder_type(node.file_type@) && !skipped_name(node.name@, skip) {
        lemma_children_origins_len(node, node.children@.len() as int, to, skip, hash);
    }
}

proof fn lemma_children_origins_len(
    node: RemoteNode,
    n: int,
    base: Seq<char>,
    skip: Seq<Seq<char>>,
    hash: Seq<char>,
)
    ensures
        children_origins(node, n, skip).len() == children_targets(node, n, base, skip, hash).len(),
    decreases node, 0int, n,
{
    if n > 0 && n <= node.children@.len() {
        lemma_children_origins_len(node, n - 1, base, skip, hash);
        assert(decreases_to!(node => node.children@[n - 1]));
        lemma_origins_len(node.children@[n - 1], base, skip, hash, false);
    }
}

/// Each origin of the first `n` children starts with the index of its child.
proof fn lemma_children_origin_shape(node: RemoteNode, n: int, skip: Seq<Seq<char>>, k: int)
    requires
        0 <= k < children_origins(node, n, skip).len(),
    ensures
        exists|j: int, m: int|
            0 <= j < n && j < node.children@.len() && 0 <= m < node_origins(node.children@[j], skip).len()
                && children_origins(node, n, skip)[k] == seq![j] + #[trigger] node_origins(
                node.children@[j],
                skip,
            )[m],
    decreases n,
{
    if n > 0 && n <= node.children@.len() {
        let prev = children_origins(node, n - 1, skip);
        if k < prev.len() {
            lemma_children_origin_shape(node, n - 1, skip, k);
        } else {
            let m = k - prev.len();
            assert(children_origins(node, n, skip)[k] == seq![n - 1] + node_origins(
                node.children@[n - 1],
                skip,
            )[m]);
        }
    }
}

/// No origin lies in a skipped folder or below one.
proof fn lemma_skipped_subtree_excluded(root: RemoteNode, skip: Seq<Seq<char>>, path: Seq<int>, k: int)
    requires
        subtree_at(root, path) is Some,
        skipped_folder(subtree_at(root, path)->0, skip),
        0 <= k < node_origins(root, skip).len(),
    ensures
        !is_prefix(path, node_origins(root, skip)[k]),
    decreases root, path.len(),
{
    let origins = node_origins(root, skip);
    if path.len() == 0 {
        assert(origins.len() == 0);
    } else if is_folder_type(root.file_type@) && !skipped_name(root.name@, skip) {
        if k > 0 {
            let n = root.children@.len() as int;
            assert(origins[k] == children_origins(root, n, skip)[k - 1]);
            lemma_children_origin_shape(root, n, skip, k - 1);
            let (j, m) = choose|j: int, m: int|
                0 <= j < n && j < root.children@.len() && 0 <= m < node_origins(root.children@[j], skip).len()
                    && children_origins(root, n, skip)[k - 1] == seq![j] + #[trigger] node_origins(
                    root.children@[j],
                    skip,
                )[m];
            let q = node_origins(root.children@[j], skip)[m];
            if is_prefix(path, origins[k]) {
                assert(origins[k][0] == j);
                assert(path[0] == origins[k].subrange(0, path.len() as int)[0]);
                assert(path[0] == j);
                let child = root.children@[j];
                assert(decreases_to!(root => root.children@[j]));
                lemma_skipped_subtree_excluded(child, skip, path.drop_first(), m);
                assert(q.subrange(0, path.len() - 1) =~= path.drop_first()) by {
                    assert forall|x: int| 0 <= x < path.len() - 1 implies q.subrange(0, path.len() - 1)[x]
                        == path.drop_first()[x] by {
                        assert(origins[k][x + 1] == q[x]);
                        assert(origins[k].subrange(0, path.len() as int)[x + 1] == path[x + 1]);
                    }
                }
            }
        }
    }
}

/// Every origin leads to a node of the tree.
proof fn lemma_origin_in_tree(node: RemoteNode, skip: Seq<Seq<char>>, k: int)
    requires
        0 <= k < node_origins(node, skip).len(),
    ensures
        subtree_at(node, node_origins(node, skip)[k]) is Some,
    decreases node,
{
    let origins = node_origins(node, skip);
    if is_folder_type(node.file_type@) && !skipped_name(node.name@, skip) && k > 0 {
        let n = node.children@.len() as int;
        assert(origins[k] == children_origins(node, n, skip)[k - 1]);
        lemma_children_origin_shape(node, n, skip, k - 1);
        let (j, m) = choose|j: int, m: int|
            0 <= j < n && j < node.children@.len() && 0 <= m < node_origins(node.children@[j], skip).len()
                && children_origins(node, n, skip)[k - 1] == seq![j] + #[trigger] node_origins(
                node.children@[j],
                skip,
            )[m];
        let q = node_origins(node.children@[j], skip)[m];
        assert(decreases_to!(node => node.children@[j]));
        lemma_origin_in_tree(node.children@[j], skip, m);
        assert((seq![j] + q).drop_first() =~= q);
        assert((seq![j] + q)[0] == j);
    }
}

/// Each target of a resolved tree, the `k`-th, is made from a node of the tree
/// (its origin, the `k`-th of [`node_origins`]) that is neither a skipped
/// folder nor below one.
pub proof fn lemma_targets_avoid_skipped(
    root: RemoteNode,
    base: Seq<char>,
    skip: Seq<Seq<char>>,
    hash: Seq<char>,
    top: bool,
    k: int,
)
    requires
        0 <= k < node_targets(root, base, skip, hash, top).len(),
    ensures
        node_origins(root, skip).len() == node_targets(root, base, skip, hash, top).len(),
        subtree_at(root, node_origins(root, skip)[k]) is Some,
        !skipped_folder(subtree_at(root, node_origins(root, skip)[k])->0, skip),
        forall|path: Seq<int>|
            #![trigger subtree_at(root, path)]
            subtree_at(root, path) is Some && skipped_folder(subtree_at(root, path)->0, skip)
                ==> !is_prefix(path, node_origins(root, skip)[k]),
{
    lemma_origins_len(root, base, skip, hash, top);
    let origin = node_origins(root, skip)[k];
    lemma_origin_in_tree(root, skip, k);
    assert forall|path: Seq<int>|
        #![trigger subtree_at(root, path)]
        subtree_at(root, path) is Some && skipped_folder(subtree_at(root, path)->0, skip)
            implies !is_prefix(path, origin) by {
        lemma_skipped_subtree_excluded(root, skip, path, k);
    }
    if skipped_folder(subtree_at(root, origin)->0, skip) {
        lemma_skipped_subtree_excluded(root, skip, origin, k);
        assert(origin.subrange(0, origin.len() as int) =~= origin);
    }
}

} // verus!
