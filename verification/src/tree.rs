//! The directory tree of an archive's entries, as the browser shows it, and the
//! test that tells binary content from text.
use vstd::prelude::*;

use crate::archive::ArchiveEntry;
use crate::order::{lemma_lt_irreflexive, lemma_lt_total, lemma_lt_transitive, seq_lt, str_lt};
use crate::archive::tar::{spec_strip_dot_slash, strip_dot_slash};
use crate::text::{find_char, first_index_of, starts_with, str_eq};

verus! {

/// A node of the tree: a file with its entry, or a directory.
#[derive(Debug)]
pub enum DirNode {
    File(ArchiveEntry),
    Dir(DirTree),
}

/// A directory: its children by name.
#[derive(Debug)]
pub struct DirTree {
    pub children: Children,
}

/// The children of a directory, kept in strictly increasing order of name.
#[derive(Debug)]
pub struct Children {
    pub entries: Vec<(String, DirNode)>,
}

/// The content of a node, without the representation of directories.
pub enum NodeModel {
    File(ArchiveEntry),
    Dir(Map<Seq<char>, NodeModel>),
}

/// The names of a list of children are strictly increasing.
pub open spec fn names_increasing(s: Seq<(String, DirNode)>) -> bool {
    forall|i: int, j: int| 0 <= i < j < s.len() ==> seq_lt(#[trigger] s[i].0@, #[trigger] s[j].0@)
}

/// Every directory in a list of children is well formed.
pub open spec fn entries_wf(s: Seq<(String, DirNode)>) -> bool
    decreases s,
{
    if s.len() == 0 {
        true
    } else {
        entries_wf(s.drop_last()) && node_wf(s.last().1)
    }
}

/// A node is well formed: a file, or a well-formed directory.
pub open spec fn node_wf(n: DirNode) -> bool
    decreases n,
{
    match n {
        DirNode::File(_) => true,
        DirNode::Dir(t) => tree_wf(t),
    }
}

/// A directory is well formed: its children's names strictly increase and the
/// directories among them are well formed.
pub open spec fn tree_wf(t: DirTree) -> bool
    decreases t,
{
    names_increasing(t.children.entries@) && entries_wf(t.children.entries@)
}

/// The content of a list of children: each name mapped to its node's content.
pub open spec fn entries_model(s: Seq<(String, DirNode)>) -> Map<Seq<char>, NodeModel>
    decreases s,
{
    if s.len() == 0 {
        Map::empty()
    } else {
        entries_model(s.drop_last()).insert(s.last().0@, node_model(s.last().1))
    }
}

/// The content of a node.
pub open spec fn node_model(n: DirNode) -> NodeModel
    decreases n,
{
    match n {
        DirNode::File(e) => NodeModel::File(e),
        DirNode::Dir(t) => NodeModel::Dir(tree_model(t)),
    }
}

/// The content of a directory.
pub open spec fn tree_model(t: DirTree) -> Map<Seq<char>, NodeModel>
    decreases t,
{
    entries_model(t.children.entries@)
}

/// The content of a list of children with increasing names: exactly their
/// names, each with its node's content.
pub proof fn lemma_entries_model(s: Seq<(String, DirNode)>)
    requires
        names_increasing(s),
    ensures
        forall|k: Seq<char>|
            entries_model(s).contains_key(k) <==> exists|i: int|
                0 <= i < s.len() && (#[trigger] s[i]).0@ == k,
        forall|i: int|
            0 <= i < s.len() ==> entries_model(s)[(#[trigger] s[i]).0@] == node_model(s[i].1),
    decreases s.len(),
{
    if s.len() > 0 {
        let t = s.drop_last();
        assert forall|i: int, j: int| 0 <= i < j < t.len() implies seq_lt(
            #[trigger] t[i].0@,
            #[trigger] t[j].0@,
        ) by {
            assert(t[i] == s[i] && t[j] == s[j]);
        }
        lemma_entries_model(t);
        assert forall|k: Seq<char>|
            entries_model(s).contains_key(k) <==> exists|i: int|
                0 <= i < s.len() && (#[trigger] s[i]).0@ == k by {
            if entries_model(s).contains_key(k) && k != s.last().0@ {
                let i = choose|i: int| 0 <= i < t.len() && (#[trigger] t[i]).0@ == k;
                assert(s[i] == t[i]);
            }
            if exists|i: int| 0 <= i < s.len() && (#[trigger] s[i]).0@ == k {
                let i = choose|i: int| 0 <= i < s.len() && (#[trigger] s[i]).0@ == k;
                if i < s.len() - 1 {
                    assert(t[i] == s[i]);
                }
            }
        }
        assert forall|i: int| 0 <= i < s.len() implies entries_model(s)[(#[trigger] s[i]).0@]
            == node_model(s[i].1) by {
            if i < s.len() - 1 {
                assert(t[i] == s[i]);
                assert(seq_lt(s[i].0@, s[s.len() - 1].0@));
                lemma_lt_irreflexive(s[i].0@);
            }
        }
    }
}

/// A list of children is well formed exactly when each of its nodes is.
pub proof fn lemma_entries_wf(s: Seq<(String, DirNode)>)
    ensures
        entries_wf(s) <==> forall|i: int| 0 <= i < s.len() ==> node_wf(#[trigger] s[i].1),
    decreases s.len(),
{
    if s.len() > 0 {
        let t = s.drop_last();
        lemma_entries_wf(t);
        assert forall|i: int| 0 <= i < t.len() implies #[trigger] t[i] == s[i] by {}
        if forall|i: int| 0 <= i < s.len() ==> node_wf(#[trigger] s[i].1) {
            assert forall|i: int| 0 <= i < t.len() implies node_wf(#[trigger] t[i].1) by {
                assert(t[i] == s[i]);
            }
        }
        if entries_wf(s) {
            assert forall|i: int| 0 <= i < s.len() implies node_wf(#[trigger] s[i].1) by {
                if i < t.len() {
                    assert(t[i] == s[i]);
                }
            }
        }
    }
}


/// The children whose names sort before `key` are a prefix, ending at `pos`;
/// `found` tells whether the child at `pos` is named `key`.
pub open spec fn search_result(s: Seq<(String, DirNode)>, key: Seq<char>, found: bool, pos: int) -> bool {
    &&& 0 <= pos <= s.len()
    &&& forall|j: int| 0 <= j < pos ==> seq_lt(#[trigger] s[j].0@, key)
    &&& found ==> pos < s.len() && s[pos].0@ == key
    &&& !found ==> (pos == s.len() || seq_lt(key, s[pos].0@))
}

/// With increasing names, a search result tells whether `key` is a name.
pub proof fn lemma_search_result(s: Seq<(String, DirNode)>, key: Seq<char>, found: bool, pos: int)
    requires
        names_increasing(s),
        search_result(s, key, found, pos),
    ensures
        found <==> exists|i: int| 0 <= i < s.len() && (#[trigger] s[i]).0@ == key,
{
    if !found && exists|i: int| 0 <= i < s.len() && (#[trigger] s[i]).0@ == key {
        let i = choose|i: int| 0 <= i < s.len() && (#[trigger] s[i]).0@ == key;
        if i < pos {
            lemma_lt_irreflexive(key);
        } else if i == pos {
            lemma_lt_irreflexive(key);
        } else {
            assert(seq_lt(s[pos].0@, s[i].0@));
            lemma_lt_transitive(key, s[pos].0@, key);
            lemma_lt_irreflexive(key);
        }
    }
}

/// Inserting a child at the place a search found for its name keeps the names
/// increasing, and adds the name with the node's content.
pub proof fn lemma_insert_child(s: Seq<(String, DirNode)>, pos: int, k: String, n: DirNode)
    requires
        names_increasing(s),
        search_result(s, k@, false, pos),
    ensures
        names_increasing(s.insert(pos, (k, n))),
        entries_model(s.insert(pos, (k, n))) == entries_model(s).insert(k@, node_model(n)),
        entries_wf(s) && node_wf(n) ==> entries_wf(s.insert(pos, (k, n))),
{
    let t = s.insert(pos, (k, n));
    assert forall|i: int, j: int| 0 <= i < j < t.len() implies seq_lt(
        #[trigger] t[i].0@,
        #[trigger] t[j].0@,
    ) by {
        if j < pos {
            assert(t[i] == s[i] && t[j] == s[j]);
        } else if j == pos {
            assert(t[i] == s[i]);
        } else if i == pos {
            assert(t[j] == s[j - 1]);
            if j - 1 > pos {
                assert(seq_lt(s[pos].0@, s[j - 1].0@));
                lemma_lt_transitive(k@, s[pos].0@, s[j - 1].0@);
            }
        } else if i < pos {
            assert(t[i] == s[i] && t[j] == s[j - 1]);
        } else {
            assert(t[i] == s[i - 1] && t[j] == s[j - 1]);
        }
    }
    lemma_entries_model(s);
    lemma_entries_model(t);
    lemma_search_result(s, k@, false, pos);
    let m = entries_model(s).insert(k@, node_model(n));
    assert forall|key: Seq<char>| #[trigger] entries_model(t).contains_key(key) == m.contains_key(key) by {
        if key == k@ {
            assert(t[pos].0@ == k@);
        }
        if m.contains_key(key) && key != k@ {
            let i = choose|i: int| 0 <= i < s.len() && (#[trigger] s[i]).0@ == key;
            if i < pos {
                assert(t[i] == s[i]);
            } else {
                assert(t[i + 1] == s[i]);
            }
        }
        if entries_model(t).contains_key(key) {
            let i = choose|i: int| 0 <= i < t.len() && (#[trigger] t[i]).0@ == key;
            if i < pos {
                assert(t[i] == s[i]);
            } else if i > pos {
                assert(t[i] == s[i - 1]);
            }
        }
    }
    assert forall|key: Seq<char>| #[trigger] entries_model(t).contains_key(key) implies entries_model(t)[key] == m[key] by {
        let i = choose|i: int| 0 <= i < t.len() && (#[trigger] t[i]).0@ == key;
        if i < pos {
            assert(t[i] == s[i]);
            lemma_lt_irreflexive(k@);
        } else if i > pos {
            assert(t[i] == s[i - 1]);
            lemma_lt_irreflexive(k@);
            if i - 1 > pos {
                assert(seq_lt(s[pos].0@, s[i - 1].0@));
                lemma_lt_transitive(k@, s[pos].0@, s[i - 1].0@);
            }
        }
    }
    assert(entries_model(t) =~= m);
    lemma_entries_wf(s);
    lemma_entries_wf(t);
    if entries_wf(s) && node_wf(n) {
        assert forall|i: int| 0 <= i < t.len() implies node_wf(#[trigger] t[i].1) by {
            if i < pos {
                assert(t[i] == s[i]);
            } else if i > pos {
                assert(t[i] == s[i - 1]);
            }
        }
    }
}

/// Giving the child at `idx` a new node keeps the names increasing, and maps its
/// name to the new node's content.
pub proof fn lemma_replace_child(s: Seq<(String, DirNode)>, idx: int, n: DirNode)
    requires
        names_increasing(s),
        0 <= idx < s.len(),
    ensures
        names_increasing(s.update(idx, (s[idx].0, n))),
        entries_model(s.update(idx, (s[idx].0, n))) == entries_model(s).insert(s[idx].0@, node_model(n)),
        entries_wf(s) && node_wf(n) ==> entries_wf(s.update(idx, (s[idx].0, n))),
{
    let t = s.update(idx, (s[idx].0, n));
    assert forall|i: int, j: int| 0 <= i < j < t.len() implies seq_lt(
        #[trigger] t[i].0@,
        #[trigger] t[j].0@,
    ) by {
        assert(t[i].0 == s[i].0 && t[j].0 == s[j].0);
    }
    lemma_entries_model(s);
    lemma_entries_model(t);
    let m = entries_model(s).insert(s[idx].0@, node_model(n));
    assert forall|key: Seq<char>| #[trigger] entries_model(t).contains_key(key) == m.contains_key(key) by {
        if key == s[idx].0@ {
            assert(t[idx].0 == s[idx].0);
        }
        if m.contains_key(key) && key != s[idx].0@ {
            let i = choose|i: int| 0 <= i < s.len() && (#[trigger] s[i]).0@ == key;
            assert(t[i].0 == s[i].0);
        }
        if entries_model(t).contains_key(key) {
            let i = choose|i: int| 0 <= i < t.len() && (#[trigger] t[i]).0@ == key;
            assert(t[i].0 == s[i].0);
        }
    }
    assert forall|key: Seq<char>| #[trigger] entries_model(t).contains_key(key) implies entries_model(t)[key] == m[key] by {
        let i = choose|i: int| 0 <= i < t.len() && (#[trigger] t[i]).0@ == key;
        if i != idx {
            assert(t[i] == s[i]);
            if i < idx {
                assert(seq_lt(s[i].0@, s[idx].0@));
            } else {
                assert(seq_lt(s[idx].0@, s[i].0@));
            }
            lemma_lt_irreflexive(key);
        }
    }
    assert(entries_model(t) =~= m);
    lemma_entries_wf(s);
    lemma_entries_wf(t);
    if entries_wf(s) && node_wf(n) {
        assert forall|i: int| 0 <= i < t.len() implies node_wf(#[trigger] t[i].1) by {
            if i != idx {
                assert(t[i] == s[i]);
            }
        }
    }
}

/// The content after inserting the entry `e` at the path `parts`: the last part
/// names a directory (kept if the name is taken) or a file (replacing what had
/// the name); earlier parts are directories, made when missing, and a file in
/// their place drops the entry.
pub open spec fn model_insert(m: Map<Seq<char>, NodeModel>, parts: Seq<Seq<char>>, e: ArchiveEntry) -> Map<
    Seq<char>,
    NodeModel,
>
    decreases parts.len(),
{
    if parts.len() == 0 {
        m
    } else if parts.len() == 1 {
        if e.is_dir {
            if m.contains_key(parts[0]) {
                m
            } else {
                m.insert(parts[0], NodeModel::Dir(Map::empty()))
            }
        } else {
            m.insert(parts[0], NodeModel::File(e))
        }
    } else if !m.contains_key(parts[0]) {
        m.insert(parts[0], NodeModel::Dir(model_insert(Map::empty(), parts.drop_first(), e)))
    } else {
        match m[parts[0]] {
            NodeModel::Dir(sub) => m.insert(
                parts[0],
                NodeModel::Dir(model_insert(sub, parts.drop_first(), e)),
            ),
            NodeModel::File(_) => m,
        }
    }
}

/// The node at the path `parts`, if every earlier part is a directory.
pub open spec fn model_get(m: Map<Seq<char>, NodeModel>, parts: Seq<Seq<char>>) -> Option<NodeModel>
    decreases parts.len(),
{
    if parts.len() == 0 || !m.contains_key(parts[0]) {
        None
    } else if parts.len() == 1 {
        Some(m[parts[0]])
    } else {
        match m[parts[0]] {
            NodeModel::Dir(sub) => model_get(sub, parts.drop_first()),
            NodeModel::File(_) => None,
        }
    }
}

/// No file stands where the path `parts` needs a directory.
pub open spec fn path_open(m: Map<Seq<char>, NodeModel>, parts: Seq<Seq<char>>) -> bool
    decreases parts.len(),
{
    parts.len() <= 1 || !m.contains_key(parts[0]) || match m[parts[0]] {
        NodeModel::Dir(sub) => path_open(sub, parts.drop_first()),
        NodeModel::File(_) => false,
    }
}

/// An entry inserted where no file is in the way is found at its path: a file
/// as its entry, a directory as a directory (the one already there, if any).
pub proof fn law_inserted_entry_is_found(m: Map<Seq<char>, NodeModel>, parts: Seq<Seq<char>>, e: ArchiveEntry)
    requires
        parts.len() > 0,
        path_open(m, parts),
        e.is_dir ==> !(model_get(m, parts) matches Some(NodeModel::File(_))),
    ensures
        !e.is_dir ==> model_get(model_insert(m, parts, e), parts) == Some(NodeModel::File(e)),
        e.is_dir ==> model_get(model_insert(m, parts, e), parts) matches Some(NodeModel::Dir(_)),
    decreases parts.len(),
{
    if parts.len() > 1 {
        let rest = parts.drop_first();
        if !m.contains_key(parts[0]) {
            law_inserted_entry_is_found(Map::empty(), rest, e);
        } else {
            match m[parts[0]] {
                NodeModel::Dir(sub) => law_inserted_entry_is_found(sub, rest, e),
                NodeModel::File(_) => {},
            }
        }
    }
}

/// The last entry of a listing is found in its tree at its path when no file
/// of the earlier entries is in the way.
pub proof fn law_last_entry_is_found(entries: Seq<ArchiveEntry>, e: ArchiveEntry)
    requires
        entry_path(e.name@).len() > 0,
        !e.is_dir,
        path_open(model_of_entries(entries), path_parts(entry_path(e.name@))),
    ensures
        model_get(model_of_entries(entries.push(e)), path_parts(entry_path(e.name@))) == Some(
            NodeModel::File(e),
        ),
{
    assert(entries.push(e).drop_last() =~= entries);
    lemma_path_parts_nonempty(entry_path(e.name@));
    law_inserted_entry_is_found(model_of_entries(entries), path_parts(entry_path(e.name@)), e);
}

/// A path has at least one component.
proof fn lemma_path_parts_nonempty(s: Seq<char>)
    ensures
        path_parts(s).len() > 0,
{
}

/// The views of a list of names.
pub open spec fn name_views(parts: Seq<String>) -> Seq<Seq<char>> {
    parts.map_values(|p: String| p@)
}

impl DirTree {
    /// An empty directory.
    pub fn new() -> (r: DirTree)
        ensures
            tree_wf(r),
            tree_model(r) == Map::<Seq<char>, NodeModel>::empty(),
    {
        let r = DirTree { children: Children { entries: Vec::new() } };
        assert(tree_model(r) =~= Map::<Seq<char>, NodeModel>::empty());
        r
    }

    /// Inserts `entry` at the path `parts[start..]` below this directory.
    pub fn insert(&mut self, parts: &Vec<String>, start: usize, entry: ArchiveEntry)
        requires
            tree_wf(*old(self)),
            start <= parts@.len(),
        ensures
            tree_wf(*final(self)),
            tree_model(*final(self)) == model_insert(
                tree_model(*old(self)),
                name_views(parts@).skip(start as int),
                entry,
            ),
        decreases parts@.len() - start,
    {
        let ghost views = name_views(parts@).skip(start as int);
        let ghost s = self.children.entries@;
        if start >= parts.len() {
            return;
        }
        assert(views[0] == parts@[start as int]@);
        let key = &parts[start];
        let (found, pos) = self.children.search(key.as_str());
        proof {
            lemma_search_result(s, key@, found, pos as int);
            lemma_entries_model(s);
            lemma_entries_wf(s);
        }
        assert(tree_model(*self) == entries_model(s));
        if start + 1 == parts.len() {
            if entry.is_dir {
                if !found {
                    let node = DirNode::Dir(DirTree::new());
                    proof {
                        lemma_insert_child(s, pos as int, *key, node);
                    }
                    self.children.entries.insert(pos, (key.clone(), node));
                    
                }
            } else {
                let node = DirNode::File(entry);
                if found {
                    proof {
                        lemma_replace_child(s, pos as int, node);
                    }
                    let (k, _old) = self.children.entries.remove(pos);
                    self.children.entries.insert(pos, (k, node));
                    assert(self.children.entries@ =~= s.update(pos as int, (s[pos as int].0, node)));
                } else {
                    proof {
                        lemma_insert_child(s, pos as int, *key, node);
                    }
                    self.children.entries.insert(pos, (key.clone(), node));
                }
            }
            return;
        }
        assert(views.drop_first() =~= name_views(parts@).skip(start + 1));
        if !found {
            let mut sub = DirTree::new();
            sub.insert(parts, start + 1, entry);
            let node = DirNode::Dir(sub);
            proof {
                lemma_insert_child(s, pos as int, *key, node);
            }
            self.children.entries.insert(pos, (key.clone(), node));
        } else {
            let (k, node) = self.children.entries.remove(pos);
            match node {
                DirNode::Dir(mut sub) => {
                    assert(entries_model(s)[s[pos as int].0@] == NodeModel::Dir(tree_model(sub)));
                    assert(node_wf(s[pos as int].1));
                    sub.insert(parts, start + 1, entry);
                    let new_node = DirNode::Dir(sub);
                    proof {
                        lemma_replace_child(s, pos as int, new_node);
                    }
                    self.children.entries.insert(pos, (k, new_node));
                    assert(self.children.entries@ =~= s.update(pos as int, (s[pos as int].0, new_node)));
                },
                DirNode::File(f) => {
                    self.children.entries.insert(pos, (k, DirNode::File(f)));
                    assert(self.children.entries@ =~= s);
                },
            }
        }
    }
}

/// `s` without any trailing `c`.
pub open spec fn trim_trailing(s: Seq<char>, c: char) -> Seq<char>
    decreases s.len(),
{
    if s.len() > 0 && s.last() == c {
        trim_trailing(s.drop_last(), c)
    } else {
        s
    }
}

/// `s` without any trailing `/`.
pub fn trim_trailing_slashes(s: &str) -> (r: String)
    ensures
        r@ == trim_trailing(s@, '/'),
{
    let mut end = s.unicode_len();
    assert(s@.subrange(0, end as int) =~= s@);
    while end > 0 && s.get_char(end - 1) == '/'
        invariant
            end <= s@.len(),
            trim_trailing(s@, '/') == trim_trailing(s@.subrange(0, end as int), '/'),
        decreases end,
    {
        assert(s@.subrange(0, end as int).drop_last() =~= s@.subrange(0, end - 1));
        end = end - 1;
    }
    s.substring_char(0, end).to_owned()
}

/// The components of a path: the text before each `/` and after the last.
pub open spec fn path_parts(s: Seq<char>) -> Seq<Seq<char>>
    decreases s.len(),
{
    match first_index_of(s, '/') {
        None => seq![s],
        Some(i) => if 0 <= i < s.len() {
            seq![s.subrange(0, i)] + path_parts(s.subrange(i + 1, s.len() as int))
        } else {
            seq![s]
        },
    }
}

/// Splits a path at each `/`.
pub fn split_path(s: &str) -> (r: Vec<String>)
    ensures
        name_views(r@) == path_parts(s@),
    decreases s@.len(),
{
    let n = s.unicode_len();
    match find_char(s, '/') {
        None => {
            let mut v = Vec::new();
            v.push(s.to_owned());
            assert(name_views(v@) =~= path_parts(s@));
            v
        },
        Some(i) => {
            proof {
                crate::text::lemma_first_index_bound(s@, '/');
            }
            let mut v = Vec::new();
            v.push(s.substring_char(0, i).to_owned());
            let mut rest = split_path(s.substring_char(i + 1, n));
            let ghost first = v@;
            let ghost tail = rest@;
            v.append(&mut rest);
            assert(v@ =~= first + tail);
            assert(name_views(v@) =~= name_views(first) + name_views(tail));
            v
        },
    }
}

/// The path an entry is placed at: its name without a leading `./` and without
/// trailing `/`.
pub open spec fn entry_path(name: Seq<char>) -> Seq<char> {
    trim_trailing(spec_strip_dot_slash(name), '/')
}

/// The content after adding one entry; an entry whose path is empty (such as
/// `./`) is skipped.
pub open spec fn model_add(m: Map<Seq<char>, NodeModel>, e: ArchiveEntry) -> Map<Seq<char>, NodeModel> {
    let p = entry_path(e.name@);
    if p.len() == 0 {
        m
    } else {
        model_insert(m, path_parts(p), e)
    }
}

/// The content of the tree built from `entries`, added in order.
pub open spec fn model_of_entries(entries: Seq<ArchiveEntry>) -> Map<Seq<char>, NodeModel>
    decreases entries.len(),
{
    if entries.len() == 0 {
        Map::empty()
    } else {
        model_add(model_of_entries(entries.drop_last()), entries.last())
    }
}

/// An entry with an empty path, placed before the last entries, leaves the
/// content as it is without it.
proof fn lemma_skipped_entry(a: Seq<ArchiveEntry>, z: ArchiveEntry, b: Seq<ArchiveEntry>)
    requires
        entry_path(z.name@).len() == 0,
    ensures
        model_of_entries(a.push(z) + b) == model_of_entries(a + b),
    decreases b.len(),
{
    if b.len() == 0 {
        assert(a.push(z) + b =~= a.push(z));
        assert(a + b =~= a);
        assert(a.push(z).drop_last() =~= a);
    } else {
        lemma_skipped_entry(a, z, b.drop_last());
        assert((a.push(z) + b).drop_last() =~= a.push(z) + b.drop_last());
        assert((a + b).drop_last() =~= a + b.drop_last());
        assert((a.push(z) + b).last() == b.last());
        assert((a + b).last() == b.last());
    }
}

/// An entry whose path is empty (one named `./`, `/` or nothing, say) is
/// skipped: wherever it stands among the entries, the tree built from them is
/// the tree built without it.
pub proof fn law_empty_paths_are_skipped(entries: Seq<ArchiveEntry>, k: int, z: ArchiveEntry)
    requires
        0 <= k <= entries.len(),
        entry_path(z.name@).len() == 0,
    ensures
        model_of_entries(entries.insert(k, z)) == model_of_entries(entries),
{
    assert(entries.insert(k, z) =~= entries.take(k).push(z) + entries.skip(k));
    assert(entries =~= entries.take(k) + entries.skip(k));
    lemma_skipped_entry(entries.take(k), z, entries.skip(k));
}

/// Two entries alike in everything but their names.
pub open spec fn alike_but_name(a: ArchiveEntry, b: ArchiveEntry) -> bool {
    &&& a.size == b.size
    &&& a.compressed_size == b.compressed_size
    &&& a.is_dir == b.is_dir
    &&& a.method@ == b.method@
    &&& match (a.modified, b.modified) {
        (Some(x), Some(y)) => x@ == y@,
        (None, None) => true,
        _ => false,
    }
}

/// Two nodes of the same kind, names and nesting, whose files hold entries
/// alike but for their names.
pub open spec fn same_shape(n1: NodeModel, n2: NodeModel) -> bool
    decreases n1,
{
    match (n1, n2) {
        (NodeModel::File(a), NodeModel::File(b)) => alike_but_name(a, b),
        (NodeModel::Dir(m1), NodeModel::Dir(m2)) => {
            &&& m1.dom() == m2.dom()
            &&& forall|k: Seq<char>| #[trigger] m1.contains_key(k) ==> same_shape(m1[k], m2[k])
        },
        _ => false,
    }
}

/// Putting alike nodes at one name into directories of the same shape keeps
/// them of the same shape.
proof fn lemma_shape_insert(
    m1: Map<Seq<char>, NodeModel>,
    m2: Map<Seq<char>, NodeModel>,
    k: Seq<char>,
    v1: NodeModel,
    v2: NodeModel,
)
    requires
        same_shape(NodeModel::Dir(m1), NodeModel::Dir(m2)),
        same_shape(v1, v2),
    ensures
        same_shape(NodeModel::Dir(m1.insert(k, v1)), NodeModel::Dir(m2.insert(k, v2))),
{
    let a = m1.insert(k, v1);
    let b = m2.insert(k, v2);
    assert(a.dom() =~= b.dom());
    assert forall|j: Seq<char>| #[trigger] a.contains_key(j) implies same_shape(a[j], b[j]) by {
        if j != k {
            assert(m1.contains_key(j));
        }
    }
}

/// Adding alike entries at one path to directories of the same shape keeps
/// them of the same shape.
proof fn lemma_shape_model_insert(
    m1: Map<Seq<char>, NodeModel>,
    m2: Map<Seq<char>, NodeModel>,
    ps: Seq<Seq<char>>,
    e1: ArchiveEntry,
    e2: ArchiveEntry,
)
    requires
        same_shape(NodeModel::Dir(m1), NodeModel::Dir(m2)),
        alike_but_name(e1, e2),
    ensures
        same_shape(
            NodeModel::Dir(model_insert(m1, ps, e1)),
            NodeModel::Dir(model_insert(m2, ps, e2)),
        ),
    decreases ps.len(),
{
    let empty = Map::<Seq<char>, NodeModel>::empty();
    assert(same_shape(NodeModel::Dir(empty), NodeModel::Dir(empty))) by {
        assert(empty.dom() =~= empty.dom());
    }
    if ps.len() == 0 {
    } else if ps.len() == 1 {
        if e1.is_dir {
            if !m1.contains_key(ps[0]) {
                assert(!m2.dom().contains(ps[0]));
                lemma_shape_insert(m1, m2, ps[0], NodeModel::Dir(empty), NodeModel::Dir(empty));
            } else {
                assert(m2.dom().contains(ps[0]));
            }
        } else {
            lemma_shape_insert(m1, m2, ps[0], NodeModel::File(e1), NodeModel::File(e2));
        }
    } else if !m1.contains_key(ps[0]) {
        assert(!m2.dom().contains(ps[0]));
        let rest = ps.drop_first();
        lemma_shape_model_insert(empty, empty, rest, e1, e2);
        lemma_shape_insert(
            m1,
            m2,
            ps[0],
            NodeModel::Dir(model_insert(empty, rest, e1)),
            NodeModel::Dir(model_insert(empty, rest, e2)),
        );
    } else {
        assert(m2.dom().contains(ps[0]));
        assert(same_shape(m1[ps[0]], m2[ps[0]]));
        let rest = ps.drop_first();
        match (m1[ps[0]], m2[ps[0]]) {
            (NodeModel::Dir(sub1), NodeModel::Dir(sub2)) => {
                lemma_shape_model_insert(sub1, sub2, rest, e1, e2);
                lemma_shape_insert(
                    m1,
                    m2,
                    ps[0],
                    NodeModel::Dir(model_insert(sub1, rest, e1)),
                    NodeModel::Dir(model_insert(sub2, rest, e2)),
                );
            },
            _ => {},
        }
    }
}

/// Entries alike but for their names, at the same paths, build trees of the
/// same shape.
proof fn lemma_shape_models(es1: Seq<ArchiveEntry>, es2: Seq<ArchiveEntry>)
    requires
        es1.len() == es2.len(),
        forall|i: int|
            0 <= i < es1.len() ==> alike_but_name(#[trigger] es1[i], es2[i]) && entry_path(
                es1[i].name@,
            ) == entry_path(es2[i].name@),
    ensures
        same_shape(NodeModel::Dir(model_of_entries(es1)), NodeModel::Dir(model_of_entries(es2))),
    decreases es1.len(),
{
    if es1.len() == 0 {
        let empty = Map::<Seq<char>, NodeModel>::empty();
        assert(empty.dom() =~= empty.dom());
    } else {
        let (a, b) = (es1.drop_last(), es2.drop_last());
        assert forall|i: int| 0 <= i < a.len() implies alike_but_name(#[trigger] a[i], b[i]) && entry_path(
            a[i].name@,
        ) == entry_path(b[i].name@) by {
            assert(a[i] == es1[i] && b[i] == es2[i]);
        }
        lemma_shape_models(a, b);
        let (x, y) = (es1.last(), es2.last());
        assert(alike_but_name(es1[es1.len() - 1], es2[es1.len() - 1]));
        let p = entry_path(x.name@);
        if p.len() != 0 {
            lemma_shape_model_insert(model_of_entries(a), model_of_entries(b), path_parts(p), x, y);
        }
    }
}

/// Names that all start with `./` build the tree that the same names without
/// it build: the same names, kinds and nesting, the files holding the same
/// entries but for their names.
pub proof fn law_leading_dot_slash_is_ignored(entries: Seq<ArchiveEntry>, dotted: Seq<ArchiveEntry>)
    requires
        dotted.len() == entries.len(),
        forall|i: int|
            0 <= i < entries.len() ==> {
                &&& !starts_with(#[trigger] entries[i].name@, seq!['.', '/'])
                &&& dotted[i].name@ == seq!['.', '/'] + entries[i].name@
                &&& alike_but_name(dotted[i], entries[i])
            },
    ensures
        same_shape(NodeModel::Dir(model_of_entries(dotted)), NodeModel::Dir(model_of_entries(entries))),
{
    assert forall|i: int| 0 <= i < dotted.len() implies alike_but_name(#[trigger] dotted[i], entries[i])
        && entry_path(dotted[i].name@) == entry_path(entries[i].name@) by {
        let n = entries[i].name@;
        let d = seq!['.', '/'] + n;
        assert(!starts_with(entries[i].name@, seq!['.', '/']));
        assert(d.subrange(0, 2) =~= seq!['.', '/']);
        assert(d.subrange(2, d.len() as int) =~= n);
        assert(spec_strip_dot_slash(d) == n);
    }
    lemma_shape_models(dotted, entries);
}

impl DirTree {
    /// Builds the tree of the archive entries `entries`.
    pub fn from_entries(entries: &[ArchiveEntry]) -> (r: DirTree)
        ensures
            tree_wf(r),
            tree_model(r) == model_of_entries(entries@),
    {
        let mut root = DirTree::new();
        let mut i: usize = 0;
        while i < entries.len()
            invariant
                i <= entries@.len(),
                tree_wf(root),
                tree_model(root) == model_of_entries(entries@.take(i as int)),
            decreases entries.len() - i,
        {
            let entry = &entries[i];
            assert(entries@.take(i + 1).drop_last() =~= entries@.take(i as int));
            let stripped = strip_dot_slash(entry.name.as_str());
            let name = trim_trailing_slashes(stripped.as_str());
            if name.as_str().unicode_len() != 0 {
                let parts = split_path(name.as_str());
                assert(name_views(parts@).skip(0) =~= name_views(parts@));
                root.insert(&parts, 0, entry.duplicate());
            }
            i = i + 1;
        }
        assert(entries@.take(entries@.len() as int) =~= entries@);
        root
    }
}

/// The children that are directories, in order.
pub open spec fn dir_children(s: Seq<(String, DirNode)>) -> Seq<(String, DirNode)>
    decreases s.len(),
{
    if s.len() == 0 {
        seq![]
    } else if s.last().1 is Dir {
        dir_children(s.drop_last()).push(s.last())
    } else {
        dir_children(s.drop_last())
    }
}

/// The children that are files, in order.
pub open spec fn file_children(s: Seq<(String, DirNode)>) -> Seq<(String, DirNode)>
    decreases s.len(),
{
    if s.len() == 0 {
        seq![]
    } else if s.last().1 is File {
        file_children(s.drop_last()).push(s.last())
    } else {
        file_children(s.drop_last())
    }
}

/// The pairs a list of borrowed children stands for.
pub open spec fn deref_pairs(s: Seq<(&String, &DirNode)>) -> Seq<(String, DirNode)> {
    s.map_values(|p: (&String, &DirNode)| (*p.0, *p.1))
}

/// Every name in `s` is below `x`.
pub open spec fn names_below(s: Seq<(String, DirNode)>, x: Seq<char>) -> bool {
    forall|i: int| 0 <= i < s.len() ==> seq_lt(#[trigger] s[i].0@, x)
}

/// The directories of children whose names are below `x` have names below `x`.
proof fn lemma_dir_children_below(s: Seq<(String, DirNode)>, x: Seq<char>)
    requires
        names_below(s, x),
    ensures
        names_below(dir_children(s), x),
    decreases s.len(),
{
    if s.len() > 0 {
        assert(s.drop_last().len() < s.len());
        assert(names_below(s.drop_last(), x)) by {
            assert forall|i: int| 0 <= i < s.drop_last().len() implies seq_lt(
                #[trigger] s.drop_last()[i].0@,
                x,
            ) by {
                assert(s.drop_last()[i] == s[i]);
            }
        }
        lemma_dir_children_below(s.drop_last(), x);
        assert(seq_lt(s[s.len() - 1].0@, x));
    }
}

/// The files of children whose names are below `x` have names below `x`.
proof fn lemma_file_children_below(s: Seq<(String, DirNode)>, x: Seq<char>)
    requires
        names_below(s, x),
    ensures
        names_below(file_children(s), x),
    decreases s.len(),
{
    if s.len() > 0 {
        assert(names_below(s.drop_last(), x)) by {
            assert forall|i: int| 0 <= i < s.drop_last().len() implies seq_lt(
                #[trigger] s.drop_last()[i].0@,
                x,
            ) by {
                assert(s.drop_last()[i] == s[i]);
            }
        }
        lemma_file_children_below(s.drop_last(), x);
        assert(seq_lt(s[s.len() - 1].0@, x));
    }
}

/// Picking out the directories, or the files, of children in order of name
/// keeps them in order of name.
proof fn lemma_kinds_increasing(s: Seq<(String, DirNode)>)
    requires
        names_increasing(s),
    ensures
        names_increasing(dir_children(s)),
        names_increasing(file_children(s)),
    decreases s.len(),
{
    if s.len() > 0 {
        let p = s.drop_last();
        assert(names_increasing(p)) by {
            assert forall|i: int, j: int| 0 <= i < j < p.len() implies seq_lt(
                #[trigger] p[i].0@,
                #[trigger] p[j].0@,
            ) by {
                assert(p[i] == s[i] && p[j] == s[j]);
            }
        }
        assert(names_below(p, s.last().0@)) by {
            assert forall|i: int| 0 <= i < p.len() implies seq_lt(#[trigger] p[i].0@, s.last().0@) by {
                assert(p[i] == s[i]);
                assert(seq_lt(s[i].0@, s[s.len() - 1].0@));
            }
        }
        lemma_kinds_increasing(p);
        lemma_dir_children_below(p, s.last().0@);
        lemma_file_children_below(p, s.last().0@);
    }
}

impl DirTree {
    /// The children as the browser lists them: directories first, then files,
    /// each in order of name.
    pub fn sorted_entries(&self) -> (r: Vec<(&String, &DirNode)>)
        requires
            tree_wf(*self),
        ensures
            deref_pairs(r@) == dir_children(self.children.entries@) + file_children(
                self.children.entries@,
            ),
            names_increasing(dir_children(self.children.entries@)),
            names_increasing(file_children(self.children.entries@)),
    {
        proof {
            lemma_kinds_increasing(self.children.entries@);
        }
        let ghost s = self.children.entries@;
        let n = self.children.entries.len();
        let mut dirs: Vec<(&String, &DirNode)> = Vec::new();
        let mut files: Vec<(&String, &DirNode)> = Vec::new();
        let mut i: usize = 0;
        while i < n
            invariant
                n == s.len(),
                s == self.children.entries@,
                i <= n,
                deref_pairs(dirs@) == dir_children(s.take(i as int)),
                deref_pairs(files@) == file_children(s.take(i as int)),
            decreases n - i,
        {
            let pair = &self.children.entries[i];
            assert(s.take(i + 1).drop_last() =~= s.take(i as int));
            assert(s.take(i + 1).last() == s[i as int]);
            match &pair.1 {
                DirNode::Dir(_) => {
                    dirs.push((&pair.0, &pair.1));
                    assert(deref_pairs(dirs@) =~= dir_children(s.take(i + 1)));
                    assert(deref_pairs(files@) =~= file_children(s.take(i + 1)));
                },
                DirNode::File(_) => {
                    files.push((&pair.0, &pair.1));
                    assert(deref_pairs(dirs@) =~= dir_children(s.take(i + 1)));
                    assert(deref_pairs(files@) =~= file_children(s.take(i + 1)));
                },
            }
            i = i + 1;
        }
        assert(s.take(n as int) =~= s);
        let ghost d = dirs@;
        let ghost f = files@;
        dirs.append(&mut files);
        assert(deref_pairs(dirs@) =~= deref_pairs(d) + deref_pairs(f));
        dirs
    }
}

/// How many bytes of `s` are control characters other than tab, newline and
/// carriage return.
pub open spec fn control_count(s: Seq<u8>) -> nat
    decreases s.len(),
{
    if s.len() == 0 {
        0
    } else {
        control_count(s.drop_last()) + if s.last() != 0x0A && s.last() != 0x0D && s.last() != 0x09
            && s.last() < 0x20 {
            1nat
        } else {
            0nat
        }
    }
}

/// Data is binary when its first 8000 bytes hold a zero byte, or more than a
/// tenth of them are control characters other than tab, newline and carriage
/// return.
pub open spec fn spec_is_binary(data: Seq<u8>) -> bool {
    let n = if data.len() < 8000 {
        data.len()
    } else {
        8000
    };
    let sample = data.take(n as int);
    sample.contains(0u8) || control_count(sample) > n / 10
}

/// Whether `data` looks like binary rather than text.
pub fn is_binary_content(data: &[u8]) -> (r: bool)
    ensures
        r == spec_is_binary(data@),
{
    let check_len = if data.len() < 8000 {
        data.len()
    } else {
        8000
    };
    let mut has_zero = false;
    let mut count: usize = 0;
    let mut i: usize = 0;
    while i < check_len
        invariant
            check_len <= data@.len(),
            i <= check_len,
            count <= i,
            has_zero == data@.take(i as int).contains(0u8),
            count == control_count(data@.take(i as int)),
        decreases check_len - i,
    {
        let b = data[i];
        assert(data@.take(i + 1).drop_last() =~= data@.take(i as int));
        assert(data@.take(i + 1).last() == b);
        if b == 0 {
            assert(data@.take(i + 1)[i as int] == 0u8);
        } else {
            assert forall|j: int| 0 <= j < i + 1 && data@.take(i + 1)[j] == 0u8 implies data@.take(i as int)[j] == 0u8 by {
                assert(j < i);
            }
        }
        has_zero = has_zero || b == 0;
        if b != 0x0A && b != 0x0D && b != 0x09 && b < 0x20 {
            count = count + 1;
        }
        i = i + 1;
    }
    has_zero || count > check_len / 10
}

/// The child of `t` named `name`, if any.
pub open spec fn lookup(t: DirTree, name: Seq<char>) -> Option<DirNode> {
    let s = t.children.entries@;
    if exists|i: int| 0 <= i < s.len() && (#[trigger] s[i]).0@ == name {
        Some(s[choose|i: int| 0 <= i < s.len() && (#[trigger] s[i]).0@ == name].1)
    } else {
        None
    }
}

/// In a well-formed directory the child named like the `i`-th child is that
/// child, and it is well formed.
pub proof fn lemma_lookup(t: DirTree, i: int)
    requires
        tree_wf(t),
        0 <= i < t.children.entries@.len(),
    ensures
        lookup(t, t.children.entries@[i].0@) == Some(t.children.entries@[i].1),
        node_wf(t.children.entries@[i].1),
{
    let s = t.children.entries@;
    let name = s[i].0@;
    assert(s[i].0@ == name);
    assert forall|j: int| 0 <= j < s.len() && (#[trigger] s[j]).0@ == name implies j == i by {
        if j < i {
            assert(seq_lt(s[j].0@, s[i].0@));
            lemma_lt_irreflexive(name);
        } else if j > i {
            assert(seq_lt(s[i].0@, s[j].0@));
            lemma_lt_irreflexive(name);
        }
    }
    lemma_entries_wf(s);
}

/// The directory reached from `t` by following `path`; a component that does
/// not name a subdirectory is passed over.
pub open spec fn walk(t: DirTree, path: Seq<Seq<char>>) -> DirTree
    decreases path.len(),
{
    if path.len() == 0 {
        t
    } else {
        match lookup(t, path[0]) {
            Some(DirNode::Dir(sub)) => walk(sub, path.drop_first()),
            _ => walk(t, path.drop_first()),
        }
    }
}

/// The directory reached from `t` by following `path` is well formed.
pub proof fn lemma_walk_wf(t: DirTree, path: Seq<Seq<char>>)
    requires
        tree_wf(t),
    ensures
        tree_wf(walk(t, path)),
    decreases path.len(),
{
    if path.len() > 0 {
        match lookup(t, path[0]) {
            Some(DirNode::Dir(sub)) => {
                let s = t.children.entries@;
                let i = choose|i: int| 0 <= i < s.len() && (#[trigger] s[i]).0@ == path[0];
                lemma_lookup(t, i);
                lemma_walk_wf(sub, path.drop_first());
            },
            _ => {
                lemma_walk_wf(t, path.drop_first());
            },
        }
    }
}

impl DirTree {
    /// The child named `name`, if any.
    pub fn child(&self, name: &str) -> (r: Option<&DirNode>)
        requires
            tree_wf(*self),
        ensures
            r matches Some(n) ==> lookup(*self, name@) == Some(*n) && node_wf(*n),
            r is None ==> lookup(*self, name@) is None,
    {
        let s = &self.children.entries;
        let n = s.len();
        let mut i: usize = 0;
        while i < n
            invariant
                n == s@.len(),
                *s == self.children.entries,
                tree_wf(*self),
                i <= n,
                forall|j: int| 0 <= j < i ==> (#[trigger] s@[j]).0@ != name@,
            decreases n - i,
        {
            if str_eq(s[i].0.as_str(), name) {
                proof {
                    lemma_lookup(*self, i as int);
                }
                return Some(&s[i].1);
            }
            i = i + 1;
        }
        None
    }
}

impl Children {
    /// Where `key` is, or would go, among the children.
    pub fn search(&self, key: &str) -> (r: (bool, usize))
        requires
            names_increasing(self.entries@),
        ensures
            search_result(self.entries@, key@, r.0, r.1 as int),
    {
        let n = self.entries.len();
        let mut i: usize = 0;
        while i < n
            invariant
                n == self.entries@.len(),
                i <= n,
                forall|j: int| 0 <= j < i ==> seq_lt(#[trigger] self.entries@[j].0@, key@),
            decreases n - i,
        {
            let name = &self.entries[i].0;
            if !str_lt(name.as_str(), key) {
                let same = str_eq(name.as_str(), key);
                proof {
                    lemma_lt_total(name@, key@);
                }
                return (same, i);
            }
            i = i + 1;
        }
        (false, n)
    }

    /// The number of children.
    pub fn len(&self) -> (r: usize)
        ensures
            r == self.entries@.len(),
    {
        self.entries.len()
    }

    /// Whether there are no children.
    pub fn is_empty(&self) -> (r: bool)
        ensures
            r == (self.entries@.len() == 0),
    {
        self.entries.len() == 0
    }

    /// The child named `key`.
    pub fn get(&self, key: &str) -> (r: Option<&DirNode>)
        ensures
            r matches Some(n) ==> exists|i: int|
                0 <= i < self.entries@.len() && (#[trigger] self.entries@[i]).0@ == key@ && self.entries@[i].1 == *n,
            r is None ==> forall|i: int|
                0 <= i < self.entries@.len() ==> (#[trigger] self.entries@[i]).0@ != key@,
    {
        let n = self.entries.len();
        let mut i: usize = 0;
        while i < n
            invariant
                n == self.entries@.len(),
                i <= n,
                forall|j: int| 0 <= j < i ==> (#[trigger] self.entries@[j]).0@ != key@,
            decreases n - i,
        {
            if str_eq(self.entries[i].0.as_str(), key) {
                return Some(&self.entries[i].1);
            }
            i = i + 1;
        }
        None
    }
}


/// Bytes that are neither zero nor control bytes other than tab, newline and
/// carriage return.
pub open spec fn text_bytes(data: Seq<u8>) -> bool {
    forall|i: int|
        0 <= i < data.len() ==> #[trigger] data[i] != 0 && (data[i] >= 0x20 || data[i] == 0x09
            || data[i] == 0x0A || data[i] == 0x0D)
}

proof fn lemma_text_has_no_control(data: Seq<u8>)
    requires
        text_bytes(data),
    ensures
        control_count(data) == 0,
    decreases data.len(),
{
    if data.len() > 0 {
        assert(text_bytes(data.drop_last())) by {
            assert forall|i: int| 0 <= i < data.drop_last().len() implies #[trigger] data.drop_last()[i] != 0
                && (data.drop_last()[i] >= 0x20 || data.drop_last()[i] == 0x09 || data.drop_last()[i]
                == 0x0A || data.drop_last()[i] == 0x0D) by {
                assert(data.drop_last()[i] == data[i]);
            }
        }
        lemma_text_has_no_control(data.drop_last());
        assert(data[data.len() - 1] == data.last());
    }
}

/// Text whose only control bytes are tabs, newlines and carriage returns, and
/// that holds no zero byte, is never taken for binary.
pub proof fn law_text_is_not_binary(data: Seq<u8>)
    requires
        text_bytes(data),
    ensures
        !spec_is_binary(data),
{
    let n: int = if data.len() < 8000 {
        data.len() as int
    } else {
        8000
    };
    let sample = data.take(n);
    assert(text_bytes(sample)) by {
        assert forall|i: int| 0 <= i < sample.len() implies #[trigger] sample[i] != 0 && (sample[i] >= 0x20
            || sample[i] == 0x09 || sample[i] == 0x0A || sample[i] == 0x0D) by {
            assert(sample[i] == data[i]);
        }
    }
    lemma_text_has_no_control(sample);
    assert(!sample.contains(0u8)) by {
        if sample.contains(0u8) {
            let i = choose|i: int| 0 <= i < sample.len() && sample[i] == 0u8;
            assert(sample[i] != 0);
        }
    }
}


/// A zero byte among the first 8000 bytes makes data binary.
pub proof fn law_zero_byte_is_binary(data: Seq<u8>, i: int)
    requires
        0 <= i < data.len(),
        i < 8000,
        data[i] == 0,
    ensures
        spec_is_binary(data),
{
    let n: int = if data.len() < 8000 {
        data.len() as int
    } else {
        8000
    };
    assert(data.take(n)[i] == 0u8);
}

proof fn lemma_all_control(data: Seq<u8>)
    requires
        forall|i: int|
            0 <= i < data.len() ==> #[trigger] data[i] < 0x20 && data[i] != 0x09 && data[i] != 0x0A
                && data[i] != 0x0D,
    ensures
        control_count(data) == data.len(),
    decreases data.len(),
{
    if data.len() > 0 {
        assert forall|i: int| 0 <= i < data.drop_last().len() implies #[trigger] data.drop_last()[i] < 0x20
            && data.drop_last()[i] != 0x09 && data.drop_last()[i] != 0x0A && data.drop_last()[i]
            != 0x0D by {
            assert(data.drop_last()[i] == data[i]);
        }
        lemma_all_control(data.drop_last());
        assert(data[data.len() - 1] == data.last());
    }
}

/// Data made only of control bytes other than tab, newline and carriage
/// return is binary.
pub proof fn law_control_bytes_are_binary(data: Seq<u8>)
    requires
        data.len() > 0,
        forall|i: int|
            0 <= i < data.len() ==> #[trigger] data[i] < 0x20 && data[i] != 0x09 && data[i] != 0x0A
                && data[i] != 0x0D,
    ensures
        spec_is_binary(data),
{
    let n: int = if data.len() < 8000 {
        data.len() as int
    } else {
        8000
    };
    let sample = data.take(n);
    assert forall|i: int| 0 <= i < sample.len() implies #[trigger] sample[i] < 0x20 && sample[i] != 0x09
        && sample[i] != 0x0A && sample[i] != 0x0D by {
        assert(sample[i] == data[i]);
    }
    lemma_all_control(sample);
}

} // verus!
