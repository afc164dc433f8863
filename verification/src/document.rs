//! Structured documents: the values that a manifest is read into.
use vstd::prelude::*;
use yaml_rust::Yaml;
use yaml_rust::YamlLoader;

verus! {

/// The mathematical content of a structured document.
pub ghost enum Tree {
    Real(Seq<char>),
    Integer(int),
    Text(Seq<char>),
    Boolean(bool),
    List(Seq<Tree>),
    Table(Seq<(Tree, Tree)>),
    Alias(nat),
    Null,
    BadValue,
}

/// The value of the first entry of `entries` whose key is the text `key`.
pub open spec fn lookup(entries: Seq<(Tree, Tree)>, key: Seq<char>) -> Option<Tree>
    decreases entries.len(),
{
    if entries.len() == 0 {
        None
    } else if entries[0].0 == Tree::Text(key) {
        Some(entries[0].1)
    } else {
        lookup(entries.drop_first(), key)
    }
}

impl Tree {
    /// The value that a table holds under the text `key`; a value that is no
    /// table holds none.
    pub open spec fn field(self, key: Seq<char>) -> Option<Tree> {
        match self {
            Tree::Table(entries) => lookup(entries, key),
            _ => None,
        }
    }
}

/// One key of a table with its value.
#[derive(Debug)]
pub struct Entry {
    pub key: Node,
    pub value: Node,
}

/// A value of a structured document.
#[derive(Debug)]
pub enum Node {
    /// A number with a fraction, kept as it was written.
    Real(String),
    Integer(i64),
    Text(String),
    Boolean(bool),
    List(Vec<Node>),
    /// The entries of a mapping, in the order of the document.
    Table(Vec<Entry>),
    Alias(usize),
    Null,
    /// What stands for a value that could not be read.
    BadValue,
}

/// The content of a value.
pub open spec fn tree_of(node: Node) -> Tree
    decreases node, 0nat,
{
    match node {
        Node::Real(text) => Tree::Real(text@),
        Node::Integer(number) => Tree::Integer(number as int),
        Node::Text(text) => Tree::Text(text@),
        Node::Boolean(truth) => Tree::Boolean(truth),
        Node::List(items) => Tree::List(trees_upto(items@, items@.len())),
        Node::Table(entries) => Tree::Table(pairs_upto(entries@, entries@.len())),
        Node::Alias(anchor) => Tree::Alias(anchor as nat),
        Node::Null => Tree::Null,
        Node::BadValue => Tree::BadValue,
    }
}

/// The content of the first `n` values of `nodes`.
pub open spec fn trees_upto(nodes: Seq<Node>, n: nat) -> Seq<Tree>
    decreases nodes, n,
{
    if n == 0 || n > nodes.len() {
        Seq::empty()
    } else {
        trees_upto(nodes, (n - 1) as nat).push(tree_of(nodes[n - 1]))
    }
}

/// The content of the first `n` entries of `entries`.
pub open spec fn pairs_upto(entries: Seq<Entry>, n: nat) -> Seq<(Tree, Tree)>
    decreases entries, n,
{
    if n == 0 || n > entries.len() {
        Seq::empty()
    } else {
        pairs_upto(entries, (n - 1) as nat).push(
            (tree_of(entries[n - 1].key), tree_of(entries[n - 1].value)),
        )
    }
}

impl View for Node {
    type V = Tree;

    open spec fn view(&self) -> Tree {
        tree_of(*self)
    }
}

/// The content of each value of `nodes`, in order.
pub open spec fn trees(nodes: Seq<Node>) -> Seq<Tree> {
    Seq::new(nodes.len(), |i: int| nodes[i]@)
}

/// The content of each entry of `entries`, in order.
pub open spec fn pairs(entries: Seq<Entry>) -> Seq<(Tree, Tree)> {
    Seq::new(entries.len(), |i: int| (entries[i].key@, entries[i].value@))
}

proof fn lemma_trees_upto(nodes: Seq<Node>, n: nat)
    requires
        n <= nodes.len(),
    ensures
        trees_upto(nodes, n) == trees(nodes.take(n as int)),
    decreases n,
{
    if n > 0 {
        lemma_trees_upto(nodes, (n - 1) as nat);
        assert(nodes.take(n - 1) =~= nodes.take(n as int).take(n - 1));
    }
    assert(trees_upto(nodes, n) =~= trees(nodes.take(n as int)));
}

proof fn lemma_pairs_upto(entries: Seq<Entry>, n: nat)
    requires
        n <= entries.len(),
    ensures
        pairs_upto(entries, n) == pairs(entries.take(n as int)),
    decreases n,
{
    if n > 0 {
        lemma_pairs_upto(entries, (n - 1) as nat);
        assert(entries.take(n - 1) =~= entries.take(n as int).take(n - 1));
    }
    assert(pairs_upto(entries, n) =~= pairs(entries.take(n as int)));
}

/// The content of a list is the content of its items.
pub proof fn lemma_list_view(node: Node)
    requires
        node is List,
    ensures
        node@ == Tree::List(trees(node->List_0@)),
{
    let items = node->List_0@;
    lemma_trees_upto(items, items.len());
    assert(items.take(items.len() as int) =~= items);
}

/// The content of a table is the content of its entries.
pub proof fn lemma_table_view(node: Node)
    requires
        node is Table,
    ensures
        node@ == Tree::Table(pairs(node->Table_0@)),
{
    let entries = node->Table_0@;
    lemma_pairs_upto(entries, entries.len());
    assert(entries.take(entries.len() as int) =~= entries);
}

impl Node {
    /// The value that this table holds under `key`, if it is a table and has
    /// such a key.
    pub fn field(&self, key: &str) -> (found: Option<&Node>)
        ensures
            match found {
                Some(value) => self@.field(key@) == Some(value@),
                None => self@.field(key@) is None,
            },
    {
        match self {
            Node::Table(entries) => {
                proof {
                    lemma_table_view(*self);
                }
                let ghost all = pairs(entries@);
                let mut i: usize = 0;
                assert(all.skip(0) =~= all);
                while i < entries.len()
                    invariant
                        i <= entries.len(),
                        all == pairs(entries@),
                        self@ == Tree::Table(all),
                        lookup(all, key@) == lookup(all.skip(i as int), key@),
                    decreases entries.len() - i,
                {
                    let entry = &entries[i];
                    let ghost rest = all.skip(i as int);
                    assert(rest[0] == all[i as int]);
                    assert(rest.drop_first() =~= all.skip(i + 1));
                    let hit = match &entry.key {
                        Node::Text(text) => crate::text::same_text(text.as_str(), key),
                        _ => false,
                    };
                    assert(hit == (entry.key@ == Tree::Text(key@)));
                    if hit {
                        return Some(&entry.value);
                    }
                    i += 1;
                }
                assert(all.skip(i as int).len() == 0);
                None
            },
            _ => None,
        }
    }
}

/// What a result of reading a text holds: the content of each document, or
/// the complaint.
pub open spec fn documents_view(read: Result<Vec<Node>, String>) -> Result<Seq<Tree>, Seq<char>> {
    match read {
        Ok(nodes) => Ok(trees(nodes@)),
        Err(complaint) => Err(complaint@),
    }
}

#[verifier::external_type_specification]
#[verifier::external_body]
pub struct ExYaml(yaml_rust::Yaml);

/// The content of a value that yaml-rust has built.
pub uninterp spec fn yaml_tree(value: Yaml) -> Tree;

/// What yaml-rust reads from a text: the content of each document of the
/// stream, or the complaint of its scanner with the place.
pub uninterp spec fn yaml_stream(text: Seq<char>) -> Result<Seq<Tree>, Seq<char>>;

/// `YamlLoader::load_from_str` of yaml-rust. The text alone decides what comes
/// back: the documents that `yaml_stream` names, or the scanner's complaint as
/// its `Display` writes it. Nothing else is claimed of either.
#[verifier::external_body]
fn load_yaml(text: &str) -> (read: Result<Vec<Yaml>, String>)
    ensures
        match read {
            Ok(values) => yaml_stream(text@) == Ok::<Seq<Tree>, Seq<char>>(
                Seq::new(values@.len(), |i: int| yaml_tree(values@[i])),
            ),
            Err(complaint) => yaml_stream(text@) == Err::<Seq<Tree>, Seq<char>>(complaint@),
        },
{
    match YamlLoader::load_from_str(text) {
        Ok(values) => Ok(values),
        Err(complaint) => Err(complaint.to_string()),
    }
}

/// Copies a `Yaml` of yaml-rust into a `Node`, variant by variant, the items
/// of an array and the entries of a hash in their order. The content of the
/// copy is what `yaml_tree` names for the value.
#[verifier::external_body]
fn node_of(value: &Yaml) -> (node: Node)
    ensures
        node@ == yaml_tree(*value),
{
    match value {
        Yaml::Real(text) => Node::Real(text.clone()),
        Yaml::Integer(number) => Node::Integer(*number),
        Yaml::String(text) => Node::Text(text.clone()),
        Yaml::Boolean(truth) => Node::Boolean(*truth),
        Yaml::Array(items) => Node::List(items.iter().map(node_of).collect()),
        Yaml::Hash(hash) => Node::Table(
            hash.iter().map(|(key, value)| Entry { key: node_of(key), value: node_of(value) }).collect(),
        ),
        Yaml::Alias(anchor) => Node::Alias(*anchor),
        Yaml::Null => Node::Null,
        Yaml::BadValue => Node::BadValue,
    }
}

/// Reads a text as a stream of documents.
pub fn load_documents(text: &str) -> (read: Result<Vec<Node>, String>)
    ensures
        documents_view(read) == yaml_stream(text@),
{
    match load_yaml(text) {
        Ok(values) => {
            let mut nodes: Vec<Node> = Vec::new();
            let mut i: usize = 0;
            while i < values.len()
                invariant
                    i <= values.len(),
                    nodes@.len() == i,
                    forall|j: int| 0 <= j < i ==> (#[trigger] nodes@[j])@ == yaml_tree(values@[j]),
                decreases values.len() - i,
            {
                let node = node_of(&values[i]);
                nodes.push(node);
                i += 1;
            }
            assert(trees(nodes@) =~= Seq::new(values@.len(), |i: int| yaml_tree(values@[i])));
            Ok(nodes)
        },
        Err(complaint) => Err(complaint),
    }
}

} // verus!
