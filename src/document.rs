//! A YAML document as a plain tree that verified code can read.
use vstd::prelude::*;

verus! {

#[verifier::external_type_specification]
#[verifier::external_body]
pub struct ExYamlValue(serde_yaml::Value);

/// One node of a parsed YAML document.
#[derive(Debug, PartialEq)]
pub enum Node {
    Null,
    Bool(bool),
    /// A number, with its value when it is an integer in `0..=u64::MAX`.
    Number(Option<u64>),
    Str(String),
    List(Vec<Node>),
    /// Key/value entries, in document order.
    Mapping(Vec<(Node, Node)>),
}

/// The tree that serde_yaml parses from `text`, or `None` where the text is
/// not one well-formed YAML document.
pub uninterp spec fn yaml_tree(text: Seq<char>) -> Option<Node>;

/// Relies on `serde_yaml::from_str::<serde_yaml::Value>`: it parses a single
/// YAML document, and the tree depends on the text alone.
#[verifier::external_body]
fn parse_tree(text: &str) -> (r: Option<Node>)
    ensures
        r == yaml_tree(text@),
{
    serde_yaml::from_str::<serde_yaml::Value>(text).ok().map(node_of)
}

/// Relies on the variants of `serde_yaml::Value` and on
/// `serde_yaml::Number::as_u64`: moves each variant into its `Node` twin.
#[verifier::external_body]
fn node_of(v: serde_yaml::Value) -> Node {
    match v {
        serde_yaml::Value::Null => Node::Null,
        serde_yaml::Value::Bool(b) => Node::Bool(b),
        serde_yaml::Value::Number(n) => Node::Number(n.as_u64()),
        serde_yaml::Value::String(s) => Node::Str(s),
        serde_yaml::Value::Sequence(items) => Node::List(items.into_iter().map(node_of).collect()),
        serde_yaml::Value::Mapping(m) => Node::Mapping(
            m.into_iter().map(|(k, v)| (node_of(k), node_of(v))).collect(),
        ),
    }
}

/// The value of the first entry whose key is the string `key`.
pub open spec fn lookup(entries: Seq<(Node, Node)>, key: Seq<char>) -> Option<Node>
    decreases entries.len(),
{
    if entries.len() == 0 {
        None
    } else if entries[0].0 matches Node::Str(k) && k@ == key {
        Some(entries[0].1)
    } else {
        lookup(entries.drop_first(), key)
    }
}

impl Node {
    /// The value under `key` when this node is a mapping that has that key.
    pub open spec fn field(self, key: Seq<char>) -> Option<Node> {
        match self {
            Node::Mapping(entries) => lookup(entries@, key),
            _ => None,
        }
    }

    /// Parses YAML text into a tree; `None` where it is not one well-formed
    /// document.
    pub fn parse(text: &str) -> (r: Option<Node>)
        ensures
            r == yaml_tree(text@),
    {
        parse_tree(text)
    }

    /// The value under `key` when this node is a mapping that has that key.
    pub fn get(&self, key: &str) -> (r: Option<&Node>)
        ensures
            match r {
                Some(n) => self.field(key@) == Some(*n),
                None => self.field(key@) is None,
            },
    {
        match self {
            Node::Mapping(entries) => {
                let mut i: usize = 0;
                assert(entries@.skip(0) =~= entries@);
                while i < entries.len()
                    invariant
                        i <= entries@.len(),
                        self.field(key@) == lookup(entries@, key@),
                        lookup(entries@, key@) == lookup(entries@.skip(i as int), key@),
                    decreases entries.len() - i,
                {
                    assert(entries@.skip(i as int).drop_first() =~= entries@.skip(i + 1));
                    assert(entries@.skip(i as int)[0] == entries@[i as int]);
                    let entry = &entries[i];
                    if let Node::Str(k) = &entry.0 {
                        if string_eq(k, key) {
                            assert(lookup(entries@.skip(i as int), key@) == Some(entry.1));
                            return Some(&entry.1);
                        }
                    }
                    i = i + 1;
                }
                None
            },
            _ => None,
        }
    }
}

/// Compares a string with a string slice, character by character.
fn string_eq(a: &String, b: &str) -> (r: bool)
    ensures
        r == (a@ == b@),
{
    let s = a.as_str();
    let n = s.unicode_len();
    if n != b.unicode_len() {
        return false;
    }
    let mut i: usize = 0;
    while i < n
        invariant
            n == s@.len(),
            n == b@.len(),
            s@ == a@,
            i <= n,
            forall|j: int| 0 <= j < i ==> s@[j] == b@[j],
        decreases n - i,
    {
        if s.get_char(i) != b.get_char(i) {
            assert(s@[i as int] != b@[i as int]);
            return false;
        }
        i = i + 1;
    }
    assert(s@ =~= b@);
    true
}

} // verus!
