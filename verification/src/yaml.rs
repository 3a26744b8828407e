//! A generic tree of YAML values, its accessors, and the loader that fills it.

use vstd::prelude::*;
use vstd::string::*;
use yaml_rust2::{ScanError, Yaml};
use crate::text::str_eq;

verus! {

/// The error that the YAML scanner reports for malformed input.
#[verifier::external_type_specification]
#[verifier::external_body]
pub struct ExScanError(yaml_rust2::ScanError);

/// A node as the YAML loader hands it out.
#[verifier::external_type_specification]
#[verifier::external_body]
pub struct ExYaml(yaml_rust2::Yaml);

/// One node of a YAML document: a scalar, a sequence or a mapping.
///
/// A mapping keeps its entries in the order in which they were written.
#[derive(Debug, PartialEq, Eq)]
pub enum Value {
    /// A floating point number, kept as it was written.
    Real(String),
    Integer(i64),
    String(String),
    Boolean(bool),
    Array(Vec<Value>),
    Hash(Vec<(Value, Value)>),
    /// A reference to an anchor.
    Alias(usize),
    Null,
    /// A node that could not be resolved.
    BadValue,
}

/// The documents that the YAML loader reads from `source`, or `None` when it
/// reports a scan error.
pub uninterp spec fn yaml_documents(source: Seq<char>) -> Option<Seq<Value>>;

/// What a loaded node holds.
pub uninterp spec fn node_value(node: Yaml) -> Value;

/// The values that a sequence of loaded nodes holds, in order.
pub open spec fn node_values(nodes: Seq<Yaml>) -> Seq<Value> {
    Seq::new(nodes.len(), |i: int| node_value(nodes[i]))
}

/// `yaml_rust2::YamlLoader::load_from_str`: the nodes of every document in
/// `source`. Which nodes come out is a function of the text alone, named
/// `yaml_documents`; the call fails exactly when that is `None`.
#[verifier::external_body]
fn load_nodes(source: &str) -> (loaded: Result<Vec<Yaml>, ScanError>)
    ensures
        match loaded {
            Ok(nodes) => yaml_documents(source@) == Some(node_values(nodes@)),
            Err(_) => yaml_documents(source@) is None,
        },
{
    yaml_rust2::YamlLoader::load_from_str(source)
}

/// Copies a `yaml_rust2::Yaml` node and everything below it into a `Value`,
/// variant by variant; the result is what `node_value` names.
#[verifier::external_body]
fn yaml_value(node: &Yaml) -> (value: Value)
    ensures
        value == node_value(*node),
{
    match node {
        Yaml::Real(text) => Value::Real(text.clone()),
        Yaml::Integer(number) => Value::Integer(*number),
        Yaml::String(text) => Value::String(text.clone()),
        Yaml::Boolean(flag) => Value::Boolean(*flag),
        Yaml::Array(items) => Value::Array(items.iter().map(yaml_value).collect()),
        Yaml::Hash(map) => Value::Hash(map.iter().map(|(k, v)| (yaml_value(k), yaml_value(v))).collect()),
        Yaml::Alias(anchor) => Value::Alias(*anchor),
        Yaml::Null => Value::Null,
        Yaml::BadValue => Value::BadValue,
    }
}

/// Reads every YAML document in `source`.
pub fn load_documents(source: &str) -> (loaded: Result<Vec<Value>, ScanError>)
    ensures
        match loaded {
            Ok(documents) => yaml_documents(source@) == Some(documents@),
            Err(_) => yaml_documents(source@) is None,
        },
{
    match load_nodes(source) {
        Err(error) => Err(error),
        Ok(nodes) => {
            let mut documents: Vec<Value> = Vec::new();
            let mut i: usize = 0;
            while i < nodes.len()
                invariant
                    i <= nodes.len(),
                    documents@.len() == i,
                    forall|j: int| 0 <= j < i ==> documents@[j] == node_value(nodes@[j]),
                decreases nodes.len() - i,
            {
                documents.push(yaml_value(&nodes[i]));
                i += 1;
            }
            assert(documents@ =~= node_values(nodes@));
            Ok(documents)
        },
    }
}

/// The entry key `key` is the string `name`.
pub open spec fn is_key(key: Value, name: Seq<char>) -> bool {
    key matches Value::String(text) && text@ == name
}

/// The value of the first entry of a mapping whose key is the string `name`.
pub open spec fn lookup(entries: Seq<(Value, Value)>, name: Seq<char>) -> Option<Value>
    decreases entries.len(),
{
    if entries.len() == 0 {
        None
    } else if is_key(entries[0].0, name) {
        Some(entries[0].1)
    } else {
        lookup(entries.drop_first(), name)
    }
}

/// Looks a field up in a mapping by its key.
pub fn get<'a>(entries: &'a Vec<(Value, Value)>, name: &str) -> (found: Option<&'a Value>)
    ensures
        match found {
            Some(value) => lookup(entries@, name@) == Some(*value),
            None => lookup(entries@, name@) is None,
        },
{
    let mut i: usize = 0;
    assert(entries@.skip(0) =~= entries@);
    while i < entries.len()
        invariant
            i <= entries.len(),
            lookup(entries@, name@) == lookup(entries@.skip(i as int), name@),
        decreases entries.len() - i,
    {
        let entry = &entries[i];
        proof {
            assert(entries@.skip(i as int)[0] == entries@[i as int]);
            assert(entries@.skip(i as int).drop_first() =~= entries@.skip(i + 1));
        }
        if let Value::String(key) = &entry.0 {
            if str_eq(key.as_str(), name) {
                return Some(&entry.1);
            }
        }
        i += 1;
    }
    None
}

impl Value {
    /// The text of a string node.
    pub open spec fn text(self) -> Option<Seq<char>> {
        match self {
            Value::String(text) => Some(text@),
            _ => None,
        }
    }

    /// The text of a string node, `None` for any other node.
    pub fn as_str(&self) -> (text: Option<&str>)
        ensures
            match text {
                Some(s) => self.text() == Some(s@),
                None => self.text() is None,
            },
    {
        match self {
            Value::String(text) => Some(text.as_str()),
            _ => None,
        }
    }

    /// The flag of a boolean node, `None` for any other node.
    pub fn as_bool(&self) -> (flag: Option<bool>)
        ensures
            flag == (match *self {
                Value::Boolean(b) => Some(b),
                _ => None,
            }),
    {
        match self {
            Value::Boolean(flag) => Some(*flag),
            _ => None,
        }
    }

    /// The items of a sequence node, `None` for any other node.
    pub fn as_vec(&self) -> (items: Option<&Vec<Value>>)
        ensures
            match items {
                Some(v) => *self == Value::Array(*v),
                None => !(*self is Array),
            },
    {
        match self {
            Value::Array(items) => Some(items),
            _ => None,
        }
    }

    /// The entries of a mapping node, `None` for any other node.
    pub fn as_hash(&self) -> (entries: Option<&Vec<(Value, Value)>>)
        ensures
            match entries {
                Some(v) => *self == Value::Hash(*v),
                None => !(*self is Hash),
            },
    {
        match self {
            Value::Hash(entries) => Some(entries),
            _ => None,
        }
    }

    /// Whether the node is the null value.
    pub fn is_null(&self) -> (null: bool)
        ensures
            null == (*self is Null),
    {
        match self {
            Value::Null => true,
            _ => false,
        }
    }
}

} // verus!
