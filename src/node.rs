//! The tree of a YAML document, as far as the configuration reads it.
use vstd::prelude::*;
use vstd::std_specs::iter::IteratorSpec;

verus! {

/// A node of a YAML document. A mapping keeps its entries in the order they
/// were written in; a float keeps the text it was written as.
pub enum Node {
    Real(String),
    Integer(i64),
    Text(String),
    Boolean(bool),
    List(Vec<Node>),
    Table(Vec<(Node, Node)>),
    Alias(usize),
    Null,
    BadValue,
}

/// `n` is the string scalar `s`.
pub open spec fn is_text(n: Node, s: Seq<char>) -> bool {
    n matches Node::Text(t) && t@ == s
}

/// The value of the first entry whose key is the string scalar `key`.
pub open spec fn lookup(pairs: Seq<(Node, Node)>, key: Seq<char>) -> Option<Node>
    decreases pairs.len(),
{
    if pairs.len() == 0 {
        None
    } else if is_text(pairs[0].0, key) {
        Some(pairs[0].1)
    } else {
        lookup(pairs.drop_first(), key)
    }
}

impl Node {
    /// The value under `key` when this node is a mapping that holds it.
    pub open spec fn entry(self, key: Seq<char>) -> Option<Node> {
        match self {
            Node::Table(pairs) => lookup(pairs@, key),
            _ => None,
        }
    }

    /// The string of a string scalar.
    pub fn as_text(&self) -> (r: Option<String>)
        ensures
            r is Some <==> self is Text,
            r is Some ==> r->0@ == self->Text_0@,
    {
        match self {
            Node::Text(s) => Some(s.clone()),
            _ => None,
        }
    }

    /// Looks up `key` in a mapping node.
    pub fn get(&self, key: &str) -> (r: Option<&Node>)
        ensures
            match r {
                Some(n) => self.entry(key@) == Some(*n),
                None => self.entry(key@) is None,
            },
    {
        match self {
            Node::Table(pairs) => {
                let k = key.to_owned();
                let mut i: usize = 0;
                assert(pairs@.skip(0) =~= pairs@);
                while i < pairs.len()
                    invariant
                        0 <= i <= pairs@.len(),
                        k@ == key@,
                        self.entry(key@) == lookup(pairs@, key@),
                        lookup(pairs@, key@) == lookup(pairs@.skip(i as int), key@),
                    decreases pairs@.len() - i,
                {
                    proof {
                        assert(pairs@.skip(i as int).drop_first() =~= pairs@.skip(i + 1));
                        assert(pairs@.skip(i as int)[0] == pairs@[i as int]);
                    }
                    if let Node::Text(s) = &pairs[i].0 {
                        if *s == k {
                            assert(is_text(pairs@[i as int].0, key@));
                            let found = &pairs[i];
                            assert(lookup(pairs@.skip(i as int), key@) == Some(found.1));
                            return Some(&found.1);
                        }
                    }
                    i = i + 1;
                }
                None
            },
            _ => None,
        }
    }
}

/// The most characters that may open a level of nesting in text that is
/// loaded: the loader descends once per level on the call stack.
pub const MAX_NESTING_MARKS: usize = 256;

/// The most aliases in text that is loaded: each one copies a whole subtree.
pub const MAX_ALIAS_MARKS: usize = 8;

/// `c` can open a sequence or a mapping: a block entry, a key or value
/// indicator, or the start of a flow collection.
pub open spec fn opens_nesting(c: char) -> bool {
    c == '-' || c == ':' || c == '?' || c == '[' || c == '{'
}

/// How many characters of `s` can open a level of nesting.
pub open spec fn nesting_marks(s: Seq<char>) -> nat
    decreases s.len(),
{
    if s.len() == 0 {
        0
    } else {
        nesting_marks(s.drop_last()) + if opens_nesting(s.last()) {
            1nat
        } else {
            0nat
        }
    }
}

/// How many characters of `s` can stand for an alias.
pub open spec fn alias_marks(s: Seq<char>) -> nat
    decreases s.len(),
{
    if s.len() == 0 {
        0
    } else {
        alias_marks(s.drop_last()) + if s.last() == '*' {
            1nat
        } else {
            0nat
        }
    }
}

/// Text that the loader takes within the stack and without a blow-up of
/// copied aliases.
pub open spec fn loadable(text: Seq<char>) -> bool {
    nesting_marks(text) <= MAX_NESTING_MARKS && alias_marks(text) <= MAX_ALIAS_MARKS
}

/// Tells whether `text` is within the limits of the loader.
pub fn within_limits(text: &str) -> (r: bool)
    ensures
        r == loadable(text@),
{
    broadcast use vstd::string::axiom_spec_iter, vstd::string::next_postcondition;

    let mut chars = text.chars();
    let mut nesting: usize = 0;
    let mut aliases: usize = 0;
    let ghost mut seen: Seq<char> = Seq::empty();
    loop
        invariant
            chars.obeys_prophetic_iter_laws(),
            chars.decrease() is Some,
            seen + chars.remaining() == text@,
            nesting == if nesting_marks(seen) <= MAX_NESTING_MARKS {
                nesting_marks(seen) as int
            } else {
                MAX_NESTING_MARKS + 1
            },
            aliases == if alias_marks(seen) <= MAX_ALIAS_MARKS {
                alias_marks(seen) as int
            } else {
                MAX_ALIAS_MARKS + 1
            },
        decreases chars.decrease()->0,
    {
        match chars.next() {
            Some(c) => {
                proof {
                    assert(seen.push(c).drop_last() =~= seen);
                    seen = seen.push(c);
                }
                if (c == '-' || c == ':' || c == '?' || c == '[' || c == '{') && nesting <= MAX_NESTING_MARKS {
                    nesting = nesting + 1;
                }
                if c == '*' && aliases <= MAX_ALIAS_MARKS {
                    aliases = aliases + 1;
                }
            },
            None => {
                assert(seen =~= text@);
                return nesting <= MAX_NESTING_MARKS && aliases <= MAX_ALIAS_MARKS;
            },
        }
    }
}

/// What yaml_rust makes of `text`: its documents in order, each as a `Node`
/// tree, or `None` where the text is not well-formed YAML.
pub uninterp spec fn yaml_documents(text: Seq<char>) -> Option<Seq<Node>>;

#[verifier::external_type_specification]
#[verifier::external_body]
pub struct ExYaml(yaml_rust::Yaml);

/// Relies on yaml_rust::YamlLoader::load_from_str: the documents of `text`,
/// an error where the scanner or parser rejects it, and no document at all for
/// empty text (the stream holds only its start and end events).
#[verifier::external_body]
pub(crate) fn load_documents(text: &str) -> (r: Option<Vec<Node>>)
    requires
        loadable(text@),
    ensures
        r is None <==> yaml_documents(text@) is None,
        r is Some ==> yaml_documents(text@) == Some(r->0@),
        text@.len() == 0 ==> (r is Some && r->0@.len() == 0),
{
    match yaml_rust::YamlLoader::load_from_str(text) {
        Ok(docs) => Some(docs.into_iter().map(node_of).collect()),
        Err(_) => None,
    }
}

/// Converts yaml_rust's tree into a `Node` tree, variant for variant: the
/// result conversion of `load_documents`.
#[verifier::external_body]
fn node_of(y: yaml_rust::Yaml) -> Node {
    match y {
        yaml_rust::Yaml::Real(s) => Node::Real(s),
        yaml_rust::Yaml::Integer(i) => Node::Integer(i),
        yaml_rust::Yaml::String(s) => Node::Text(s),
        yaml_rust::Yaml::Boolean(b) => Node::Boolean(b),
        yaml_rust::Yaml::Array(items) => Node::List(items.into_iter().map(node_of).collect()),
        yaml_rust::Yaml::Hash(h) => Node::Table(h.into_iter().map(|(k, v)| (node_of(k), node_of(v))).collect()),
        yaml_rust::Yaml::Alias(a) => Node::Alias(a),
        yaml_rust::Yaml::Null => Node::Null,
        yaml_rust::Yaml::BadValue => Node::BadValue,
    }
}

} // verus!
