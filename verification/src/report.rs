//! Size entries and the exported document.
//!
//! An `NcduEntry` carries one node's display label, its direct size and its
//! apparent (subtree) size, plus its children's entries; leaves carry no
//! child list. `NcduValue` models the subset of JSON the report uses: a
//! leaf renders as a bare info block, a non-leaf as an array holding its
//! own info block followed by its rendered children, and the whole document
//! is `[major, minor, header, root]`.

use vstd::prelude::*;
use vstd::string::*;

verus! {

pub struct NcduEntry {
    /// Display label: the node's name, or "name (class)" when they differ.
    pub name: String,
    /// Bytes owned directly by the node's own property encoding.
    pub dsize: u64,
    /// Bytes of the encoded subtree rooted at this node.
    pub asize: u64,
    /// Child entries in graph order; `None` for a leaf.
    pub children: Option<Vec<NcduEntry>>,
}

impl NcduEntry {
    pub fn new(name: String, dsize: u64, asize: u64) -> (e: NcduEntry)
        ensures
            e.name == name,
            e.dsize == dsize,
            e.asize == asize,
            e.children is None,
    {
        NcduEntry { name, dsize, asize, children: None }
    }

    pub fn with_children(name: String, dsize: u64, asize: u64, children: Vec<NcduEntry>) -> (e:
        NcduEntry)
        ensures
            e.name == name,
            e.dsize == dsize,
            e.asize == asize,
            e.children == Some(children),
    {
        NcduEntry { name, dsize, asize, children: Some(children) }
    }

    /// Renders this entry: a leaf becomes its info block alone, a non-leaf
    /// an array of its info block followed by its rendered children.
    pub fn to_ncdu_value(&self) -> (v: NcduValue)
        ensures
            value_matches(v, *self),
        decreases *self,
    {
        let info = NcduValue::Info {
            name: self.name.clone(),
            dsize: self.dsize,
            asize: self.asize,
        };
        match &self.children {
            None => info,
            Some(children) => {
                let mut items: Vec<NcduValue> = Vec::new();
                items.push(info);
                let mut i: usize = 0;
                while i < children.len()
                    invariant
                        self.children == Some(*children),
                        i <= children@.len(),
                        items@.len() == i + 1,
                        items@[0] == spec_info_block(*self),
                        forall|k: int|
                            0 <= k < i ==> value_matches(#[trigger] items@[k + 1], children@[k]),
                    decreases children@.len() - i,
                {
                    proof {
                        assert(decreases_to!(*self => self.children));
                        assert(decreases_to!(self.children => self.children->Some_0));
                        let j = i as int;
                        assert(decreases_to!(self.children->Some_0 => self.children->Some_0[j]));
                    }
                    let child_value = children[i].to_ncdu_value();
                    items.push(child_value);
                    i += 1;
                }
                NcduValue::Array(items)
            },
        }
    }
}

/// The subset of JSON values the exported report is made of.
#[derive(Debug, PartialEq)]
pub enum NcduValue {
    /// A version number of the document layout.
    Int(i64),
    /// One entry's info block: `{"name": .., "dsize": .., "asize": ..}`.
    Info { name: String, dsize: u64, asize: u64 },
    /// The document header: `{"progname": .., "progver": .., "timestamp": ..}`.
    Meta { progname: String, progver: String, timestamp: i64 },
    /// A JSON array.
    Array(Vec<NcduValue>),
}

pub open spec fn spec_info_block(e: NcduEntry) -> NcduValue {
    NcduValue::Info { name: e.name, dsize: e.dsize, asize: e.asize }
}

/// `v` is exactly the rendering of the entry `e`.
pub open spec fn value_matches(v: NcduValue, e: NcduEntry) -> bool
    decreases e,
{
    match e.children {
        None => v == spec_info_block(e),
        Some(cs) => v matches NcduValue::Array(items) && items@.len() == cs@.len() + 1
            && items@[0] == spec_info_block(e) && (forall|k: int|
            0 <= k < cs@.len() ==> value_matches(#[trigger] items@[k + 1], cs@[k])),
    }
}

pub struct NcduHeader {
    pub progname: String,
    pub progver: String,
    pub timestamp: i64,
}

pub const FORMAT_VERSION_MAJOR: i64 = 1;

pub const FORMAT_VERSION_MINOR: i64 = 0;

/// The header for a report produced at the given Unix timestamp.
pub fn make_header(timestamp: i64) -> (h: NcduHeader)
    ensures
        h.progname@ == "rbx-bytesize-ncdu"@,
        h.progver@ == "1.0"@,
        h.timestamp == timestamp,
{
    NcduHeader {
        progname: String::from_str("rbx-bytesize-ncdu"),
        progver: String::from_str("1.0"),
        timestamp,
    }
}

/// `doc` is exactly the document for `header` and the entry tree `root`:
/// `[major, minor, header, rendered root]`.
pub open spec fn document_matches(doc: NcduValue, header: NcduHeader, root: NcduEntry) -> bool {
    doc matches NcduValue::Array(items) && items@.len() == 4 && items@[0]
        == NcduValue::Int(FORMAT_VERSION_MAJOR) && items@[1] == NcduValue::Int(FORMAT_VERSION_MINOR)
        && items@[2] == (NcduValue::Meta {
        progname: header.progname,
        progver: header.progver,
        timestamp: header.timestamp,
    }) && value_matches(items@[3], root)
}

/// Renders the full report document for the given header and root entry.
pub fn export_document(header: NcduHeader, root: &NcduEntry) -> (doc: NcduValue)
    ensures
        document_matches(doc, header, *root),
{
    let mut items: Vec<NcduValue> = Vec::new();
    items.push(NcduValue::Int(FORMAT_VERSION_MAJOR));
    items.push(NcduValue::Int(FORMAT_VERSION_MINOR));
    items.push(
        NcduValue::Meta {
            progname: header.progname,
            progver: header.progver,
            timestamp: header.timestamp,
        },
    );
    items.push(root.to_ncdu_value());
    NcduValue::Array(items)
}

/// The display label of a node: its name alone when name and class tag
/// coincide, otherwise "name (class)".
pub open spec fn spec_display_name(name: Seq<char>, class: Seq<char>) -> Seq<char> {
    if name == class {
        name
    } else {
        name + " ("@ + class + ")"@
    }
}

pub fn display_name(name: &String, class: &String) -> (r: String)
    ensures
        r@ == spec_display_name(name@, class@),
{
    if *name == *class {
        name.clone()
    } else {
        let mut r = name.clone();
        r.append(" (");
        r.append(class.as_str());
        r.append(")");
        assert(r@ =~= name@ + " ("@ + class@ + ")"@);
        r
    }
}

} // verus!
