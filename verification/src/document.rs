//! Reading a station list out of a KDL document.
//!
//! The KDL parser is not verified: what this module takes from it is said
//! once, in the contracts of the four functions that call it, and everything
//! else is proved from those. A text that the parser cannot report on never
//! reaches it.

use crate::reserved::check_reserved_words;
use crate::reserved::reserved_words_fit;
use crate::station::loaded_of;
use crate::station::load_entries;
use crate::station::Attribute;
use crate::station::AttributeView;
use crate::station::Loaded;
use crate::station::Entry;
use crate::station::EntryView;
use crate::station::entry_views;
use kdl::KdlDocument;
use kdl::KdlError;
use vstd::prelude::*;

verus! {

/// What the loader reads of one top-level node: its name, and its
/// properties. A key is in `properties` when the node has a property of that
/// name, and stands there for the text of the last such property's value:
/// `None` where that value is not a string.
pub struct NodeFacts {
    pub name: Seq<char>,
    pub properties: Map<Seq<char>, Option<Seq<char>>>,
}

/// Why a text is no station list.
#[derive(Debug)]
pub enum SyntaxError {
    /// A reserved word stands behind an opening bracket with too little
    /// after it: the text was not handed to the parser.
    ReservedWord,
    /// The parser refused the text, and this is what it found.
    Parser(KdlError),
}

/// The line to show for a text that is no station list. What the parser
/// found is for the parser's own error to tell.
pub open spec fn syntax_error_text(error: SyntaxError) -> Seq<char> {
    match error {
        SyntaxError::ReservedWord => "Error: too little follows `(true`, `(false` or `(null`"@,
        SyntaxError::Parser(_) => "Error: the text is no KDL document"@,
    }
}

impl SyntaxError {
    /// The line to show for this error.
    pub fn message(&self) -> (r: String)
        ensures
            r@ == syntax_error_text(*self),
    {
        match self {
            SyntaxError::ReservedWord => String::from_str(
                "Error: too little follows `(true`, `(false` or `(null`",
            ),
            SyntaxError::Parser(_) => String::from_str("Error: the text is no KDL document"),
        }
    }
}

/// `kdl::KdlDocument`, a parsed document. Nothing is known of what it holds
/// but what `document_nodes` says.
#[verifier::external_type_specification]
#[verifier::external_body]
pub struct ExKdlDocument(KdlDocument);

/// `kdl::KdlError`, what the parser says of a text that it refuses. Nothing
/// is known of what it holds.
#[verifier::external_type_specification]
#[verifier::external_body]
pub struct ExKdlError(KdlError);

/// The top-level nodes of the document that `text` parses to, in document
/// order; `None` where `text` is not a KDL document.
pub uninterp spec fn parsed_nodes(text: Seq<char>) -> Option<Seq<NodeFacts>>;

/// The top-level nodes that `doc` holds, in document order.
pub uninterp spec fn document_nodes(doc: KdlDocument) -> Seq<NodeFacts>;

/// The characters of a text, where there is one.
pub open spec fn text_of(text: Option<String>) -> Option<Seq<char>> {
    match text {
        Some(text) => Some(text@),
        None => None,
    }
}

/// What a node says under `key`.
pub open spec fn attribute_of(node: NodeFacts, key: Seq<char>) -> AttributeView {
    if node.properties.dom().contains(key) {
        match node.properties[key] {
            Some(text) => AttributeView::Text(text),
            None => AttributeView::NotText,
        }
    } else {
        AttributeView::Absent
    }
}

/// The entry of the station list that a node is.
pub open spec fn entry_of(node: NodeFacts) -> EntryView {
    EntryView { name: node.name, url: attribute_of(node, "url"@) }
}

/// The entries of the station list that a document's nodes are.
pub open spec fn entries_of(nodes: Seq<NodeFacts>) -> Seq<EntryView> {
    nodes.map_values(|node: NodeFacts| entry_of(node))
}

/// `str::parse::<KdlDocument>`, which is `KdlDocument::from_str`. What it
/// returns depends on the text alone, and that is all the contract says of
/// it: the text is called a KDL document where the parser accepts it.
///
/// The parser does not return on every text. Where it meets `true`, `false`
/// or `null` as a type annotation, it builds its error from the text after
/// the word, as many bytes of it as the word has, and panics where that many
/// bytes do not follow or do not end with a character. `requires` leaves
/// those texts out. Every other error that the parser builds lies within
/// the text. Blocks or comments nested so deep that the parser's recursion
/// runs out of stack are left aside, as running out of memory is.
#[verifier::external_body]
fn parse_document(text: &str) -> (r: Result<KdlDocument, KdlError>)
    requires
        reserved_words_fit(text@),
    ensures
        match r {
            Ok(doc) => parsed_nodes(text@) == Some(document_nodes(doc)),
            Err(_) => parsed_nodes(text@) is None,
        },
{
    text.parse::<KdlDocument>()
}

/// The length of `KdlDocument::nodes`: the number of top-level nodes.
#[verifier::external_body]
fn node_count(doc: &KdlDocument) -> (n: usize)
    ensures
        n == document_nodes(*doc).len(),
{
    doc.nodes().len()
}

/// `KdlNode::name` and `KdlIdentifier::value`, of the top-level node at
/// `index`: the node's name.
#[verifier::external_body]
fn node_name(doc: &KdlDocument, index: usize) -> (name: String)
    requires
        index < document_nodes(*doc).len(),
    ensures
        name@ == document_nodes(*doc)[index as int].name,
{
    doc.nodes()[index].name().value().to_string()
}

/// `KdlNode::get` with a string key, then `KdlEntry::value` and
/// `KdlValue::as_string`, of the top-level node at `index`: `get` finds the
/// last property of that name, if there is one, and `as_string` gives the
/// text of a value that is a string and nothing for any other.
#[verifier::external_body]
fn node_property(doc: &KdlDocument, index: usize, key: &str) -> (value: Option<Option<String>>)
    requires
        index < document_nodes(*doc).len(),
    ensures
        match value {
            Some(text) => {
                &&& document_nodes(*doc)[index as int].properties.dom().contains(key@)
                &&& document_nodes(*doc)[index as int].properties[key@] == text_of(text)
            },
            None => !document_nodes(*doc)[index as int].properties.dom().contains(key@),
        },
{
    match doc.nodes()[index].get(key) {
        Some(entry) => Some(entry.value().as_string().map(str::to_string)),
        None => None,
    }
}

/// What the top-level node of `doc` at `index` says under `key`.
fn node_attribute(doc: &KdlDocument, index: usize, key: &str) -> (attribute: Attribute)
    requires
        index < document_nodes(*doc).len(),
    ensures
        attribute@ == attribute_of(document_nodes(*doc)[index as int], key@),
{
    Attribute::from_property(node_property(doc, index, key))
}

/// The top-level nodes of `doc` as entries of a station list, in document
/// order.
fn read_entries(doc: &KdlDocument) -> (entries: Vec<Entry>)
    ensures
        entry_views(entries@) == entries_of(document_nodes(*doc)),
{
    let n: usize = node_count(doc);
    let ghost nodes = document_nodes(*doc);
    let ghost as_entry = |node: NodeFacts| entry_of(node);
    let mut entries: Vec<Entry> = Vec::new();
    let mut i: usize = 0;
    while i < n
        invariant
            i <= n,
            n == nodes.len(),
            nodes == document_nodes(*doc),
            as_entry == |node: NodeFacts| entry_of(node),
            entry_views(entries@) == nodes.take(i as int).map_values(as_entry),
        decreases n - i,
    {
        let entry = Entry { name: node_name(doc, i), url: node_attribute(doc, i, "url") };
        proof {
            entries@.lemma_push_map_commute(|e: Entry| e@, entry);
            nodes.lemma_map_take_succ(as_entry, i as int);
        }
        entries.push(entry);
        i += 1;
    }
    assert(nodes.take(i as int) == nodes);
    entries
}

/// Reads a station list: `text` has to be a KDL document, and then every
/// top-level node with a string under `url` is a station, named as the node
/// is, in document order. The other nodes are told in `skipped`.
///
/// A text in which the reserved words do not fit is refused before the
/// parser sees it, whatever the parser would have made of it. That is every
/// text on which the parser cannot report, and besides those the few in
/// which an opening bracket and `true`, `false` or `null` stand within the
/// last bytes, or right before a character of several bytes, in a place
/// where the parser would not have minded: in a string, in a comment, or at
/// the start of a longer word.
pub fn load_document(text: &str) -> (r: Result<Loaded, SyntaxError>)
    ensures
        match r {
            Ok(loaded) => {
                &&& reserved_words_fit(text@)
                &&& parsed_nodes(text@) matches Some(nodes)
                &&& loaded@ == loaded_of(entries_of(nodes))
            },
            Err(SyntaxError::ReservedWord) => !reserved_words_fit(text@),
            Err(SyntaxError::Parser(_)) => {
                &&& reserved_words_fit(text@)
                &&& parsed_nodes(text@) is None
            },
        },
{
    if !check_reserved_words(text) {
        return Err(SyntaxError::ReservedWord);
    }
    match parse_document(text) {
        Ok(doc) => {
            let entries = read_entries(&doc);
            Ok(load_entries(&entries))
        },
        Err(source) => Err(SyntaxError::Parser(source)),
    }
}

} // verus!
