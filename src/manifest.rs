//! Reading the addon identifiers out of a repository listing.
//!
//! The listing is an XML document whose `addon` elements, under an `addons`
//! root, carry each addon's identifier in an `id` attribute.
use vstd::prelude::*;
use crate::index::{AddonIndex, id_views};
use sxd_xpath::nodeset::Node;

verus! {

/// The query that selects every addon identifier of a listing.
pub const ID_QUERY: &'static str = "/addons/addon/@id";

#[verifier::external_type_specification]
#[verifier::external_body]
pub struct ExPackage(sxd_document::Package);

#[verifier::external_type_specification]
#[verifier::external_body]
pub struct ExParseError(sxd_document::parser::Error);

#[verifier::external_type_specification]
#[verifier::external_body]
pub struct ExXPathError(sxd_xpath::Error);

/// Whether the XML parser accepts a text as a document.
pub uninterp spec fn xml_accepts(text: Seq<char>) -> bool;

/// A parsed listing, with the text that it was parsed from. Only `parse_xml`
/// makes one.
struct ParsedListing {
    package: sxd_document::Package,
    text: Ghost<Seq<char>>,
}

/// Relies on sxd_document::parser::parse: whether it returns a document
/// depends on the text alone.
#[verifier::external_body]
fn parse_xml(text: &str) -> (r: Result<ParsedListing, sxd_document::parser::Error>)
    ensures
        r is Ok == xml_accepts(text@),
        r is Ok ==> r->Ok_0.text@ == text@,
{
    sxd_document::parser::parse(text).map(|package| ParsedListing { package, text: Ghost(text@) })
}

/// One node that a query selected.
pub enum SelectedNode {
    /// An attribute, with its value.
    Attribute(String),
    /// Any other kind of node.
    Other,
}

/// What a query evaluated to.
pub enum Selection {
    /// A set of nodes, in document order.
    Nodes(Vec<SelectedNode>),
    /// A boolean, number or string rather than nodes.
    NotNodes,
}

/// What a query gave, as the contracts see it.
pub enum SelectionView {
    /// The query could not be evaluated.
    Failed,
    /// A boolean, number or string rather than nodes.
    NotNodes,
    /// The nodes in document order: an attribute's value, or `None` for any
    /// other kind of node.
    Nodes(Seq<Option<Seq<char>>>),
}

/// The view of a selected node.
pub open spec fn node_view(n: SelectedNode) -> Option<Seq<char>> {
    match n {
        SelectedNode::Attribute(v) => Some(v@),
        SelectedNode::Other => None,
    }
}

/// The view of what a query gave.
pub open spec fn selection_view(r: Result<Selection, sxd_xpath::Error>) -> SelectionView {
    match r {
        Err(_) => SelectionView::Failed,
        Ok(Selection::NotNodes) => SelectionView::NotNodes,
        Ok(Selection::Nodes(ns)) => SelectionView::Nodes(ns@.map_values(|n: SelectedNode| node_view(n))),
    }
}

/// What the XPath query `xpath` selects in the document that `text` parses to.
pub uninterp spec fn selection_of(text: Seq<char>, xpath: Seq<char>) -> SelectionView;

/// Relies on sxd_xpath::evaluate_xpath (with sxd_xpath's Nodeset::document_order
/// and sxd_document's Attribute::value): evaluates `xpath` against the parsed
/// document and hands back what it selected, in document order. The result
/// depends on the document, hence on its text, and on the query alone.
#[verifier::external_body]
fn evaluate_query(p: &ParsedListing, xpath: &str) -> (r: Result<Selection, sxd_xpath::Error>)
    ensures
        selection_view(r) == selection_of(p.text@, xpath@),
{
    match sxd_xpath::evaluate_xpath(&p.package.as_document(), xpath)? {
        sxd_xpath::Value::Nodeset(set) => Ok(Selection::Nodes(set.document_order().into_iter().map(|n| match n {
            Node::Attribute(a) => SelectedNode::Attribute(a.value().to_owned()),
            _ => SelectedNode::Other,
        }).collect())),
        _ => Ok(Selection::NotNodes),
    }
}

/// Why a listing could not be read.
#[derive(Debug, PartialEq, Eq)]
pub enum ManifestError {
    /// The listing file could not be read.
    Unreadable,
    /// The listing is not well-formed XML.
    Malformed,
    /// The identifier query could not be evaluated.
    BadQuery,
    /// The query gave a value that is not a set of nodes.
    NotNodes,
    /// The query selected a node that is not an attribute.
    NotAttribute,
}

/// Whether every selected node is an attribute.
pub open spec fn all_attributes(nodes: Seq<SelectedNode>) -> bool {
    forall|i: int| 0 <= i < nodes.len() ==> nodes[i] is Attribute
}

/// The identifier that an attribute node carries.
pub open spec fn attribute_value(n: SelectedNode) -> Seq<char> {
    match n {
        SelectedNode::Attribute(v) => v@,
        SelectedNode::Other => Seq::empty(),
    }
}

/// The identifiers of a selection: the values of its attributes, in order.
/// Fails on a value that is not nodes, or on a node that is not an attribute.
pub fn ids_from_selection(sel: Selection) -> (r: Result<Vec<String>, ManifestError>)
    ensures
        sel is NotNodes ==> r == Err::<Vec<String>, ManifestError>(ManifestError::NotNodes),
        sel is Nodes && !all_attributes(sel->Nodes_0@) ==> r == Err::<Vec<String>, ManifestError>(
            ManifestError::NotAttribute,
        ),
        sel is Nodes && all_attributes(sel->Nodes_0@) ==> {
            &&& r is Ok
            &&& r->Ok_0.len() == sel->Nodes_0.len()
            &&& forall|i: int|
                0 <= i < sel->Nodes_0.len() ==> r->Ok_0@[i]@ == attribute_value(sel->Nodes_0@[i])
        },
{
    match &sel {
        Selection::NotNodes => Err(ManifestError::NotNodes),
        Selection::Nodes(ns) => {
            let mut ids: Vec<String> = Vec::new();
            let mut i: usize = 0;
            while i < ns.len()
                invariant
                    sel is Nodes,
                    sel->Nodes_0@ == ns@,
                    i <= ns.len(),
                    ids.len() == i,
                    forall|j: int| 0 <= j < i ==> ns@[j] is Attribute,
                    forall|j: int| 0 <= j < i ==> ids@[j]@ == attribute_value(ns@[j]),
                decreases ns.len() - i,
            {
                match &ns[i] {
                    SelectedNode::Attribute(v) => ids.push(v.clone()),
                    SelectedNode::Other => {
                        assert(!all_attributes(ns@));
                        return Err(ManifestError::NotAttribute);
                    },
                }
                i = i + 1;
            }
            Ok(ids)
        },
    }
}

/// Whether every selected node is an attribute.
pub open spec fn all_values(ns: Seq<Option<Seq<char>>>) -> bool {
    forall|i: int| 0 <= i < ns.len() ==> ns[i] is Some
}

/// The index of the addons that a listing's text declares: the values of the
/// attributes that the identifier query selects. A text that the XML parser
/// rejects gives `Malformed`, and nothing else does; a query that cannot be
/// evaluated, that gives no nodes, or that selects a node other than an
/// attribute gives `BadQuery`, `NotNodes` or `NotAttribute`.
pub fn read_listing(text: &str) -> (r: Result<AddonIndex, ManifestError>)
    ensures
        (r == Err::<AddonIndex, ManifestError>(ManifestError::Malformed)) == !xml_accepts(text@),
        xml_accepts(text@) ==> match selection_of(text@, ID_QUERY@) {
            SelectionView::Failed => r == Err::<AddonIndex, ManifestError>(ManifestError::BadQuery),
            SelectionView::NotNodes => r == Err::<AddonIndex, ManifestError>(ManifestError::NotNodes),
            SelectionView::Nodes(ns) => if all_values(ns) {
                &&& r is Ok
                &&& r->Ok_0@ == ns.map_values(|v: Option<Seq<char>>| v->0).to_set()
            } else {
                r == Err::<AddonIndex, ManifestError>(ManifestError::NotAttribute)
            },
        },
{
    let package = match parse_xml(text) {
        Ok(p) => p,
        Err(_) => return Err(ManifestError::Malformed),
    };
    let sel = match evaluate_query(&package, ID_QUERY) {
        Ok(s) => s,
        Err(_) => return Err(ManifestError::BadQuery),
    };
    let ghost given = sel;
    proof {
        if sel is Nodes {
            let ns = sel->Nodes_0;
            let vs = ns@.map_values(|n: SelectedNode| node_view(n));
            assert(all_values(vs) == all_attributes(ns@)) by {
                if all_values(vs) {
                    assert forall|i: int| 0 <= i < ns@.len() implies ns@[i] is Attribute by {
                        assert(vs[i] is Some);
                    }
                }
            }
        }
    }
    match ids_from_selection(sel) {
        Ok(ids) => {
            proof {
                let ns = given->Nodes_0@;
                let vs = ns.map_values(|n: SelectedNode| node_view(n));
                assert(id_views(ids@) =~= vs.map_values(|v: Option<Seq<char>>| v->0));
            }
            Ok(AddonIndex::from_ids(ids))
        },
        Err(e) => Err(e),
    }
}

/// A character as it is written inside a double-quoted attribute value.
pub open spec fn escape_char(c: char) -> Seq<char> {
    if c == '&' {
        "&amp;"@
    } else if c == '<' {
        "&lt;"@
    } else if c == '>' {
        "&gt;"@
    } else if c == '"' {
        "&quot;"@
    } else {
        seq![c]
    }
}

/// A text as it is written inside a double-quoted attribute value.
pub open spec fn escaped(s: Seq<char>) -> Seq<char>
    decreases s.len(),
{
    if s.len() == 0 {
        Seq::empty()
    } else {
        escaped(s.drop_last()) + escape_char(s.last())
    }
}

/// One `addon` element for each identifier, in order.
pub open spec fn listing_entries(ids: Seq<Seq<char>>) -> Seq<char>
    decreases ids.len(),
{
    if ids.len() == 0 {
        Seq::empty()
    } else {
        listing_entries(ids.drop_last()) + "<addon id=\""@ + escaped(ids.last()) + "\"/>"@
    }
}

/// The listing that declares the identifiers `ids`.
pub open spec fn listing_text(ids: Seq<Seq<char>>) -> Seq<char> {
    "<addons>"@ + listing_entries(ids) + "</addons>"@
}

/// Appends `id`, escaped for an attribute value, to `out`.
fn push_escaped(out: &mut String, id: &str)
    ensures
        final(out)@ == old(out)@ + escaped(id@),
{
    let n = id.unicode_len();
    let mut i: usize = 0;
    while i < n
        invariant
            n == id@.len(),
            i <= n,
            out@ == old(out)@ + escaped(id@.subrange(0, i as int)),
        decreases n - i,
    {
        let c = id.get_char(i);
        let ghost before = out@;
        if c == '&' {
            out.append("&amp;");
        } else if c == '<' {
            out.append("&lt;");
        } else if c == '>' {
            out.append("&gt;");
        } else if c == '"' {
            out.append("&quot;");
        } else {
            let one = id.substring_char(i, i + 1);
            assert(one@ =~= seq![c]);
            out.append(one);
        }
        assert(id@.subrange(0, i + 1).drop_last() =~= id@.subrange(0, i as int));
        assert(out@ =~= before + escape_char(c));
        i = i + 1;
    }
    assert(id@.subrange(0, n as int) =~= id@);
}

/// Renders the listing that declares exactly the identifiers `ids`: an
/// `addons` element holding one `addon` element per identifier, in order,
/// each with the identifier in its `id` attribute.
pub fn write_listing(ids: &Vec<String>) -> (r: String)
    ensures
        r@ == listing_text(id_views(ids@)),
{
    let mut out = String::from_str("<addons>");
    let mut i: usize = 0;
    while i < ids.len()
        invariant
            i <= ids.len(),
            out@ == "<addons>"@ + listing_entries(id_views(ids@).subrange(0, i as int)),
        decreases ids.len() - i,
    {
        out.append("<addon id=\"");
        push_escaped(&mut out, ids[i].as_str());
        out.append("\"/>");
        assert(id_views(ids@).subrange(0, i + 1).drop_last() =~= id_views(ids@).subrange(0, i as int));
        assert(out@ =~= "<addons>"@ + listing_entries(id_views(ids@).subrange(0, i + 1)));
        i = i + 1;
    }
    assert(id_views(ids@).subrange(0, ids.len() as int) =~= id_views(ids@));
    out.append("</addons>");
    out
}

} // verus!
