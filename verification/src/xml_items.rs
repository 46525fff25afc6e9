use vstd::prelude::*;
use xml::reader::{EventReader, XmlEvent};

verus! {

/// One attribute of an XML start tag: its local name and its value.
pub struct XmlAttribute {
    pub name: String,
    pub value: String,
}

/// One event of an XML reader, holding the plain values that the map loader reads.
pub enum XmlItem {
    /// `<name attributes...>`; the name is the element's local name.
    StartElement { name: String, attributes: Vec<XmlAttribute> },
    /// `</name>`
    EndElement { name: String },
    /// A run of character data.
    Characters { text: String },
    /// Any other event (document start and end, whitespace, comments, CDATA, ...).
    Other,
    /// A parse error; the reader stops after it.
    Error,
}

/// The events that `xml::reader::EventReader` yields for the document `bytes`.
pub uninterp spec fn xml_reader_items(bytes: Seq<u8>) -> Seq<XmlItem>;

/// Runs `xml::reader::EventReader` over `bytes` until it finishes, and returns each event it
/// yields as an `XmlItem`, in order. The contract claims only that the result is a function of
/// the bytes; what xml-rs makes of a document is not stated here.
#[verifier::external_body]
pub(crate) fn read_xml_items(bytes: &[u8]) -> (items: Vec<XmlItem>)
    ensures
        items@ == xml_reader_items(bytes@),
{
    let mut items = Vec::new();
    for event in EventReader::new(bytes) {
        items.push(match event {
            Ok(XmlEvent::StartElement { name, attributes, .. }) => XmlItem::StartElement {
                name: name.local_name,
                attributes: attributes.into_iter().map(|a| XmlAttribute { name: a.name.local_name, value: a.value }).collect(),
            },
            Ok(XmlEvent::EndElement { name }) => XmlItem::EndElement { name: name.local_name },
            Ok(XmlEvent::Characters(text)) => XmlItem::Characters { text },
            Ok(_) => XmlItem::Other,
            Err(_) => XmlItem::Error,
        });
    }
    items
}

} // verus!
