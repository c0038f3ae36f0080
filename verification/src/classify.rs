//! The classifier: a parsed wire document becomes a typed message or a
//! classification error.

use vstd::prelude::*;

use crate::models::ClassificationError;
use crate::models::MessageType;
use crate::models::MessageTypeModel;
use crate::models::ScanResult;
use crate::models::ScanResultModel;
use crate::wire::DocModel;
use crate::wire::ItemModel;
use crate::wire::JsonItem;
use crate::wire::WireDoc;
use crate::wire::parse_wire;
use crate::wire::parsed_doc;

verus! {

/// The string elements of a `data` array, in order of appearance; everything
/// else is dropped.
pub open spec fn hosts_of(items: Seq<ItemModel>) -> Seq<Seq<char>>
    decreases items.len(),
{
    if items.len() == 0 {
        Seq::empty()
    } else {
        let rest = hosts_of(items.drop_last());
        match items.last() {
            ItemModel::Text(s) => rest.push(s),
            _ => rest,
        }
    }
}

/// The integer elements of a `data` array that fit a port number, in order of
/// appearance; non-integers and values above 65535 are dropped.
pub open spec fn ports_of(items: Seq<ItemModel>) -> Seq<u16>
    decreases items.len(),
{
    if items.len() == 0 {
        Seq::empty()
    } else {
        let rest = ports_of(items.drop_last());
        match items.last() {
            ItemModel::Uint(n) => if n <= 65535 {
                rest.push(n as u16)
            } else {
                rest
            },
            _ => rest,
        }
    }
}

/// What classification makes of a parse outcome: `None` (malformed JSON) is
/// `InvalidEncoding`; a document without a string `type` is `MissingType`; a
/// recognized type without an array `data` is `InvalidData`; a host scan
/// without a string `host` is `MissingHost`; an unrecognized type is
/// `UnknownType`; otherwise the typed message built from the document.
pub open spec fn spec_classify_doc(d: Option<DocModel>) -> Result<
    MessageTypeModel,
    ClassificationError,
> {
    match d {
        None => Err(ClassificationError::InvalidEncoding),
        Some(doc) => match doc.type_field {
            None => Err(ClassificationError::MissingType),
            Some(t) => if t == "network_scan"@ {
                match doc.data_field {
                    None => Err(ClassificationError::InvalidData),
                    Some(items) => Ok(
                        MessageTypeModel::NetworkScanResult(
                            ScanResultModel::Hosts(hosts_of(items)),
                        ),
                    ),
                }
            } else if t == "host_scan"@ {
                match doc.data_field {
                    None => Err(ClassificationError::InvalidData),
                    Some(items) => match doc.host_field {
                        None => Err(ClassificationError::MissingHost),
                        Some(h) => Ok(
                            MessageTypeModel::HostScanResult(
                                ScanResultModel::Ports(h, ports_of(items)),
                            ),
                        ),
                    },
                }
            } else {
                Err(ClassificationError::UnknownType)
            },
        },
    }
}

/// What classification makes of a raw text: the classification of its parse.
pub open spec fn spec_classify(s: Seq<char>) -> Result<MessageTypeModel, ClassificationError> {
    spec_classify_doc(parsed_doc(s))
}

/// The model of a classification outcome.
pub open spec fn classification_model(r: Result<MessageType, ClassificationError>) -> Result<
    MessageTypeModel,
    ClassificationError,
> {
    match r {
        Ok(m) => Ok(m@),
        Err(e) => Err(e),
    }
}

/// Collect the string elements of a `data` array, in order.
fn collect_hosts(items: &Vec<JsonItem>) -> (hosts: Vec<String>)
    ensures
        hosts@.map_values(|h: String| h@) == hosts_of(items@.map_values(|it: JsonItem| it@)),
{
    let ghost model = items@.map_values(|it: JsonItem| it@);
    let mut hosts: Vec<String> = Vec::new();
    let mut i: usize = 0;
    proof {
        assert(model.take(0) =~= Seq::<ItemModel>::empty());
        assert(hosts@.map_values(|h: String| h@) =~= hosts_of(model.take(0)));
    }
    while i < items.len()
        invariant
            i <= items.len(),
            model == items@.map_values(|it: JsonItem| it@),
            hosts@.map_values(|h: String| h@) == hosts_of(model.take(i as int)),
        decreases items.len() - i,
    {
        let ghost prev = hosts@.map_values(|h: String| h@);
        match &items[i] {
            JsonItem::Text(s) => {
                let host = s.clone();
                hosts.push(host);
                proof {
                    assert(hosts@.map_values(|h: String| h@) =~= prev.push(s@));
                }
            },
            _ => {},
        }
        proof {
            assert(model.take(i + 1).drop_last() =~= model.take(i as int));
            assert(model.take(i + 1).last() == model[i as int]);
        }
        i = i + 1;
    }
    proof {
        assert(model.take(items@.len() as int) =~= model);
    }
    hosts
}

/// Collect the elements of a `data` array that fit a port number, in order.
fn collect_ports(items: &Vec<JsonItem>) -> (ports: Vec<u16>)
    ensures
        ports@ == ports_of(items@.map_values(|it: JsonItem| it@)),
{
    let ghost model = items@.map_values(|it: JsonItem| it@);
    let mut ports: Vec<u16> = Vec::new();
    let mut i: usize = 0;
    proof {
        assert(model.take(0) =~= Seq::<ItemModel>::empty());
    }
    while i < items.len()
        invariant
            i <= items.len(),
            model == items@.map_values(|it: JsonItem| it@),
            ports@ == ports_of(model.take(i as int)),
        decreases items.len() - i,
    {
        match &items[i] {
            JsonItem::Uint(n) => {
                if *n <= 65535 {
                    ports.push(*n as u16);
                }
            },
            _ => {},
        }
        proof {
            assert(model.take(i + 1).drop_last() =~= model.take(i as int));
            assert(model.take(i + 1).last() == model[i as int]);
        }
        i = i + 1;
    }
    proof {
        assert(model.take(items@.len() as int) =~= model);
    }
    ports
}

/// Classify an already parsed wire document. This is where every decision
/// past the JSON parse itself is made, so its contract pins the result for
/// every possible document.
pub fn classify_doc(doc: &WireDoc) -> (r: Result<MessageType, ClassificationError>)
    ensures
        classification_model(r) == spec_classify_doc(Some(doc@)),
{
    proof {
        reveal_strlit("network_scan");
        reveal_strlit("host_scan");
    }
    let t = match &doc.type_field {
        Some(t) => t,
        None => {
            return Err(ClassificationError::MissingType);
        },
    };
    if *t == String::from_str("network_scan") {
        match &doc.data_field {
            None => Err(ClassificationError::InvalidData),
            Some(items) => {
                let hosts = collect_hosts(items);
                Ok(MessageType::NetworkScanResult(ScanResult::Hosts(hosts)))
            },
        }
    } else if *t == String::from_str("host_scan") {
        match &doc.data_field {
            None => Err(ClassificationError::InvalidData),
            Some(items) => match &doc.host_field {
                None => Err(ClassificationError::MissingHost),
                Some(h) => {
                    let ports = collect_ports(items);
                    Ok(MessageType::HostScanResult(ScanResult::Ports(h.clone(), ports)))
                },
            },
        }
    } else {
        Err(ClassificationError::UnknownType)
    }
}

/// Classify a raw text: parse it as JSON and classify the parsed document.
/// Deterministic and side-effect free; the result is pinned by the text alone.
pub fn classify_message(msg: &str) -> (r: Result<MessageType, ClassificationError>)
    ensures
        classification_model(r) == spec_classify(msg@),
{
    match parse_wire(msg) {
        None => Err(ClassificationError::InvalidEncoding),
        Some(doc) => classify_doc(&doc),
    }
}

/// A valid `network_scan` document classifies to exactly the ordered string
/// elements of its `data` array, non-string elements dropped.
pub proof fn lemma_classify_network_scan(doc: DocModel)
    requires
        doc.type_field == Some("network_scan"@),
        doc.data_field is Some,
    ensures
        spec_classify_doc(Some(doc)) == Ok::<MessageTypeModel, ClassificationError>(
            MessageTypeModel::NetworkScanResult(
                ScanResultModel::Hosts(hosts_of(doc.data_field->0)),
            ),
        ),
{
}

/// A valid `host_scan` document classifies to exactly its host and the
/// ordered port-sized integer elements of its `data` array, out-of-range and
/// non-integer elements dropped.
pub proof fn lemma_classify_host_scan(doc: DocModel)
    requires
        doc.type_field == Some("host_scan"@),
        doc.data_field is Some,
        doc.host_field is Some,
    ensures
        spec_classify_doc(Some(doc)) == Ok::<MessageTypeModel, ClassificationError>(
            MessageTypeModel::HostScanResult(
                ScanResultModel::Ports(doc.host_field->0, ports_of(doc.data_field->0)),
            ),
        ),
{
    reveal_strlit("network_scan");
    reveal_strlit("host_scan");
    let t = doc.type_field->0;
    assert(t == "host_scan"@);
    assert(t != "network_scan"@);
    let r = spec_classify_doc(Some(doc));
    assert(r == Ok::<MessageTypeModel, ClassificationError>(MessageTypeModel::HostScanResult(
        ScanResultModel::Ports(doc.host_field->0, ports_of(doc.data_field->0)))));
}

/// `hosts_of` is exactly the `data` array filtered to its string elements
/// and projected onto their contents: order preserved, non-string elements
/// dropped, nothing else changed.
pub proof fn lemma_hosts_of_is_filtered(items: Seq<ItemModel>)
    ensures
        hosts_of(items) == items.filter(|it: ItemModel| it is Text).map_values(
            |it: ItemModel| it->Text_0,
        ),
    decreases items.len(),
{
    reveal(Seq::filter);
    let kept = |it: ItemModel| it is Text;
    let content = |it: ItemModel| it->Text_0;
    if items.len() == 0 {
        assert(hosts_of(items) =~= items.filter(kept).map_values(content));
    } else {
        lemma_hosts_of_is_filtered(items.drop_last());
        if items.last() is Text {
            assert(items.filter(kept).map_values(content) =~= items.drop_last().filter(
                kept,
            ).map_values(content).push(content(items.last())));
        }
    }
}

/// `ports_of` is exactly the `data` array filtered to its integer elements in
/// `0..=65535` and projected onto their values: order preserved, out-of-range
/// and non-integer elements dropped, nothing else changed.
pub proof fn lemma_ports_of_is_filtered(items: Seq<ItemModel>)
    ensures
        ports_of(items) == items.filter(
            |it: ItemModel| it is Uint && it->Uint_0 <= 65535,
        ).map_values(|it: ItemModel| it->Uint_0 as u16),
    decreases items.len(),
{
    reveal(Seq::filter);
    let kept = |it: ItemModel| it is Uint && it->Uint_0 <= 65535;
    let content = |it: ItemModel| it->Uint_0 as u16;
    if items.len() == 0 {
        assert(ports_of(items) =~= items.filter(kept).map_values(content));
    } else {
        lemma_ports_of_is_filtered(items.drop_last());
        if kept(items.last()) {
            assert(items.filter(kept).map_values(content) =~= items.drop_last().filter(
                kept,
            ).map_values(content).push(content(items.last())));
        }
    }
}

/// Each classification error comes on exactly one class of inputs, and
/// success is owed on everything else: malformed JSON is `InvalidEncoding`;
/// a parsed document without a string `type` is `MissingType`; an
/// unrecognized `type` is `UnknownType`; a recognized `type` without an array
/// `data` is `InvalidData`; a host scan with an array `data` but no string
/// `host` is `MissingHost`; every remaining input classifies successfully.
pub proof fn lemma_error_taxonomy(s: Seq<char>)
    ensures
        spec_classify(s) == Err::<MessageTypeModel, ClassificationError>(
            ClassificationError::InvalidEncoding,
        ) <==> parsed_doc(s) is None,
        spec_classify(s) == Err::<MessageTypeModel, ClassificationError>(
            ClassificationError::MissingType,
        ) <==> (parsed_doc(s) matches Some(doc) && doc.type_field is None),
        spec_classify(s) == Err::<MessageTypeModel, ClassificationError>(
            ClassificationError::UnknownType,
        ) <==> (parsed_doc(s) matches Some(doc) && doc.type_field matches Some(t)
            && t != "network_scan"@ && t != "host_scan"@),
        spec_classify(s) == Err::<MessageTypeModel, ClassificationError>(
            ClassificationError::InvalidData,
        ) <==> (parsed_doc(s) matches Some(doc) && doc.type_field matches Some(t)
            && (t == "network_scan"@ || t == "host_scan"@) && doc.data_field is None),
        spec_classify(s) == Err::<MessageTypeModel, ClassificationError>(
            ClassificationError::MissingHost,
        ) <==> (parsed_doc(s) matches Some(doc) && doc.type_field == Some("host_scan"@)
            && doc.data_field is Some && doc.host_field is None),
        spec_classify(s) is Ok <==> (parsed_doc(s) matches Some(doc)
            && doc.type_field matches Some(t) && doc.data_field is Some && (t == "network_scan"@
            || (t == "host_scan"@ && doc.host_field is Some))),
{
    reveal_strlit("network_scan");
    reveal_strlit("host_scan");
    assert("network_scan"@.len() == 12);
    assert("host_scan"@.len() == 9);
}

/// Classification is deterministic: two outcomes of classifying the same text
/// are equal.
pub proof fn lemma_classify_deterministic(
    s: Seq<char>,
    r1: Result<MessageType, ClassificationError>,
    r2: Result<MessageType, ClassificationError>,
)
    requires
        classification_model(r1) == spec_classify(s),
        classification_model(r2) == spec_classify(s),
    ensures
        classification_model(r1) == classification_model(r2),
{
}

/// Every message the classifier accepts is well formed: the wrapper variant
/// matches its payload.
pub proof fn lemma_classify_wf(d: Option<DocModel>)
    requires
        spec_classify_doc(d) is Ok,
    ensures
        (spec_classify_doc(d)->Ok_0).wf(),
{
}

} // verus!


