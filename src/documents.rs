//! The records that the configuration and server-list documents describe,
//! read from their elements' attributes.
use vstd::prelude::*;
use crate::types::{
    Client, DownloadConfig, ServerConfig, ServerXml, ServersContainer, SpeedtestConfig,
    UploadConfig,
};
use crate::utils::same_text;

verus! {

/// An element of a document: its name and its attributes in document order.
#[derive(Debug, Clone)]
pub struct XmlElement {
    pub name: String,
    pub attributes: Vec<(String, String)>,
}

/// The value of attribute `key`; where it is repeated, the last one.
pub open spec fn attr_value(attrs: Seq<(String, String)>, key: Seq<char>) -> Option<Seq<char>>
    decreases attrs.len(),
{
    if attrs.len() == 0 {
        None
    } else if attrs.last().0@ == key {
        Some(attrs.last().1@)
    } else {
        attr_value(attrs.drop_last(), key)
    }
}

/// The attributes of the last element named `name`.
pub open spec fn section(elements: Seq<XmlElement>, name: Seq<char>) -> Option<
    Seq<(String, String)>,
>
    decreases elements.len(),
{
    if elements.len() == 0 {
        None
    } else if elements.last().name@ == name {
        Some(elements.last().attributes@)
    } else {
        section(elements.drop_last(), name)
    }
}

/// Attribute `key` of the last element named `name`.
pub open spec fn lookup(elements: Seq<XmlElement>, name: Seq<char>, key: Seq<char>) -> Option<
    Seq<char>,
> {
    match section(elements, name) {
        Some(a) => attr_value(a, key),
        None => None,
    }
}

/// Attribute `key` of the last element named `name`, empty where it is absent.
pub open spec fn text_of(elements: Seq<XmlElement>, name: Seq<char>, key: Seq<char>) -> Seq<char> {
    match lookup(elements, name, key) {
        Some(v) => v,
        None => seq![],
    }
}

fn attribute_in(attrs: &Vec<(String, String)>, key: &str) -> (r: Option<String>)
    ensures
        r is Some <==> attr_value(attrs@, key@) is Some,
        r is Some ==> r->0@ == attr_value(attrs@, key@)->0,
{
    let mut i: usize = attrs.len();
    assert(attrs@.take(i as int) =~= attrs@);
    while i > 0
        invariant
            i <= attrs@.len(),
            attr_value(attrs@, key@) == attr_value(attrs@.take(i as int), key@),
        decreases i,
    {
        assert(attrs@.take(i as int).drop_last() =~= attrs@.take(i - 1));
        if same_text(attrs[i - 1].0.as_str(), key) {
            return Some(attrs[i - 1].1.clone());
        }
        i = i - 1;
    }
    None
}

fn section_in(elements: &Vec<XmlElement>, name: &str) -> (r: Option<usize>)
    ensures
        section(elements@, name@) is None <==> r is None,
        r matches Some(k) ==> k < elements@.len() && section(elements@, name@) == Some(
            elements@[k as int].attributes@,
        ),
{
    let mut i: usize = elements.len();
    assert(elements@.take(i as int) =~= elements@);
    while i > 0
        invariant
            i <= elements@.len(),
            section(elements@, name@) == section(elements@.take(i as int), name@),
        decreases i,
    {
        assert(elements@.take(i as int).drop_last() =~= elements@.take(i - 1));
        if same_text(elements[i - 1].name.as_str(), name) {
            return Some(i - 1);
        }
        i = i - 1;
    }
    None
}

/// Attribute `key` of the last element named `name`; see `lookup`.
pub fn attribute(elements: &Vec<XmlElement>, name: &str, key: &str) -> (r: Option<String>)
    ensures
        r is Some <==> lookup(elements@, name@, key@) is Some,
        r is Some ==> r->0@ == lookup(elements@, name@, key@)->0,
{
    match section_in(elements, name) {
        Some(k) => attribute_in(&elements[k].attributes, key),
        None => None,
    }
}

/// Attribute `key` of the last element named `name`, or empty text; see `text_of`.
pub fn text(elements: &Vec<XmlElement>, name: &str, key: &str) -> (r: String)
    ensures
        r@ == text_of(elements@, name@, key@),
{
    match attribute(elements, name, key) {
        Some(v) => v,
        None => String::new(),
    }
}

/// The attribute text of an optional field.
pub open spec fn opt_view(o: Option<String>) -> Option<Seq<char>> {
    match o {
        Some(s) => Some(s@),
        None => None,
    }
}

/// The configuration document that `elements` describe: the attributes of the
/// last `client`, `server-config`, `download` and `upload` elements, absent ones
/// as empty text (or `None` for the client's optional fields).
pub fn config_document(elements: &Vec<XmlElement>) -> (r: SpeedtestConfig)
    ensures
        r.client.ip@ == text_of(elements@, "client"@, "ip"@),
        r.client.lat@ == text_of(elements@, "client"@, "lat"@),
        r.client.lon@ == text_of(elements@, "client"@, "lon"@),
        r.client.isp@ == text_of(elements@, "client"@, "isp"@),
        opt_view(r.client.isp_rating) == lookup(elements@, "client"@, "isprating"@),
        opt_view(r.client.isp_dl_avg) == lookup(elements@, "client"@, "ispdlavg"@),
        opt_view(r.client.isp_ul_avg) == lookup(elements@, "client"@, "ispulavg"@),
        opt_view(r.client.country) == lookup(elements@, "client"@, "country"@),
        r.server_config.ignore_ids@ == text_of(elements@, "server-config"@, "ignoreids"@),
        r.server_config.thread_count@ == text_of(elements@, "server-config"@, "threadcount"@),
        r.download.test_length@ == text_of(elements@, "download"@, "testlength"@),
        r.download.threads_per_url@ == text_of(elements@, "download"@, "threadsperurl"@),
        r.upload.test_length@ == text_of(elements@, "upload"@, "testlength"@),
        r.upload.threads@ == text_of(elements@, "upload"@, "threads"@),
        r.upload.max_chunk_count@ == text_of(elements@, "upload"@, "maxchunkcount"@),
        r.upload.ratio@ == text_of(elements@, "upload"@, "ratio"@),
{
    SpeedtestConfig {
        client: Client {
            ip: text(elements, "client", "ip"),
            lat: text(elements, "client", "lat"),
            lon: text(elements, "client", "lon"),
            isp: text(elements, "client", "isp"),
            isp_rating: attribute(elements, "client", "isprating"),
            isp_dl_avg: attribute(elements, "client", "ispdlavg"),
            isp_ul_avg: attribute(elements, "client", "ispulavg"),
            country: attribute(elements, "client", "country"),
        },
        server_config: ServerConfig {
            ignore_ids: text(elements, "server-config", "ignoreids"),
            thread_count: text(elements, "server-config", "threadcount"),
        },
        download: DownloadConfig {
            test_length: text(elements, "download", "testlength"),
            threads_per_url: text(elements, "download", "threadsperurl"),
        },
        upload: UploadConfig {
            test_length: text(elements, "upload", "testlength"),
            threads: text(elements, "upload", "threads"),
            max_chunk_count: text(elements, "upload", "maxchunkcount"),
            ratio: text(elements, "upload", "ratio"),
        },
    }
}

/// Attribute `key` of one element, empty where it is absent.
pub open spec fn field_of(e: XmlElement, key: Seq<char>) -> Seq<char> {
    match attr_value(e.attributes@, key) {
        Some(v) => v,
        None => seq![],
    }
}

/// The server record that a `server` element describes.
pub open spec fn record_matches(r: ServerXml, e: XmlElement) -> bool {
    &&& r.id@ == field_of(e, "id"@)
    &&& r.sponsor@ == field_of(e, "sponsor"@)
    &&& r.name@ == field_of(e, "name"@)
    &&& r.country@ == field_of(e, "country"@)
    &&& r.country_code@ == field_of(e, "cc"@)
    &&& r.host@ == field_of(e, "host"@)
    &&& r.url@ == field_of(e, "url"@)
    &&& r.lat@ == field_of(e, "lat"@)
    &&& r.lon@ == field_of(e, "lon"@)
}

/// The `server` elements among the first `n`, in order.
pub open spec fn server_elements(elements: Seq<XmlElement>, n: int) -> Seq<XmlElement>
    decreases n,
{
    if n <= 0 {
        seq![]
    } else if elements[n - 1].name@ == "server"@ {
        server_elements(elements, n - 1).push(elements[n - 1])
    } else {
        server_elements(elements, n - 1)
    }
}

fn field(e: &XmlElement, key: &str) -> (r: String)
    ensures
        r@ == field_of(*e, key@),
{
    match attribute_in(&e.attributes, key) {
        Some(v) => v,
        None => String::new(),
    }
}

/// The server records of a server-list document: one per `server` element, in
/// document order, absent attributes as empty text.
pub fn server_records(elements: &Vec<XmlElement>) -> (r: ServersContainer)
    ensures
        r.server@.len() == server_elements(elements@, elements@.len() as int).len(),
        forall|k: int|
            0 <= k < r.server@.len() ==> record_matches(
                #[trigger] r.server@[k],
                server_elements(elements@, elements@.len() as int)[k],
            ),
{
    let mut out: Vec<ServerXml> = Vec::new();
    let mut i: usize = 0;
    while i < elements.len()
        invariant
            i <= elements@.len(),
            out@.len() == server_elements(elements@, i as int).len(),
            forall|k: int|
                0 <= k < out@.len() ==> record_matches(
                    #[trigger] out@[k],
                    server_elements(elements@, i as int)[k],
                ),
        decreases elements.len() - i,
    {
        let e = &elements[i];
        if same_text(e.name.as_str(), "server") {
            let rec = ServerXml {
                id: field(e, "id"),
                sponsor: field(e, "sponsor"),
                name: field(e, "name"),
                country: field(e, "country"),
                country_code: field(e, "cc"),
                host: field(e, "host"),
                url: field(e, "url"),
                lat: field(e, "lat"),
                lon: field(e, "lon"),
            };
            out.push(rec);
        }
        i = i + 1;
    }
    ServersContainer { server: out }
}

} // verus!
