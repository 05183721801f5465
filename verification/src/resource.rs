//! Resource metadata and resource errors.

use vstd::prelude::*;

use crate::content::{Annotations, SpecAnnotations};
use crate::json::{view_obj, JsonValue, SpecJson};

verus! {

/// The contents of a resource: UTF-8 text, or binary data encoded in
/// base64.
#[derive(Debug)]
pub enum ResourceContents {
    TextResourceContents { uri: String, mime_type: Option<String>, text: String },
    BlobResourceContents { uri: String, mime_type: Option<String>, blob: String },
}

/// Model of resource contents.
pub enum SpecResourceContents {
    Text { uri: Seq<char>, mime_type: Option<Seq<char>>, text: Seq<char> },
    Blob { uri: Seq<char>, mime_type: Option<Seq<char>>, blob: Seq<char> },
}

impl View for ResourceContents {
    type V = SpecResourceContents;

    open spec fn view(&self) -> SpecResourceContents {
        match self {
            ResourceContents::TextResourceContents { uri, mime_type, text } => {
                SpecResourceContents::Text {
                    uri: uri@,
                    mime_type: match mime_type {
                        Some(m) => Some(m@),
                        None => None,
                    },
                    text: text@,
                }
            },
            ResourceContents::BlobResourceContents { uri, mime_type, blob } => {
                SpecResourceContents::Blob {
                    uri: uri@,
                    mime_type: match mime_type {
                        Some(m) => Some(m@),
                        None => None,
                    },
                    blob: blob@,
                }
            },
        }
    }
}

/// The optional `mimeType` member of a resource encoding.
pub open spec fn spec_mime_tail(m: Option<Seq<char>>) -> Seq<(Seq<char>, SpecJson)> {
    match m {
        Some(m) => seq![("mimeType"@, SpecJson::Str(m))],
        None => Seq::empty(),
    }
}

/// How resource contents appear on the wire.
pub open spec fn spec_encode_resource_contents(c: SpecResourceContents) -> SpecJson {
    match c {
        SpecResourceContents::Text { uri, mime_type, text } => SpecJson::Obj(
            seq![("uri"@, SpecJson::Str(uri))] + spec_mime_tail(mime_type) + seq![
                ("text"@, SpecJson::Str(text)),
            ],
        ),
        SpecResourceContents::Blob { uri, mime_type, blob } => SpecJson::Obj(
            seq![("uri"@, SpecJson::Str(uri))] + spec_mime_tail(mime_type) + seq![
                ("blob"@, SpecJson::Str(blob)),
            ],
        ),
    }
}

impl ResourceContents {
    /// An identical copy of these contents.
    pub fn dup(&self) -> (r: Self)
        ensures
            r@ == self@,
    {
        match self {
            ResourceContents::TextResourceContents { uri, mime_type, text } => {
                ResourceContents::TextResourceContents {
                    uri: uri.clone(),
                    mime_type: match mime_type {
                        Some(m) => Some(m.clone()),
                        None => None,
                    },
                    text: text.clone(),
                }
            },
            ResourceContents::BlobResourceContents { uri, mime_type, blob } => {
                ResourceContents::BlobResourceContents {
                    uri: uri.clone(),
                    mime_type: match mime_type {
                        Some(m) => Some(m.clone()),
                        None => None,
                    },
                    blob: blob.clone(),
                }
            },
        }
    }

    /// These contents as they appear on the wire.
    pub fn to_json(self) -> (r: JsonValue)
        ensures
            r@ == spec_encode_resource_contents(self@),
    {
        let ghost gc = self@;
        let mut pairs: Vec<(String, JsonValue)> = Vec::new();
        match self {
            ResourceContents::TextResourceContents { uri, mime_type, text } => {
                pairs.push(("uri".to_owned(), JsonValue::Str(uri)));
                if let Some(m) = mime_type {
                    pairs.push(("mimeType".to_owned(), JsonValue::Str(m)));
                }
                pairs.push(("text".to_owned(), JsonValue::Str(text)));
            },
            ResourceContents::BlobResourceContents { uri, mime_type, blob } => {
                pairs.push(("uri".to_owned(), JsonValue::Str(uri)));
                if let Some(m) = mime_type {
                    pairs.push(("mimeType".to_owned(), JsonValue::Str(m)));
                }
                pairs.push(("blob".to_owned(), JsonValue::Str(blob)));
            },
        }
        proof {
            reveal_with_fuel(view_obj, 5);
            assert(view_obj(pairs@, pairs@.len() as int) =~= spec_encode_resource_contents(
                gc,
            )->Obj_0);
        }
        JsonValue::Obj(pairs)
    }
}

/// An error raised while listing or reading resources.
#[derive(Debug)]
pub enum ResourceError {
    /// The resource could not be produced.
    ExecutionError(String),
    /// No resource with the requested URI exists.
    NotFound(String),
    /// The URI could not be parsed; carries the URI and a description.
    InvalidUri(String, String),
}

/// Model of a resource error.
pub enum SpecResourceError {
    ExecutionError(Seq<char>),
    NotFound(Seq<char>),
    InvalidUri(Seq<char>, Seq<char>),
}

impl View for ResourceError {
    type V = SpecResourceError;

    open spec fn view(&self) -> SpecResourceError {
        match self {
            ResourceError::ExecutionError(s) => SpecResourceError::ExecutionError(s@),
            ResourceError::NotFound(s) => SpecResourceError::NotFound(s@),
            ResourceError::InvalidUri(u, e) => SpecResourceError::InvalidUri(u@, e@),
        }
    }
}

/// The one-sentence text of a resource error.
pub open spec fn spec_resource_error_text(e: SpecResourceError) -> Seq<char> {
    match e {
        SpecResourceError::ExecutionError(s) => "Execution failed: "@ + s,
        SpecResourceError::NotFound(s) => "Resource not found: "@ + s,
        SpecResourceError::InvalidUri(u, d) => "Invalid URI: "@ + u + ". Error: "@ + d,
    }
}

impl ResourceError {
    /// The one-sentence text of this error.
    pub fn text(&self) -> (r: String)
        ensures
            r@ == spec_resource_error_text(self@),
    {
        match self {
            ResourceError::ExecutionError(s) => {
                let mut t: String = "Execution failed: ".to_owned();
                t.append(s.as_str());
                t
            },
            ResourceError::NotFound(s) => {
                let mut t: String = "Resource not found: ".to_owned();
                t.append(s.as_str());
                t
            },
            ResourceError::InvalidUri(u, d) => {
                let mut t: String = "Invalid URI: ".to_owned();
                t.append(u.as_str());
                t.append(". Error: ");
                t.append(d.as_str());
                t
            },
        }
    }
}

/// Whether a URI parses under the URL standard. Named for
/// url::Url::parse: the outcome depends on the text alone.
pub uninterp spec fn url_parse_ok(uri: Seq<char>) -> bool;

/// The last segment of a parsed URI's path, where the URI parses and its
/// path has segments. Named for url::Url::path_segments: the outcome
/// depends on the text alone.
pub uninterp spec fn url_path_name(uri: Seq<char>) -> Option<Seq<char>>;

/// Model of an optional string.
pub open spec fn spec_opt_text(o: Option<String>) -> Option<Seq<char>> {
    match o {
        Some(s) => Some(s@),
        None => None,
    }
}

/// Relies on url::Url::parse to accept exactly the URIs the URL standard
/// accepts, and on Url::path_segments with Iterator::next_back for the last
/// segment of the parsed path. On a URI that does not parse, the error's
/// text is returned with nothing claimed about it.
#[verifier::external_body]
fn parse_uri_name(uri: &str) -> (r: Result<Option<String>, String>)
    ensures
        (r is Ok) == url_parse_ok(uri@),
        r matches Ok(name) ==> spec_opt_text(name) == url_path_name(uri@),
{
    match url::Url::parse(uri) {
        Ok(u) => Ok(u.path_segments().and_then(|mut s| s.next_back()).map(|s| s.to_string())),
        Err(e) => Err(e.to_string()),
    }
}

/// A resource the server can describe in list calls: a URI plus metadata.
#[derive(Debug)]
pub struct Resource {
    /// The URI of this resource.
    pub uri: String,
    /// A human-readable name for this resource.
    pub name: String,
    /// What this resource represents.
    pub description: Option<String>,
    /// The MIME type, if known.
    pub mime_type: Option<String>,
    /// Optional annotations for the client.
    pub annotations: Option<Annotations>,
    /// The size of the raw contents in bytes, if known.
    pub size: Option<usize>,
}

/// Model of a resource description.
pub struct SpecResource {
    pub uri: Seq<char>,
    pub name: Seq<char>,
    pub description: Option<Seq<char>>,
    pub mime_type: Option<Seq<char>>,
    pub annotations: Option<SpecAnnotations>,
    pub size: Option<int>,
}

impl View for Resource {
    type V = SpecResource;

    open spec fn view(&self) -> SpecResource {
        SpecResource {
            uri: self.uri@,
            name: self.name@,
            description: spec_opt_text_view(self.description),
            mime_type: spec_opt_text_view(self.mime_type),
            annotations: match self.annotations {
                Some(ref a) => Some(a@),
                None => None,
            },
            size: match self.size {
                Some(n) => Some(n as int),
                None => None,
            },
        }
    }
}

/// Model of an optional string field.
pub open spec fn spec_opt_text_view(o: Option<String>) -> Option<Seq<char>> {
    match o {
        Some(s) => Some(s@),
        None => None,
    }
}

impl Resource {
    /// Describe a resource by its URI.
    ///
    /// The URI must parse under the URL standard, else the result is the
    /// `InvalidUri` error carrying it. A name is taken as given; without
    /// one, the last segment of the URI's path is used, and a parsed URI
    /// without such a segment is rejected as `InvalidUri` too.
    pub fn new(
        uri: String,
        mime_type: Option<String>,
        name: Option<String>,
        annotations: Option<Annotations>,
    ) -> (r: Result<Self, ResourceError>)
        ensures
            match r {
                Ok(res) => {
                    &&& url_parse_ok(uri@)
                    &&& res.uri@ == uri@
                    &&& res@.description is None
                    &&& res@.mime_type == spec_opt_text(mime_type)
                    &&& res@.annotations == crate::content::spec_opt_annotations(annotations)
                    &&& res@.size is None
                    &&& match name {
                        Some(n) => res.name@ == n@,
                        None => Some(res.name@) == url_path_name(uri@),
                    }
                },
                Err(e) => {
                    &&& e matches ResourceError::InvalidUri(u, _) && u@ == uri@
                    &&& !url_parse_ok(uri@) || (name is None && url_path_name(uri@) is None)
                },
            },
    {
        let parsed = parse_uri_name(uri.as_str());
        match parsed {
            Err(e) => Err(ResourceError::InvalidUri(uri, e)),
            Ok(segment) => {
                let name: String = match name {
                    Some(n) => n,
                    None => {
                        match segment {
                            Some(s) => s,
                            None => {
                                return Err(
                                    ResourceError::InvalidUri(
                                        uri,
                                        "Could not extract name from URI path".to_owned(),
                                    ),
                                );
                            },
                        }
                    },
                };
                Ok(
                    Resource {
                        uri,
                        name,
                        description: None,
                        mime_type,
                        annotations,
                        size: None,
                    },
                )
            },
        }
    }
}


/// The optional `description`, `annotations` and `size` members of a
/// resource encoding.
pub open spec fn spec_resource_tail(r: SpecResource) -> Seq<(Seq<char>, SpecJson)> {
    (match r.annotations {
        Some(a) => seq![("annotations"@, crate::content::spec_encode_annotations(a))],
        None => Seq::empty(),
    }) + (match r.size {
        Some(n) => seq![("size"@, SpecJson::Num(n))],
        None => Seq::empty(),
    })
}

/// How a resource description appears in a `resources/list` result.
pub open spec fn spec_encode_resource(r: SpecResource) -> SpecJson {
    SpecJson::Obj(
        seq![("uri"@, SpecJson::Str(r.uri)), ("name"@, SpecJson::Str(r.name))] + (match r
            .description {
            Some(d) => seq![("description"@, SpecJson::Str(d))],
            None => Seq::empty(),
        }) + spec_mime_tail(r.mime_type) + spec_resource_tail(r),
    )
}

impl Resource {
    /// This resource as it appears in a `resources/list` result.
    pub fn to_json(self) -> (r: JsonValue)
        requires
            self@.size matches Some(n) ==> n <= i64::MAX,
        ensures
            r@ == spec_encode_resource(self@),
    {
        let ghost gr = self@;
        let mut pairs: Vec<(String, JsonValue)> = Vec::new();
        pairs.push(("uri".to_owned(), JsonValue::Str(self.uri)));
        pairs.push(("name".to_owned(), JsonValue::Str(self.name)));
        if let Some(d) = self.description {
            pairs.push(("description".to_owned(), JsonValue::Str(d)));
        }
        if let Some(m) = self.mime_type {
            pairs.push(("mimeType".to_owned(), JsonValue::Str(m)));
        }
        if let Some(a) = self.annotations {
            pairs.push(("annotations".to_owned(), a.to_json()));
        }
        if let Some(n) = self.size {
            pairs.push(("size".to_owned(), JsonValue::Num(n as i64)));
        }
        proof {
            reveal_with_fuel(view_obj, 8);
            assert(view_obj(pairs@, pairs@.len() as int) =~= spec_encode_resource(gr)->Obj_0);
        }
        JsonValue::Obj(pairs)
    }
}

} // verus!
