//! Content values carried in tool results.

use vstd::prelude::*;

use crate::json::{view_arr, view_obj, JsonValue, SpecJson};
use crate::resource::{spec_encode_resource_contents, ResourceContents, SpecResourceContents};

verus! {

/// Who content is intended for.
#[derive(Debug, Clone, Copy, PartialEq, Eq, Structural)]
pub enum Role {
    User,
    Assistant,
}

/// How a role appears on the wire.
pub open spec fn spec_encode_content_role(r: Role) -> Seq<char> {
    match r {
        Role::User => "user"@,
        Role::Assistant => "assistant"@,
    }
}

/// Optional annotations telling the client how content is used or shown.
#[derive(Debug)]
pub struct Annotations {
    /// The intended audiences of the content.
    pub audience: Option<Vec<Role>>,
    /// How important the content is, as a JSON number between 0 (optional)
    /// and 1 (required); carried through unread.
    pub priority: Option<JsonValue>,
}

/// Model of annotations.
pub struct SpecAnnotations {
    pub audience: Option<Seq<Role>>,
    pub priority: Option<SpecJson>,
}

impl View for Annotations {
    type V = SpecAnnotations;

    open spec fn view(&self) -> SpecAnnotations {
        SpecAnnotations {
            audience: match self.audience {
                Some(ref roles) => Some(roles@),
                None => None,
            },
            priority: match self.priority {
                Some(ref p) => Some(p@),
                None => None,
            },
        }
    }
}

/// How annotations appear on the wire.
pub open spec fn spec_encode_annotations(a: SpecAnnotations) -> SpecJson {
    SpecJson::Obj(
        (match a.audience {
            Some(roles) => seq![
                (
                    "audience"@,
                    SpecJson::Arr(
                        Seq::new(
                            roles.len(),
                            |i: int| SpecJson::Str(spec_encode_content_role(roles[i])),
                        ),
                    ),
                ),
            ],
            None => Seq::empty(),
        }) + (match a.priority {
            Some(p) => seq![("priority"@, p)],
            None => Seq::empty(),
        }),
    )
}

impl Annotations {
    /// These annotations as they appear on the wire.
    pub fn to_json(self) -> (r: JsonValue)
        ensures
            r@ == spec_encode_annotations(self@),
    {
        let ghost ga = self@;
        let mut pairs: Vec<(String, JsonValue)> = Vec::new();
        if let Some(roles) = self.audience {
            let ghost groles = roles@;
            let mut elems: Vec<JsonValue> = Vec::new();
            let n = roles.len();
            let mut i: usize = 0;
            while i < n
                invariant
                    n == roles@.len(),
                    groles == roles@,
                    groles.len() == n,
                    i == elems@.len(),
                    0 <= i <= n,
                    forall|k: int|
                        0 <= k < i ==> #[trigger] elems@[k]@ == SpecJson::Str(
                            spec_encode_content_role(groles[k]),
                        ),
                decreases n - i,
            {
                let text: String = match roles[i] {
                    Role::User => "user".to_owned(),
                    Role::Assistant => "assistant".to_owned(),
                };
                elems.push(JsonValue::Str(text));
                i = i + 1;
            }
            proof {
                crate::json::lemma_view_arr_len(elems@, elems@.len() as int);
                assert forall|k: int| 0 <= k < n implies #[trigger] view_arr(
                    elems@,
                    elems@.len() as int,
                )[k] == SpecJson::Str(spec_encode_content_role(groles[k])) by {
                    crate::json::lemma_view_arr_index(elems@, elems@.len() as int, k);
                    assert(elems@[k]@ == SpecJson::Str(spec_encode_content_role(groles[k])));
                }
                assert(view_arr(elems@, elems@.len() as int) =~= Seq::new(
                    groles.len(),
                    |i: int| SpecJson::Str(spec_encode_content_role(groles[i])),
                ));
            }
            pairs.push(("audience".to_owned(), JsonValue::Arr(elems)));
        }
        if let Some(p) = self.priority {
            pairs.push(("priority".to_owned(), p));
        }
        proof {
            reveal_with_fuel(view_obj, 4);
            assert(view_obj(pairs@, pairs@.len() as int) =~= spec_encode_annotations(ga)->Obj_0);
        }
        JsonValue::Obj(pairs)
    }
}

/// Text content.
#[derive(Debug)]
pub struct TextContent {
    /// The text of the message.
    pub text: String,
    pub annotations: Option<Annotations>,
}

/// Image content; the data is base64.
#[derive(Debug)]
pub struct ImageContent {
    /// The base64 encoded image data.
    pub data: String,
    /// The MIME type of the image.
    pub mime_type: String,
    pub annotations: Option<Annotations>,
}

/// Audio content; the data is base64.
#[derive(Debug)]
pub struct AudioContent {
    /// The base64 encoded audio data.
    pub data: String,
    /// The MIME type of the audio.
    pub mime_type: String,
    pub annotations: Option<Annotations>,
}

/// Resource contents embedded into a tool result.
#[derive(Debug)]
pub struct EmbeddedResource {
    pub resource: ResourceContents,
    pub annotations: Option<Annotations>,
}

/// One piece of content in a tool result.
#[derive(Debug)]
pub enum Content {
    Text(TextContent),
    Image(ImageContent),
    Resource(EmbeddedResource),
    Audio(AudioContent),
}

/// Model of a piece of content.
pub enum SpecContent {
    Text { text: Seq<char>, annotations: Option<SpecAnnotations> },
    Image { data: Seq<char>, mime_type: Seq<char>, annotations: Option<SpecAnnotations> },
    Resource { resource: SpecResourceContents, annotations: Option<SpecAnnotations> },
    Audio { data: Seq<char>, mime_type: Seq<char>, annotations: Option<SpecAnnotations> },
}

/// Model of optional annotations.
pub open spec fn spec_opt_annotations(a: Option<Annotations>) -> Option<SpecAnnotations> {
    match a {
        Some(a) => Some(a@),
        None => None,
    }
}

impl View for Content {
    type V = SpecContent;

    open spec fn view(&self) -> SpecContent {
        match self {
            Content::Text(c) => SpecContent::Text {
                text: c.text@,
                annotations: spec_opt_annotations(c.annotations),
            },
            Content::Image(c) => SpecContent::Image {
                data: c.data@,
                mime_type: c.mime_type@,
                annotations: spec_opt_annotations(c.annotations),
            },
            Content::Resource(c) => SpecContent::Resource {
                resource: c.resource@,
                annotations: spec_opt_annotations(c.annotations),
            },
            Content::Audio(c) => SpecContent::Audio {
                data: c.data@,
                mime_type: c.mime_type@,
                annotations: spec_opt_annotations(c.annotations),
            },
        }
    }
}

impl SpecContent {
    /// The annotations of a content model value.
    pub open spec fn spec_annotations(self) -> Option<SpecAnnotations> {
        match self {
            SpecContent::Text { annotations, .. } => annotations,
            SpecContent::Image { annotations, .. } => annotations,
            SpecContent::Resource { annotations, .. } => annotations,
            SpecContent::Audio { annotations, .. } => annotations,
        }
    }

    /// The audience annotation of a content model value, if set.
    pub open spec fn spec_audience(self) -> Option<Seq<Role>> {
        match self.spec_annotations() {
            Some(a) => a.audience,
            None => None,
        }
    }
}

/// The optional trailing `annotations` member of a content encoding.
pub open spec fn spec_annotations_tail(a: Option<SpecAnnotations>) -> Seq<(Seq<char>, SpecJson)> {
    match a {
        Some(a) => seq![("annotations"@, spec_encode_annotations(a))],
        None => Seq::empty(),
    }
}

/// How content appears on the wire, tagged by `type`.
pub open spec fn spec_encode_content(c: SpecContent) -> SpecJson {
    match c {
        SpecContent::Text { text, annotations } => SpecJson::Obj(
            seq![("type"@, SpecJson::Str("text"@)), ("text"@, SpecJson::Str(text))]
                + spec_annotations_tail(annotations),
        ),
        SpecContent::Image { data, mime_type, annotations } => SpecJson::Obj(
            seq![
                ("type"@, SpecJson::Str("image"@)),
                ("data"@, SpecJson::Str(data)),
                ("mimeType"@, SpecJson::Str(mime_type)),
            ] + spec_annotations_tail(annotations),
        ),
        SpecContent::Resource { resource, annotations } => SpecJson::Obj(
            seq![
                ("type"@, SpecJson::Str("resource"@)),
                ("resource"@, spec_encode_resource_contents(resource)),
            ] + spec_annotations_tail(annotations),
        ),
        SpecContent::Audio { data, mime_type, annotations } => SpecJson::Obj(
            seq![
                ("type"@, SpecJson::Str("audio"@)),
                ("data"@, SpecJson::Str(data)),
                ("mimeType"@, SpecJson::Str(mime_type)),
            ] + spec_annotations_tail(annotations),
        ),
    }
}

impl Content {
    /// Text content without annotations.
    pub fn text(text: String) -> (r: Self)
        ensures
            r@ == (SpecContent::Text { text: text@, annotations: None }),
    {
        Content::Text(TextContent { text, annotations: None })
    }

    /// Image content without annotations.
    pub fn image(data: String, mime_type: String) -> (r: Self)
        ensures
            r@ == (SpecContent::Image { data: data@, mime_type: mime_type@, annotations: None }),
    {
        Content::Image(ImageContent { data, mime_type, annotations: None })
    }

    /// Embedded resource content without annotations.
    pub fn resource(resource: ResourceContents) -> (r: Self)
        ensures
            r@ == (SpecContent::Resource { resource: resource@, annotations: None }),
    {
        Content::Resource(EmbeddedResource { resource, annotations: None })
    }

    /// An embedded plain-text resource at `uri`.
    pub fn embedded_text(uri: String, content: String) -> (r: Self)
        ensures
            r@ == (SpecContent::Resource {
                resource: SpecResourceContents::Text {
                    uri: uri@,
                    mime_type: Some("text/plain"@),
                    text: content@,
                },
                annotations: None,
            }),
    {
        Content::Resource(
            EmbeddedResource {
                resource: ResourceContents::TextResourceContents {
                    uri,
                    mime_type: Some("text/plain".to_owned()),
                    text: content,
                },
                annotations: None,
            },
        )
    }

    /// Audio content without annotations.
    pub fn audio(data: String, mime_type: String) -> (r: Self)
        ensures
            r@ == (SpecContent::Audio { data: data@, mime_type: mime_type@, annotations: None }),
    {
        Content::Audio(AudioContent { data, mime_type, annotations: None })
    }

    /// This content with its audience set to `audience`, keeping any other
    /// annotations.
    pub fn with_audience(self, audience: Vec<Role>) -> (r: Self)
        ensures
            r@.spec_audience() == Some(audience@),
            r@.spec_annotations() matches Some(a) && a.priority == (match self@.spec_annotations() {
                Some(b) => b.priority,
                None => None::<SpecJson>,
            }),
            match (self@, r@) {
                (SpecContent::Text { text: t1, .. }, SpecContent::Text { text: t2, .. }) => t1
                    == t2,
                (
                    SpecContent::Image { data: d1, mime_type: m1, .. },
                    SpecContent::Image { data: d2, mime_type: m2, .. },
                ) => d1 == d2 && m1 == m2,
                (
                    SpecContent::Resource { resource: r1, .. },
                    SpecContent::Resource { resource: r2, .. },
                ) => r1 == r2,
                (
                    SpecContent::Audio { data: d1, mime_type: m1, .. },
                    SpecContent::Audio { data: d2, mime_type: m2, .. },
                ) => d1 == d2 && m1 == m2,
                _ => false,
            },
    {
        match self {
            Content::Text(c) => Content::Text(
                TextContent {
                    text: c.text,
                    annotations: Some(set_audience(c.annotations, audience)),
                },
            ),
            Content::Image(c) => Content::Image(
                ImageContent {
                    data: c.data,
                    mime_type: c.mime_type,
                    annotations: Some(set_audience(c.annotations, audience)),
                },
            ),
            Content::Resource(c) => Content::Resource(
                EmbeddedResource {
                    resource: c.resource,
                    annotations: Some(set_audience(c.annotations, audience)),
                },
            ),
            Content::Audio(c) => Content::Audio(
                AudioContent {
                    data: c.data,
                    mime_type: c.mime_type,
                    annotations: Some(set_audience(c.annotations, audience)),
                },
            ),
        }
    }

    /// The audience this content is annotated with, if any.
    pub fn audience(&self) -> (r: Option<&Vec<Role>>)
        ensures
            match r {
                Some(roles) => self@.spec_audience() == Some(roles@),
                None => self@.spec_audience() is None,
            },
    {
        let annotations = match self {
            Content::Text(c) => &c.annotations,
            Content::Image(c) => &c.annotations,
            Content::Resource(c) => &c.annotations,
            Content::Audio(c) => &c.annotations,
        };
        match annotations {
            Some(a) => match &a.audience {
                Some(roles) => Some(roles),
                None => None,
            },
            None => None,
        }
    }

    /// A copy of this content without any annotations.
    pub fn unannotated(&self) -> (r: Self)
        ensures
            r@.spec_annotations() is None,
            match (self@, r@) {
                (SpecContent::Text { text: t1, .. }, SpecContent::Text { text: t2, .. }) => t1
                    == t2,
                (
                    SpecContent::Image { data: d1, mime_type: m1, .. },
                    SpecContent::Image { data: d2, mime_type: m2, .. },
                ) => d1 == d2 && m1 == m2,
                (
                    SpecContent::Resource { resource: r1, .. },
                    SpecContent::Resource { resource: r2, .. },
                ) => r1 == r2,
                (
                    SpecContent::Audio { data: d1, mime_type: m1, .. },
                    SpecContent::Audio { data: d2, mime_type: m2, .. },
                ) => d1 == d2 && m1 == m2,
                _ => false,
            },
    {
        match self {
            Content::Text(c) => Content::text(c.text.clone()),
            Content::Image(c) => Content::image(c.data.clone(), c.mime_type.clone()),
            Content::Resource(c) => Content::resource(c.resource.dup()),
            Content::Audio(c) => Content::audio(c.data.clone(), c.mime_type.clone()),
        }
    }

    /// This content as it appears on the wire.
    pub fn to_json(self) -> (r: JsonValue)
        ensures
            r@ == spec_encode_content(self@),
    {
        let ghost gc = self@;
        let mut pairs: Vec<(String, JsonValue)> = Vec::new();
        let annotations: Option<Annotations> = match self {
            Content::Text(c) => {
                pairs.push(("type".to_owned(), JsonValue::Str("text".to_owned())));
                pairs.push(("text".to_owned(), JsonValue::Str(c.text)));
                c.annotations
            },
            Content::Image(c) => {
                pairs.push(("type".to_owned(), JsonValue::Str("image".to_owned())));
                pairs.push(("data".to_owned(), JsonValue::Str(c.data)));
                pairs.push(("mimeType".to_owned(), JsonValue::Str(c.mime_type)));
                c.annotations
            },
            Content::Resource(c) => {
                pairs.push(("type".to_owned(), JsonValue::Str("resource".to_owned())));
                pairs.push(("resource".to_owned(), c.resource.to_json()));
                c.annotations
            },
            Content::Audio(c) => {
                pairs.push(("type".to_owned(), JsonValue::Str("audio".to_owned())));
                pairs.push(("data".to_owned(), JsonValue::Str(c.data)));
                pairs.push(("mimeType".to_owned(), JsonValue::Str(c.mime_type)));
                c.annotations
            },
        };
        if let Some(a) = annotations {
            pairs.push(("annotations".to_owned(), a.to_json()));
        }
        proof {
            reveal_with_fuel(view_obj, 6);
            assert(view_obj(pairs@, pairs@.len() as int) =~= spec_encode_content(gc)->Obj_0);
        }
        JsonValue::Obj(pairs)
    }
}

/// Set the audience on a possibly absent annotation record, keeping an
/// existing priority.
fn set_audience(annotations: Option<Annotations>, audience: Vec<Role>) -> (r: Annotations)
    ensures
        r@.audience == Some(audience@),
        r@.priority == (match spec_opt_annotations(annotations) {
            Some(a) => a.priority,
            None => None::<SpecJson>,
        }),
{
    match annotations {
        Some(a) => Annotations { audience: Some(audience), priority: a.priority },
        None => Annotations { audience: Some(audience), priority: None },
    }
}

} // verus!
