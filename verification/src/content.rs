use vstd::prelude::*;
use crate::errors::StoreError;

verus! {

/// Role of a chat message.
#[derive(Clone, Copy, Debug, PartialEq, Eq, Structural)]
pub enum ChatRole {
    User,
    Assistant,
    System,
}

/// Polymorphic message content: plain text, one captioned image, or text
/// accompanied by any number of images.
#[derive(Clone, Debug, PartialEq, Eq)]
pub enum MessageBody {
    Text { text: String },
    Image { image: String, caption: String },
    Mixed { text: String, images: Vec<String> },
}

/// Mathematical model of `MessageBody`.
pub enum BodyView {
    Text { text: Seq<char> },
    Image { image: Seq<char>, caption: Seq<char> },
    Mixed { text: Seq<char>, images: Seq<Seq<char>> },
}

impl View for MessageBody {
    type V = BodyView;

    open spec fn view(&self) -> BodyView {
        match self {
            MessageBody::Text { text } => BodyView::Text { text: text@ },
            MessageBody::Image { image, caption } => BodyView::Image {
                image: image@,
                caption: caption@,
            },
            MessageBody::Mixed { text, images } => BodyView::Mixed {
                text: text@,
                images: images.deep_view(),
            },
        }
    }
}

/// The canonical stored shape of message content: a discriminant string,
/// content text, and an images array (empty when absent). This is what the
/// storage layer persists; `decode_content` recovers the polymorphic shape
/// from the discriminant.
#[derive(Clone, Debug, PartialEq, Eq)]
pub struct EncodedContent {
    pub kind: String,
    pub text: String,
    pub images: Vec<String>,
}

/// Mathematical model of `EncodedContent`.
pub struct ContentView {
    pub kind: Seq<char>,
    pub text: Seq<char>,
    pub images: Seq<Seq<char>>,
}

impl View for EncodedContent {
    type V = ContentView;

    open spec fn view(&self) -> ContentView {
        ContentView { kind: self.kind@, text: self.text@, images: self.images.deep_view() }
    }
}

/// Canonical encoding of a message body: the discriminant names the
/// variant, the text field carries the text (for an image, its caption),
/// and the images array carries the images in order.
pub open spec fn encode_spec(b: BodyView) -> ContentView {
    match b {
        BodyView::Text { text } => ContentView { kind: "text"@, text, images: Seq::empty() },
        BodyView::Image { image, caption } => ContentView {
            kind: "image"@,
            text: caption,
            images: seq![image],
        },
        BodyView::Mixed { text, images } => ContentView { kind: "mixed"@, text, images },
    }
}

/// Decoding of a stored content record; `None` when the discriminant is
/// unknown or the fields do not fit it.
pub open spec fn decode_spec(c: ContentView) -> Option<BodyView> {
    if c.kind == "text"@ {
        if c.images.len() == 0 {
            Some(BodyView::Text { text: c.text })
        } else {
            None
        }
    } else if c.kind == "image"@ {
        if c.images.len() == 1 {
            Some(BodyView::Image { image: c.images[0], caption: c.text })
        } else {
            None
        }
    } else if c.kind == "mixed"@ {
        Some(BodyView::Mixed { text: c.text, images: c.images })
    } else {
        None
    }
}

/// Encoding then decoding a message body yields the body unchanged: the
/// role-tagged canonical shape loses no text and keeps every image in its
/// original position.
pub proof fn lemma_content_round_trip(b: BodyView)
    ensures
        decode_spec(encode_spec(b)) == Some(b),
{
    reveal_strlit("text");
    reveal_strlit("image");
    reveal_strlit("mixed");
    match b {
        BodyView::Text { text } => {
            assert(decode_spec(encode_spec(b)) == Some(b));
        },
        BodyView::Image { image, caption } => {
            let c = encode_spec(b);
            assert("image"@.len() != "text"@.len());
            assert(decode_spec(encode_spec(b)) == Some(b));
        },
        BodyView::Mixed { text, images } => {
            let c = encode_spec(b);
            assert("mixed"@.len() != "text"@.len());
            assert("mixed"@[0] != "image"@[0]);
            assert(decode_spec(encode_spec(b)) == Some(b));
        },
    }
}

/// Copies a vector of strings; used to materialize content without moving
/// it out of the store.
pub fn copy_strings(v: &Vec<String>) -> (r: Vec<String>)
    ensures
        r.deep_view() == v.deep_view(),
{
    let mut r: Vec<String> = Vec::new();
    let mut i: usize = 0;
    while i < v.len()
        invariant
            i <= v@.len(),
            r@.len() == i,
            forall|j: int| 0 <= j < i ==> r@[j]@ == v@[j]@,
        decreases v@.len() - i,
    {
        r.push(v[i].clone());
        i = i + 1;
    }
    proof {
        assert(r.deep_view() =~= v.deep_view());
    }
    r
}

/// Encodes a message body into its canonical stored shape.
pub fn encode_body(b: &MessageBody) -> (r: EncodedContent)
    ensures
        r@ == encode_spec(b@),
{
    match b {
        MessageBody::Text { text } => {
            let r = EncodedContent {
                kind: String::from_str("text"),
                text: text.clone(),
                images: Vec::new(),
            };
            proof {
                assert(r@.images =~= encode_spec(b@).images);
                assert(r@ =~= encode_spec(b@));
            }
            r
        },
        MessageBody::Image { image, caption } => {
            let mut images: Vec<String> = Vec::new();
            images.push(image.clone());
            let r = EncodedContent { kind: String::from_str("image"), text: caption.clone(), images };
            proof {
                assert(r@.images =~= encode_spec(b@).images);
                assert(r@ =~= encode_spec(b@));
            }
            r
        },
        MessageBody::Mixed { text, images } => {
            let r = EncodedContent {
                kind: String::from_str("mixed"),
                text: text.clone(),
                images: copy_strings(images),
            };
            proof {
                assert(r@ =~= encode_spec(b@));
            }
            r
        },
    }
}

/// Decodes a stored content record into its polymorphic shape, going by the
/// discriminant it carries; fails with `MalformedContent` when the record
/// fits no known variant.
pub fn decode_content(c: &EncodedContent) -> (r: Result<MessageBody, StoreError>)
    ensures
        r is Ok <==> decode_spec(c@) is Some,
        r matches Ok(b) ==> decode_spec(c@) == Some(b@),
        r matches Err(e) ==> e == StoreError::MalformedContent,
{
    if c.kind == String::from_str("text") {
        if c.images.len() == 0 {
            proof {
                assert(decode_spec(c@) == Some(BodyView::Text { text: c.text@ }));
            }
            Ok(MessageBody::Text { text: c.text.clone() })
        } else {
            Err(StoreError::MalformedContent)
        }
    } else if c.kind == String::from_str("image") {
        if c.images.len() == 1 {
            let b = MessageBody::Image { image: c.images[0].clone(), caption: c.text.clone() };
            proof {
                assert(decode_spec(c@) == Some(b@));
            }
            Ok(b)
        } else {
            Err(StoreError::MalformedContent)
        }
    } else if c.kind == String::from_str("mixed") {
        let b = MessageBody::Mixed { text: c.text.clone(), images: copy_strings(&c.images) };
        proof {
            assert(b@ matches BodyView::Mixed { text, images } && images =~= c@.images);
            assert(decode_spec(c@) == Some(b@));
        }
        Ok(b)
    } else {
        Err(StoreError::MalformedContent)
    }
}

} // verus!
