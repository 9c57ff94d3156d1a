//! Media types: which declared content types an upload may carry, and the
//! file extension that each accepted one is stored under.

use vstd::prelude::*;

verus! {

/// An image format that the service stores.
#[derive(Clone, Copy, Debug, PartialEq, Eq, Structural)]
pub enum ImageKind {
    Jpeg,
    Png,
    Gif,
}

/// What a declared media subtype amounts to: one of the stored formats, or
/// anything else.
#[derive(Clone, Copy, Debug, PartialEq, Eq, Structural)]
pub enum MediaClass {
    Accepted(ImageKind),
    Unsupported,
}

/// The subtype under which each format is declared.
pub open spec fn subtype_text(kind: ImageKind) -> Seq<char> {
    match kind {
        ImageKind::Jpeg => seq!['j', 'p', 'e', 'g'],
        ImageKind::Png => seq!['p', 'n', 'g'],
        ImageKind::Gif => seq!['g', 'i', 'f'],
    }
}

/// The file extension of each format, without the dot.
pub open spec fn extension_text(kind: ImageKind) -> Seq<char> {
    match kind {
        ImageKind::Jpeg => seq!['j', 'p', 'g'],
        ImageKind::Png => seq!['p', 'n', 'g'],
        ImageKind::Gif => seq!['g', 'i', 'f'],
    }
}

/// The class of a media subtype: accepted exactly when it is the subtype of
/// one of the three formats, letter for letter.
pub open spec fn subtype_class(subtype: Seq<char>) -> MediaClass {
    if subtype == subtype_text(ImageKind::Jpeg) {
        MediaClass::Accepted(ImageKind::Jpeg)
    } else if subtype == subtype_text(ImageKind::Png) {
        MediaClass::Accepted(ImageKind::Png)
    } else if subtype == subtype_text(ImageKind::Gif) {
        MediaClass::Accepted(ImageKind::Gif)
    } else {
        MediaClass::Unsupported
    }
}

/// Whether two texts are the same, character for character.
fn same_text(left: &str, right: &str) -> (r: bool)
    ensures
        r == (left@ == right@),
{
    let length = left.unicode_len();
    if length != right.unicode_len() {
        return false;
    }
    let mut i: usize = 0;
    while i < length
        invariant
            i <= length,
            length == left@.len(),
            length == right@.len(),
            forall|j: int| 0 <= j < i ==> left@[j] == right@[j],
        decreases length - i,
    {
        if left.get_char(i) != right.get_char(i) {
            return false;
        }
        i = i + 1;
    }
    assert(left@ =~= right@);
    true
}

/// Classifies a media subtype such as `jpeg` or `plain`.
pub fn classify_subtype(subtype: &str) -> (r: MediaClass)
    ensures
        r == subtype_class(subtype@),
{
    proof {
        reveal_strlit("jpeg");
        reveal_strlit("png");
        reveal_strlit("gif");
    }
    assert("jpeg"@ =~= subtype_text(ImageKind::Jpeg));
    assert("png"@ =~= subtype_text(ImageKind::Png));
    assert("gif"@ =~= subtype_text(ImageKind::Gif));
    if same_text(subtype, "jpeg") {
        MediaClass::Accepted(ImageKind::Jpeg)
    } else if same_text(subtype, "png") {
        MediaClass::Accepted(ImageKind::Png)
    } else if same_text(subtype, "gif") {
        MediaClass::Accepted(ImageKind::Gif)
    } else {
        MediaClass::Unsupported
    }
}

/// The subtype that the `mime` crate reads out of a media type written as
/// text, such as `image/jpeg; q=0.8`; `None` where it rejects the text.
pub uninterp spec fn mime_subtype(content_type: Seq<char>) -> Option<Seq<char>>;

/// The class of a field by its declared content type. A field that declares
/// none, or one that does not parse, is unsupported.
pub open spec fn declared_class(content_type: Option<Seq<char>>) -> MediaClass {
    match content_type {
        Some(text) => match mime_subtype(text) {
            Some(subtype) => subtype_class(subtype),
            None => MediaClass::Unsupported,
        },
        None => MediaClass::Unsupported,
    }
}

/// Parses `content_type` with `mime::Mime::from_str` and copies out what
/// `mime::Mime::subtype` returns for the parsed value. The result is left
/// unspecified beyond being a function of the text: it is `mime_subtype`.
#[verifier::external_body]
fn parse_subtype(content_type: &str) -> (r: Option<String>)
    ensures
        r.deep_view() == mime_subtype(content_type@),
{
    match content_type.parse::<mime::Mime>() {
        Ok(parsed) => Some(parsed.subtype().as_str().to_owned()),
        Err(_) => None,
    }
}

/// Classifies a field by the content type it declares, if any.
pub fn classify_content_type(content_type: Option<&str>) -> (r: MediaClass)
    ensures
        r == declared_class(content_type.deep_view()),
{
    match content_type {
        Some(text) => match parse_subtype(text) {
            Some(subtype) => classify_subtype(subtype.as_str()),
            None => MediaClass::Unsupported,
        },
        None => MediaClass::Unsupported,
    }
}

impl ImageKind {
    /// The file extension under which this format is stored.
    pub fn extension(&self) -> (r: &'static str)
        ensures
            r@ == extension_text(*self),
    {
        match self {
            ImageKind::Jpeg => {
                proof {
                    reveal_strlit("jpg");
                }
                assert("jpg"@ =~= extension_text(ImageKind::Jpeg));
                "jpg"
            },
            ImageKind::Png => {
                proof {
                    reveal_strlit("png");
                }
                assert("png"@ =~= extension_text(ImageKind::Png));
                "png"
            },
            ImageKind::Gif => {
                proof {
                    reveal_strlit("gif");
                }
                assert("gif"@ =~= extension_text(ImageKind::Gif));
                "gif"
            },
        }
    }
}

} // verus!
