//! Multipart form bodies: named text fields and streamed byte parts, in the
//! order in which they were added.

use vstd::prelude::*;
use vstd::string::*;

use crate::errors::{CodecError, Error};
use crate::stream::{FileStream, StreamView};

verus! {

#[verifier::external_type_specification]
#[verifier::external_body]
pub struct ExFromStrError(mime::FromStrError);

/// The text of the media type that `mime::Mime`'s parser reads from `text`,
/// as the parsed value displays it, or `None` where the parser rejects `text`.
pub uninterp spec fn mime_parse(text: Seq<char>) -> Option<Seq<char>>;

/// Parses `text` as a `mime::Mime` with its `FromStr` and hands back the text
/// of the parsed value.
///
/// Trusted: the result is a function of `text` alone.
#[verifier::external_body]
pub(crate) fn parse_mime(text: &str) -> (parsed: Result<String, mime::FromStrError>)
    ensures
        parsed matches Ok(media) ==> mime_parse(text@) == Some(media@),
        parsed is Err ==> mime_parse(text@) is None,
{
    match text.parse::<mime::Mime>() {
        Ok(media) => Ok(media.to_string()),
        Err(error) => Err(error),
    }
}

/// A byte source with the name and the media type under which it is sent.
pub struct FileSource<S> {
    pub inner: FileStream<S>,
    pub filename: String,
    pub mime: String,
}

/// One part of a form.
pub enum Part<S> {
    /// A plain text field.
    Text(String),
    /// A streamed part; `mime` is a media type as its parser writes it.
    Stream { inner: FileStream<S>, filename: String, mime: String },
}

/// The mathematical value of a [`Part`].
pub enum PartView<S> {
    Text(Seq<char>),
    Stream { inner: StreamView<S>, filename: Seq<char>, mime: Seq<char> },
}

impl<S> View for Part<S> {
    type V = PartView<S>;

    open spec fn view(&self) -> PartView<S> {
        match self {
            Part::Text(value) => PartView::Text(value@),
            Part::Stream { inner, filename, mime } => PartView::Stream {
                inner: inner@,
                filename: filename@,
                mime: mime@,
            },
        }
    }
}

impl<S> Part<S> {
    /// A text field with this value.
    pub fn text(value: &str) -> (part: Self)
        ensures
            part@ == PartView::<S>::Text(value@),
    {
        Part::Text(String::from_str(value))
    }

    /// The streamed part for `source`. It fails, with a codec error, exactly
    /// when the source's media type cannot be parsed.
    pub fn from(source: FileSource<S>) -> (part: Result<Self, Error>)
        ensures
            match mime_parse(source.mime@) {
                Some(media) => part matches Ok(made) && made@ == (PartView::Stream {
                    inner: source.inner@,
                    filename: source.filename@,
                    mime: media,
                }),
                None => part matches Err(Error::Codec(CodecError::Mime(_))),
            },
    {
        match parse_mime(source.mime.as_str()) {
            Ok(media) => Ok(
                Part::Stream { inner: source.inner, filename: source.filename, mime: media },
            ),
            Err(error) => Err(Error::Codec(CodecError::Mime(error))),
        }
    }
}

/// A multipart form: named parts in the order of their insertion. The form
/// owns its parts; they leave it once, into the body of a request.
pub struct Form<S> {
    parts: Vec<(String, Part<S>)>,
}

/// The views of named parts.
pub open spec fn parts_view<S>(parts: Seq<(String, Part<S>)>) -> Seq<(Seq<char>, PartView<S>)> {
    parts.map_values(|part: (String, Part<S>)| (part.0@, part.1@))
}

impl<S> View for Form<S> {
    type V = Seq<(Seq<char>, PartView<S>)>;

    closed spec fn view(&self) -> Seq<(Seq<char>, PartView<S>)> {
        parts_view(self.parts@)
    }
}

impl<S> Form<S> {
    /// A form without parts.
    pub fn new() -> (form: Self)
        ensures
            form@ == Seq::<(Seq<char>, PartView<S>)>::empty(),
    {
        let form = Form { parts: Vec::new() };
        assert(form@ =~= Seq::<(Seq<char>, PartView<S>)>::empty());
        form
    }

    /// The form with one more text field, after the parts it has.
    pub fn text(self, name: &str, value: &str) -> (form: Self)
        ensures
            form@ == self@.push((name@, PartView::Text(value@))),
    {
        self.part(name, Part::text(value))
    }

    /// The form with one more part, after the parts it has.
    pub fn part(self, name: &str, part: Part<S>) -> (form: Self)
        ensures
            form@ == self@.push((name@, part@)),
    {
        let mut parts = self.parts;
        parts.push((String::from_str(name), part));
        let form = Form { parts };
        assert(form@ =~= self@.push((name@, part@)));
        form
    }

    /// The number of parts.
    pub fn len(&self) -> (len: usize)
        ensures
            len == self@.len(),
    {
        self.parts.len()
    }

    /// The parts, in the order of their insertion, for the body that takes
    /// them over.
    pub fn into_parts(self) -> (parts: Vec<(String, Part<S>)>)
        ensures
            parts_view(parts@) == self@,
    {
        self.parts
    }
}

/// What can be sent as a multipart body. A parameter type of an endpoint
/// implements this; the pipeline sees nothing else of it.
pub trait ToForm<S> {
    /// The form to send, or the error that keeps it from being made.
    fn to_form(&self) -> Result<Form<S>, Error>;
}

} // verus!
