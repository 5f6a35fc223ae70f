use std::io::Cursor;

use modio::client::{Modio, Next};
use modio::credentials::Credentials;
use modio::errors::{CodecError, Error};
use modio::multipart::{FileSource, Form, Part, ToForm};
use modio::request::Method;
use modio::response::{ResponseHead, Snapshot, Verdict};
use modio::stream::FileStream;

type Source = Cursor<Vec<u8>>;

/// The parameters of an upload: a file and a version.
struct Upload {
    path: String,
    mime: String,
    version: String,
}

impl ToForm<Source> for Upload {
    fn to_form(&self) -> Result<Form<Source>, Error> {
        let file = FileSource {
            inner: FileStream::open(&self.path),
            filename: "mod.zip".to_string(),
            mime: self.mime.clone(),
        };
        Ok(Form::new().text("version", &self.version).part("filedata", Part::from(file)?))
    }
}

/// Parameters that cannot be sent.
struct Offline;

impl ToForm<Source> for Offline {
    fn to_form(&self) -> Result<Form<Source>, Error> {
        Err(Error::Transport("no file".to_string()))
    }
}

fn upload(mime: &str) -> Upload {
    Upload { path: "/tmp/mod.zip".to_string(), mime: mime.to_string(), version: "1.0".to_string() }
}

#[test]
fn part_takes_the_media_type_as_the_parser_writes_it() {
    let source = FileSource {
        inner: FileStream::new(Cursor::new(b"zip".to_vec())),
        filename: "mod.zip".to_string(),
        mime: "Application/ZIP".to_string(),
    };
    match Part::from(source) {
        Ok(Part::Stream { inner, filename, mime }) => {
            assert_eq!(mime, "application/zip");
            assert_eq!(filename, "mod.zip");
            assert!(inner.path().is_none());
        }
        _ => panic!("no streamed part was made"),
    }
}

#[test]
fn part_keeps_the_parameters_of_the_media_type() {
    let source: FileSource<Source> = FileSource {
        inner: FileStream::open("notes.txt"),
        filename: "notes.txt".to_string(),
        mime: "text/plain; charset=utf-8".to_string(),
    };
    match Part::from(source) {
        Ok(Part::Stream { inner, mime, .. }) => {
            assert_eq!(mime, "text/plain; charset=utf-8");
            assert_eq!(inner.path().map(|path| path.as_str()), Some("notes.txt"));
        }
        _ => panic!("no streamed part was made"),
    }
}

#[test]
fn part_of_no_media_type_is_a_codec_error() {
    for mime in ["", "zip", "/zip", "a b/c", "text/plain; charset"] {
        let source: FileSource<Source> = FileSource {
            inner: FileStream::open("mod.zip"),
            filename: "mod.zip".to_string(),
            mime: mime.to_string(),
        };
        assert!(matches!(Part::from(source), Err(Error::Codec(CodecError::Mime(_)))));
    }
}

#[test]
fn form_keeps_the_order_of_insertion() {
    let form: Form<Source> = Form::new();
    assert_eq!(form.len(), 0);
    let form = form
        .text("b", "2")
        .part("file", Part::Stream {
            inner: FileStream::open("a.zip"),
            filename: "a.zip".to_string(),
            mime: "application/zip".to_string(),
        })
        .text("a", "1")
        .text("b", "3");
    assert_eq!(form.len(), 4);
    let parts = form.into_parts();
    let names: Vec<&str> = parts.iter().map(|part| part.0.as_str()).collect();
    assert_eq!(names, vec!["b", "file", "a", "b"]);
    assert!(matches!(&parts[0].1, Part::Text(value) if value == "2"));
    assert!(matches!(&parts[1].1, Part::Stream { filename, .. } if filename == "a.zip"));
    assert!(matches!(&parts[2].1, Part::Text(value) if value == "1"));
    assert!(matches!(&parts[3].1, Part::Text(value) if value == "3"));
}

#[test]
fn text_part_holds_its_value() {
    let part: Part<Source> = Part::text("hello");
    assert!(matches!(part, Part::Text(value) if value == "hello"));
}

#[test]
fn multipart_request_has_credentials_and_form_but_no_body_of_its_own() {
    let modio = Modio::host("https://api.example.com/v1", "agent", Some(Credentials::ApiKey("ABC".to_string())));
    let request = modio.post("/games/1/mods/2/files", &upload("application/zip")).unwrap();
    assert_eq!(request.head.method, Method::Post);
    assert_eq!(request.head.url, "https://api.example.com/v1/games/1/mods/2/files?api_key=ABC");
    assert_eq!(request.head.authorization, None);
    assert_eq!(request.head.content_type, None);
    assert_eq!(request.head.body, None);
    assert_eq!(request.head.user_agent, "agent");
    let parts = request.form.into_parts();
    assert_eq!(parts.len(), 2);
    assert_eq!(parts[0].0, "version");
    assert_eq!(parts[1].0, "filedata");

    let modio = Modio::host("https://api.example.com/v1", "agent", Some(Credentials::Token("T".to_string())));
    let request = modio
        .formdata(Method::Post, "https://api.example.com/v1/files".to_string(), &upload("application/zip"))
        .unwrap();
    assert_eq!(request.head.url, "https://api.example.com/v1/files");
    assert_eq!(request.head.authorization.as_deref(), Some("Bearer T"));
}

#[test]
fn error_of_the_form_is_the_error_of_the_call() {
    let modio = Modio::new("agent", None);
    match modio.post("/files", &Offline) {
        Err(Error::Transport(message)) => assert_eq!(message, "no file"),
        _ => panic!("the error of the form was not returned"),
    }
    assert!(matches!(
        modio.post("/files", &upload("no media type")),
        Err(Error::Codec(CodecError::Mime(_)))
    ));
}

#[test]
fn error_of_the_form_comes_before_the_url_error() {
    let modio = Modio::host("no host", "agent", None);
    assert!(matches!(modio.post("/files", &Offline), Err(Error::Transport(_))));
    assert!(matches!(modio.post("/files", &upload("application/zip")), Err(Error::UrlParse(_))));
    let made: Result<Form<Source>, Error> = Ok(Form::new().text("a", "b"));
    assert!(matches!(
        modio.with_form(Method::Post, "no host/files".to_string(), made),
        Err(Error::UrlParse(_))
    ));
}

#[test]
fn redirected_upload_is_sent_again_with_a_new_form() {
    let modio = Modio::host("https://api.example.com/v1", "agent", Some(Credentials::ApiKey("ABC".to_string())));
    let data = upload("application/zip");
    let response = ResponseHead {
        status: 307,
        limits: Snapshot { remaining: None, retry_after: None },
        location: Some("https://upload.example.com/files".to_string()),
    };
    match modio.advance_form(Method::Post, &data, &response) {
        Ok(Next::Follow(next)) => {
            assert_eq!(next.head.method, Method::Post);
            assert_eq!(next.head.url, "https://upload.example.com/files?api_key=ABC");
            assert_eq!(next.form.len(), 2);
        }
        _ => panic!("the redirect was not followed"),
    }
    let settled = ResponseHead {
        status: 307,
        limits: Snapshot { remaining: Some(0), retry_after: Some(5) },
        location: None,
    };
    match modio.advance_form(Method::Post, &data, &settled) {
        Ok(Next::Settle(verdict)) => assert_eq!(verdict, Verdict::RateLimit { reset: 300 }),
        _ => panic!("the response was not settled"),
    }
}
