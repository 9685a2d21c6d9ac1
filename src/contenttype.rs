//! The `Content-Type` header: a media type and an optional charset.

use vstd::prelude::*;
use vstd::string::StringExecFns;
use vstd::string::StrSliceExecFns;

verus! {

/// The part of a media type before the first `/`.
pub open spec fn type_part(s: Seq<char>) -> Seq<char>
    decreases s.len(),
{
    if s.len() == 0 || s[0] == '/' {
        Seq::empty()
    } else {
        seq![s[0]] + type_part(s.skip(1))
    }
}

proof fn lemma_type_part_prefix(s: Seq<char>, i: int)
    requires
        0 <= i <= s.len(),
        forall|k: int| 0 <= k < i ==> s[k] != '/',
        i == s.len() || s[i] == '/',
    ensures
        type_part(s) == s.take(i),
    decreases i,
{
    if i == 0 {
        assert(s.take(0) =~= Seq::<char>::empty());
    } else {
        let t = s.skip(1);
        assert forall|k: int| 0 <= k < i - 1 implies t[k] != '/' by {
            assert(t[k] == s[k + 1]);
        }
        lemma_type_part_prefix(t, i - 1);
        assert(seq![s[0]] + t.take(i - 1) =~= s.take(i));
    }
}

/// The most common media types.
#[derive(Debug, Clone, Copy, PartialEq, Eq, Structural)]
#[non_exhaustive]
pub enum Mime {
    /// File extension `txt`, mime type `text/plain`.
    Text,
    /// File extension `html`, mime type `text/html`.
    Html,
    /// File extension `js`, mime type `application/javascript`.
    Js,
    /// File extension `css`, mime type `text/css`.
    Css,
    /// File extension `json`, mime type `application/json`.
    Json,
    /// File extension `csv`, mime type `text/csv`.
    Csv,
    /// File extension `doc`, mime type `application/msword`.
    Doc,
    /// File extension `docx`, mime type `application/vnd.openxmlformats-officedocument.wordprocessingml.document`.
    Docx,
    /// File extension `pdf`, mime type `application/pdf`.
    Pdf,
    /// File extension `php`, mime type `application/php`.
    Php,
    /// File extension `rtf`, mime type `application/rtf`.
    Rtf,
    /// File extension `sh`, mime type `application/x-sh`.
    Sh,
    /// File extension `vsd`, mime type `application/vnd.visio`.
    Vsd,
    /// File extension `xml`, mime type `text/xml`.
    Xml,
    /// File extension `jpg`, mime type `image/jpeg`.
    Jpg,
    /// File extension `png`, mime type `image/png`.
    Png,
    /// File extension `gif`, mime type `image/gif`.
    Gif,
    /// File extension `svg`, mime type `image/svg+xml`.
    Svg,
    /// File extension `ico`, mime type `image/vnd.microsoft.icon`.
    Ico,
    /// File extension `tiff`, mime type `image/tiff`.
    Tiff,
    /// File extension `webp`, mime type `image/webp`.
    Webp,
    /// File extension `eot`, mime type `application/vnd.ms-fontobject`.
    Eot,
    /// File extension `ttf`, mime type `font/ttf`.
    Ttf,
    /// File extension `woff`, mime type `font/woff`.
    Woff,
    /// File extension `woff2`, mime type `font/woff2`.
    Woff2,
    /// File extension `avi`, mime type `video/x-msvideo`.
    Avi,
    /// File extension `ogv`, mime type `video/ogg`.
    Ogv,
    /// File extension `webm`, mime type `video/webm`.
    Webm,
    /// File extension `mp4`, mime type `video/mp4`.
    Mp4,
    /// File extension `aac`, mime type `audio/aac`.
    Aac,
    /// File extension `mp3`, mime type `audio/mpeg`.
    Mp3,
    /// File extension `oga`, mime type `audio/ogg`.
    Oga,
    /// File extension `wav`, mime type `audio/wav`.
    Wav,
    /// File extension `weba`, mime type `audio/webm`.
    Weba,
    /// File extension `rar`, mime type `application/vnd.rar`.
    Rar,
    /// File extension `tar`, mime type `application/x-tar`.
    Tar,
    /// File extension `zip`, mime type `application/zip`.
    Zip,
    /// File extension `7z`, mime type `application/x-7z-compressed`.
    _7Zip,
    /// File extension `jar`, mime type `application/java-archive`.
    Jar,
    /// File extension `bin`, mime type `application/octet-stream`.
    Binary,
    /// File extension `wasm`, mime type `application/wasm`.
    Wasm,
}

impl Mime {
    /// The media type, such as `text/plain`.
    pub open spec fn spec_mime(self) -> Seq<char> {
        match self {
            Mime::Text => "text/plain"@,
            Mime::Html => "text/html"@,
            Mime::Js => "application/javascript"@,
            Mime::Css => "text/css"@,
            Mime::Json => "application/json"@,
            Mime::Csv => "text/csv"@,
            Mime::Doc => "application/msword"@,
            Mime::Docx => "application/vnd.openxmlformats-officedocument.wordprocessingml.document"@,
            Mime::Pdf => "application/pdf"@,
            Mime::Php => "application/php"@,
            Mime::Rtf => "application/rtf"@,
            Mime::Sh => "application/x-sh"@,
            Mime::Vsd => "application/vnd.visio"@,
            Mime::Xml => "text/xml"@,
            Mime::Jpg => "image/jpeg"@,
            Mime::Png => "image/png"@,
            Mime::Gif => "image/gif"@,
            Mime::Svg => "image/svg+xml"@,
            Mime::Ico => "image/vnd.microsoft.icon"@,
            Mime::Tiff => "image/tiff"@,
            Mime::Webp => "image/webp"@,
            Mime::Eot => "application/vnd.ms-fontobject"@,
            Mime::Ttf => "font/ttf"@,
            Mime::Woff => "font/woff"@,
            Mime::Woff2 => "font/woff2"@,
            Mime::Avi => "video/x-msvideo"@,
            Mime::Ogv => "video/ogg"@,
            Mime::Webm => "video/webm"@,
            Mime::Mp4 => "video/mp4"@,
            Mime::Aac => "audio/aac"@,
            Mime::Mp3 => "audio/mpeg"@,
            Mime::Oga => "audio/ogg"@,
            Mime::Wav => "audio/wav"@,
            Mime::Weba => "audio/webm"@,
            Mime::Rar => "application/vnd.rar"@,
            Mime::Tar => "application/x-tar"@,
            Mime::Zip => "application/zip"@,
            Mime::_7Zip => "application/x-7z-compressed"@,
            Mime::Jar => "application/java-archive"@,
            Mime::Binary => "application/octet-stream"@,
            Mime::Wasm => "application/wasm"@,
        }
    }

    /// The file extension, such as `txt`.
    pub open spec fn spec_ext(self) -> Seq<char> {
        match self {
            Mime::Text => "txt"@,
            Mime::Html => "html"@,
            Mime::Js => "js"@,
            Mime::Css => "css"@,
            Mime::Json => "json"@,
            Mime::Csv => "csv"@,
            Mime::Doc => "doc"@,
            Mime::Docx => "docx"@,
            Mime::Pdf => "pdf"@,
            Mime::Php => "php"@,
            Mime::Rtf => "rtf"@,
            Mime::Sh => "sh"@,
            Mime::Vsd => "vsd"@,
            Mime::Xml => "xml"@,
            Mime::Jpg => "jpg"@,
            Mime::Png => "png"@,
            Mime::Gif => "gif"@,
            Mime::Svg => "svg"@,
            Mime::Ico => "ico"@,
            Mime::Tiff => "tiff"@,
            Mime::Webp => "webp"@,
            Mime::Eot => "eot"@,
            Mime::Ttf => "ttf"@,
            Mime::Woff => "woff"@,
            Mime::Woff2 => "woff2"@,
            Mime::Avi => "avi"@,
            Mime::Ogv => "ogv"@,
            Mime::Webm => "webm"@,
            Mime::Mp4 => "mp4"@,
            Mime::Aac => "aac"@,
            Mime::Mp3 => "mp3"@,
            Mime::Oga => "oga"@,
            Mime::Wav => "wav"@,
            Mime::Weba => "weba"@,
            Mime::Rar => "rar"@,
            Mime::Tar => "tar"@,
            Mime::Zip => "zip"@,
            Mime::_7Zip => "7z"@,
            Mime::Jar => "jar"@,
            Mime::Binary => "bin"@,
            Mime::Wasm => "wasm"@,
        }
    }

    /// Returns the file extension.
    pub fn ext(&self) -> (r: &'static str)
        ensures
            r@ == self.spec_ext(),
    {
        match self {
            Mime::Text => "txt",
            Mime::Html => "html",
            Mime::Js => "js",
            Mime::Css => "css",
            Mime::Json => "json",
            Mime::Csv => "csv",
            Mime::Doc => "doc",
            Mime::Docx => "docx",
            Mime::Pdf => "pdf",
            Mime::Php => "php",
            Mime::Rtf => "rtf",
            Mime::Sh => "sh",
            Mime::Vsd => "vsd",
            Mime::Xml => "xml",
            Mime::Jpg => "jpg",
            Mime::Png => "png",
            Mime::Gif => "gif",
            Mime::Svg => "svg",
            Mime::Ico => "ico",
            Mime::Tiff => "tiff",
            Mime::Webp => "webp",
            Mime::Eot => "eot",
            Mime::Ttf => "ttf",
            Mime::Woff => "woff",
            Mime::Woff2 => "woff2",
            Mime::Avi => "avi",
            Mime::Ogv => "ogv",
            Mime::Webm => "webm",
            Mime::Mp4 => "mp4",
            Mime::Aac => "aac",
            Mime::Mp3 => "mp3",
            Mime::Oga => "oga",
            Mime::Wav => "wav",
            Mime::Weba => "weba",
            Mime::Rar => "rar",
            Mime::Tar => "tar",
            Mime::Zip => "zip",
            Mime::_7Zip => "7z",
            Mime::Jar => "jar",
            Mime::Binary => "bin",
            Mime::Wasm => "wasm",
        }
    }

    /// Returns the media type.
    pub fn mime(&self) -> (r: &'static str)
        ensures
            r@ == self.spec_mime(),
    {
        match self {
            Mime::Text => "text/plain",
            Mime::Html => "text/html",
            Mime::Js => "application/javascript",
            Mime::Css => "text/css",
            Mime::Json => "application/json",
            Mime::Csv => "text/csv",
            Mime::Doc => "application/msword",
            Mime::Docx => "application/vnd.openxmlformats-officedocument.wordprocessingml.document",
            Mime::Pdf => "application/pdf",
            Mime::Php => "application/php",
            Mime::Rtf => "application/rtf",
            Mime::Sh => "application/x-sh",
            Mime::Vsd => "application/vnd.visio",
            Mime::Xml => "text/xml",
            Mime::Jpg => "image/jpeg",
            Mime::Png => "image/png",
            Mime::Gif => "image/gif",
            Mime::Svg => "image/svg+xml",
            Mime::Ico => "image/vnd.microsoft.icon",
            Mime::Tiff => "image/tiff",
            Mime::Webp => "image/webp",
            Mime::Eot => "application/vnd.ms-fontobject",
            Mime::Ttf => "font/ttf",
            Mime::Woff => "font/woff",
            Mime::Woff2 => "font/woff2",
            Mime::Avi => "video/x-msvideo",
            Mime::Ogv => "video/ogg",
            Mime::Webm => "video/webm",
            Mime::Mp4 => "video/mp4",
            Mime::Aac => "audio/aac",
            Mime::Mp3 => "audio/mpeg",
            Mime::Oga => "audio/ogg",
            Mime::Wav => "audio/wav",
            Mime::Weba => "audio/webm",
            Mime::Rar => "application/vnd.rar",
            Mime::Tar => "application/x-tar",
            Mime::Zip => "application/zip",
            Mime::_7Zip => "application/x-7z-compressed",
            Mime::Jar => "application/java-archive",
            Mime::Binary => "application/octet-stream",
            Mime::Wasm => "application/wasm",
        }
    }

    /// Returns the type: the part of the media type before the `/`.
    pub fn main_type(&self) -> (r: &'static str)
        ensures
            r@ == type_part(self.spec_mime()),
    {
        let m = self.mime();
        let n = m.unicode_len();
        let mut i: usize = 0;
        while i < n && m.get_char(i) != '/'
            invariant
                i <= n,
                n == m@.len(),
                forall|k: int| 0 <= k < i ==> m@[k] != '/',
            decreases n - i,
        {
            i = i + 1;
        }
        proof {
            lemma_type_part_prefix(m@, i as int);
            assert(m@.subrange(0, i as int) =~= m@.take(i as int));
        }
        m.substring_char(0, i)
    }
}

/// The charsets that can be named.
#[derive(Debug, Clone, Copy, PartialEq, Eq, Structural)]
#[non_exhaustive]
pub enum Charset {
    /// `utf-8`
    Utf8,
}

impl Charset {
    /// The name of the charset.
    pub open spec fn spec_as_str(self) -> Seq<char> {
        match self {
            Charset::Utf8 => "utf-8"@,
        }
    }

    /// Returns the name of the charset.
    pub fn as_str(&self) -> (r: &'static str)
        ensures
            r@ == self.spec_as_str(),
    {
        match self {
            Charset::Utf8 => "utf-8",
        }
    }
}

/// Whether `s` is the word `text`.
fn is_text(s: &str) -> (r: bool)
    ensures
        r == (s@ == "text"@),
{
    proof {
        reveal_strlit("text");
    }
    if s.unicode_len() != 4 {
        return false;
    }
    let r = s.get_char(0) == 't' && s.get_char(1) == 'e' && s.get_char(2) == 'x' && s.get_char(3)
        == 't';
    proof {
        if r {
            assert(s@ =~= "text"@);
        }
    }
    r
}

/// A known media type, one given as a string, or none.
#[derive(Debug, Clone, PartialEq, Eq)]
pub enum AnyMime {
    Known(Mime),
    Unknown(String),
    Unset,
}

impl AnyMime {
    /// The media type as a string; empty for none.
    pub open spec fn spec_mime(&self) -> Seq<char> {
        match self {
            AnyMime::Known(m) => m.spec_mime(),
            AnyMime::Unknown(s) => s@,
            AnyMime::Unset => Seq::empty(),
        }
    }

    /// The charset that goes with the media type: utf-8 for a known text
    /// type and for JavaScript and JSON, else none.
    pub open spec fn spec_charset(&self) -> Option<Charset> {
        match self {
            AnyMime::Known(m) => if type_part(m.spec_mime()) == "text"@ || m is Js || m is Json {
                Some(Charset::Utf8)
            } else {
                None
            },
            _ => None,
        }
    }

    /// Returns the media type as a string.
    pub fn mime(&self) -> (r: &str)
        ensures
            r@ == self.spec_mime(),
    {
        match self {
            AnyMime::Known(m) => m.mime(),
            AnyMime::Unknown(s) => s.as_str(),
            AnyMime::Unset => {
                proof {
                    reveal_strlit("");
                }
                ""
            },
        }
    }

    /// Returns the media type as an owned string.
    pub fn to_string(&self) -> (r: String)
        ensures
            r@ == self.spec_mime(),
    {
        match self {
            AnyMime::Known(m) => m.mime().to_owned(),
            AnyMime::Unknown(s) => s.clone(),
            AnyMime::Unset => String::new(),
        }
    }

    /// Returns utf-8 for a known text type, JavaScript and JSON.
    pub fn charset(&self) -> (r: Option<Charset>)
        ensures
            r == self.spec_charset(),
    {
        match self {
            AnyMime::Known(m) => {
                if is_text(m.main_type()) {
                    Some(Charset::Utf8)
                } else {
                    match m {
                        Mime::Js | Mime::Json => Some(Charset::Utf8),
                        _ => None,
                    }
                }
            },
            _ => None,
        }
    }
}

/// The `Content-Type` header: a media type and an optional charset.
#[derive(Debug, Clone, PartialEq, Eq)]
pub struct ContentType {
    pub mime: AnyMime,
    pub charset: Option<Charset>,
}

impl ContentType {
    /// The header text: the media type, then `; charset=` and the charset
    /// where there is one.
    pub open spec fn spec_to_string(&self) -> Seq<char> {
        match self.charset {
            Some(c) => self.mime.spec_mime() + "; charset="@ + c.spec_as_str(),
            None => self.mime.spec_mime(),
        }
    }

    /// A header for `mime`, with the charset that goes with it.
    pub fn new(mime: AnyMime) -> (r: Self)
        ensures
            r.mime == mime,
            r.charset == mime.spec_charset(),
    {
        let charset = mime.charset();
        ContentType { mime, charset }
    }

    /// A header for `mime` with the given charset.
    pub fn with_charset(mime: AnyMime, charset: Charset) -> (r: Self)
        ensures
            r.mime == mime,
            r.charset == Some(charset),
    {
        ContentType { mime, charset: Some(charset) }
    }

    /// A header without media type or charset.
    pub fn empty() -> (r: Self)
        ensures
            r.mime is Unset,
            r.charset is None,
    {
        ContentType { mime: AnyMime::Unset, charset: None }
    }

    /// Returns the header text.
    pub fn to_string(&self) -> (r: String)
        ensures
            r@ == self.spec_to_string(),
    {
        match self.charset {
            Some(c) => {
                let s = self.mime.to_string();
                let s = s.concat("; charset=");
                s.concat(c.as_str())
            },
            None => self.mime.to_string(),
        }
    }
}

} // verus!
