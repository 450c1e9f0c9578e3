//! URLs as plain values, parsed and edited by the `url` crate.

use crate::text;
use vstd::prelude::*;

verus! {

/// The longest base or path, in characters, that a URL is put together from.
/// The `url` crate keeps offsets in 32 bits, and percent-encoding writes at
/// most twelve bytes for one character.
pub const TEXT_LIMIT: usize = 0x0800_0000;

/// The parts of a parsed URL.
#[derive(Clone, Debug)]
pub struct UrlParts {
    pub scheme: String,
    pub username: String,
    pub password: Option<String>,
    pub host: Option<String>,
    /// Everything before the path.
    pub front: String,
    pub path: String,
    pub query: Option<String>,
    pub fragment: Option<String>,
}

pub struct UrlModel {
    pub scheme: Seq<char>,
    pub username: Seq<char>,
    pub password: Option<Seq<char>>,
    pub host: Option<Seq<char>>,
    pub front: Seq<char>,
    pub path: Seq<char>,
    pub query: Option<Seq<char>>,
    pub fragment: Option<Seq<char>>,
}

impl View for UrlParts {
    type V = UrlModel;

    open spec fn view(&self) -> UrlModel {
        UrlModel {
            scheme: self.scheme@,
            username: self.username@,
            password: text::text_opt(self.password),
            host: text::text_opt(self.host),
            front: self.front@,
            path: self.path@,
            query: text::text_opt(self.query),
            fragment: text::text_opt(self.fragment),
        }
    }
}

/// Whether the scheme is `http` or `https`.
pub open spec fn is_web(parts: UrlModel) -> bool {
    parts.scheme == "http"@ || parts.scheme == "https"@
}

/// An optional part behind its mark.
pub open spec fn marked(mark: char, part: Option<Seq<char>>) -> Seq<char> {
    match part {
        Some(part) => seq![mark] + part,
        None => Seq::empty(),
    }
}

/// The serialization of a URL.
pub open spec fn url_text(parts: UrlModel) -> Seq<char> {
    parts.front + parts.path + marked('?', parts.query) + marked('#', parts.fragment)
}

/// A URL of the `url` crate.
#[verifier::external_type_specification]
#[verifier::external_body]
pub struct ExUrl(url::Url);

/// The parts that a URL holds.
pub uninterp spec fn url_parts(url: url::Url) -> UrlModel;

/// The parts of a URL text, or what is wrong with the text.
pub uninterp spec fn parsed_url(source: Seq<char>) -> Result<UrlModel, Seq<char>>;

/// The serialization of a URL with its path replaced.
pub uninterp spec fn url_with_path(base: Seq<char>, path: Seq<char>) -> Seq<char>;

/// The path of an http(s) URL with segments appended to it.
pub uninterp spec fn extended_path(path: Seq<char>, segments: Seq<Seq<char>>) -> Seq<char>;

/// `url::Url::parse`: the URL, or what is wrong with the text, depends on the
/// text alone.
#[verifier::external_body]
fn parse_url(source: &str) -> (url: Result<url::Url, String>)
    ensures
        match url {
            Ok(url) => parsed_url(source@) == Ok::<UrlModel, Seq<char>>(url_parts(url)),
            Err(fault) => parsed_url(source@) == Err::<UrlModel, Seq<char>>(fault@),
        },
{
    url::Url::parse(source).map_err(|error| error.to_string())
}

/// The parts of a `url::Url`, as its accessors give them.
#[verifier::external_body]
fn parts_of(url: &url::Url) -> (parts: UrlParts)
    ensures
        parts@ == url_parts(*url),
{
    UrlParts {
        scheme: url.scheme().to_owned(),
        username: url.username().to_owned(),
        password: url.password().map(str::to_owned),
        host: url.host_str().map(str::to_owned),
        front: url[..url::Position::BeforePath].to_owned(),
        path: url.path().to_owned(),
        query: url.query().map(str::to_owned),
        fragment: url.fragment().map(str::to_owned),
    }
}

/// The serialization that a `url::Url` is displayed as: its parts one after the
/// other, query and fragment behind their marks.
#[verifier::external_body]
fn text_of(url: &url::Url) -> (target: String)
    ensures
        target@ == url_text(url_parts(*url)),
{
    url.to_string()
}

/// `url::Url::set_query` with nothing, on an http(s) URL: the query goes, and
/// everything else stays.
#[verifier::external_body]
fn clear_query(url: &mut url::Url)
    requires
        is_web(url_parts(*old(url))),
    ensures
        url_parts(*final(url)) == (UrlModel { query: None, ..url_parts(*old(url)) }),
{
    url.set_query(None);
}

/// `url::Url::set_fragment` with nothing, on an http(s) URL: the fragment goes,
/// and everything else stays.
#[verifier::external_body]
fn clear_fragment(url: &mut url::Url)
    requires
        is_web(url_parts(*old(url))),
    ensures
        url_parts(*final(url)) == (UrlModel { fragment: None, ..url_parts(*old(url)) }),
{
    url.set_fragment(None);
}

/// A path without its trailing slash, unless that is also its first.
pub open spec fn without_last_slash(path: Seq<char>) -> Seq<char> {
    if path.len() > 1 && path.last() == '/' {
        path.drop_last()
    } else {
        path
    }
}

/// `url::PathSegmentsMut::pop_if_empty`, on an http(s) URL: one trailing slash
/// of the path goes, unless it is also the first, and everything else stays.
#[verifier::external_body]
fn drop_empty_segment(url: &mut url::Url)
    requires
        is_web(url_parts(*old(url))),
    ensures
        url_parts(*final(url)) == (UrlModel {
            path: without_last_slash(url_parts(*old(url)).path),
            ..url_parts(*old(url))
        }),
{
    url.path_segments_mut().expect("http(s) URLs have path segments").pop_if_empty();
}

/// Whether all segments are made of ASCII letters and digits.
pub open spec fn all_plain(segments: Seq<Seq<char>>) -> bool {
    forall|i: int, j: int|
        0 <= i < segments.len() && 0 <= j < segments[i].len() ==> text::is_alphanumeric(
            #[trigger] segments[i][j],
        )
}

/// A path followed by segments, each behind a slash; the path `/` brings its
/// own.
pub open spec fn slash_joined(path: Seq<char>, segments: Seq<Seq<char>>) -> Seq<char>
    decreases segments.len(),
{
    if segments.len() == 0 {
        path
    } else {
        let front = slash_joined(path, segments.drop_last());
        (if front.len() == 1 {
            front
        } else {
            front.push('/')
        }) + segments.last()
    }
}

/// `url::PathSegmentsMut::extend`, on an http(s) URL: the new path depends on
/// the path and the segments alone, and everything else stays. Segments of
/// letters and digits are appended as they are, each behind a slash; how other
/// characters are encoded is not stated.
#[verifier::external_body]
fn extend_path(url: &mut url::Url, segments: &Vec<String>)
    requires
        is_web(url_parts(*old(url))),
        url_text(url_parts(*old(url))).len() <= TEXT_LIMIT,
        text::extent(text::texts(segments@)) <= TEXT_LIMIT,
    ensures
        url_parts(*final(url)) == (UrlModel {
            path: extended_path(url_parts(*old(url)).path, text::texts(segments@)),
            ..url_parts(*old(url))
        }),
        all_plain(text::texts(segments@)) ==> url_parts(*final(url)).path == slash_joined(
            url_parts(*old(url)).path,
            text::texts(segments@),
        ),
{
    url.path_segments_mut().expect("http(s) URLs have path segments").extend(segments);
}

/// Reads the parts of a URL text, or what is wrong with the text.
pub(crate) fn read_url(source: &str) -> (parts: Result<UrlParts, String>)
    ensures
        match parts {
            Ok(parts) => parsed_url(source@) == Ok::<UrlModel, Seq<char>>(parts@),
            Err(fault) => parsed_url(source@) == Err::<UrlModel, Seq<char>>(fault@),
        },
{
    match parse_url(source) {
        Ok(url) => Ok(parts_of(&url)),
        Err(fault) => Err(fault),
    }
}

/// `url::Url::origin` of an `https` URL without credentials, in its ASCII
/// serialization: everything before the path.
#[verifier::external_body]
pub(crate) fn read_origin(source: &str) -> (origin: String)
    requires
        parsed_url(source@) matches Ok(parts) && parts.scheme == "https"@ && parts.username.len()
            == 0 && parts.password is None,
    ensures
        origin@ == parsed_url(source@)->Ok_0.front,
{
    url::Url::parse(source).expect("the source parses").origin().ascii_serialization()
}

/// `url::Url::set_path` on a URL that parses.
#[verifier::external_body]
fn replace_path(base: &str, path: &str) -> (target: String)
    requires
        parsed_url(base@) is Ok,
        base@.len() <= TEXT_LIMIT,
        path@.len() <= TEXT_LIMIT,
    ensures
        target@ == url_with_path(base@, path@),
{
    let mut url = url::Url::parse(base).expect("the base parses");
    url.set_path(path);
    url.to_string()
}

/// The parts of a URL without query and fragment, with segments appended to its
/// path in the place of a trailing empty one.
pub open spec fn parts_below(parts: UrlModel, segments: Seq<Seq<char>>) -> UrlModel {
    UrlModel {
        path: extended_path(without_last_slash(parts.path), segments),
        query: None,
        fragment: None,
        ..parts
    }
}

/// A URL text that parses, with its parts.
#[derive(Debug)]
pub struct WebUrl {
    source: String,
    parts: UrlParts,
}

impl View for WebUrl {
    type V = Seq<char>;

    /// The text that the URL was parsed from.
    closed spec fn view(&self) -> Seq<char> {
        self.source@
    }
}

impl WebUrl {
    #[verifier::type_invariant]
    spec fn parses(self) -> bool {
        parsed_url(self.source@) == Ok::<UrlModel, Seq<char>>(self.parts@)
    }

    /// The parts of the URL.
    pub closed spec fn model(self) -> UrlModel {
        self.parts@
    }

    /// Parses a URL, or says what is wrong with it.
    pub fn parse(source: &str) -> (url: Result<WebUrl, String>)
        ensures
            match url {
                Ok(url) => parsed_url(source@) == Ok::<UrlModel, Seq<char>>(url.model()) && url@
                    == source@,
                Err(fault) => parsed_url(source@) == Err::<UrlModel, Seq<char>>(fault@),
            },
    {
        match read_url(source) {
            Ok(parts) => Ok(WebUrl { source: source.to_owned(), parts }),
            Err(fault) => Err(fault),
        }
    }

    /// The text that the URL was parsed from.
    pub fn as_str(&self) -> (source: &str)
        ensures
            source@ == self@,
    {
        self.source.as_str()
    }

    /// The parts of the URL.
    pub fn parts(&self) -> (parts: &UrlParts)
        ensures
            parts@ == self.model(),
    {
        &self.parts
    }

    /// A copy of the URL.
    pub fn copy(&self) -> (url: WebUrl)
        ensures
            url@ == self@,
            url.model() == self.model(),
    {
        proof {
            use_type_invariant(self);
        }
        WebUrl {
            source: self.source.clone(),
            parts: UrlParts {
                scheme: self.parts.scheme.clone(),
                username: self.parts.username.clone(),
                password: text::copy_text_opt(&self.parts.password),
                host: text::copy_text_opt(&self.parts.host),
                front: self.parts.front.clone(),
                path: self.parts.path.clone(),
                query: text::copy_text_opt(&self.parts.query),
                fragment: text::copy_text_opt(&self.parts.fragment),
            },
        }
    }

    /// Whether the scheme is `http` or `https`.
    pub open spec fn is_http(self) -> bool {
        is_web(self.model())
    }

    /// Whether the scheme is `http` or `https`.
    pub fn has_http_scheme(&self) -> (http: bool)
        ensures
            http == self.is_http(),
    {
        text::same_text(&self.parts.scheme, "http") || text::same_text(&self.parts.scheme, "https")
    }

    /// The URL with its path replaced.
    pub fn with_path(&self, path: &str) -> (target: String)
        requires
            self@.len() <= TEXT_LIMIT,
            path@.len() <= TEXT_LIMIT,
        ensures
            target@ == url_with_path(self@, path@),
    {
        proof {
            use_type_invariant(self);
        }
        replace_path(&self.source, path)
    }

    /// The serialization of the URL.
    pub fn serialization(&self) -> (target: String)
        ensures
            target@ == url_text(self.model()),
    {
        let mut target: String = text::joined(&self.parts.front, &self.parts.path);
        if let Some(query) = &self.parts.query {
            target.push('?');
            target.append(query);
        }
        if let Some(fragment) = &self.parts.fragment {
            target.push('#');
            target.append(fragment);
        }
        assert(target@ =~= url_text(self.model()));
        target
    }

    /// The URL without query and fragment, with segments appended to its path
    /// in the place of a trailing empty one.
    pub fn below(&self, segments: &Vec<String>) -> (target: String)
        requires
            self.is_http(),
            url_text(self.model()).len() <= TEXT_LIMIT,
            text::extent(text::texts(segments@)) <= TEXT_LIMIT,
        ensures
            target@ == url_text(parts_below(self.model(), text::texts(segments@))),
            all_plain(text::texts(segments@)) ==> target@ == self.model().front + slash_joined(
                without_last_slash(self.model().path),
                text::texts(segments@),
            ),
    {
        proof {
            use_type_invariant(self);
        }
        let mut url: url::Url = match parse_url(&self.source) {
            Ok(url) => url,
            Err(_) => vstd::pervasive::unreached(),
        };
        clear_query(&mut url);
        clear_fragment(&mut url);
        drop_empty_segment(&mut url);
        extend_path(&mut url, segments);
        let target: String = text_of(&url);
        assert(target@ =~= url_parts(url).front + url_parts(url).path);
        target
    }
}

} // verus!
