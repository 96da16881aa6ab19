//! HTTP messages: header maps, multipart forms and the client that sends them.

use reqwest::blocking::multipart::{Form, Part};
use reqwest::blocking::{Client, ClientBuilder};
use reqwest::header::{HeaderMap, HeaderValue, InvalidHeaderValue};
use vstd::prelude::*;
use vstd::utf8::encode_utf8;

verus! {

/// `reqwest::header::HeaderMap`, a collection of headers. Its content is `header_values`.
#[verifier::external_type_specification]
#[verifier::external_body]
#[verifier::reject_recursive_types(T)]
pub struct ExHeaderMap<T>(HeaderMap<T>);

/// `reqwest::header::HeaderValue`, the value of one header. Its content is `header_bytes`.
#[verifier::external_type_specification]
#[verifier::external_body]
pub struct ExHeaderValue(HeaderValue);

/// `reqwest::blocking::multipart::Part`, one field of a form. Its content is `part_fields`.
#[verifier::external_type_specification]
#[verifier::external_body]
pub struct ExPart(Part);

/// `reqwest::blocking::multipart::Form`, a form. Its content is `form_fields`.
#[verifier::external_type_specification]
#[verifier::external_body]
pub struct ExForm(Form);

/// `reqwest::Proxy`, a proxy that a client can use. Its URL is `proxy_url`.
#[verifier::external_type_specification]
#[verifier::external_body]
pub struct ExProxy(reqwest::Proxy);

/// `reqwest::blocking::ClientBuilder`. The proxies that it was given are `builder_proxies`, its
/// timeouts `builder_limits`.
#[verifier::external_type_specification]
#[verifier::external_body]
pub struct ExClientBuilder(ClientBuilder);

/// `reqwest::blocking::Client`. The proxies that its builder was given are `client_proxies`, its
/// timeouts `client_limits`.
#[verifier::external_type_specification]
#[verifier::external_body]
pub struct ExClient(Client);

/// The values of each header in a map, in their order, by the name of the header in small
/// letters.
pub uninterp spec fn header_values(headers: HeaderMap) -> Map<Seq<char>, Seq<Seq<u8>>>;

/// The bytes of the value of a header.
pub uninterp spec fn header_bytes(value: HeaderValue) -> Seq<u8>;

/// What one field of a form holds.
pub ghost struct PartFields {
    pub body: Seq<u8>,
    pub file_name: Option<Seq<char>>,
    pub media_type: Option<Seq<char>>,
}

/// What a field of a form holds.
pub uninterp spec fn part_fields(part: Part) -> PartFields;

/// The fields of a form with their names, in their order.
pub uninterp spec fn form_fields(form: Form) -> Seq<(Seq<char>, PartFields)>;

/// The media type that `reqwest::blocking::multipart::Part::mime_str` reads from the given
/// text, `None` where it reports an error.
pub uninterp spec fn read_media_type(content_type: Seq<char>) -> Option<Seq<char>>;

/// The URL that `reqwest::Proxy::https` reads from the given text, `None` where it reports an
/// error.
pub uninterp spec fn read_proxy_url(url: Seq<char>) -> Option<Seq<char>>;

/// The URL of an HTTPS proxy.
pub uninterp spec fn proxy_url(proxy: reqwest::Proxy) -> Seq<char>;

/// The URLs of the HTTPS proxies that a builder was given.
pub uninterp spec fn builder_proxies(builder: ClientBuilder) -> Seq<Seq<char>>;

/// The URLs of the HTTPS proxies that the builder of a client was given. A client whose builder
/// was given none uses the proxies of the system, of which nothing is stated.
pub uninterp spec fn client_proxies(client: Client) -> Seq<Seq<char>>;

/// How many seconds a client waits for a connection, and for a reply: without end where there
/// is no limit.
pub ghost struct Limits {
    pub connect: Option<nat>,
    pub request: Option<nat>,
}

/// The timeouts of a builder.
pub uninterp spec fn builder_limits(builder: ClientBuilder) -> Limits;

/// The timeouts of a client.
pub uninterp spec fn client_limits(client: Client) -> Limits;

/// The timeouts of a builder that was given none.
pub open spec fn default_limits() -> Limits {
    Limits { connect: None, request: Some(30) }
}

/// The content of a map without headers.
pub open spec fn no_headers() -> Map<Seq<char>, Seq<Seq<u8>>> {
    Map::empty()
}

/// Whether a byte can stand in the value of a header.
pub open spec fn header_byte(b: u8) -> bool {
    (b >= 32 && b != 127) || b == 9
}

/// Whether a text can be the value of a header.
pub open spec fn header_text(text: Seq<char>) -> bool {
    forall|i: int| 0 <= i < encode_utf8(text).len() ==> header_byte(#[trigger] encode_utf8(text)[i])
}

/// Whether a byte of the value of a header is a visible ASCII character, a space or a tab.
pub open spec fn visible_byte(b: u8) -> bool {
    (b >= 32 && b < 127) || b == 9
}

/// The text of ASCII bytes.
pub open spec fn ascii_text(bytes: Seq<u8>) -> Seq<char> {
    bytes.map_values(|b: u8| b as char)
}

/// The text of the value of a header, where all of it is visible ASCII.
pub open spec fn visible_text(bytes: Seq<u8>) -> Option<Seq<char>> {
    if forall|i: int| 0 <= i < bytes.len() ==> visible_byte(#[trigger] bytes[i]) {
        Some(ascii_text(bytes))
    } else {
        None
    }
}

/// Whether a text is the name of a header in small letters, and a short one.
pub open spec fn header_name(name: Seq<char>) -> bool {
    &&& 0 < name.len() <= 64
    &&& forall|i: int|
        0 <= i < name.len() ==> {
            let c = #[trigger] name[i];
            ('a' <= c && c <= 'z') || ('0' <= c && c <= '9') || c == '-'
        }
}

/// `HeaderMap::new` of the http crate: a map without headers.
#[verifier::external_body]
pub(crate) fn new_headers() -> (r: HeaderMap)
    ensures
        header_values(r) == no_headers(),
{
    HeaderMap::new()
}

/// `HeaderValue::from_str` of the http crate: the value with the bytes of the text, or an error
/// where one of them is a control character other than a tab.
#[verifier::external_body]
pub(crate) fn header_value(text: &str) -> (r: Result<HeaderValue, InvalidHeaderValue>)
    ensures
        match r {
            Ok(value) => header_text(text@) && header_bytes(value) == encode_utf8(text@),
            Err(_) => !header_text(text@),
        },
{
    HeaderValue::from_str(text)
}

/// `HeaderMap::insert` of the http crate with a name in small letters: the header has the given
/// value and no other; the other headers stay. The map has room for some 24000 names.
#[verifier::external_body]
pub(crate) fn insert_header(headers: &mut HeaderMap, name: &'static str, value: HeaderValue)
    requires
        header_name(name@),
        header_values(*old(headers)).dom().finite(),
        header_values(*old(headers)).dom().len() < 1000,
    ensures
        header_values(*final(headers)) == header_values(*old(headers)).insert(
            name@,
            seq![header_bytes(value)],
        ),
{
    headers.insert(name, value);
}

/// `HeaderMap::get` of the http crate with a name in small letters: the first value of the
/// header, where the map has it.
#[verifier::external_body]
pub(crate) fn first_header<'a>(headers: &'a HeaderMap, name: &str) -> (r: Option<&'a HeaderValue>)
    requires
        header_name(name@),
    ensures
        match r {
            Some(value) => {
                &&& header_values(*headers).dom().contains(name@)
                &&& header_values(*headers)[name@].len() > 0
                &&& header_bytes(*value) == header_values(*headers)[name@][0]
            },
            None => !header_values(*headers).dom().contains(name@),
        },
{
    headers.get(name)
}

/// `HeaderValue::to_str` of the http crate: the text of a value that is all visible ASCII, or
/// `None` where it reports an error.
#[verifier::external_body]
pub(crate) fn header_str(value: &HeaderValue) -> (r: Option<&str>)
    ensures
        match r {
            Some(text) => visible_text(header_bytes(*value)) == Some(text@),
            None => visible_text(header_bytes(*value)) is None,
        },
{
    value.to_str().ok()
}

/// `reqwest::blocking::multipart::Part::bytes`: a field with the given content, without file
/// name and media type.
#[verifier::external_body]
pub(crate) fn bytes_part(body: Vec<u8>) -> (r: Part)
    ensures
        part_fields(r) == (PartFields { body: body@, file_name: None, media_type: None }),
{
    Part::bytes(body)
}

/// `reqwest::blocking::multipart::Part::file_name`: the field with the given file name.
#[verifier::external_body]
pub(crate) fn with_file_name(part: Part, file_name: String) -> (r: Part)
    ensures
        part_fields(r) == (PartFields { file_name: Some(file_name@), ..part_fields(part) }),
{
    part.file_name(file_name)
}

/// `reqwest::blocking::multipart::Part::mime_str`: the field with the media type that is read
/// from the given text, or an error where it is none. Which texts are media types is not
/// stated.
#[verifier::external_body]
pub(crate) fn with_media_type(part: Part, content_type: &str) -> (r: Result<Part, reqwest::Error>)
    ensures
        match r {
            Ok(typed) => read_media_type(content_type@) is Some && part_fields(typed) == (
            PartFields { media_type: read_media_type(content_type@), ..part_fields(part) }),
            Err(_) => read_media_type(content_type@) is None,
        },
{
    part.mime_str(content_type)
}

/// `reqwest::blocking::multipart::Form::new`: a form without fields. Its boundary is random.
#[verifier::external_body]
pub(crate) fn new_form() -> (r: Form)
    ensures
        form_fields(r) == Seq::<(Seq<char>, PartFields)>::empty(),
{
    Form::new()
}

/// `reqwest::blocking::multipart::Form::part`: the form with one more field at its end.
#[verifier::external_body]
pub(crate) fn with_part(form: Form, name: &'static str, part: Part) -> (r: Form)
    ensures
        form_fields(r) == form_fields(form).push((name@, part_fields(part))),
{
    form.part(name, part)
}

/// `reqwest::blocking::multipart::Form::text`: the form with one more field at its end, which
/// holds the given text.
#[verifier::external_body]
pub(crate) fn with_text(form: Form, name: &'static str, value: String) -> (r: Form)
    ensures
        form_fields(r) == form_fields(form).push(
            (
                name@,
                PartFields { body: encode_utf8(value@), file_name: None, media_type: None },
            ),
        ),
{
    form.text(name, value)
}

/// `reqwest::Proxy::https`: the proxy for HTTPS at the URL that is read from the given text, or
/// an error where it is none. Which texts are URLs is not stated.
#[verifier::external_body]
pub(crate) fn https_proxy(url: &str) -> (r: Result<reqwest::Proxy, reqwest::Error>)
    ensures
        match r {
            Ok(proxy) => read_proxy_url(url@) == Some(proxy_url(proxy)),
            Err(_) => read_proxy_url(url@) is None,
        },
{
    reqwest::Proxy::https(url)
}

/// `reqwest::blocking::Client::builder`: a builder that was given no proxy, with a timeout of
/// half a minute for replies and none for connections.
#[verifier::external_body]
pub(crate) fn client_builder() -> (r: ClientBuilder)
    ensures
        builder_proxies(r) == Seq::<Seq<char>>::empty(),
        builder_limits(r) == default_limits(),
{
    Client::builder()
}

/// `reqwest::blocking::ClientBuilder::proxy`: the builder with one more proxy.
#[verifier::external_body]
pub(crate) fn with_proxy(builder: ClientBuilder, proxy: reqwest::Proxy) -> (r: ClientBuilder)
    ensures
        builder_proxies(r) == builder_proxies(builder).push(proxy_url(proxy)),
        builder_limits(r) == builder_limits(builder),
{
    builder.proxy(proxy)
}

/// `reqwest::blocking::ClientBuilder::connect_timeout`: the builder with the given timeout for
/// connections.
#[verifier::external_body]
pub(crate) fn with_connect_timeout(builder: ClientBuilder, seconds: u32) -> (r: ClientBuilder)
    ensures
        builder_proxies(r) == builder_proxies(builder),
        builder_limits(r) == (Limits { connect: Some(seconds as nat), ..builder_limits(builder) }),
{
    builder.connect_timeout(std::time::Duration::from_secs(seconds.into()))
}

/// `reqwest::blocking::ClientBuilder::timeout`: the builder with the given timeout for replies.
#[verifier::external_body]
pub(crate) fn with_request_timeout(builder: ClientBuilder, seconds: u32) -> (r: ClientBuilder)
    ensures
        builder_proxies(r) == builder_proxies(builder),
        builder_limits(r) == (Limits { request: Some(seconds as nat), ..builder_limits(builder) }),
{
    builder.timeout(std::time::Duration::from_secs(seconds.into()))
}

/// `reqwest::blocking::ClientBuilder::build`: a client with the proxies that the builder was
/// given and with its timeouts. Whether it can be built depends on the machine; it panics where it
/// is called from within an async runtime, whatever the builder.
#[verifier::external_body]
pub(crate) fn build_client(builder: ClientBuilder) -> (r: Result<Client, reqwest::Error>)
    ensures
        r matches Ok(client) ==> client_proxies(client) == builder_proxies(builder)
            && client_limits(client) == builder_limits(builder),
{
    builder.build()
}

} // verus!
