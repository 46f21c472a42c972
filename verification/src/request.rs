//! Request configuration: the builder, the client it produces, and the
//! request that wraps a client.

use vstd::prelude::*;

use crate::headers::Headers;
pub use crate::method::RequestType;

verus! {

/// What a request is configured with.
pub struct ClientView {
    /// The method.
    pub request_type: RequestType,
    /// The characters of the URL.
    pub url: Seq<char>,
    /// The header fields, by name.
    pub headers: Map<Seq<char>, Seq<char>>,
    /// The bytes of the body, where one was given.
    pub body: Option<Seq<u8>>,
}

impl ClientView {
    /// The configuration that nothing has been set in: `GET`, an empty URL,
    /// no header fields, no body.
    pub open spec fn unconfigured() -> ClientView {
        ClientView {
            request_type: RequestType::GET,
            url: Seq::empty(),
            headers: Map::empty(),
            body: None,
        }
    }

    /// This configuration with another method.
    pub open spec fn with_request_type(self, request_type: RequestType) -> ClientView {
        ClientView { request_type, ..self }
    }

    /// This configuration with another URL.
    pub open spec fn with_url(self, url: Seq<char>) -> ClientView {
        ClientView { url, ..self }
    }

    /// This configuration with the header field `name` set to `value`.
    pub open spec fn with_header(self, name: Seq<char>, value: Seq<char>) -> ClientView {
        ClientView { headers: self.headers.insert(name, value), ..self }
    }

    /// This configuration with the given body.
    pub open spec fn with_body(self, body: Seq<u8>) -> ClientView {
        ClientView { body: Some(body), ..self }
    }

    /// The bytes that are sent as the body: those configured, and none where
    /// no body was configured.
    pub open spec fn body_bytes(self) -> Seq<u8> {
        match self.body {
            Some(bytes) => bytes,
            None => Seq::empty(),
        }
    }
}

/// A configuration in which nothing has been set asks for `GET`, has an
/// empty URL, no header fields and no body, and so sends no bytes.
pub proof fn lemma_unconfigured_defaults()
    ensures
        ClientView::unconfigured().request_type == RequestType::GET,
        ClientView::unconfigured().url.len() == 0,
        ClientView::unconfigured().headers.dom() == Set::<Seq<char>>::empty(),
        ClientView::unconfigured().headers.len() == 0,
        ClientView::unconfigured().body is None,
        ClientView::unconfigured().body_bytes().len() == 0,
{
}

/// Setting a header field twice keeps the second value only.
pub proof fn lemma_header_last_write_wins(
    config: ClientView,
    name: Seq<char>,
    first: Seq<char>,
    second: Seq<char>,
)
    ensures
        config.with_header(name, first).with_header(name, second) == config.with_header(
            name,
            second,
        ),
        config.with_header(name, first).with_header(name, second).headers[name] == second,
{
    assert(config.headers.insert(name, first).insert(name, second) =~= config.headers.insert(
        name,
        second,
    ));
}

/// Setting one header field twice on a configuration without header fields
/// leaves exactly one field.
pub proof fn lemma_header_twice_is_single(
    config: ClientView,
    name: Seq<char>,
    first: Seq<char>,
    second: Seq<char>,
)
    requires
        config.headers == Map::<Seq<char>, Seq<char>>::empty(),
    ensures
        config.with_header(name, first).with_header(name, second).headers == Map::<
            Seq<char>,
            Seq<char>,
        >::empty().insert(name, second),
        config.with_header(name, first).with_header(name, second).headers.len() == 1,
{
    lemma_header_last_write_wins(config, name, first, second);
    let headers = Map::<Seq<char>, Seq<char>>::empty().insert(name, second);
    assert(headers.dom() =~= Set::<Seq<char>>::empty().insert(name));
}

/// Accumulates the configuration of a request.
pub struct ClientBuilder {
    request_type: RequestType,
    url: String,
    headers: Headers,
    body: Option<Vec<u8>>,
}

impl View for ClientBuilder {
    type V = ClientView;

    closed spec fn view(&self) -> ClientView {
        ClientView {
            request_type: self.request_type,
            url: self.url@,
            headers: self.headers@,
            body: match self.body {
                Some(bytes) => Some(bytes@),
                None => None,
            },
        }
    }
}

impl ClientBuilder {
    /// A builder in which nothing has been set.
    pub fn new() -> (builder: Self)
        ensures
            builder@ == ClientView::unconfigured(),
    {
        Self {
            request_type: RequestType::GET,
            url: String::new(),
            headers: Headers::new(),
            body: None,
        }
    }

    /// Sets the method.
    pub fn request_type(self, request_type: RequestType) -> (builder: Self)
        ensures
            builder@ == self@.with_request_type(request_type),
    {
        let mut builder = self;
        builder.request_type = request_type;
        builder
    }

    /// Sets the URL.
    pub fn url(self, url: &str) -> (builder: Self)
        ensures
            builder@ == self@.with_url(url@),
    {
        let mut builder = self;
        builder.url = url.to_owned();
        builder
    }

    /// Sets the header field `key` to `value`; a value set before for the
    /// same name is replaced.
    pub fn header(self, key: &str, value: &str) -> (builder: Self)
        ensures
            builder@ == self@.with_header(key@, value@),
    {
        let mut builder = self;
        builder.headers.insert(key.to_owned(), value.to_owned());
        builder
    }

    /// Sets the body.
    pub fn body(self, body: Vec<u8>) -> (builder: Self)
        ensures
            builder@ == self@.with_body(body@),
    {
        let mut builder = self;
        builder.body = Some(body);
        builder
    }

    /// The client with the configuration accumulated so far.
    pub fn build(self) -> (client: Client)
        ensures
            client@ == self@,
    {
        Client {
            request_type: self.request_type,
            url: self.url,
            headers: self.headers,
            body: self.body,
        }
    }
}

/// The configuration of one request.
pub struct Client {
    pub request_type: RequestType,
    pub url: String,
    pub headers: Headers,
    pub body: Option<Vec<u8>>,
}

impl View for Client {
    type V = ClientView;

    open spec fn view(&self) -> ClientView {
        ClientView {
            request_type: self.request_type,
            url: self.url@,
            headers: self.headers@,
            body: match self.body {
                Some(bytes) => Some(bytes@),
                None => None,
            },
        }
    }
}

impl Client {
    /// The bytes to send as the body: those configured, and none where no
    /// body was configured.
    pub fn body_bytes(&self) -> (bytes: Vec<u8>)
        ensures
            bytes@ == self@.body_bytes(),
    {
        match &self.body {
            Some(body) => body.clone(),
            None => Vec::new(),
        }
    }

    /// A `GET` request to the given URL, without header fields or body.
    pub fn get(url: &str) -> (request: Request)
        ensures
            request.client@ == ClientView::unconfigured().with_url(url@),
    {
        let client = ClientBuilder::new().url(url).build();
        Request { client }
    }
}

/// One request: a client and the operations that carry its exchange out.
pub struct Request {
    pub client: Client,
}

} // verus!
