//! The client: its configuration, the resolution of a request against it,
//! and the execution of a call through a transport.

use crate::base64;
use crate::error::{ApiError, ConfigError, RequestError};
use crate::form::{fields_of, form_urlencoded, optional, Fields, Params};
use crate::request::{ApiRequest, Method, RequestModel};
use crate::response::{delivered, process_response};
use crate::transport::{
    is_absolute_url, parses_as_url, RawResponse, ResolvedModel, ResolvedRequest,
};
use vstd::prelude::*;
use vstd::utf8::encode_utf8;

verus! {

/// The origin and version prefix of the service.
pub const DEFAULT_API_URL: &'static str = "https://api.stripe.com/v1";

/// The name of the header that carries the credential.
pub const AUTHORIZATION: &'static str = "Authorization";

/// The name of the header that says how the body is encoded.
pub const CONTENT_TYPE: &'static str = "Content-Type";

/// The content type of a form-encoded body.
pub const FORM_URLENCODED: &'static str = "application/x-www-form-urlencoded";

/// The name of the header that names the account a request is made for.
pub const STRIPE_ACCOUNT: &'static str = "Stripe-Account";

/// The configuration of a client as plain values.
pub ghost struct ClientModel {
    pub base_url: Seq<char>,
    pub secret_key: Seq<char>,
    pub default_tenant: Option<Seq<char>>,
}

impl ClientModel {
    /// The same configuration, acting for the account `tenant`.
    pub open spec fn derive(self, tenant: Seq<char>) -> ClientModel {
        ClientModel { default_tenant: Some(tenant), ..self }
    }
}

/// The account a request is made for: the one the request names, else the
/// one the client is set up for, else none.
pub open spec fn resolved_tenant(
    default_tenant: Option<Seq<char>>,
    tenant_override: Option<Seq<char>>,
) -> Option<Seq<char>> {
    if tenant_override is Some {
        tenant_override
    } else {
        default_tenant
    }
}

/// The value of the `Authorization` header: the Basic scheme with the
/// secret key as the user name and an empty password.
pub open spec fn credential(secret_key: Seq<char>) -> Seq<char> {
    "Basic "@ + base64::encoding(encode_utf8(secret_key.push(':')))
}

/// The headers of a request: the credential; the content type, for a
/// request with a body; the account, where one is resolved. No others.
pub open spec fn resolved_headers(client: ClientModel, request: RequestModel) -> Fields {
    seq![(AUTHORIZATION@, credential(client.secret_key))] + (if request.method.carries_body() {
        seq![(CONTENT_TYPE@, FORM_URLENCODED@)]
    } else {
        Seq::empty()
    }) + optional(STRIPE_ACCOUNT@, resolved_tenant(client.default_tenant, request.tenant_override))
}

/// The URL of a request: the base URL and the path, followed by a question
/// mark and the encoded query where that is not empty.
pub open spec fn resolved_url(client: ClientModel, request: RequestModel) -> Seq<char> {
    let location = client.base_url + request.path;
    match request.query_params {
        Some(query) if form_urlencoded(query).len() > 0 => location + seq!['?'] + form_urlencoded(
            query,
        ),
        _ => location,
    }
}

/// The body of a request: the encoded body parameters, where it has any.
pub open spec fn resolved_body(request: RequestModel) -> Option<Seq<u8>> {
    match request.body_params {
        Some(body) => Some(encode_utf8(form_urlencoded(body))),
        None => None,
    }
}

/// What a request resolves to with a given client.
pub open spec fn resolution(client: ClientModel, request: RequestModel) -> ResolvedModel {
    ResolvedModel {
        method: request.method,
        full_url: resolved_url(client, request),
        headers: resolved_headers(client, request),
        encoded_body: resolved_body(request),
    }
}

/// Whether `result` is what a call ends in when the resolved request
/// `resolved` is handed to `send` and the reply is read with `decode` and
/// `decode_error`.
pub open spec fn exchanged<T, S, D, E>(
    resolved: ResolvedModel,
    send: S,
    decode: D,
    decode_error: E,
    result: Result<T, ApiError>,
) -> bool where
    S: FnOnce(ResolvedRequest) -> Result<RawResponse, String>,
    D: FnOnce(Vec<u8>) -> Result<T, String>,
    E: FnOnce(Vec<u8>) -> Result<RequestError, String>,
 {
    exists|sent: ResolvedRequest, reply: Result<RawResponse, String>|
        sent@ == resolved && send.ensures((sent,), reply) && delivered(
            reply,
            decode,
            decode_error,
            result,
        )
}

/// Deriving a configuration for a tenant sets the tenant and nothing else.
/// The configuration it is derived from is a value of its own and stays
/// what it was.
pub proof fn lemma_derive_sets_only_the_tenant(client: ClientModel, tenant: Seq<char>)
    ensures
        client.derive(tenant).default_tenant == Some(tenant),
        client.derive(tenant).secret_key == client.secret_key,
        client.derive(tenant).base_url == client.base_url,
{
}

/// A GET or DELETE resolves to a request without a body, a POST to one
/// whose body is the encoding of its body parameters, be they none.
pub proof fn lemma_body_follows_the_verb(client: ClientModel, request: RequestModel)
    requires
        request.wf(),
    ensures
        request.method == Method::Get || request.method == Method::Delete ==> resolution(
            client,
            request,
        ).encoded_body is None,
        request.method == Method::Post ==> request.body_params is Some && resolution(
            client,
            request,
        ).encoded_body == Some(encode_utf8(form_urlencoded(request.body_params->0))),
{
}

/// The account that a request names beats the one the client acts for:
/// with both set the account header carries the request's; with only the
/// client's set it carries that; with neither there is no account header.
/// Whatever is set, at most the last header is an account header.
pub proof fn lemma_request_tenant_takes_precedence(client: ClientModel, request: RequestModel)
    ensures
        request.tenant_override is Some ==> resolved_headers(client, request).last() == (
            STRIPE_ACCOUNT@,
            request.tenant_override->0,
        ),
        request.tenant_override is None && client.default_tenant is Some ==> resolved_headers(
            client,
            request,
        ).last() == (STRIPE_ACCOUNT@, client.default_tenant->0),
        request.tenant_override is None && client.default_tenant is None ==> forall|i: int|
            0 <= i < resolved_headers(client, request).len() ==> (#[trigger] resolved_headers(
                client,
                request,
            )[i]).0 != STRIPE_ACCOUNT@,
        forall|i: int|
            0 <= i < resolved_headers(client, request).len() - 1 ==> (#[trigger] resolved_headers(
                client,
                request,
            )[i]).0 != STRIPE_ACCOUNT@,
{
    reveal_strlit("Authorization");
    reveal_strlit("Content-Type");
    reveal_strlit("Stripe-Account");
    assert(AUTHORIZATION@.len() != STRIPE_ACCOUNT@.len());
    assert(CONTENT_TYPE@.len() != STRIPE_ACCOUNT@.len());
}

/// Every request is sent with the credential first, and with the content
/// type of a form exactly when it has a body.
pub proof fn lemma_fixed_headers(client: ClientModel, request: RequestModel)
    ensures
        resolved_headers(client, request)[0] == (AUTHORIZATION@, credential(client.secret_key)),
        request.method.carries_body() ==> resolved_headers(client, request)[1] == (
            CONTENT_TYPE@,
            FORM_URLENCODED@,
        ),
        resolved_headers(client, request).len() == 1 + (if request.method.carries_body() {
            1int
        } else {
            0int
        }) + (if resolved_tenant(client.default_tenant, request.tenant_override) is Some {
            1int
        } else {
            0int
        }),
{
}

/// Resolving is a function of what the client and the request say: two
/// requests that say the same resolve, with one client, to the same verb,
/// URL, headers and body.
pub proof fn lemma_equal_requests_resolve_alike<T, U>(
    client: Client,
    first: ApiRequest<T>,
    second: ApiRequest<U>,
    a: ResolvedRequest,
    b: ResolvedRequest,
)
    requires
        first@ == second@,
        a@ == resolution(client@, first@),
        b@ == resolution(client@, second@),
    ensures
        a@.method == b@.method,
        a@.full_url == b@.full_url,
        a@.headers == b@.headers,
        a@.encoded_body == b@.encoded_body,
{
}

/// The configuration that every call of one client shares.
#[derive(Debug)]
pub struct Client {
    api_url: String,
    secret_key: String,
    stripe_account_id: Option<String>,
}

impl View for Client {
    type V = ClientModel;

    closed spec fn view(&self) -> ClientModel {
        ClientModel {
            base_url: self.api_url@,
            secret_key: self.secret_key@,
            default_tenant: match self.stripe_account_id {
                Some(account) => Some(account@),
                None => None,
            },
        }
    }
}

impl Clone for Client {
    fn clone(&self) -> (copy: Client)
        ensures
            copy@ == self@,
    {
        proof {
            use_type_invariant(self);
        }
        Client {
            api_url: self.api_url.clone(),
            secret_key: self.secret_key.clone(),
            stripe_account_id: self.stripe_account_id.clone(),
        }
    }
}

impl Client {
    #[verifier::type_invariant]
    spec fn inv(&self) -> bool {
        parses_as_url(self.api_url@)
    }

    /// A client for the service at its usual address.
    pub fn new(secret_key: &str) -> (r: Result<Client, ConfigError>)
        ensures
            match r {
                Ok(client) => parses_as_url(DEFAULT_API_URL@) && client@ == (ClientModel {
                    base_url: DEFAULT_API_URL@,
                    secret_key: secret_key@,
                    default_tenant: None,
                }),
                Err(e) => !parses_as_url(DEFAULT_API_URL@) && e.base_url@ == DEFAULT_API_URL@,
            },
    {
        Client::with_api_url(secret_key, DEFAULT_API_URL)
    }

    /// A client for the service at `api_url`, which has to be an absolute
    /// URL.
    pub fn with_api_url(secret_key: &str, api_url: &str) -> (r: Result<Client, ConfigError>)
        ensures
            match r {
                Ok(client) => parses_as_url(api_url@) && client@ == (ClientModel {
                    base_url: api_url@,
                    secret_key: secret_key@,
                    default_tenant: None,
                }),
                Err(e) => !parses_as_url(api_url@) && e.base_url@ == api_url@,
            },
    {
        if is_absolute_url(api_url) {
            Ok(
                Client {
                    api_url: String::from_str(api_url),
                    secret_key: String::from_str(secret_key),
                    stripe_account_id: None,
                },
            )
        } else {
            Err(ConfigError { base_url: String::from_str(api_url) })
        }
    }

    /// A new client that differs from this one only in acting for the
    /// account `account_id`. This client stays as it is.
    pub fn with_stripe_account_id(&self, account_id: &str) -> (derived: Client)
        ensures
            derived@ == self@.derive(account_id@),
    {
        proof {
            use_type_invariant(self);
        }
        Client {
            api_url: self.api_url.clone(),
            secret_key: self.secret_key.clone(),
            stripe_account_id: Some(String::from_str(account_id)),
        }
    }

    /// Makes this client act for the account `account_id` from now on.
    pub fn set_stripe_account_id(&mut self, account_id: &str)
        ensures
            final(self)@ == old(self)@.derive(account_id@),
    {
        proof {
            use_type_invariant(&*self);
        }
        self.stripe_account_id = Some(String::from_str(account_id));
    }

    /// The headers with which `request` is sent. The account that the
    /// request names takes precedence over the one this client acts for.
    pub fn headers<T>(&self, request: &ApiRequest<T>) -> (headers: Vec<(String, String)>)
        ensures
            fields_of(headers@) == resolved_headers(self@, request@),
    {
        let mut userpass = self.secret_key.clone();
        userpass.push(':');
        let mut value = String::from_str("Basic ");
        value.append(base64::encode(userpass.as_str().as_bytes()).as_str());
        let mut headers: Vec<(String, String)> = Vec::new();
        headers.push((String::from_str(AUTHORIZATION), value));
        if request.method().has_body() {
            headers.push((String::from_str(CONTENT_TYPE), String::from_str(FORM_URLENCODED)));
        }
        match request.stripe_account() {
            Some(account) => {
                headers.push((String::from_str(STRIPE_ACCOUNT), account.clone()));
            },
            None => match &self.stripe_account_id {
                Some(account) => {
                    headers.push((String::from_str(STRIPE_ACCOUNT), account.clone()));
                },
                None => {},
            },
        }
        assert(fields_of(headers@) =~= resolved_headers(self@, request@));
        headers
    }

    /// The URL to which `request` is sent.
    pub fn url<T>(&self, request: &ApiRequest<T>) -> (url: String)
        ensures
            url@ == resolved_url(self@, request@),
    {
        let mut url = self.api_url.clone();
        url.append(request.path());
        if let Some(query) = request.query_params() {
            let encoded = query.encode();
            if !encoded.as_str().is_empty() {
                url.push('?');
                url.append(encoded.as_str());
            }
        }
        url
    }

    /// The body with which `request` is sent: none for a GET or DELETE,
    /// the encoded parameters, which may be none, for a POST.
    pub fn body<T>(&self, request: &ApiRequest<T>) -> (body: Option<Vec<u8>>)
        ensures
            body is Some <==> request@.method.carries_body(),
            resolved_body(request@) == match body {
                Some(bytes) => Some(bytes@),
                None => None,
            },
    {
        match request.body_params() {
            Some(params) => Some(params.encode().as_str().as_bytes_vec()),
            None => None,
        }
    }

    /// Resolves `request` against this client: where it goes, with which
    /// headers and with which body.
    pub fn resolve<T>(&self, request: &ApiRequest<T>) -> (resolved: ResolvedRequest)
        ensures
            resolved@ == resolution(self@, request@),
            resolved.encoded_body is Some <==> request@.method == Method::Post,
    {
        ResolvedRequest {
            method: request.method(),
            full_url: self.url(request),
            headers: self.headers(request),
            encoded_body: self.body(request),
        }
    }

    /// Makes the call that `request` describes: resolves it, hands it to
    /// `send` once, and reads the reply with the decoder that its status
    /// selects. A failure of `send` ends the call as a transport failure.
    pub fn execute<T, S, D, E>(
        &self,
        request: &ApiRequest<T>,
        send: S,
        decode: D,
        decode_error: E,
    ) -> (result: Result<T, ApiError>) where
        S: FnOnce(ResolvedRequest) -> Result<RawResponse, String>,
        D: FnOnce(Vec<u8>) -> Result<T, String>,
        E: FnOnce(Vec<u8>) -> Result<RequestError, String>,

        requires
            forall|sent: ResolvedRequest| send.requires((sent,)),
            forall|body: Vec<u8>| decode.requires((body,)),
            forall|body: Vec<u8>| decode_error.requires((body,)),
        ensures
            exchanged(resolution(self@, request@), send, decode, decode_error, result),
            result matches Err(e) ==> e.wf(),
    {
        let resolved = self.resolve(request);
        process_response(send(resolved), decode, decode_error)
    }

    /// Executes a GET of `path` without parameters.
    pub fn get<T, S, D, E>(
        &self,
        path: &str,
        send: S,
        decode: D,
        decode_error: E,
    ) -> (result: Result<T, ApiError>) where
        S: FnOnce(ResolvedRequest) -> Result<RawResponse, String>,
        D: FnOnce(Vec<u8>) -> Result<T, String>,
        E: FnOnce(Vec<u8>) -> Result<RequestError, String>,

        requires
            path@.len() > 0,
            path@[0] == '/',
            forall|sent: ResolvedRequest| send.requires((sent,)),
            forall|body: Vec<u8>| decode.requires((body,)),
            forall|body: Vec<u8>| decode_error.requires((body,)),
        ensures
            exchanged(
                resolution(
                    self@,
                    RequestModel::bare(Method::Get, path@),
                ),
                send,
                decode,
                decode_error,
                result,
            ),
            result matches Err(e) ==> e.wf(),
    {
        let request: ApiRequest<T> = ApiRequest::new(Method::Get, path);
        self.execute(&request, send, decode, decode_error)
    }

    /// Executes a GET of `path` with `query_params` in the query string.
    pub fn get_with_params<T, S, D, E>(
        &self,
        path: &str,
        query_params: Params,
        send: S,
        decode: D,
        decode_error: E,
    ) -> (result: Result<T, ApiError>) where
        S: FnOnce(ResolvedRequest) -> Result<RawResponse, String>,
        D: FnOnce(Vec<u8>) -> Result<T, String>,
        E: FnOnce(Vec<u8>) -> Result<RequestError, String>,

        requires
            path@.len() > 0,
            path@[0] == '/',
            forall|sent: ResolvedRequest| send.requires((sent,)),
            forall|body: Vec<u8>| decode.requires((body,)),
            forall|body: Vec<u8>| decode_error.requires((body,)),
        ensures
            exchanged(
                resolution(
                    self@,
                    RequestModel {
                        query_params: Some(query_params@),
                        ..RequestModel::bare(Method::Get, path@)
                    },
                ),
                send,
                decode,
                decode_error,
                result,
            ),
            result matches Err(e) ==> e.wf(),
    {
        let request: ApiRequest<T> = ApiRequest::new(Method::Get, path).with_query_params(query_params);
        self.execute(&request, send, decode, decode_error)
    }

    /// Executes a POST to `path` with an empty body.
    pub fn post<T, S, D, E>(
        &self,
        path: &str,
        send: S,
        decode: D,
        decode_error: E,
    ) -> (result: Result<T, ApiError>) where
        S: FnOnce(ResolvedRequest) -> Result<RawResponse, String>,
        D: FnOnce(Vec<u8>) -> Result<T, String>,
        E: FnOnce(Vec<u8>) -> Result<RequestError, String>,

        requires
            path@.len() > 0,
            path@[0] == '/',
            forall|sent: ResolvedRequest| send.requires((sent,)),
            forall|body: Vec<u8>| decode.requires((body,)),
            forall|body: Vec<u8>| decode_error.requires((body,)),
        ensures
            exchanged(
                resolution(
                    self@,
                    RequestModel::bare(Method::Post, path@),
                ),
                send,
                decode,
                decode_error,
                result,
            ),
            result matches Err(e) ==> e.wf(),
    {
        let request: ApiRequest<T> = ApiRequest::new(Method::Post, path);
        self.execute(&request, send, decode, decode_error)
    }

    /// Executes a POST to `path` with `body_params` as the body.
    pub fn post_with_params<T, S, D, E>(
        &self,
        path: &str,
        body_params: Params,
        send: S,
        decode: D,
        decode_error: E,
    ) -> (result: Result<T, ApiError>) where
        S: FnOnce(ResolvedRequest) -> Result<RawResponse, String>,
        D: FnOnce(Vec<u8>) -> Result<T, String>,
        E: FnOnce(Vec<u8>) -> Result<RequestError, String>,

        requires
            path@.len() > 0,
            path@[0] == '/',
            forall|sent: ResolvedRequest| send.requires((sent,)),
            forall|body: Vec<u8>| decode.requires((body,)),
            forall|body: Vec<u8>| decode_error.requires((body,)),
        ensures
            exchanged(
                resolution(
                    self@,
                    RequestModel {
                        body_params: Some(body_params@),
                        ..RequestModel::bare(Method::Post, path@)
                    },
                ),
                send,
                decode,
                decode_error,
                result,
            ),
            result matches Err(e) ==> e.wf(),
    {
        let request: ApiRequest<T> = ApiRequest::new(Method::Post, path).with_body_params(body_params);
        self.execute(&request, send, decode, decode_error)
    }

    /// Executes a DELETE of `path` without parameters.
    pub fn delete<T, S, D, E>(
        &self,
        path: &str,
        send: S,
        decode: D,
        decode_error: E,
    ) -> (result: Result<T, ApiError>) where
        S: FnOnce(ResolvedRequest) -> Result<RawResponse, String>,
        D: FnOnce(Vec<u8>) -> Result<T, String>,
        E: FnOnce(Vec<u8>) -> Result<RequestError, String>,

        requires
            path@.len() > 0,
            path@[0] == '/',
            forall|sent: ResolvedRequest| send.requires((sent,)),
            forall|body: Vec<u8>| decode.requires((body,)),
            forall|body: Vec<u8>| decode_error.requires((body,)),
        ensures
            exchanged(
                resolution(
                    self@,
                    RequestModel::bare(Method::Delete, path@),
                ),
                send,
                decode,
                decode_error,
                result,
            ),
            result matches Err(e) ==> e.wf(),
    {
        let request: ApiRequest<T> = ApiRequest::new(Method::Delete, path);
        self.execute(&request, send, decode, decode_error)
    }

    /// Executes a DELETE of `path` with `query_params` in the query string.
    pub fn delete_with_params<T, S, D, E>(
        &self,
        path: &str,
        query_params: Params,
        send: S,
        decode: D,
        decode_error: E,
    ) -> (result: Result<T, ApiError>) where
        S: FnOnce(ResolvedRequest) -> Result<RawResponse, String>,
        D: FnOnce(Vec<u8>) -> Result<T, String>,
        E: FnOnce(Vec<u8>) -> Result<RequestError, String>,

        requires
            path@.len() > 0,
            path@[0] == '/',
            forall|sent: ResolvedRequest| send.requires((sent,)),
            forall|body: Vec<u8>| decode.requires((body,)),
            forall|body: Vec<u8>| decode_error.requires((body,)),
        ensures
            exchanged(
                resolution(
                    self@,
                    RequestModel {
                        query_params: Some(query_params@),
                        ..RequestModel::bare(Method::Delete, path@)
                    },
                ),
                send,
                decode,
                decode_error,
                result,
            ),
            result matches Err(e) ==> e.wf(),
    {
        let request: ApiRequest<T> = ApiRequest::new(Method::Delete, path).with_query_params(query_params);
        self.execute(&request, send, decode, decode_error)
    }

    /// The base URL, which is an absolute URL.
    pub fn api_url(&self) -> (url: &str)
        ensures
            url@ == self@.base_url,
            parses_as_url(url@),
    {
        proof {
            use_type_invariant(self);
        }
        self.api_url.as_str()
    }

    /// The secret key.
    pub fn secret_key(&self) -> (key: &str)
        ensures
            key@ == self@.secret_key,
    {
        self.secret_key.as_str()
    }

    /// The account this client acts for, if any.
    pub fn stripe_account_id(&self) -> (account: Option<&String>)
        ensures
            self@.default_tenant == match account {
                Some(a) => Some(a@),
                None => None,
            },
    {
        self.stripe_account_id.as_ref()
    }
}

} // verus!
