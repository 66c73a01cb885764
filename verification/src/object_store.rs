//! Access to an S3-compatible object store.

use crate::text;
use vstd::prelude::*;

verus! {

/// An OpenDAL storage operator: carried through, never looked into.
#[verifier::external_type_specification]
#[verifier::external_body]
pub struct ExOperator(opendal::Operator);

/// An OpenDAL error: carried through, never looked into.
#[verifier::external_type_specification]
#[verifier::external_body]
pub struct ExOpenDalError(opendal::Error);

/// The HTTP transport of an OpenDAL operator: carried through, never looked into.
#[verifier::external_type_specification]
#[verifier::external_body]
pub struct ExHttpClient(opendal::raw::HttpClient);

/// In nanoseconds.
pub const DEFAULT_TIMEOUT: u64 = 30000000000;

pub const DEFAULT_MAX_RETRIES: usize = 3;

pub type ObjectStoreOperatorResult<T> = Result<T, ObjectStoreOperatorError>;

/// How an object-store request names its bucket.
#[derive(Clone, Copy, Debug, PartialEq, Eq, Hash, Structural)]
pub enum AddressingStyle {
    Virtual,
    Path,
}

impl AddressingStyle {
    pub fn uses_virtual_host_style(&self) -> (answer: bool)
        ensures
            answer == (*self is Virtual),
    {
        matches!(self, Self::Virtual)
    }
}

#[derive(Debug)]
pub struct ObjectStoreOperatorConfig {
    pub bucket: String,
    pub endpoint: String,
    pub region: String,
    pub addressing_style: AddressingStyle,
    /// In nanoseconds.
    pub timeout: Option<u64>,
    pub max_retries: Option<usize>,
    /// Whether requests carry OAuth bearer tokens.
    pub bearer_tokens: bool,
}

#[derive(Debug)]
pub struct ResolvedCredential {
    pub access_key_id: String,
    pub secret_access_key: String,
    pub security_token: Option<String>,
}

#[derive(Debug)]
pub struct OperatorWithCredential {
    operator: opendal::Operator,
    credential: Option<ResolvedCredential>,
}

impl OperatorWithCredential {
    pub closed spec fn held_operator(&self) -> opendal::Operator {
        self.operator
    }

    pub closed spec fn held_credential(&self) -> Option<ResolvedCredential> {
        self.credential
    }

    pub fn new(operator: opendal::Operator, credential: Option<ResolvedCredential>) -> (pair:
        OperatorWithCredential)
        ensures
            pair.held_operator() == operator,
            pair.held_credential() == credential,
    {
        OperatorWithCredential { operator, credential }
    }

    pub fn operator(&self) -> (operator: &opendal::Operator)
        ensures
            *operator == self.held_operator(),
    {
        &self.operator
    }

    pub fn credential(&self) -> (credential: Option<&ResolvedCredential>)
        ensures
            match credential {
                Some(credential) => self.held_credential() == Some(*credential),
                None => self.held_credential() is None,
            },
    {
        match &self.credential {
            Some(credential) => Some(credential),
            None => None,
        }
    }
}

/// What went wrong with an object store. A text is that of an error of unknown kind.
#[derive(Debug)]
pub enum ObjectStoreOperatorError {
    OpenDal(opendal::Error),
    CredentialRefresh(String),
    OperatorBuild(opendal::Error),
}

/// The settings of the S3 service of an operator.
#[derive(Debug)]
pub struct S3Settings {
    pub bucket: String,
    pub endpoint: Option<String>,
    pub region: Option<String>,
    pub enable_virtual_host_style: bool,
    /// Look for no credentials in profiles and in the environment.
    pub disable_config_load: bool,
    /// Look for no credentials at the metadata service of a machine.
    pub disable_ec2_metadata: bool,
    pub allow_anonymous: bool,
    pub access_key_id: Option<String>,
    pub secret_access_key: Option<String>,
    pub session_token: Option<String>,
}

/// The limits of the requests of an operator.
#[derive(Clone, Copy, Debug, PartialEq, Eq, Structural)]
pub struct RequestLimits {
    /// In nanoseconds, for an operation and for each part of a transfer.
    pub timeout: u64,
    pub max_retries: usize,
}

/// A setting that is left out where its text is empty.
pub open spec fn set_text(text: String) -> Option<String> {
    if text@.len() == 0 {
        None
    } else {
        Some(text)
    }
}

fn setting(text: &String) -> (setting: Option<String>)
    ensures
        setting == set_text(*text),
{
    if text.as_str().is_empty() {
        None
    } else {
        Some(text.clone())
    }
}

/// A text without the slashes at its end.
pub open spec fn without_end_slashes(text: Seq<char>) -> Seq<char>
    decreases text.len(),
{
    if text.len() > 0 && text.last() == '/' {
        without_end_slashes(text.drop_last())
    } else {
        text
    }
}

fn trim_end_slashes(text: &String) -> (trimmed: String)
    ensures
        trimmed@ == without_end_slashes(text@),
{
    let mut end: usize = text.as_str().unicode_len();
    assert(text@.take(end as int) =~= text@);
    while end > 0 && text.as_str().get_char(end - 1) == '/'
        invariant
            end <= text@.len(),
            without_end_slashes(text@) == without_end_slashes(text@.take(end as int)),
        decreases end,
    {
        assert(text@.take(end as int).drop_last() =~= text@.take(end - 1));
        end -= 1;
    }
    assert(text@.subrange(0, end as int) =~= text@.take(end as int));
    text.as_str().substring_char(0, end).to_owned()
}

/// Whether these are the settings for a configuration and a credential. Bearer tokens own
/// authentication: no credential is used or looked for then.
pub open spec fn are_settings(
    settings: S3Settings,
    config: ObjectStoreOperatorConfig,
    credential: Option<ResolvedCredential>,
) -> bool {
    let used = if config.bearer_tokens {
        None
    } else {
        credential
    };
    &&& settings.bucket == config.bucket
    &&& if config.endpoint@.len() == 0 {
        settings.endpoint is None
    } else {
        settings.endpoint is Some && settings.endpoint->0@ == without_end_slashes(config.endpoint@)
    }
    &&& settings.region == set_text(config.region)
    &&& settings.enable_virtual_host_style == (config.addressing_style is Virtual)
    &&& settings.disable_config_load == config.bearer_tokens
    &&& settings.disable_ec2_metadata == config.bearer_tokens
    &&& settings.allow_anonymous == (used is None)
    &&& match used {
        Some(credential) => {
            &&& settings.access_key_id == set_text(credential.access_key_id)
            &&& settings.secret_access_key == set_text(credential.secret_access_key)
            &&& settings.session_token == match credential.security_token {
                Some(token) => set_text(token),
                None => None,
            }
        },
        None => {
            &&& settings.access_key_id is None
            &&& settings.secret_access_key is None
            &&& settings.session_token is None
        },
    }
}

/// The settings of an operator for a configuration and a credential.
pub fn operator_settings(
    config: &ObjectStoreOperatorConfig,
    credential: Option<&ResolvedCredential>,
) -> (settings: S3Settings)
    ensures
        are_settings(
            settings,
            *config,
            match credential {
                Some(credential) => Some(*credential),
                None => None,
            },
        ),
{
    let endpoint = if config.endpoint.as_str().is_empty() {
        None
    } else {
        Some(trim_end_slashes(&config.endpoint))
    };
    let mut settings = S3Settings {
        bucket: config.bucket.clone(),
        endpoint,
        region: setting(&config.region),
        enable_virtual_host_style: config.addressing_style.uses_virtual_host_style(),
        disable_config_load: config.bearer_tokens,
        disable_ec2_metadata: config.bearer_tokens,
        allow_anonymous: true,
        access_key_id: None,
        secret_access_key: None,
        session_token: None,
    };
    if !config.bearer_tokens {
        if let Some(credential) = credential {
            settings.allow_anonymous = false;
            settings.access_key_id = setting(&credential.access_key_id);
            settings.secret_access_key = setting(&credential.secret_access_key);
            settings.session_token =
            match &credential.security_token {
                Some(token) => setting(token),
                None => None,
            };
        }
    }
    settings
}

/// The limits that a configuration asks for, or the default ones.
pub open spec fn limits_of(config: ObjectStoreOperatorConfig) -> RequestLimits {
    RequestLimits {
        timeout: match config.timeout {
            Some(timeout) => timeout,
            None => DEFAULT_TIMEOUT,
        },
        max_retries: match config.max_retries {
            Some(max_retries) => max_retries,
            None => DEFAULT_MAX_RETRIES,
        },
    }
}

/// The limits of the requests that a configuration asks for.
pub fn request_limits(config: &ObjectStoreOperatorConfig) -> (limits: RequestLimits)
    ensures
        limits == limits_of(*config),
{
    RequestLimits {
        timeout: match config.timeout {
            Some(timeout) => timeout,
            None => DEFAULT_TIMEOUT,
        },
        max_retries: match config.max_retries {
            Some(max_retries) => max_retries,
            None => DEFAULT_MAX_RETRIES,
        },
    }
}

/// Whether a bucket can be addressed: by its name, which may hold no dot as part of a host name.
pub open spec fn is_addressable(bucket: Seq<char>, virtual_host_style: bool) -> bool {
    bucket.len() > 0 && !(virtual_host_style && bucket.contains('.'))
}

/// A layer through which the requests of an operator go.
pub enum OperatorLayer {
    Transport { client: opendal::raw::HttpClient },
    /// In nanoseconds, for an operation and for a part of a transfer.
    Timeouts { operation: u64, part: u64 },
    Retries { max_retries: usize },
}

/// What an operator was made of: its settings, and the layers that were put on it, the innermost
/// first.
pub struct OperatorParts {
    pub settings: S3Settings,
    pub layers: Seq<OperatorLayer>,
}

impl OperatorParts {
    /// These parts with one more layer.
    pub open spec fn with_layer(self, layer: OperatorLayer) -> OperatorParts {
        OperatorParts { layers: self.layers.push(layer), ..self }
    }
}

/// What an OpenDAL operator holds of the settings and the layers that it was made of.
pub uninterp spec fn operator_parts(operator: opendal::Operator) -> OperatorParts;

/// `opendal::Operator::from_config` with an `S3Config` of these settings, and `finish`: the
/// operator holds the settings. Fails without a bucket that can be addressed, and succeeds with
/// one and a region. Where no region is set, it takes one from profiles or the environment, and
/// fails where that is disabled; what else it takes from there is left unsaid.
#[verifier::external_body]
fn s3_operator(settings: S3Settings) -> (operator: Result<opendal::Operator, opendal::Error>)
    ensures
        operator is Ok ==> is_addressable(settings.bucket@, settings.enable_virtual_host_style),
        is_addressable(settings.bucket@, settings.enable_virtual_host_style)
            && settings.region is Some ==> operator is Ok,
        settings.region is None && settings.disable_config_load ==> operator is Err,
        operator matches Ok(operator) ==> operator_parts(operator) == (OperatorParts {
            settings,
            layers: seq![],
        }),
{
    let mut config = opendal::services::S3Config::default();
    config.bucket = settings.bucket;
    config.endpoint = settings.endpoint;
    config.region = settings.region;
    config.enable_virtual_host_style = settings.enable_virtual_host_style;
    config.disable_config_load = settings.disable_config_load;
    config.disable_ec2_metadata = settings.disable_ec2_metadata;
    config.allow_anonymous = settings.allow_anonymous;
    config.access_key_id = settings.access_key_id;
    config.secret_access_key = settings.secret_access_key;
    config.session_token = settings.session_token;
    Ok(opendal::Operator::from_config(config)?.finish())
}

/// `opendal::Operator::layer` with an `HttpClientLayer`: the operator gets this transport as its
/// outermost layer and stays as it is otherwise.
#[verifier::external_body]
fn with_transport(operator: opendal::Operator, client: opendal::raw::HttpClient) -> (layered:
    opendal::Operator)
    ensures
        operator_parts(layered) == operator_parts(operator).with_layer(
            OperatorLayer::Transport { client },
        ),
{
    operator.layer(opendal::layers::HttpClientLayer::new(client))
}

/// `opendal::Operator::layer` with a `TimeoutLayer`: the operator gets these timeouts, in
/// nanoseconds, as its outermost layer and stays as it is otherwise.
#[verifier::external_body]
fn with_timeouts(operator: opendal::Operator, operation: u64, part: u64) -> (layered:
    opendal::Operator)
    ensures
        operator_parts(layered) == operator_parts(operator).with_layer(
            OperatorLayer::Timeouts { operation, part },
        ),
{
    let timeouts = opendal::layers::TimeoutLayer::new()
        .with_timeout(std::time::Duration::from_nanos(operation))
        .with_io_timeout(std::time::Duration::from_nanos(part));
    operator.layer(timeouts)
}

/// `opendal::Operator::layer` with a `RetryLayer`: the operator gets this number of retries as its
/// outermost layer and stays as it is otherwise.
#[verifier::external_body]
fn with_retries(operator: opendal::Operator, max_retries: usize) -> (layered: opendal::Operator)
    ensures
        operator_parts(layered) == operator_parts(operator).with_layer(
            OperatorLayer::Retries { max_retries },
        ),
{
    operator.layer(opendal::layers::RetryLayer::new().with_max_times(max_retries))
}

/// The layers of an operator: a request is retried as a whole, every try of it is timed, and the
/// timeout for an operation is that for a part of a transfer too.
pub open spec fn layers_for(transport: opendal::raw::HttpClient, limits: RequestLimits) -> Seq<
    OperatorLayer,
> {
    seq![
        OperatorLayer::Transport { client: transport },
        OperatorLayer::Timeouts { operation: limits.timeout, part: limits.timeout },
        OperatorLayer::Retries { max_retries: limits.max_retries },
    ]
}

/// Puts the transport and the limits of its requests on an operator.
fn layered(
    operator: opendal::Operator,
    transport: opendal::raw::HttpClient,
    limits: RequestLimits,
) -> (layered: opendal::Operator)
    ensures
        operator_parts(layered) == (OperatorParts {
            layers: operator_parts(operator).layers + layers_for(transport, limits),
            ..operator_parts(operator)
        }),
{
    let reached = with_transport(operator, transport);
    let timed = with_timeouts(reached, limits.timeout, limits.timeout);
    let layered = with_retries(timed, limits.max_retries);
    assert(operator_parts(layered).layers =~= operator_parts(operator).layers + layers_for(
        transport,
        limits,
    ));
    layered
}

/// Builds an operator for a configuration and a credential, on a transport of the caller's.
pub fn build_object_store_operator(
    config: &ObjectStoreOperatorConfig,
    credential: Option<&ResolvedCredential>,
    transport: opendal::raw::HttpClient,
) -> (operator: ObjectStoreOperatorResult<opendal::Operator>)
    ensures
        match operator {
            Ok(operator) => {
                &&& is_addressable(config.bucket@, config.addressing_style is Virtual)
                &&& config.bearer_tokens ==> config.region@.len() > 0
                &&& are_settings(
                    operator_parts(operator).settings,
                    *config,
                    match credential {
                        Some(credential) => Some(*credential),
                        None => None,
                    },
                )
                &&& operator_parts(operator).layers == layers_for(transport, limits_of(*config))
            },
            Err(error) => error is OperatorBuild && !(is_addressable(
                config.bucket@,
                config.addressing_style is Virtual,
            ) && config.region@.len() > 0),
        },
{
    let settings = operator_settings(config, credential);
    match s3_operator(settings) {
        Ok(operator) => {
            let limits = request_limits(config);
            let operator = layered(operator, transport, limits);
            assert(operator_parts(operator).layers =~= layers_for(transport, limits));
            Ok(operator)
        },
        Err(error) => Err(ObjectStoreOperatorError::OperatorBuild(error)),
    }
}

/// Whether a byte may stand in the value of an HTTP header.
pub open spec fn is_header_byte(byte: u8) -> bool {
    byte == 9 || (byte >= 32 && byte != 127)
}

/// `http::HeaderValue::from_str`: the bytes of the text, where each of them may stand in a header
/// value.
#[verifier::external_body]
fn header_value(value: &str) -> (bytes: Option<Vec<u8>>)
    ensures
        match bytes {
            Some(bytes) => bytes@ == text::text_bytes(value@) && forall|i: int|
                0 <= i < bytes@.len() ==> is_header_byte(#[trigger] bytes@[i]),
            None => exists|i: int|
                0 <= i < text::text_bytes(value@).len() && !is_header_byte(
                    #[trigger] text::text_bytes(value@)[i],
                ),
        },
{
    match http::HeaderValue::from_str(value) {
        Ok(value) => Some(value.as_bytes().to_vec()),
        Err(_) => None,
    }
}

/// The `Authorization` header that carries a bearer token, where the token can stand in one.
pub fn bearer_authorization(access_token: &str) -> (header: Option<Vec<u8>>)
    ensures
        ({
            let value = text::text_bytes("Bearer "@ + access_token@);
            match header {
                Some(bytes) => bytes@ == value && forall|i: int|
                    0 <= i < value.len() ==> is_header_byte(#[trigger] value[i]),
                None => exists|i: int| 0 <= i < value.len() && !is_header_byte(#[trigger] value[i]),
            }
        }),
{
    header_value(text::concat2("Bearer ", access_token).as_str())
}

/// Whether a parameter of a query starts here and is `uploads`, with or without a value.
pub open spec fn uploads_at(query: Seq<char>, start: int) -> bool {
    let name = "uploads"@;
    let end = start + name.len();
    &&& 0 <= start
    &&& start == 0 || query[start - 1] == '&'
    &&& end <= query.len()
    &&& query.subrange(start, end) == name
    &&& end == query.len() || query[end] == '&' || query[end] == '='
}

/// Whether a query has the parameter `uploads`.
pub open spec fn has_uploads(query: Seq<char>) -> bool {
    exists|start: int| #[trigger] uploads_at(query, start)
}

fn asks_for_uploads(query: &str) -> (answer: bool)
    ensures
        answer == has_uploads(query@),
{
    let name = "uploads";
    let length: usize = query.unicode_len();
    let width: usize = name.unicode_len();
    if width > length {
        return false;
    }
    let last: usize = length - width;
    let mut start: usize = 0;
    while start <= last
        invariant
            name@ == "uploads"@,
            width == name@.len(),
            length == query@.len(),
            last + width == length,
            start <= last + 1,
            forall|earlier: int| earlier < start ==> !(#[trigger] uploads_at(query@, earlier)),
        decreases last + 1 - start,
    {
        let begins = start == 0 || query.get_char(start - 1) == '&';
        if begins && text::text_equal(query.substring_char(start, start + width), name) {
            let end: usize = start + width;
            if end == length || query.get_char(end) == '&' || query.get_char(end) == '=' {
                assert(uploads_at(query@, start as int));
                return true;
            }
        }
        assert(!uploads_at(query@, start as int));
        if start == last {
            assert forall|any: int| !(#[trigger] uploads_at(query@, any)) by {
                if any > last {
                    assert(any + "uploads"@.len() > query@.len());
                }
            }
            return false;
        }
        start += 1;
    }
    false
}

/// Whether a request begins a multipart upload: an empty `POST` that asks for `uploads`.
pub open spec fn begins_multipart(method: Seq<char>, body_is_empty: bool, query: Option<Seq<char>>) -> bool {
    method == "POST"@ && body_is_empty && (query matches Some(query) && has_uploads(query))
}

/// Whether a request has to be given `Content-Length: 0`. An S3-compatible store may refuse an
/// empty request that begins a multipart upload without it.
pub fn needs_content_length(
    method: &str,
    body_is_empty: bool,
    query: Option<&str>,
    has_content_length: bool,
) -> (answer: bool)
    ensures
        answer == (begins_multipart(
            method@,
            body_is_empty,
            match query {
                Some(query) => Some(query@),
                None => None,
            },
        ) && !has_content_length),
{
    if has_content_length || !body_is_empty || !text::text_equal(method, "POST") {
        return false;
    }
    match query {
        Some(query) => asks_for_uploads(query),
        None => false,
    }
}

/// How an attempt at an operation failed. A store answers so where the credential has expired.
#[derive(Debug)]
pub struct AttemptFailure {
    pub permission_denied: bool,
    pub error: opendal::Error,
}

/// Where an operation stands that may need a new credential.
#[derive(Debug)]
pub enum RefreshStep {
    Attempt,
    /// Have a new credential resolved.
    Refresh { error: opendal::Error },
    /// Build an operator with the new credential.
    Rebuild,
    AttemptAgain,
    /// Whether the value came from an operator with a new credential.
    Done(ObjectStoreOperatorResult<bool>),
}

/// An operation that is attempted again with a new credential where permission was denied.
#[derive(Debug)]
pub struct RefreshRun {
    /// Whether credentials can be resolved again.
    pub refreshable: bool,
    /// Whether the operator at hand has a credential.
    pub has_credential: bool,
    pub step: RefreshStep,
}

impl RefreshRun {
    pub fn run_with_refresh(refreshable: bool, has_credential: bool) -> (run: RefreshRun)
        ensures
            run == (RefreshRun { refreshable, has_credential, step: RefreshStep::Attempt }),
    {
        RefreshRun { refreshable, has_credential, step: RefreshStep::Attempt }
    }

    /// What follows on an attempt.
    pub fn attempted(self, outcome: Result<(), AttemptFailure>) -> (next: RefreshRun)
        requires
            self.step is Attempt || self.step is AttemptAgain,
        ensures
            next.refreshable == self.refreshable,
            next.has_credential == self.has_credential,
            match outcome {
                Ok(_) => next.step == RefreshStep::Done(Ok(self.step is AttemptAgain)),
                Err(failure) => if self.step is Attempt && failure.permission_denied
                    && self.refreshable && self.has_credential {
                    next.step == (RefreshStep::Refresh { error: failure.error })
                } else {
                    next.step == RefreshStep::Done(
                        Err(ObjectStoreOperatorError::OpenDal(failure.error)),
                    )
                },
            },
    {
        let again = matches!(self.step, RefreshStep::AttemptAgain);
        let step = match outcome {
            Ok(_) => RefreshStep::Done(Ok(again)),
            Err(failure) => if !again && failure.permission_denied && self.refreshable
                && self.has_credential {
                RefreshStep::Refresh { error: failure.error }
            } else {
                RefreshStep::Done(Err(ObjectStoreOperatorError::OpenDal(failure.error)))
            },
        };
        RefreshRun { step, ..self }
    }

    /// What follows on the resolution of a credential, which may find no new one.
    pub fn refreshed(self, outcome: Result<bool, String>) -> (next: RefreshRun)
        requires
            self.step is Refresh,
        ensures
            next.refreshable == self.refreshable,
            next.has_credential == self.has_credential,
            match outcome {
                Ok(found) => if found {
                    next.step is Rebuild
                } else {
                    next.step == RefreshStep::Done(
                        Err(ObjectStoreOperatorError::OpenDal(self.step->error)),
                    )
                },
                Err(error) => next.step == RefreshStep::Done(
                    Err(ObjectStoreOperatorError::CredentialRefresh(error)),
                ),
            },
    {
        let step = match (self.step, outcome) {
            (RefreshStep::Refresh { error }, Ok(found)) => if found {
                RefreshStep::Rebuild
            } else {
                RefreshStep::Done(Err(ObjectStoreOperatorError::OpenDal(error)))
            },
            (_, Ok(_)) => RefreshStep::Rebuild,
            (_, Err(error)) => RefreshStep::Done(
                Err(ObjectStoreOperatorError::CredentialRefresh(error)),
            ),
        };
        RefreshRun { step, ..self }
    }

    /// What follows on the building of an operator.
    pub fn rebuilt(self, outcome: ObjectStoreOperatorResult<()>) -> (next: RefreshRun)
        requires
            self.step is Rebuild,
        ensures
            next.refreshable == self.refreshable,
            next.has_credential == self.has_credential,
            match outcome {
                Ok(_) => next.step is AttemptAgain,
                Err(error) => next.step == RefreshStep::Done(Err(error)),
            },
    {
        let step = match outcome {
            Ok(_) => RefreshStep::AttemptAgain,
            Err(error) => RefreshStep::Done(Err(error)),
        };
        RefreshRun { step, ..self }
    }
}

// ---------------------------------------------------------------------------------------------
// Laws
// ---------------------------------------------------------------------------------------------

/// Where requests carry bearer tokens, an operator is neither given a credential nor looks for one.
pub proof fn bearer_tokens_own_authentication(
    settings: S3Settings,
    config: ObjectStoreOperatorConfig,
    credential: Option<ResolvedCredential>,
)
    requires
        are_settings(settings, config, credential),
        config.bearer_tokens,
    ensures
        settings.access_key_id is None,
        settings.secret_access_key is None,
        settings.session_token is None,
        settings.disable_config_load,
        settings.disable_ec2_metadata,
        settings.allow_anonymous,
{
}

/// An operator has the bucket, the region and the way of addressing that are configured, and the
/// endpoint without the slashes at its end; without bearer tokens it uses the credential that it was
/// given, or none, and may look for others.
pub proof fn operators_are_set_as_configured(
    settings: S3Settings,
    config: ObjectStoreOperatorConfig,
    credential: ResolvedCredential,
)
    ensures
        are_settings(settings, config, None) || are_settings(settings, config, Some(credential)) ==> {
            &&& settings.bucket == config.bucket
            &&& config.endpoint@.len() == 0 <==> settings.endpoint is None
            &&& settings.endpoint matches Some(endpoint) ==> endpoint@.is_prefix_of(config.endpoint@)
                && (endpoint@.len() > 0 ==> endpoint@.last() != '/') && forall|i: int|
                endpoint@.len() <= i < config.endpoint@.len() ==> #[trigger] config.endpoint@[i] == '/'
            &&& config.region@.len() == 0 ==> settings.region is None
            &&& config.region@.len() > 0 ==> settings.region == Some(config.region)
            &&& settings.enable_virtual_host_style <==> config.addressing_style is Virtual
            &&& settings.disable_config_load <==> config.bearer_tokens
            &&& settings.disable_ec2_metadata <==> config.bearer_tokens
        },
        !config.bearer_tokens && are_settings(settings, config, None) ==> settings.allow_anonymous
            && settings.access_key_id is None && settings.secret_access_key is None
            && settings.session_token is None,
        !config.bearer_tokens && are_settings(settings, config, Some(credential)) ==> {
            &&& !settings.allow_anonymous
            &&& credential.access_key_id@.len() > 0 ==> settings.access_key_id == Some(
                credential.access_key_id,
            )
            &&& credential.secret_access_key@.len() > 0 ==> settings.secret_access_key == Some(
                credential.secret_access_key,
            )
            &&& credential.security_token is None ==> settings.session_token is None
            &&& credential.security_token matches Some(token) ==> (token@.len() > 0
                ==> settings.session_token == Some(token))
        },
{
    end_slashes_go(config.endpoint@);
}

/// A text without the slashes at its end is the part of it before them.
pub proof fn end_slashes_go(text: Seq<char>)
    ensures
        without_end_slashes(text).is_prefix_of(text),
        without_end_slashes(text).len() > 0 ==> without_end_slashes(text).last() != '/',
        forall|i: int| without_end_slashes(text).len() <= i < text.len() ==> #[trigger] text[i] == '/',
    decreases text.len(),
{
    if text.len() > 0 && text.last() == '/' {
        let rest = text.drop_last();
        end_slashes_go(rest);
        let short = without_end_slashes(rest);
        assert(text.subrange(0, short.len() as int) =~= rest.subrange(0, short.len() as int));
        assert forall|i: int| short.len() <= i < text.len() implies #[trigger] text[i] == '/' by {
            if i < rest.len() {
                assert(rest[i] == '/');
            }
        }
    } else {
        assert(text.subrange(0, text.len() as int) =~= text);
    }
}

/// Where nothing else is configured, a request has thirty seconds and three retries.
pub proof fn limits_have_defaults(config: ObjectStoreOperatorConfig)
    ensures
        config.timeout is None ==> limits_of(config).timeout == 30 * 1000000000,
        config.timeout matches Some(timeout) ==> limits_of(config).timeout == timeout,
        config.max_retries is None ==> limits_of(config).max_retries == 3,
        config.max_retries matches Some(retries) ==> limits_of(config).max_retries == retries,
{
}

/// A request is retried outside its timeouts, which are outside its transport; both timeouts are the
/// configured one.
pub proof fn requests_are_timed_inside_their_retries(
    transport: opendal::raw::HttpClient,
    limits: RequestLimits,
)
    ensures
        layers_for(transport, limits).len() == 3,
        layers_for(transport, limits)[0] == (OperatorLayer::Transport { client: transport }),
        layers_for(transport, limits)[1] == (OperatorLayer::Timeouts {
            operation: limits.timeout,
            part: limits.timeout,
        }),
        layers_for(transport, limits)[2] == (OperatorLayer::Retries {
            max_retries: limits.max_retries,
        }),
{
}

proof fn uploads_is_seven_long()
    ensures
        "uploads"@.len() == 7,
        "uploads="@.len() == 8,
        "uploads&"@.len() == 8,
        "&uploads"@.len() == 8,
        "uploads="@.subrange(0, 7) == "uploads"@,
        "uploads&"@.subrange(0, 7) == "uploads"@,
        "&uploads"@.subrange(1, 8) == "uploads"@,
        "uploads="@[7] == '=',
        "uploads&"@[7] == '&',
        "&uploads"@[0] == '&',
{
    reveal_strlit("uploads");
    reveal_strlit("uploads=");
    reveal_strlit("uploads&");
    reveal_strlit("&uploads");
    assert("uploads="@.subrange(0, 7) =~= "uploads"@);
    assert("uploads&"@.subrange(0, 7) =~= "uploads"@);
    assert("&uploads"@.subrange(1, 8) =~= "uploads"@);
}

/// The parameter is found with a value and without one, first and behind others; and where it is
/// found, its name stands in the query, at the start of a parameter and as all of its name.
pub proof fn uploads_are_found_anywhere(rest: Seq<char>, before: Seq<char>, query: Seq<char>)
    ensures
        has_uploads("uploads"@),
        has_uploads("uploads="@ + rest),
        has_uploads("uploads&"@ + rest),
        has_uploads(before + "&uploads"@),
        has_uploads(query) ==> exists|start: int|
            {
                &&& 0 <= start <= query.len() - 7
                &&& #[trigger] query.subrange(start, start + 7) == "uploads"@
                &&& start > 0 ==> query[start - 1] == '&'
                &&& start + 7 < query.len() ==> query[start + 7] == '&' || query[start + 7] == '='
            },
        query.len() < 7 ==> !has_uploads(query),
{
    uploads_is_seven_long();
    assert("uploads"@.subrange(0, 7) =~= "uploads"@);
    assert(uploads_at("uploads"@, 0));
    let valued = "uploads="@ + rest;
    assert(valued.subrange(0, 7) =~= "uploads="@.subrange(0, 7));
    assert(uploads_at(valued, 0));
    let first = "uploads&"@ + rest;
    assert(first.subrange(0, 7) =~= "uploads&"@.subrange(0, 7));
    assert(uploads_at(first, 0));
    let last = before + "&uploads"@;
    let at = before.len() as int + 1;
    assert(last.subrange(at, at + 7) =~= "&uploads"@.subrange(1, 8));
    assert(last[at - 1] == "&uploads"@[0]);
    assert(uploads_at(last, at));
    if has_uploads(query) {
        let start = choose|start: int| #[trigger] uploads_at(query, start);
        assert(query.subrange(start, start + 7) == "uploads"@);
    }
}

/// Only an empty `POST` with the parameter begins a multipart upload.
pub proof fn multipart_uploads_begin_empty(
    method: Seq<char>,
    body_is_empty: bool,
    query: Option<Seq<char>>,
)
    ensures
        !body_is_empty ==> !begins_multipart(method, body_is_empty, query),
        query is None ==> !begins_multipart(method, body_is_empty, query),
        method != "POST"@ ==> !begins_multipart(method, body_is_empty, query),
        query is Some ==> begins_multipart("POST"@, true, query) == has_uploads(query->0),
{
}

/// A bucket is addressed by its name, which as part of a host name holds no dot.
pub proof fn dotted_buckets_are_addressed_by_path(bucket: Seq<char>)
    ensures
        bucket.len() == 0 ==> !is_addressable(bucket, true) && !is_addressable(bucket, false),
        bucket.len() > 0 ==> is_addressable(bucket, false),
        bucket.contains('.') ==> !is_addressable(bucket, true),
        bucket.len() > 0 && !bucket.contains('.') ==> is_addressable(bucket, true),
{
}

/// An empty setting counts as none, and any other is taken as it is.
pub proof fn empty_settings_are_none(text: String)
    ensures
        set_text(text) is None <==> text@.len() == 0,
        set_text(text) matches Some(set) ==> set == text,
{
}

/// A header holds tabs and whatever is no control character.
pub proof fn headers_hold_no_control_characters(byte: u8)
    ensures
        is_header_byte(9),
        byte < 9 || 10 <= byte < 32 || byte == 127 ==> !is_header_byte(byte),
        32 <= byte < 127 || byte >= 128 ==> is_header_byte(byte),
{
}

} // verus!
