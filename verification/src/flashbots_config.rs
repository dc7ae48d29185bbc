//! The decisions that the operator's configuration drives: which block
//! processor client, which true-block-value pusher, which bid value source,
//! which builders and which clickhouse settings. Settings that may name an
//! environment variable are carried as written; resolving them is left to the
//! caller.
use vstd::prelude::*;

verus! {

/// A configuration that cannot be used.
#[derive(Debug, PartialEq, Eq)]
pub enum ConfigError {
    /// key_registration_url is set but blocks_processor_url is not.
    BlocksProcessorUrlNotSet,
    /// tbv_push_redis is set without its url.
    MissingTbvPushRedisUrl,
    /// No builder has this name.
    BuilderNotFound(String),
    /// key_registration_url is not a URL: why it does not parse.
    InvalidKeyRegistrationUrl(url::ParseError),
}

/// Where the key that signs for the block processor is registered, when
/// `key_registration_url` is set; that requires `blocks_processor_url`.
pub fn key_registration_plan(
    key_registration_url: &Option<String>,
    blocks_processor_url: &Option<String>,
) -> (r: Result<Option<String>, ConfigError>)
    ensures
        match *key_registration_url {
            None => r == Ok::<Option<String>, ConfigError>(None),
            Some(url) => if blocks_processor_url is None {
                r == Err::<Option<String>, ConfigError>(ConfigError::BlocksProcessorUrlNotSet)
            } else {
                r == Ok::<Option<String>, ConfigError>(Some(url))
            },
        },
{
    match key_registration_url {
        None => Ok(None),
        Some(url) => {
            if blocks_processor_url.is_none() {
                Err(ConfigError::BlocksProcessorUrlNotSet)
            } else {
                Ok(Some(url.clone()))
            }
        },
    }
}

/// The client that observes our bids for the block processor.
#[derive(Debug, Clone, PartialEq, Eq)]
pub enum BlockProcessorClientPlan {
    /// No block processor: bids are not reported.
    Null,
    /// The block processor at this url, without signature.
    Unsigned(String),
    /// The block processor at this url, with requests signed by the registered key.
    Signed(String),
}

/// The block processor client: signed when a key was registered, unsigned
/// otherwise, none without `blocks_processor_url` (which a registered key
/// requires).
pub fn block_processor_client_plan(blocks_processor_url: &Option<String>, has_key: bool) -> (r:
    Result<BlockProcessorClientPlan, ConfigError>)
    ensures
        match *blocks_processor_url {
            Some(url) => if has_key {
                r == Ok::<BlockProcessorClientPlan, ConfigError>(
                    BlockProcessorClientPlan::Signed(url),
                )
            } else {
                r == Ok::<BlockProcessorClientPlan, ConfigError>(
                    BlockProcessorClientPlan::Unsigned(url),
                )
            },
            None => if has_key {
                r == Err::<BlockProcessorClientPlan, ConfigError>(
                    ConfigError::BlocksProcessorUrlNotSet,
                )
            } else {
                r == Ok::<BlockProcessorClientPlan, ConfigError>(BlockProcessorClientPlan::Null)
            },
        },
{
    match blocks_processor_url {
        Some(url) => {
            if has_key {
                Ok(BlockProcessorClientPlan::Signed(url.clone()))
            } else {
                Ok(BlockProcessorClientPlan::Unsigned(url.clone()))
            }
        },
        None => {
            if has_key {
                Err(ConfigError::BlocksProcessorUrlNotSet)
            } else {
                Ok(BlockProcessorClientPlan::Null)
            }
        },
    }
}

/// Settings to push the true block value to a redis channel.
#[derive(Debug, Clone, PartialEq, Eq, Default)]
pub struct TbvPushRedisSettings {
    /// Redis connection string (always required, optional only to have a default).
    pub url: Option<String>,
    /// Redis channel name.
    pub channel: String,
}

/// Where the true block value is pushed.
#[derive(Debug, Clone, PartialEq, Eq)]
pub enum TbvPusherPlan {
    /// Nowhere: the sink factory is not wrapped.
    Unwrapped,
    /// To the signed block processor at this url.
    BlockProcessor(String),
    /// To a redis channel; the url setting is still to be resolved.
    Redis { url: String, channel: String },
}

/// Where the true block value is pushed: to the block processor when a key
/// was registered (which requires `blocks_processor_url`), else to redis when
/// configured (which requires its url), else nowhere.
pub fn tbv_pusher_plan(
    has_key: bool,
    blocks_processor_url: &Option<String>,
    tbv_push_redis: &Option<TbvPushRedisSettings>,
) -> (r: Result<TbvPusherPlan, ConfigError>)
    ensures
        has_key ==> r == match *blocks_processor_url {
            Some(url) => Ok::<TbvPusherPlan, ConfigError>(TbvPusherPlan::BlockProcessor(url)),
            None => Err::<TbvPusherPlan, ConfigError>(ConfigError::BlocksProcessorUrlNotSet),
        },
        !has_key ==> r == match *tbv_push_redis {
            Some(cfg) => match cfg.url {
                Some(url) => Ok::<TbvPusherPlan, ConfigError>(
                    TbvPusherPlan::Redis { url, channel: cfg.channel },
                ),
                None => Err::<TbvPusherPlan, ConfigError>(ConfigError::MissingTbvPushRedisUrl),
            },
            None => Ok::<TbvPusherPlan, ConfigError>(TbvPusherPlan::Unwrapped),
        },
{
    if has_key {
        match blocks_processor_url {
            Some(url) => Ok(TbvPusherPlan::BlockProcessor(url.clone())),
            None => Err(ConfigError::BlocksProcessorUrlNotSet),
        }
    } else {
        match tbv_push_redis {
            Some(cfg) => match &cfg.url {
                Some(url) => Ok(TbvPusherPlan::Redis { url: url.clone(), channel: cfg.channel.clone() }),
                None => Err(ConfigError::MissingTbvPushRedisUrl),
            },
            None => Ok(TbvPusherPlan::Unwrapped),
        }
    }
}

/// The relay best-bid stream to read: its url and basic-auth settings when
/// both are set; `None` means no bid value source.
pub fn bid_value_source_plan(
    top_bid_ws_url: &Option<String>,
    top_bid_ws_basic_auth: &Option<String>,
) -> (r: Option<(String, String)>)
    ensures
        r == match (*top_bid_ws_url, *top_bid_ws_basic_auth) {
            (Some(url), Some(auth)) => Some((url, auth)),
            _ => None::<(String, String)>,
        },
{
    match (top_bid_ws_url, top_bid_ws_basic_auth) {
        (Some(url), Some(auth)) => Some((url.clone(), auth.clone())),
        _ => None,
    }
}

/// A named builder configuration.
#[derive(Debug, Clone)]
pub struct BuilderConfig<S> {
    pub name: String,
    pub builder: S,
}

/// Index of the first builder named `name`.
pub open spec fn first_builder_index<S>(builders: Seq<BuilderConfig<S>>, name: Seq<char>) -> int {
    choose|i: int|
        0 <= i < builders.len() && builders[i].name@ == name && forall|j: int|
            0 <= j < i ==> builders[j].name@ != name
}

/// The first index whose builder is named `name` is the one
/// [`first_builder_index`] picks.
pub proof fn lemma_first_builder_index<S>(builders: Seq<BuilderConfig<S>>, name: Seq<char>, i: int)
    requires
        0 <= i < builders.len(),
        builders[i].name@ == name,
        forall|j: int| 0 <= j < i ==> builders[j].name@ != name,
    ensures
        first_builder_index(builders, name) == i,
{
    let c = first_builder_index(builders, name);
    assert(0 <= c < builders.len() && builders[c].name@ == name && forall|j: int|
        0 <= j < c ==> builders[j].name@ != name);
    if c < i {
        assert(builders[c].name@ != name);
    }
    if c > i {
        assert(builders[i].name@ != name);
    }
}

/// Whether some builder is named `name`.
pub open spec fn has_builder<S>(builders: Seq<BuilderConfig<S>>, name: Seq<char>) -> bool {
    exists|i: int| 0 <= i < builders.len() && builders[i].name@ == name
}

/// The first builder named `name`.
pub fn builder<'a, S>(builders: &'a Vec<BuilderConfig<S>>, name: &str) -> (r: Result<
    &'a BuilderConfig<S>,
    ConfigError,
>)
    ensures
        r is Ok <==> has_builder(builders@, name@),
        r matches Ok(b) ==> b.name@ == name@ && *b == builders@[first_builder_index(
            builders@,
            name@,
        )],
        r matches Err(e) ==> e matches ConfigError::BuilderNotFound(n) && n@ == name@,
{
    let wanted = String::from_str(name);
    let mut i: usize = 0;
    while i < builders.len()
        invariant
            0 <= i <= builders@.len(),
            wanted@ == name@,
            forall|j: int| 0 <= j < i ==> builders@[j].name@ != name@,
        decreases builders@.len() - i,
    {
        if builders[i].name == wanted {
            proof {
                lemma_first_builder_index(builders@, name@, i as int);
            }
            return Ok(&builders[i]);
        }
        i = i + 1;
    }
    Err(ConfigError::BuilderNotFound(wanted))
}

/// The builders named by `live_builders`, in that order; fails on the first
/// name without builder.
pub fn live_builders<'a, S>(builders: &'a Vec<BuilderConfig<S>>, live_builder_names: &Vec<String>) -> (r:
    Result<Vec<&'a BuilderConfig<S>>, ConfigError>)
    ensures
        r is Ok <==> forall|k: int|
            0 <= k < live_builder_names@.len() ==> has_builder(builders@, #[trigger] live_builder_names@[k]@),
        r matches Ok(v) ==> v@.len() == live_builder_names@.len() && forall|k: int|
            0 <= k < v@.len() ==> (#[trigger] v@[k]).name@ == live_builder_names@[k]@ && *v@[k]
                == builders@[first_builder_index(builders@, live_builder_names@[k]@)],
        r matches Err(e) ==> exists|k: int|
            0 <= k < live_builder_names@.len() && !has_builder(builders@, #[trigger] live_builder_names@[k]@)
                && (e matches ConfigError::BuilderNotFound(n) && n@ == live_builder_names@[k]@)
                && forall|m: int|
                0 <= m < k ==> has_builder(builders@, #[trigger] live_builder_names@[m]@),
{
    let mut v: Vec<&'a BuilderConfig<S>> = Vec::new();
    let mut k: usize = 0;
    while k < live_builder_names.len()
        invariant
            0 <= k <= live_builder_names@.len(),
            v@.len() == k,
            forall|m: int| 0 <= m < k ==> has_builder(builders@, #[trigger] live_builder_names@[m]@),
            forall|m: int|
                0 <= m < k ==> (#[trigger] v@[m]).name@ == live_builder_names@[m]@ && *v@[m]
                    == builders@[first_builder_index(builders@, live_builder_names@[m]@)],
        decreases live_builder_names@.len() - k,
    {
        match builder(builders, live_builder_names[k].as_str()) {
            Ok(b) => {
                v.push(b);
            },
            Err(e) => {
                assert(!has_builder(builders@, live_builder_names@[k as int]@));
                return Err(e);
            },
        }
        k = k + 1;
    }
    assert(v@.len() == live_builder_names@.len());
    Ok(v)
}

/// Settings of the clickhouse client.
#[derive(Debug, Clone, PartialEq, Eq)]
pub struct ClickhouseSettings {
    pub host_url: String,
    pub user: String,
    pub password: String,
}

/// Why the clickhouse settings cannot be used: a setting could not be
/// resolved, or a required one is missing.
#[derive(Debug, Clone, PartialEq, Eq)]
pub enum ClickhouseConfigError<E> {
    Setting(E),
    UserNotFound,
    PasswordNotFound,
}

/// The clickhouse settings, from the resolved host, user and password
/// settings: none without host; otherwise user and password are required;
/// errors are reported in the order host, user, password.
pub fn clickhouse_settings<E>(
    host_url: Option<Result<String, E>>,
    user: Option<Result<String, E>>,
    password: Option<Result<String, E>>,
) -> (r: Result<Option<ClickhouseSettings>, ClickhouseConfigError<E>>)
    ensures
        r == match host_url {
            None => Ok(None),
            Some(Err(e)) => Err(ClickhouseConfigError::Setting(e)),
            Some(Ok(h)) => match user {
                None => Err(ClickhouseConfigError::UserNotFound),
                Some(Err(e)) => Err(ClickhouseConfigError::Setting(e)),
                Some(Ok(u)) => match password {
                    None => Err(ClickhouseConfigError::PasswordNotFound),
                    Some(Err(e)) => Err(ClickhouseConfigError::Setting(e)),
                    Some(Ok(p)) => Ok(Some(ClickhouseSettings { host_url: h, user: u, password: p })),
                },
            },
        },
{
    let host_url = match host_url {
        None => {
            return Ok(None);
        },
        Some(Err(e)) => {
            return Err(ClickhouseConfigError::Setting(e));
        },
        Some(Ok(h)) => h,
    };
    let user = match user {
        None => {
            return Err(ClickhouseConfigError::UserNotFound);
        },
        Some(Err(e)) => {
            return Err(ClickhouseConfigError::Setting(e));
        },
        Some(Ok(u)) => u,
    };
    let password = match password {
        None => {
            return Err(ClickhouseConfigError::PasswordNotFound);
        },
        Some(Err(e)) => {
            return Err(ClickhouseConfigError::Setting(e));
        },
        Some(Ok(p)) => p,
    };
    Ok(Some(ClickhouseSettings { host_url, user, password }))
}

/// The body registering `address` as our ECDSA public key address.
pub fn key_registration_body(address: &str) -> (r: String)
    ensures
        r@ == "{ \"ecdsa_pubkey_address\": \""@ + address@ + "\" }"@,
{
    let mut body = String::from_str("{ \"ecdsa_pubkey_address\": \"");
    body.append(address);
    body.append("\" }");
    body
}

#[verifier::external_type_specification]
#[verifier::external_body]
pub struct ExUrlParseError(url::ParseError);

/// The text of the URL that `url::Url::parse(url)` gives once its path is
/// replaced by `path` with `set_path`, or `None` when `url` does not parse.
pub uninterp spec fn url_with_path(url: Seq<char>, path: Seq<char>) -> Option<Seq<char>>;

/// `url::Url::parse(url)`, then `set_path(path)` on the result, serialised
/// back to text. Nothing is stated of what parsing accepts or how it
/// normalises a URL (the WHATWG URL standard): the result is named by
/// [`url_with_path`].
#[verifier::external_body]
fn parse_url_with_path(url: &str, path: &str) -> (r: Result<String, url::ParseError>)
    ensures
        match r {
            Ok(text) => url_with_path(url@, path@) == Some(text@),
            Err(_) => url_with_path(url@, path@) is None,
        },
{
    let mut parsed = url::Url::parse(url)?;
    parsed.set_path(path);
    Ok(String::from(parsed))
}

/// Where key registrations are posted, below the registration service's URL.
pub open spec fn key_registration_path() -> Seq<char> {
    "/api/l1-builder/v1/register_credentials/rbuilder"@
}

/// A key registration: posted to `url` with `body`.
#[derive(Debug, Clone, PartialEq, Eq)]
pub struct KeyRegistrationRequest {
    pub url: String,
    pub body: String,
}

/// The registration of `address` posted to `endpoint`, the service's URL with
/// the registration path, or the reason that URL does not parse.
pub fn key_registration_request_to(endpoint: Result<String, url::ParseError>, address: &str) -> (r:
    Result<KeyRegistrationRequest, ConfigError>)
    ensures
        match endpoint {
            Ok(url) => r matches Ok(req) && req.url == url && req.body@
                == "{ \"ecdsa_pubkey_address\": \""@ + address@ + "\" }"@,
            Err(e) => r == Err::<KeyRegistrationRequest, ConfigError>(
                ConfigError::InvalidKeyRegistrationUrl(e),
            ),
        },
{
    match endpoint {
        Ok(url) => Ok(KeyRegistrationRequest { url, body: key_registration_body(address) }),
        Err(e) => Err(ConfigError::InvalidKeyRegistrationUrl(e)),
    }
}

/// The registration of `address` at the service of `key_registration_url`:
/// posted to that URL with its path replaced by the registration path. Fails,
/// with the parse error, when the URL does not parse.
pub fn key_registration_request(key_registration_url: &str, address: &str) -> (r: Result<
    KeyRegistrationRequest,
    ConfigError,
>)
    ensures
        match url_with_path(key_registration_url@, key_registration_path()) {
            Some(url) => r matches Ok(req) && req.url@ == url && req.body@
                == "{ \"ecdsa_pubkey_address\": \""@ + address@ + "\" }"@,
            None => r matches Err(ConfigError::InvalidKeyRegistrationUrl(_)),
        },
{
    let endpoint = parse_url_with_path(
        key_registration_url,
        "/api/l1-builder/v1/register_credentials/rbuilder",
    );
    key_registration_request_to(endpoint, address)
}

/// Whether an HTTP status code reports success: 200 to 299, as
/// `http::StatusCode::is_success` decides.
pub open spec fn is_success_status(status: u16) -> bool {
    200 <= status < 300
}

/// What a key registration gives once the service answered with `status`:
/// the registered `signer` when the status reports success, else the status
/// the service refused with.
pub fn key_registration_outcome<K>(signer: K, status: u16) -> (r: Result<K, u16>)
    ensures
        is_success_status(status) ==> r == Ok::<K, u16>(signer),
        !is_success_status(status) ==> r == Err::<K, u16>(status),
{
    if 200 <= status && status < 300 {
        Ok(signer)
    } else {
        Err(status)
    }
}

} // verus!
