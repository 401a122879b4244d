//! Backend gateway: the capability over the torrent-client session mutation.
//!
//! The backend is reached through the `TransmissionClient` capability, so a
//! deterministic in-memory double can stand in for the real connection. The
//! trait's contract records every mutation attempt together with its
//! outcome, which is what the handler's no-call, exactly-one-call and
//! outcome-rendering guarantees are stated over. The gateway's required
//! configuration is validated here too; only the reading of the process
//! environment stays outside the library.

use vstd::prelude::*;
use vstd::string::StringExecFns;

verus! {

/// A failure talking to the torrent-client backend: transport, auth or
/// protocol. Carries the diagnostic text for the response envelope.
#[derive(Debug)]
pub struct BackendError {
    pub message: String,
}

/// The failure text of one mutation outcome: `None` for success.
pub open spec fn spec_outcome_failure(r: Result<(), BackendError>) -> Option<Seq<char>> {
    match r {
        Ok(_) => None,
        Err(e) => Some(e.message@),
    }
}

/// The capability over the backend's alt-speed session flag. Each method
/// makes exactly one mutation attempt; `history` is the ghost record of the
/// attempts made so far, each entry holding the flag that was set (`true`
/// for enable) and the failure text of the outcome (`None` for success).
pub trait TransmissionClient: Sized {
    spec fn history(&self) -> Seq<(bool, Option<Seq<char>>)>;

    /// Set the alt-speed flag. Fails with `BackendError` if the transport
    /// or the backend rejects the mutation; the recorded entry reflects the
    /// returned outcome.
    fn enable_transmission_alt_speed(&mut self) -> (r: Result<(), BackendError>)
        ensures
            final(self).history() == old(self).history().push((true, spec_outcome_failure(r))),
    ;

    /// Clear the alt-speed flag. Same contract as enabling.
    fn disable_transmission_alt_speed(&mut self) -> (r: Result<(), BackendError>)
        ensures
            final(self).history() == old(self).history().push((false, spec_outcome_failure(r))),
    ;
}

/// The static context put in front of a backend failure, naming the
/// operation that failed.
pub open spec fn context_prefix(enable_alt_speed: bool) -> Seq<char> {
    if enable_alt_speed {
        "Cannot enable alt speed: "@
    } else {
        "Cannot disable alt speed: "@
    }
}

/// Wrap a backend failure with the static context naming the operation.
pub fn wrap_backend_failure(enable_alt_speed: bool, cause: &str) -> (r: BackendError)
    ensures
        r.message@ == context_prefix(enable_alt_speed) + cause@,
{
    let mut m = if enable_alt_speed {
        "Cannot enable alt speed: ".to_owned()
    } else {
        "Cannot disable alt speed: ".to_owned()
    };
    m.append(cause);
    proof {
        assert(m@ =~= context_prefix(enable_alt_speed) + cause@);
    }
    BackendError { message: m }
}

/// Make the one backend mutation an event calls for. Exactly one attempt is
/// recorded; the call succeeds exactly when the recorded outcome is a
/// success, and on failure the error is the static context naming the
/// operation plus the recorded cause.
pub fn set_transmission_alt_speed<C: TransmissionClient>(
    transmission_client: &mut C,
    enable_alt_speed: bool,
) -> (r: Result<(), BackendError>)
    ensures
        r matches Ok(()) ==> final(transmission_client).history() == old(
            transmission_client,
        ).history().push((enable_alt_speed, None::<Seq<char>>)),
        r matches Err(e) ==> exists|cause: Seq<char>|
            (final(transmission_client).history() == old(transmission_client).history().push(
                (enable_alt_speed, Some(cause)),
            ) && e.message@ == context_prefix(enable_alt_speed) + cause),
{
    let outcome = if enable_alt_speed {
        transmission_client.enable_transmission_alt_speed()
    } else {
        transmission_client.disable_transmission_alt_speed()
    };
    match outcome {
        Ok(()) => Ok(()),
        Err(e) => {
            let wrapped = wrap_backend_failure(enable_alt_speed, e.message.as_str());
            proof {
                assert(transmission_client.history() == old(transmission_client).history().push(
                    (enable_alt_speed, Some(e.message@)),
                ));
            }
            Err(wrapped)
        },
    }
}

/// Call-counting test double for the backend. Observes every attempt in
/// exec counters and in the ghost history, and fails each call with the
/// configured message when one is set.
pub struct MockTransmissionClient {
    pub enable_calls: u64,
    pub disable_calls: u64,
    pub fail_message: Option<String>,
    pub log: Ghost<Seq<(bool, Option<Seq<char>>)>>,
}

impl MockTransmissionClient {
    /// The failure text this double answers every call with: `None` when it
    /// is configured to succeed.
    pub open spec fn configured_failure(&self) -> Option<Seq<char>> {
        match self.fail_message {
            Some(m) => Some(m@),
            None => None,
        }
    }

    /// A double whose calls all succeed.
    pub fn new() -> (c: MockTransmissionClient)
        ensures
            c.history() == Seq::<(bool, Option<Seq<char>>)>::empty(),
            c.enable_calls == 0,
            c.disable_calls == 0,
            c.fail_message is None,
    {
        MockTransmissionClient {
            enable_calls: 0,
            disable_calls: 0,
            fail_message: None,
            log: Ghost(Seq::empty()),
        }
    }

    /// A double whose calls all fail with the given message.
    pub fn failing(message: String) -> (c: MockTransmissionClient)
        ensures
            c.history() == Seq::<(bool, Option<Seq<char>>)>::empty(),
            c.enable_calls == 0,
            c.disable_calls == 0,
            c.fail_message matches Some(m) && m@ == message@,
    {
        MockTransmissionClient {
            enable_calls: 0,
            disable_calls: 0,
            fail_message: Some(message),
            log: Ghost(Seq::empty()),
        }
    }

    fn record_failure(&self) -> (r: Result<(), BackendError>)
        ensures
            r is Err <==> self.fail_message is Some,
            r matches Err(e) ==> (self.fail_message matches Some(m) && e.message@ == m@),
            spec_outcome_failure(r) == self.configured_failure(),
    {
        match &self.fail_message {
            Some(m) => Err(BackendError { message: m.clone() }),
            None => Ok(()),
        }
    }
}

impl TransmissionClient for MockTransmissionClient {
    open spec fn history(&self) -> Seq<(bool, Option<Seq<char>>)> {
        self.log@
    }

    fn enable_transmission_alt_speed(&mut self) -> (r: Result<(), BackendError>)
        ensures
            r is Err <==> old(self).fail_message is Some,
            r matches Err(e) ==> (old(self).fail_message matches Some(m) && e.message@ == m@),
            final(self).fail_message == old(self).fail_message,
            final(self).enable_calls == old(self).enable_calls.wrapping_add(1),
            final(self).disable_calls == old(self).disable_calls,
    {
        self.enable_calls = self.enable_calls.wrapping_add(1);
        self.log = Ghost(self.log@.push((true, self.configured_failure())));
        self.record_failure()
    }

    fn disable_transmission_alt_speed(&mut self) -> (r: Result<(), BackendError>)
        ensures
            r is Err <==> old(self).fail_message is Some,
            r matches Err(e) ==> (old(self).fail_message matches Some(m) && e.message@ == m@),
            final(self).fail_message == old(self).fail_message,
            final(self).disable_calls == old(self).disable_calls.wrapping_add(1),
            final(self).enable_calls == old(self).enable_calls,
    {
        self.disable_calls = self.disable_calls.wrapping_add(1);
        self.log = Ghost(self.log@.push((false, self.configured_failure())));
        self.record_failure()
    }
}

/// A missing configuration value, by name. Fatal at startup: the process
/// refuses to serve until all three are set.
#[derive(Clone, Copy, Debug, PartialEq, Eq, Structural)]
pub enum ConfigError {
    MissingUrl,
    MissingUsername,
    MissingPassword,
}

/// The diagnostic message of a configuration failure, naming the value.
pub open spec fn spec_config_error_message(e: ConfigError) -> Seq<char> {
    match e {
        ConfigError::MissingUrl => "TRANSMISSION_URL environment variable should be set."@,
        ConfigError::MissingUsername => (
        "TRANSMISSION_USERNAME environment variable should be set."@),
        ConfigError::MissingPassword => (
        "TRANSMISSION_PASSWORD environment variable should be set."@),
    }
}

impl ConfigError {
    /// The human-readable message reported at startup.
    pub fn message(&self) -> (r: String)
        ensures
            r@ == spec_config_error_message(*self),
    {
        match self {
            ConfigError::MissingUrl => {
                "TRANSMISSION_URL environment variable should be set.".to_owned()
            },
            ConfigError::MissingUsername => {
                "TRANSMISSION_USERNAME environment variable should be set.".to_owned()
            },
            ConfigError::MissingPassword => {
                "TRANSMISSION_PASSWORD environment variable should be set.".to_owned()
            },
        }
    }
}

/// The three required configuration values for the backend connection, as
/// they were read: whether the URL text parses is for the connection layer
/// to decide.
#[derive(Debug)]
pub struct BackendConfig {
    pub url: String,
    pub user: String,
    pub password: String,
}

/// Mathematical model of a `BackendConfig`.
pub struct ConfigModel {
    pub url: Seq<char>,
    pub user: Seq<char>,
    pub password: Seq<char>,
}

impl View for BackendConfig {
    type V = ConfigModel;

    open spec fn view(&self) -> ConfigModel {
        ConfigModel { url: self.url@, user: self.user@, password: self.password@ }
    }
}

/// A view of one optional configuration value.
pub open spec fn opt_string_view(o: Option<String>) -> Option<Seq<char>> {
    match o {
        Some(s) => Some(s@),
        None => None,
    }
}

/// What `validate_config` returns: the first absent value (URL, then
/// username, then password), or the three values verbatim.
pub open spec fn spec_validate_config(
    url: Option<Seq<char>>,
    username: Option<Seq<char>>,
    password: Option<Seq<char>>,
) -> Result<ConfigModel, ConfigError> {
    match (url, username, password) {
        (None, _, _) => Err(ConfigError::MissingUrl),
        (Some(_), None, _) => Err(ConfigError::MissingUsername),
        (Some(_), Some(_), None) => Err(ConfigError::MissingPassword),
        (Some(u), Some(n), Some(p)) => Ok(ConfigModel { url: u, user: n, password: p }),
    }
}

/// Validate the gateway's configuration. `None` stands for a value absent
/// from the environment. Succeeds if and only if all three values are
/// present, and keeps each verbatim.
pub fn validate_config(
    url: Option<String>,
    username: Option<String>,
    password: Option<String>,
) -> (r: Result<BackendConfig, ConfigError>)
    ensures
        r matches Ok(c) ==> spec_validate_config(
            opt_string_view(url),
            opt_string_view(username),
            opt_string_view(password),
        ) == Ok::<ConfigModel, ConfigError>(c@),
        r matches Err(e) ==> spec_validate_config(
            opt_string_view(url),
            opt_string_view(username),
            opt_string_view(password),
        ) == Err::<ConfigModel, ConfigError>(e),
{
    let url = match url {
        None => {
            return Err(ConfigError::MissingUrl);
        },
        Some(u) => u,
    };
    let user = match username {
        None => {
            return Err(ConfigError::MissingUsername);
        },
        Some(n) => n,
    };
    let password = match password {
        None => {
            return Err(ConfigError::MissingPassword);
        },
        Some(p) => p,
    };
    Ok(BackendConfig { url, user, password })
}

} // verus!
