//! The factory of the web-application middleware: it decides whether a
//! middleware is built, and what the server that hosts the applications is
//! handed when one is.

use vstd::prelude::*;
use crate::configuration::Configuration;
use crate::error::{Error, ErrorView};
use crate::service::Endpoints;

verus! {

/// The reason given when the server for web applications is not part of
/// this build.
pub const WEBAPPS_MISSING: &'static str =
    "Your Parity version has been compiled without WebApps support.";

/// The reason given when the server for the user interface is not part of
/// this build.
pub const UI_MISSING: &'static str = "Your Parity version has been compiled without UI support.";

/// A service that knows which tokens currently open the web proxy.
pub trait SignerService {
    /// Whether the token is valid at this moment.
    fn is_valid_web_proxy_access_token(&self, token: &String) -> bool;
}

/// Decides whether a token opens the web proxy, by asking the signer each
/// time: an answer may change from one call to the next, so none is kept.
#[derive(Clone, Debug, PartialEq)]
pub struct AccessTokenValidator<A> {
    pub signer: A,
}

impl<A: SignerService> AccessTokenValidator<A> {
    /// Whether the token opens the web proxy at this moment: the answer
    /// that the signer gives to this very question, unchanged.
    pub fn validate(&self, token: String) -> (r: bool)
        ensures
            call_ensures(A::is_valid_web_proxy_access_token, (&self.signer, &token), r),
    {
        self.signer.is_valid_web_proxy_access_token(&token)
    }
}

/// What the middleware is built from. The library hands each part on as it
/// is and never looks inside one.
#[derive(Clone, Debug, PartialEq)]
pub struct Dependencies<S, C, R, F, A> {
    /// Tells whether the node is still synchronising.
    pub sync_status: S,
    /// Resolves the registrar and calls contracts.
    pub contract_client: C,
    /// Runs asynchronous work.
    pub remote: R,
    /// Fetches over HTTP.
    pub fetch: F,
    /// Authorises access tokens.
    pub signer: A,
    /// Host and port of the user interface, if it is served.
    pub ui_address: Option<(String, u16)>,
}

/// What the server is handed when a middleware is constructed.
#[derive(Clone, Debug, PartialEq)]
pub enum Wiring<S, C, R, F, A> {
    /// The server of web applications.
    Dapps {
        remote: R,
        ui_address: Option<(String, u16)>,
        dapps_path: String,
        extra_dapps: Vec<String>,
        contract_client: C,
        sync_status: S,
        web_proxy_tokens: AccessTokenValidator<A>,
        fetch: F,
    },
    /// The server of the user interface alone.
    Ui { remote: R, contract_client: C, sync_status: S, fetch: F },
}

/// The server that hosts the applications, as this build has it.
#[derive(Clone, Debug, PartialEq)]
pub enum MiddlewareBackend {
    /// The server is not part of this build.
    Disabled,
    /// The server is present and hosts the given applications.
    Active { endpoints: Endpoints },
    /// The server is present but cannot be constructed, for the given
    /// reason.
    Unavailable { reason: String },
}

/// A constructed middleware: what its server was handed, and the
/// applications it hosts.
#[derive(Clone, Debug, PartialEq)]
pub struct Middleware<S, C, R, F, A> {
    pub wiring: Wiring<S, C, R, F, A>,
    pub endpoints: Endpoints,
}

impl<S, C, R, F, A> Middleware<S, C, R, F, A> {
    /// The applications that the middleware hosts.
    pub fn endpoints(&self) -> (r: Endpoints)
        ensures
            r@ == self.endpoints@,
    {
        self.endpoints.clone()
    }
}

/// What the server of web applications is handed: every dependency, the two
/// locations of applications, and a token validator over the signer.
pub open spec fn dapps_wiring<S, C, R, F, A>(
    deps: Dependencies<S, C, R, F, A>,
    dapps_path: String,
    extra_dapps: Vec<String>,
) -> Wiring<S, C, R, F, A> {
    Wiring::Dapps {
        remote: deps.remote,
        ui_address: deps.ui_address,
        dapps_path: dapps_path,
        extra_dapps: extra_dapps,
        contract_client: deps.contract_client,
        sync_status: deps.sync_status,
        web_proxy_tokens: AccessTokenValidator { signer: deps.signer },
        fetch: deps.fetch,
    }
}

/// What the server of the user interface is handed: the handle for
/// asynchronous work, the contract client, the sync status and the fetcher.
pub open spec fn ui_wiring<S, C, R, F, A>(deps: Dependencies<S, C, R, F, A>) -> Wiring<
    S,
    C,
    R,
    F,
    A,
> {
    Wiring::Ui {
        remote: deps.remote,
        contract_client: deps.contract_client,
        sync_status: deps.sync_status,
        fetch: deps.fetch,
    }
}

/// Whether `r` is what constructing a middleware with `wiring` gives on
/// `backend`: the middleware over the backend's applications where the server
/// is active, else a build failure with the backend's reason (`missing`
/// where the server is not part of the build).
pub open spec fn constructed_on<S, C, R, F, A>(
    backend: MiddlewareBackend,
    wiring: Wiring<S, C, R, F, A>,
    missing: Seq<char>,
    r: Result<Middleware<S, C, R, F, A>, Error>,
) -> bool {
    match backend {
        MiddlewareBackend::Disabled => r is Err && r->Err_0@ == ErrorView::BuildFailed(missing),
        MiddlewareBackend::Unavailable { reason } => r is Err && r->Err_0@
            == ErrorView::BuildFailed(reason@),
        MiddlewareBackend::Active { endpoints } => r == Ok::<Middleware<S, C, R, F, A>, Error>(
            Middleware { wiring, endpoints },
        ),
    }
}

/// Whether `r` is what the factory gives: nothing while disabled, else the
/// constructed middleware or the failure to construct it.
pub open spec fn built_on<S, C, R, F, A>(
    enabled: bool,
    backend: MiddlewareBackend,
    wiring: Wiring<S, C, R, F, A>,
    missing: Seq<char>,
    r: Result<Option<Middleware<S, C, R, F, A>>, Error>,
) -> bool {
    if !enabled {
        r == Ok::<Option<Middleware<S, C, R, F, A>>, Error>(None)
    } else {
        match backend {
            MiddlewareBackend::Disabled => r is Err && r->Err_0@ == ErrorView::BuildFailed(missing),
            MiddlewareBackend::Unavailable { reason } => r is Err && r->Err_0@
                == ErrorView::BuildFailed(reason@),
            MiddlewareBackend::Active { endpoints } => r == Ok::<
                Option<Middleware<S, C, R, F, A>>,
                Error,
            >(Some(Middleware { wiring, endpoints })),
        }
    }
}

/// Constructs a middleware with the given wiring on the backend.
fn construct<S, C, R, F, A>(
    backend: MiddlewareBackend,
    wiring: Wiring<S, C, R, F, A>,
    missing: &str,
) -> (r: Result<Middleware<S, C, R, F, A>, Error>)
    ensures
        constructed_on(backend, wiring, missing@, r),
{
    match backend {
        MiddlewareBackend::Disabled => Err(Error::BuildFailed(missing.to_owned())),
        MiddlewareBackend::Unavailable { reason } => Err(Error::BuildFailed(reason)),
        MiddlewareBackend::Active { endpoints } => Ok(Middleware { wiring, endpoints }),
    }
}

/// Constructs the middleware that serves web applications. The token
/// validator it hands over asks the signer of `deps`.
pub fn dapps_middleware<S, C, R, F, A>(
    backend: MiddlewareBackend,
    deps: Dependencies<S, C, R, F, A>,
    dapps_path: String,
    extra_dapps: Vec<String>,
) -> (r: Result<Middleware<S, C, R, F, A>, Error>)
    ensures
        constructed_on(backend, dapps_wiring(deps, dapps_path, extra_dapps), WEBAPPS_MISSING@, r),
{
    let wiring = Wiring::Dapps {
        remote: deps.remote,
        ui_address: deps.ui_address,
        dapps_path: dapps_path,
        extra_dapps: extra_dapps,
        contract_client: deps.contract_client,
        sync_status: deps.sync_status,
        web_proxy_tokens: AccessTokenValidator { signer: deps.signer },
        fetch: deps.fetch,
    };
    construct(backend, wiring, WEBAPPS_MISSING)
}

/// Constructs the middleware that serves the user interface alone. The
/// signer and the address of the user interface play no part in it.
pub fn ui_middleware<S, C, R, F, A>(
    backend: MiddlewareBackend,
    deps: Dependencies<S, C, R, F, A>,
) -> (r: Result<Middleware<S, C, R, F, A>, Error>)
    ensures
        constructed_on(backend, ui_wiring(deps), UI_MISSING@, r),
{
    let wiring = Wiring::Ui {
        remote: deps.remote,
        contract_client: deps.contract_client,
        sync_status: deps.sync_status,
        fetch: deps.fetch,
    };
    construct(backend, wiring, UI_MISSING)
}

/// Builds the middleware for web applications, if the configuration enables
/// it. While it is disabled nothing is built and nothing fails, whatever the
/// other settings, the dependencies and the backend are.
pub fn new<S, C, R, F, A>(
    configuration: Configuration,
    deps: Dependencies<S, C, R, F, A>,
    backend: MiddlewareBackend,
) -> (r: Result<Option<Middleware<S, C, R, F, A>>, Error>)
    ensures
        built_on(
            configuration.enabled,
            backend,
            dapps_wiring(deps, configuration.dapps_path, configuration.extra_dapps),
            WEBAPPS_MISSING@,
            r,
        ),
{
    if !configuration.enabled {
        return Ok(None);
    }
    match dapps_middleware(backend, deps, configuration.dapps_path, configuration.extra_dapps) {
        Ok(middleware) => Ok(Some(middleware)),
        Err(e) => Err(e),
    }
}

/// Builds the middleware for the user interface, if it is enabled. While it
/// is disabled nothing is built and nothing fails.
pub fn new_ui<S, C, R, F, A>(
    enabled: bool,
    deps: Dependencies<S, C, R, F, A>,
    backend: MiddlewareBackend,
) -> (r: Result<Option<Middleware<S, C, R, F, A>>, Error>)
    ensures
        built_on(enabled, backend, ui_wiring(deps), UI_MISSING@, r),
{
    if !enabled {
        return Ok(None);
    }
    match ui_middleware(backend, deps) {
        Ok(middleware) => Ok(Some(middleware)),
        Err(e) => Err(e),
    }
}

/// A disabled configuration builds nothing: the result is the same for
/// every path, every list of further applications, every set of
/// dependencies and every backend.
pub proof fn disabled_builds_nothing<S, C, R, F, A>(
    backend: MiddlewareBackend,
    wiring: Wiring<S, C, R, F, A>,
    missing: Seq<char>,
    r: Result<Option<Middleware<S, C, R, F, A>>, Error>,
)
    requires
        built_on(false, backend, wiring, missing, r),
    ensures
        r == Ok::<Option<Middleware<S, C, R, F, A>>, Error>(None),
{
}

} // verus!
