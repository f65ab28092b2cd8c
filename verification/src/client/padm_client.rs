//! The worker of one target: its settings, its credentials, the variables of
//! its last successful poll, its registry, and the state machine of its poll
//! loop.
//!
//! The worker performs no request itself. It is told what happened by
//! [`PADMClient::advance`] and answers with what is to be done next; the
//! program around it performs the action and reports the outcome.
use vstd::prelude::*;
use vstd::string::StringExecFns;
use crate::client::auth::{AuthData, AuthDataView};
use crate::client::update::{plan_updates, planned_observations};
use crate::config::schema::{Target, TargetView};
use crate::metrics::key::MetricKey;
use crate::metrics::observation::{observation_views, Observation, ObservationView};
use crate::metrics::registry::{
    cell_bits,
    series_kept,
    series_same,
    series_same_but,
    update_outcome,
    MetricsRegistry,
    RegistryError,
};
use crate::target::schema::{ApiResponse, AttributesView};
use crate::text::{clone_strings, views};

verus! {

/// Where the poll loop of a worker stands.
#[derive(Debug, Clone, Copy, PartialEq, Eq, Structural)]
pub enum Phase {
    /// Manual mode, between polls: the worker waits for a probe request.
    Waiting,
    /// Interval mode, between polls, and before the first poll.
    Sleeping,
    /// The login that precedes the first request of a worker without
    /// credentials is under way.
    Authenticating,
    /// The request for the variables is under way.
    Fetching,
    /// The request was refused as unauthorized and the login is repeated.
    Reauthenticating,
    /// The request is repeated after the second login.
    Refetching,
    /// The response is being decoded.
    Decoding,
    /// The poll is over and its result is being published or reported.
    Settling,
    /// The worker was told to stop and polls no more.
    Stopped,
}

/// Why a poll failed.
#[derive(Debug, Clone, Copy, PartialEq, Eq, Structural)]
pub enum PollFailure {
    /// The login failed, or its response was malformed.
    Authentication,
    /// The request got no response.
    Transport,
    /// The request was answered with this status, which is no success.
    Status(u16),
    /// The response could not be decoded.
    Malformed,
    /// Something was reported that the worker was not waiting for.
    Unexpected,
}

/// What the program around the worker reports to it.
#[derive(Debug)]
pub enum WorkerEvent {
    /// The wait that the worker asked for is over.
    Woken,
    /// The login succeeded and returned these credentials.
    Authenticated(AuthData),
    /// The login failed, or its response was malformed.
    AuthenticationFailed,
    /// The request was answered with this status.
    Responded(u16),
    /// The request got no response.
    Unreachable,
    /// The response was decoded into these variables.
    Decoded(ApiResponse),
    /// The response could not be decoded.
    Undecodable,
    /// The result of the poll was published or reported.
    Settled,
}

/// Mathematical value of a [`WorkerEvent`].
pub enum WorkerEventView {
    Woken,
    Authenticated(AuthDataView),
    AuthenticationFailed,
    Responded(u16),
    Unreachable,
    Decoded(Seq<AttributesView>),
    Undecodable,
    Settled,
}

impl View for WorkerEvent {
    type V = WorkerEventView;

    open spec fn view(&self) -> WorkerEventView {
        match self {
            WorkerEvent::Woken => WorkerEventView::Woken,
            WorkerEvent::Authenticated(auth) => WorkerEventView::Authenticated(auth@),
            WorkerEvent::AuthenticationFailed => WorkerEventView::AuthenticationFailed,
            WorkerEvent::Responded(status) => WorkerEventView::Responded(*status),
            WorkerEvent::Unreachable => WorkerEventView::Unreachable,
            WorkerEvent::Decoded(response) => WorkerEventView::Decoded(response@),
            WorkerEvent::Undecodable => WorkerEventView::Undecodable,
            WorkerEvent::Settled => WorkerEventView::Settled,
        }
    }
}

/// What the worker asks the program around it to do.
#[derive(Debug)]
pub enum WorkerAction {
    /// Wait until a probe is requested, then report `Woken`.
    AwaitTrigger,
    /// Wait for this many seconds, then report `Woken`.
    Sleep(u64),
    /// Post the user name and the password as a form to the address, and
    /// report `Authenticated` or `AuthenticationFailed`.
    Authenticate { url: String, username: String, password: String },
    /// Get the address with this value in the `Authorization` header, and
    /// report `Responded` or `Unreachable`.
    Fetch { url: String, authorization: String },
    /// Decode the body of the response, and report `Decoded` or
    /// `Undecodable`.
    Decode,
    /// Write the observations to the registry, announce that data is
    /// available if `announce` is set, and report `Settled`.
    Publish { observations: Vec<Observation>, announce: bool },
    /// Log the failure, and report `Settled`.
    Report(PollFailure),
    /// End the loop: the worker has stopped.
    Stop,
}

/// Mathematical value of a [`WorkerAction`].
pub enum WorkerActionView {
    AwaitTrigger,
    Sleep(u64),
    Authenticate { url: Seq<char>, username: Seq<char>, password: Seq<char> },
    Fetch { url: Seq<char>, authorization: Seq<char> },
    Decode,
    Publish { observations: Seq<ObservationView>, announce: bool },
    Report(PollFailure),
    Stop,
}

impl View for WorkerAction {
    type V = WorkerActionView;

    open spec fn view(&self) -> WorkerActionView {
        match self {
            WorkerAction::AwaitTrigger => WorkerActionView::AwaitTrigger,
            WorkerAction::Sleep(seconds) => WorkerActionView::Sleep(*seconds),
            WorkerAction::Authenticate { url, username, password } => {
                WorkerActionView::Authenticate {
                    url: url@,
                    username: username@,
                    password: password@,
                }
            },
            WorkerAction::Fetch { url, authorization } => WorkerActionView::Fetch {
                url: url@,
                authorization: authorization@,
            },
            WorkerAction::Decode => WorkerActionView::Decode,
            WorkerAction::Publish { observations, announce } => WorkerActionView::Publish {
                observations: observation_views(observations@),
                announce: *announce,
            },
            WorkerAction::Report(failure) => WorkerActionView::Report(*failure),
            WorkerAction::Stop => WorkerActionView::Stop,
        }
    }
}

/// Mathematical value of a [`PADMClient`], without its registry.
pub struct ClientView {
    pub addr: Seq<char>,
    pub url: Seq<char>,
    pub tls_insecure: bool,
    pub interval: u64,
    pub username: Seq<char>,
    pub password: Seq<char>,
    pub tracked_devices: Seq<Seq<char>>,
    pub auth: AuthDataView,
    pub snapshot: Option<Seq<AttributesView>>,
    pub phase: Phase,
    pub probe_requested: bool,
}

/// A status from 200 to 299.
pub open spec fn is_success(status: u16) -> bool {
    200 <= status < 300
}

/// The status of a request that was refused for want of authorization.
pub open spec fn unauthorized() -> u16 {
    401
}

/// A worker is ready where its registry holds a sample and it polls on its
/// own. A worker in manual mode is never ready: who wants its data asks for
/// a probe and waits for it.
pub open spec fn readiness(interval: u64, has_samples: bool) -> bool {
    has_samples && interval != 0
}

impl ClientView {
    /// Manual mode: the worker polls on request only.
    pub open spec fn is_manual(self) -> bool {
        self.interval == 0
    }

    /// The phase fits the mode: a worker in manual mode never sleeps, and a
    /// worker in interval mode neither waits for a probe request nor holds
    /// one.
    pub open spec fn valid(self) -> bool {
        if self.is_manual() {
            self.phase != Phase::Sleeping
        } else {
            self.phase != Phase::Waiting && !self.probe_requested
        }
    }

    /// The address of the login.
    pub open spec fn token_url(self) -> Seq<char> {
        self.url + "/api/oauth/token?grant_type=password"@
    }

    /// The address of the variables.
    pub open spec fn variables_url(self) -> Seq<char> {
        self.url + "/api/variables"@
    }

    /// The login exchange.
    pub open spec fn authenticate(self) -> WorkerActionView {
        WorkerActionView::Authenticate {
            url: self.token_url(),
            username: self.username,
            password: self.password,
        }
    }

    /// The request for the variables, with the access token of the
    /// credentials that the worker holds.
    pub open spec fn fetch(self) -> WorkerActionView {
        WorkerActionView::Fetch {
            url: self.variables_url(),
            authorization: "Bearer "@ + self.auth.access_token,
        }
    }

    /// The worker in another phase.
    pub open spec fn at(self, phase: Phase) -> ClientView {
        ClientView { phase, ..self }
    }

    /// The worker with new credentials.
    pub open spec fn with_auth(self, auth: AuthDataView) -> ClientView {
        ClientView { auth, ..self }
    }

    /// The start of a poll: a worker whose credentials are empty logs in
    /// first, any other sends the request.
    pub open spec fn begin(self) -> (ClientView, WorkerActionView) {
        if self.auth.is_empty() {
            (self.at(Phase::Authenticating), self.authenticate())
        } else {
            (self.at(Phase::Fetching), self.fetch())
        }
    }

    /// The end of a poll that failed: the credentials and the variables of
    /// the last successful poll stay as they are.
    pub open spec fn fail(self, failure: PollFailure) -> (ClientView, WorkerActionView) {
        (self.at(Phase::Settling), WorkerActionView::Report(failure))
    }

    /// What a worker in manual mode does between polls: it takes up a probe
    /// request if there is one, and waits for one if there is none.
    pub open spec fn await_probe(self) -> (ClientView, WorkerActionView) {
        if self.probe_requested {
            ClientView { probe_requested: false, ..self }.begin()
        } else {
            (self.at(Phase::Waiting), WorkerActionView::AwaitTrigger)
        }
    }

    /// What follows a poll: in manual mode the wait for a probe request, in
    /// interval mode the sleep.
    pub open spec fn rest(self) -> (ClientView, WorkerActionView) {
        if self.is_manual() {
            self.await_probe()
        } else {
            (self.at(Phase::Sleeping), WorkerActionView::Sleep(self.interval))
        }
    }

    /// What follows the answer to a login.
    pub open spec fn after_login(self, event: WorkerEventView, then: Phase) -> (
        ClientView,
        WorkerActionView,
    ) {
        match event {
            WorkerEventView::Authenticated(auth) => {
                let next = self.with_auth(auth).at(then);
                (next, next.fetch())
            },
            WorkerEventView::AuthenticationFailed => self.fail(PollFailure::Authentication),
            _ => self.fail(PollFailure::Unexpected),
        }
    }

    /// What follows the answer to a request. Only the first request of a
    /// poll is repeated after a new login where it was refused as
    /// unauthorized.
    pub open spec fn after_request(self, event: WorkerEventView, may_retry: bool) -> (
        ClientView,
        WorkerActionView,
    ) {
        match event {
            WorkerEventView::Responded(status) => {
                if is_success(status) {
                    (self.at(Phase::Decoding), WorkerActionView::Decode)
                } else if status == unauthorized() && may_retry {
                    (self.at(Phase::Reauthenticating), self.authenticate())
                } else {
                    self.fail(PollFailure::Status(status))
                }
            },
            WorkerEventView::Unreachable => self.fail(PollFailure::Transport),
            _ => self.fail(PollFailure::Unexpected),
        }
    }

    /// What follows the decoding of a response: the variables replace those
    /// of the last successful poll and their observations are published.
    /// Data is announced unless the worker was ready before.
    pub open spec fn after_decoding(self, event: WorkerEventView, had_samples: bool) -> (
        ClientView,
        WorkerActionView,
    ) {
        match event {
            WorkerEventView::Decoded(records) => (
                ClientView { snapshot: Some(records), ..self }.at(Phase::Settling),
                WorkerActionView::Publish {
                    observations: planned_observations(records, self.tracked_devices),
                    announce: !readiness(self.interval, had_samples),
                },
            ),
            WorkerEventView::Undecodable => self.fail(PollFailure::Malformed),
            _ => self.fail(PollFailure::Unexpected),
        }
    }

    /// The transition of the worker: the state after an event and the action
    /// that the worker asks for. `had_samples` says whether the registry held
    /// a sample when the event arrived.
    ///
    /// Between polls the worker does not look at the event: whatever is
    /// reported ends the wait. A worker that was stopped stays so.
    pub open spec fn step(self, event: WorkerEventView, had_samples: bool) -> (
        ClientView,
        WorkerActionView,
    ) {
        match self.phase {
            Phase::Stopped => (self, WorkerActionView::Stop),
            Phase::Waiting => self.await_probe(),
            Phase::Sleeping => self.begin(),
            Phase::Settling => self.rest(),
            Phase::Authenticating => self.after_login(event, Phase::Fetching),
            Phase::Fetching => self.after_request(event, true),
            Phase::Reauthenticating => self.after_login(event, Phase::Refetching),
            Phase::Refetching => self.after_request(event, false),
            Phase::Decoding => self.after_decoding(event, had_samples),
        }
    }
}

/// What a scrape does before it reads the registry of a worker.
#[derive(Debug, Clone, Copy)]
pub struct ScrapePlan {
    /// The worker is to be woken for a probe.
    pub wake: bool,
    /// The scrape is to wait until data is announced.
    pub wait: bool,
}

/// The phase in which a new worker starts: it waits for a probe request in
/// manual mode and polls at once in interval mode.
pub open spec fn initial_phase(interval: u64) -> Phase {
    if interval == 0 {
        Phase::Waiting
    } else {
        Phase::Sleeping
    }
}

/// The default of a setting that may be left out.
pub open spec fn or_default<T>(setting: Option<T>, default: T) -> T {
    match setting {
        Some(value) => value,
        None => default,
    }
}

/// The worker that is made for a target of the settings.
pub open spec fn initial_client(target: TargetView) -> ClientView {
    ClientView {
        addr: target.addr(),
        url: target.url(),
        tls_insecure: or_default(target.tls_insecure, false),
        interval: or_default(target.interval, 30),
        username: target.username,
        password: target.password,
        tracked_devices: or_default(target.track_devices, Seq::empty()),
        auth: AuthDataView {
            access_token: Seq::empty(),
            refresh_token: Seq::empty(),
            msg: Seq::empty(),
        },
        snapshot: None,
        phase: initial_phase(or_default(target.interval, 30)),
        probe_requested: false,
    }
}

/// The worker of one target.
pub struct PADMClient {
    addr: String,
    url: String,
    tls_insecure: bool,
    interval: u64,
    username: String,
    password: String,
    tracked_devices: Vec<String>,
    auth_data: AuthData,
    api_response: Option<ApiResponse>,
    registry: MetricsRegistry,
    phase: Phase,
    probe_requested: bool,
}

impl View for PADMClient {
    type V = ClientView;

    closed spec fn view(&self) -> ClientView {
        ClientView {
            addr: self.addr@,
            url: self.url@,
            tls_insecure: self.tls_insecure,
            interval: self.interval,
            username: self.username@,
            password: self.password@,
            tracked_devices: views(self.tracked_devices@),
            auth: self.auth_data@,
            snapshot: match self.api_response {
                Some(response) => Some(response@),
                None => None,
            },
            phase: self.phase,
            probe_requested: self.probe_requested,
        }
    }
}

impl PADMClient {
    /// The registry of the worker.
    pub closed spec fn metrics(&self) -> MetricsRegistry {
        self.registry
    }

    /// The worker is consistent: its registry is, and its phase fits its
    /// mode.
    pub open spec fn wf(&self) -> bool {
        self.metrics().wf() && self@.valid()
    }

    /// A worker for the target at `url`, known as `addr`, with empty
    /// credentials, no variables and an empty registry.
    pub fn new(
        addr: String,
        url: String,
        tls_insecure: bool,
        interval: u64,
        username: &str,
        password: &str,
        tracked_devices: Vec<String>,
    ) -> (client: PADMClient)
        ensures
            client.wf(),
            client.metrics().keys().len() == 0,
            client@.addr == addr@,
            client@.url == url@,
            client@.tls_insecure == tls_insecure,
            client@.interval == interval,
            client@.username == username@,
            client@.password == password@,
            client@.tracked_devices == views(tracked_devices@),
            client@.auth == (AuthDataView {
                access_token: Seq::empty(),
                refresh_token: Seq::empty(),
                msg: Seq::empty(),
            }),
            client@.snapshot is None,
            client@.phase == initial_phase(interval),
            !client@.probe_requested,
    {
        PADMClient {
            addr,
            url,
            tls_insecure,
            interval,
            username: String::from_str(username),
            password: String::from_str(password),
            tracked_devices,
            auth_data: AuthData::new(),
            api_response: None,
            registry: MetricsRegistry::new(),
            phase: if interval == 0 {
                Phase::Waiting
            } else {
                Phase::Sleeping
            },
            probe_requested: false,
        }
    }

    /// The worker for a target of the settings: it is known by the address
    /// of the target and polls its base address. Without tracked devices in
    /// the settings none are tracked.
    pub fn for_target(target: &Target) -> (client: PADMClient)
        ensures
            client.wf(),
            client.metrics().keys().len() == 0,
            client@ == initial_client(target@),
    {
        let tracked_devices = match target.tracked_devices() {
            Some(devices) => clone_strings(devices),
            None => Vec::new(),
        };
        proof {
            if target@.track_devices is None {
                assert(views(tracked_devices@) =~= Seq::<Seq<char>>::empty());
            }
        }
        let client = PADMClient::new(
            target.addr(),
            target.url(),
            target.tls_insecure(),
            target.interval(),
            target.username(),
            target.password(),
            tracked_devices,
        );
        client
    }

    /// The name under which the target is known.
    pub fn addr(&self) -> (r: &str)
        ensures
            r@ == self@.addr,
    {
        self.addr.as_str()
    }

    /// The base address of the target.
    pub fn url(&self) -> (r: &str)
        ensures
            r@ == self@.url,
    {
        self.url.as_str()
    }

    /// Whether certificates are accepted without verification.
    pub fn tls_insecure(&self) -> (r: bool)
        ensures
            r == self@.tls_insecure,
    {
        self.tls_insecure
    }

    /// The seconds between two polls; zero in manual mode.
    pub fn interval(&self) -> (r: u64)
        ensures
            r == self@.interval,
    {
        self.interval
    }

    /// Tells whether the worker polls on request only.
    pub fn is_manual(&self) -> (r: bool)
        ensures
            r == self@.is_manual(),
    {
        self.interval == 0
    }

    /// The phase of the poll loop.
    pub fn phase(&self) -> (r: Phase)
        ensures
            r == self@.phase,
    {
        self.phase
    }

    /// The access token of the current credentials; empty before the first
    /// login.
    pub fn current_token(&self) -> (r: &str)
        ensures
            r@ == self@.auth.access_token,
    {
        self.auth_data.access_token.as_str()
    }

    /// The variables of the last successful poll, if there was one.
    pub fn snapshot(&self) -> (r: Option<&ApiResponse>)
        ensures
            match r {
                Some(response) => self@.snapshot == Some(response@),
                None => self@.snapshot is None,
            },
    {
        self.api_response.as_ref()
    }

    /// The registry of the worker.
    pub fn registry(&self) -> (r: &MetricsRegistry)
        ensures
            *r == self.metrics(),
    {
        &self.registry
    }

    /// Tells whether the worker is ready, given whether its registry holds a
    /// sample.
    pub fn is_ready_with(&self, has_samples: bool) -> (r: bool)
        ensures
            r == readiness(self@.interval, has_samples),
    {
        has_samples && !self.is_manual()
    }

    /// Tells whether the worker is ready: its registry holds a sample and it
    /// is not in manual mode. A registry without a key holds no sample; of
    /// any other the registry is asked, so the contract leaves it open.
    pub fn is_ready(&self) -> (r: bool)
        requires
            self.wf(),
        ensures
            self@.is_manual() ==> !r,
            self.metrics().keys().len() == 0 ==> !r,
    {
        self.is_ready_with(!self.registry.is_empty())
    }

    /// Notes that a probe is wanted. The request is kept until the worker
    /// takes it up, so it is not lost where the worker is in the middle of a
    /// poll. In interval mode nothing is noted. Returns whether the request
    /// was noted, in which case a waiting worker is to be woken.
    pub fn request_probe(&mut self) -> (noted: bool)
        requires
            old(self).wf(),
        ensures
            final(self).wf(),
            noted == old(self)@.is_manual(),
            final(self)@ == (ClientView {
                probe_requested: old(self)@.probe_requested || noted,
                ..old(self)@
            }),
            final(self).metrics() == old(self).metrics(),
    {
        if self.interval == 0 {
            self.probe_requested = true;
            true
        } else {
            false
        }
    }

    /// Tells the worker to stop. Whatever is reported to it from now on, it
    /// asks for the loop to end; its credentials, its variables and its
    /// registry stay as they are.
    pub fn stop(&mut self)
        requires
            old(self).wf(),
        ensures
            final(self).wf(),
            final(self)@ == old(self)@.at(Phase::Stopped),
            final(self).metrics() == old(self).metrics(),
    {
        self.phase = Phase::Stopped;
    }

    /// Decides what a scrape does before it reads the registry, given
    /// whether the registry holds a sample. In manual mode a probe request is
    /// noted as [`PADMClient::request_probe`] does, and the worker is to be
    /// woken. The scrape waits for data to be announced unless the worker is
    /// ready.
    pub fn begin_scrape_with(&mut self, has_samples: bool) -> (plan: ScrapePlan)
        requires
            old(self).wf(),
        ensures
            final(self).wf(),
            plan.wake == old(self)@.is_manual(),
            plan.wait == !readiness(old(self)@.interval, has_samples),
            final(self)@ == (ClientView {
                probe_requested: old(self)@.probe_requested || plan.wake,
                ..old(self)@
            }),
            final(self).metrics() == old(self).metrics(),
    {
        let wake = self.request_probe();
        let wait = !self.is_ready_with(has_samples);
        ScrapePlan { wake, wait }
    }

    /// Decides what a scrape does before it reads the registry, as
    /// [`PADMClient::begin_scrape_with`] does. Whether the registry holds a
    /// sample is asked of the registry, so the contract leaves open whether
    /// a scrape in interval mode waits; in manual mode it always does.
    pub fn begin_scrape(&mut self) -> (plan: ScrapePlan)
        requires
            old(self).wf(),
        ensures
            final(self).wf(),
            plan.wake == old(self)@.is_manual(),
            old(self)@.is_manual() ==> plan.wait,
            old(self).metrics().keys().len() == 0 ==> plan.wait,
            final(self)@ == (ClientView {
                probe_requested: old(self)@.probe_requested || plan.wake,
                ..old(self)@
            }),
            final(self).metrics() == old(self).metrics(),
    {
        let has_samples = !self.registry.is_empty();
        self.begin_scrape_with(has_samples)
    }

    /// Writes a value to one series of the registry of the worker, as
    /// [`MetricsRegistry::update_metric`] does. Nothing but the registry
    /// changes.
    pub fn write_metric(
        &mut self,
        key: &MetricKey,
        label_values: &Vec<String>,
        value: &prometheus::core::AtomicF64,
    ) -> (r: Result<(), RegistryError>)
        requires
            old(self).wf(),
        ensures
            final(self).wf(),
            final(self)@ == old(self)@,
            update_outcome(
                old(self).metrics().keys(),
                key@,
                old(self).metrics().accepts_key(key@),
                label_values@.len(),
                final(self).metrics().keys(),
                r,
            ),
            r is Ok ==> final(self).metrics().holds_series(key@, views(label_values@)),
            r is Ok ==> final(self).metrics().holds_number(
                key@,
                views(label_values@),
                cell_bits(*value),
            ),
            r is Err ==> series_same(old(self).metrics(), final(self).metrics()),
            series_kept(old(self).metrics(), final(self).metrics()),
            series_same_but(old(self).metrics(), final(self).metrics(), key@),
    {
        self.registry.update_metric(key, label_values, value)
    }

    fn authenticate_action(&self) -> (action: WorkerAction)
        ensures
            action@ == self@.authenticate(),
    {
        let mut url = self.url.clone();
        url.append("/api/oauth/token?grant_type=password");
        WorkerAction::Authenticate {
            url,
            username: self.username.clone(),
            password: self.password.clone(),
        }
    }

    fn fetch_action(&self) -> (action: WorkerAction)
        ensures
            action@ == self@.fetch(),
    {
        let mut url = self.url.clone();
        url.append("/api/variables");
        let mut authorization = String::from_str("Bearer ");
        authorization.append(self.auth_data.access_token.as_str());
        WorkerAction::Fetch { url, authorization }
    }

    fn begin(&mut self) -> (action: WorkerAction)
        ensures
            (final(self)@, action@) == old(self)@.begin(),
            final(self).metrics() == old(self).metrics(),
    {
        if self.auth_data.is_empty() {
            self.phase = Phase::Authenticating;
            self.authenticate_action()
        } else {
            self.phase = Phase::Fetching;
            self.fetch_action()
        }
    }

    fn fail(&mut self, failure: PollFailure) -> (action: WorkerAction)
        ensures
            (final(self)@, action@) == old(self)@.fail(failure),
            final(self).metrics() == old(self).metrics(),
    {
        self.phase = Phase::Settling;
        WorkerAction::Report(failure)
    }

    fn await_probe(&mut self) -> (action: WorkerAction)
        ensures
            (final(self)@, action@) == old(self)@.await_probe(),
            final(self).metrics() == old(self).metrics(),
    {
        if self.probe_requested {
            self.probe_requested = false;
            self.begin()
        } else {
            self.phase = Phase::Waiting;
            WorkerAction::AwaitTrigger
        }
    }

    fn after_login(&mut self, event: WorkerEvent, then: Phase) -> (action: WorkerAction)
        ensures
            (final(self)@, action@) == old(self)@.after_login(event@, then),
            final(self).metrics() == old(self).metrics(),
    {
        match event {
            WorkerEvent::Authenticated(auth) => {
                self.auth_data = auth;
                self.phase = then;
                self.fetch_action()
            },
            WorkerEvent::AuthenticationFailed => self.fail(PollFailure::Authentication),
            _ => self.fail(PollFailure::Unexpected),
        }
    }

    fn after_request(&mut self, event: WorkerEvent, may_retry: bool) -> (action: WorkerAction)
        ensures
            (final(self)@, action@) == old(self)@.after_request(event@, may_retry),
            final(self).metrics() == old(self).metrics(),
    {
        match event {
            WorkerEvent::Responded(status) => {
                if 200 <= status && status < 300 {
                    self.phase = Phase::Decoding;
                    WorkerAction::Decode
                } else if status == 401 && may_retry {
                    self.phase = Phase::Reauthenticating;
                    self.authenticate_action()
                } else {
                    self.fail(PollFailure::Status(status))
                }
            },
            WorkerEvent::Unreachable => self.fail(PollFailure::Transport),
            _ => self.fail(PollFailure::Unexpected),
        }
    }

    fn after_decoding(&mut self, event: WorkerEvent, had_samples: bool) -> (action: WorkerAction)
        ensures
            (final(self)@, action@) == old(self)@.after_decoding(event@, had_samples),
            final(self).metrics() == old(self).metrics(),
    {
        match event {
            WorkerEvent::Decoded(response) => {
                let announce = !self.is_ready_with(had_samples);
                let observations = plan_updates(&response, &self.tracked_devices);
                self.api_response = Some(response);
                self.phase = Phase::Settling;
                WorkerAction::Publish { observations, announce }
            },
            WorkerEvent::Undecodable => self.fail(PollFailure::Malformed),
            _ => self.fail(PollFailure::Unexpected),
        }
    }

    /// Takes note of what happened and says what is to be done next, as
    /// [`ClientView::step`] lays down, given whether the registry holds a
    /// sample.
    pub fn advance_with(&mut self, event: WorkerEvent, had_samples: bool) -> (action: WorkerAction)
        requires
            old(self).wf(),
        ensures
            final(self).wf(),
            (final(self)@, action@) == old(self)@.step(event@, had_samples),
            final(self).metrics() == old(self).metrics(),
    {
        proof {
            lemma_step_keeps_valid(self@, event@, had_samples);
        }
        match self.phase {
            Phase::Stopped => WorkerAction::Stop,
            Phase::Waiting => self.await_probe(),
            Phase::Sleeping => self.begin(),
            Phase::Settling => {
                if self.interval == 0 {
                    self.await_probe()
                } else {
                    self.phase = Phase::Sleeping;
                    WorkerAction::Sleep(self.interval)
                }
            },
            Phase::Authenticating => self.after_login(event, Phase::Fetching),
            Phase::Fetching => self.after_request(event, true),
            Phase::Reauthenticating => self.after_login(event, Phase::Refetching),
            Phase::Refetching => self.after_request(event, false),
            Phase::Decoding => self.after_decoding(event, had_samples),
        }
    }

    /// Takes note of what happened and says what is to be done next, as
    /// [`ClientView::step`] lays down. A new worker is started by reporting
    /// `Woken`.
    ///
    /// Whether data is announced after a successful poll in interval mode
    /// depends on whether the registry held a sample. A registry without a
    /// key holds none; of any other the registry is asked, which the
    /// contract leaves open. Everything else is determined.
    pub fn advance(&mut self, event: WorkerEvent) -> (action: WorkerAction)
        requires
            old(self).wf(),
        ensures
            final(self).wf(),
            (final(self)@, action@) == old(self)@.step(event@, true) || (final(self)@, action@)
                == old(self)@.step(event@, false),
            old(self)@.is_manual() || old(self)@.phase != Phase::Decoding || old(
                self,
            ).metrics().keys().len() == 0 ==> (final(self)@, action@) == old(self)@.step(
                event@,
                false,
            ),
            final(self).metrics() == old(self).metrics(),
    {
        let had_samples = !self.registry.is_empty();
        self.advance_with(event, had_samples)
    }
}

/// The number of steps that a poll in the given phase can still take before
/// it settles; zero between polls.
pub open spec fn steps_left(phase: Phase) -> nat {
    match phase {
        Phase::Authenticating => 5,
        Phase::Fetching => 4,
        Phase::Reauthenticating => 3,
        Phase::Refetching => 2,
        Phase::Decoding => 1,
        _ => 0,
    }
}

/// Every step leaves the phase fit for the mode.
pub proof fn lemma_step_keeps_valid(client: ClientView, event: WorkerEventView, had_samples: bool)
    requires
        client.valid(),
    ensures
        client.step(event, had_samples).0.valid(),
{
}

/// Every step of a poll brings it nearer to its end, whatever is reported:
/// no poll logs in more than twice or sends more than two requests.
pub proof fn lemma_poll_makes_progress(client: ClientView, event: WorkerEventView, had_samples: bool)
    requires
        steps_left(client.phase) > 0,
    ensures
        steps_left(client.step(event, had_samples).0.phase) < steps_left(client.phase),
{
}

/// A request that is refused as unauthorized is followed by one login and,
/// where that succeeds, by one more request with the new access token. The
/// poll then ends with the answer to that request: any status but a success,
/// a second refusal included, is reported as a failure and nothing is tried
/// again.
pub proof fn lemma_unauthorized_is_retried_once(
    client: ClientView,
    auth: AuthDataView,
    status: u16,
    had_samples: bool,
)
    requires
        client.phase == Phase::Fetching,
    ensures
        ({
            let (relogin, first) = client.step(
                WorkerEventView::Responded(unauthorized()),
                had_samples,
            );
            let (retry, second) = relogin.step(WorkerEventView::Authenticated(auth), had_samples);
            let (settled, third) = retry.step(WorkerEventView::Responded(status), had_samples);
            &&& first == client.authenticate()
            &&& relogin == client.at(Phase::Reauthenticating)
            &&& second == (WorkerActionView::Fetch {
                url: client.variables_url(),
                authorization: "Bearer "@ + auth.access_token,
            })
            &&& retry == client.with_auth(auth).at(Phase::Refetching)
            &&& third == if is_success(status) {
                WorkerActionView::Decode
            } else {
                WorkerActionView::Report(PollFailure::Status(status))
            }
            &&& settled.phase == if is_success(status) {
                Phase::Decoding
            } else {
                Phase::Settling
            }
        }),
{
}

/// A login that fails leaves the credentials as they were, and so does every
/// other failure of a poll.
pub proof fn lemma_failure_keeps_state(client: ClientView, event: WorkerEventView, had_samples: bool)
    requires
        client.step(event, had_samples).1 is Report,
    ensures
        client.step(event, had_samples).0 == client.at(Phase::Settling),
{
}

/// A worker that was stopped takes up nothing any more: it keeps asking for
/// the loop to end and its state does not change.
pub proof fn lemma_stopped_stays_stopped(
    client: ClientView,
    event: WorkerEventView,
    had_samples: bool,
)
    requires
        client.phase == Phase::Stopped,
    ensures
        client.step(event, had_samples) == (client, WorkerActionView::Stop),
{
}

/// Whether the step took up a poll: it left the worker at the login or at
/// the first request.
pub open spec fn begins_poll(before: ClientView, after: ClientView) -> bool {
    (before.phase == Phase::Waiting || before.phase == Phase::Sleeping || before.phase
        == Phase::Settling) && (after.phase == Phase::Authenticating || after.phase
        == Phase::Fetching)
}

/// In manual mode a probe request is not lost: it stays noted until a step
/// takes up a poll for it.
pub proof fn lemma_probe_request_is_kept(
    client: ClientView,
    event: WorkerEventView,
    had_samples: bool,
)
    requires
        client.valid(),
        client.is_manual(),
        client.probe_requested,
    ensures
        ({
            let after = client.step(event, had_samples).0;
            after.probe_requested != begins_poll(client, after)
        }),
{
}

/// A worker in manual mode polls on request only. Without a request it
/// keeps waiting, whatever is reported to it; with one it takes up exactly
/// one poll, and when that poll has settled it waits again.
pub proof fn lemma_one_poll_for_one_probe(
    client: ClientView,
    event: WorkerEventView,
    had_samples: bool,
)
    requires
        client.is_manual(),
        client.phase == Phase::Waiting || client.phase == Phase::Settling,
    ensures
        ({
            let (after, action) = client.step(event, had_samples);
            if client.probe_requested {
                begins_poll(client, after) && !after.probe_requested
            } else {
                after == client.at(Phase::Waiting) && action == WorkerActionView::AwaitTrigger
            }
        }),
{
}

/// A scrape of a worker in manual mode is answered by one poll. The scrape
/// notes a probe request while the worker is between polls. Whatever wakes
/// the worker then, it takes up a poll: it logs in first if it holds no
/// credentials, sends the request, and where that succeeds and the response
/// is decoded, it takes the variables of the response as its own and asks
/// for their observations to be published and for data to be announced,
/// which is what the scrape waits for. The request is used up by that poll,
/// and when the poll has settled the worker waits for the next request.
pub proof fn lemma_probe_is_answered_by_one_poll(
    client: ClientView,
    woken: WorkerEventView,
    auth: AuthDataView,
    status: u16,
    records: Seq<AttributesView>,
    settled: WorkerEventView,
    had_samples: bool,
)
    requires
        client.valid(),
        client.is_manual(),
        client.phase == Phase::Waiting || client.phase == Phase::Settling,
        is_success(status),
    ensures
        ({
            let requested = ClientView { probe_requested: true, ..client };
            let (begun, first) = requested.step(woken, had_samples);
            let (fetching, second) = if client.auth.is_empty() {
                begun.step(WorkerEventView::Authenticated(auth), had_samples)
            } else {
                (begun, first)
            };
            let (decoding, third) = fetching.step(WorkerEventView::Responded(status), had_samples);
            let (publishing, fourth) = decoding.step(
                WorkerEventView::Decoded(records),
                had_samples,
            );
            let (waiting, fifth) = publishing.step(settled, had_samples);
            &&& first == if client.auth.is_empty() {
                client.authenticate()
            } else {
                client.fetch()
            }
            &&& second == (WorkerActionView::Fetch {
                url: client.variables_url(),
                authorization: "Bearer "@ + fetching.auth.access_token,
            })
            &&& fetching.auth == if client.auth.is_empty() {
                auth
            } else {
                client.auth
            }
            &&& third == WorkerActionView::Decode
            &&& fourth == (WorkerActionView::Publish {
                observations: planned_observations(records, client.tracked_devices),
                announce: true,
            })
            &&& publishing.snapshot == Some(records)
            &&& !publishing.probe_requested
            &&& fifth == WorkerActionView::AwaitTrigger
            &&& waiting == publishing.at(Phase::Waiting)
        }),
{
}

} // verus!
