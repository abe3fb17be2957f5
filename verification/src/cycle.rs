//! The reconciliation cycle.
//!
//! One cycle fetches the current public IP from a discovery endpoint,
//! reads the IP recorded at the provider, and writes the fetched value
//! when the two differ.  The [`Reconciler`] is a state machine over
//! these steps: the caller performs the HTTP call named by each
//! [`Action`] and hands the result back as an [`Event`]; every failure
//! ends the cycle with an outcome instead of an action, so no failure
//! ever escapes a cycle.

use vstd::prelude::*;

use vstd::pervasive::unreached;

use crate::config::{Config, Ip, ProviderMode, TwoDNSConfigView};
use crate::errors::{malformed_cause, status_cause, FetchError, UpdateError};
use crate::payload::{encode_ip_payload, extract_ip_address, ip_field_value, payload_spec};
use crate::select::{random_index, rr_next};
use crate::text::{trim_ip, trim_spec};

verus! {

/// Success is any status in the 2xx class.
pub open spec fn is_success_status(code: u16) -> bool {
    200 <= code < 300
}

/// Reports whether `code` is a 2xx status.
pub fn is_success(code: u16) -> (r: bool)
    ensures
        r == is_success_status(code),
{
    200 <= code && code < 300
}

/// What an HTTP call came back with: the status code and the response
/// body as text.
pub struct HttpResponse {
    pub status: u16,
    pub body: String,
}

/// Abstract value of an [`HttpResponse`].
pub struct ResponseView {
    pub status: u16,
    pub body: Seq<char>,
}

impl View for HttpResponse {
    type V = ResponseView;

    open spec fn view(&self) -> ResponseView {
        ResponseView { status: self.status, body: self.body@ }
    }
}

/// Abstract value of an HTTP call's result: a response, or the
/// transport failure's message.
pub open spec fn http_result_view(r: Result<HttpResponse, String>) -> Result<
    ResponseView,
    Seq<char>,
> {
    match r {
        Result::Ok(resp) => Result::Ok(resp@),
        Result::Err(cause) => Result::Err(cause@),
    }
}

/// The result of the HTTP call the caller was asked to perform: the
/// response, or the transport failure's message (connection trouble,
/// name resolution, timeout expiry).
pub enum Event {
    /// The discovery endpoint's answer.
    FetchDone(Result<HttpResponse, String>),
    /// The provider read's answer.
    ReadDone(Result<HttpResponse, String>),
    /// The provider write's answer.
    WriteDone(Result<HttpResponse, String>),
}

/// Abstract value of an [`Event`].
pub enum EventView {
    FetchDone(Result<ResponseView, Seq<char>>),
    ReadDone(Result<ResponseView, Seq<char>>),
    WriteDone(Result<ResponseView, Seq<char>>),
}

impl View for Event {
    type V = EventView;

    open spec fn view(&self) -> EventView {
        match *self {
            Event::FetchDone(r) => EventView::FetchDone(http_result_view(r)),
            Event::ReadDone(r) => EventView::ReadDone(http_result_view(r)),
            Event::WriteDone(r) => EventView::WriteDone(http_result_view(r)),
        }
    }
}

/// Where the machine stands within a cycle.
pub enum Phase {
    /// Between cycles, waiting for the next tick.
    Idle,
    /// A discovery fetch is under way.
    AwaitingFetch,
    /// The fetched IP is known; the provider read is under way.
    AwaitingRecorded(Ip),
    /// The fetched IP differs from the recorded one; the provider
    /// write is under way.
    AwaitingWrite(Ip),
}

/// Abstract value of a [`Phase`].
pub enum PhaseView {
    Idle,
    AwaitingFetch,
    AwaitingRecorded(Seq<char>),
    AwaitingWrite(Seq<char>),
}

impl View for Phase {
    type V = PhaseView;

    open spec fn view(&self) -> PhaseView {
        match *self {
            Phase::Idle => PhaseView::Idle,
            Phase::AwaitingFetch => PhaseView::AwaitingFetch,
            Phase::AwaitingRecorded(ip) => PhaseView::AwaitingRecorded(ip@),
            Phase::AwaitingWrite(ip) => PhaseView::AwaitingWrite(ip@),
        }
    }
}

/// The HTTP call the caller must perform next.
pub enum Action {
    /// GET the URL, unauthenticated, with the given timeout in
    /// seconds; the body is expected to be the caller's public IP.
    Fetch { url: String, timeout: u64 },
    /// GET the provider URL with basic authentication.
    ReadRecorded { url: String, user: String, token: String, timeout: u64 },
    /// PUT the given JSON body to the provider URL with basic
    /// authentication.
    WriteRecorded { url: String, user: String, token: String, timeout: u64, body: String },
}

/// Abstract value of an [`Action`].
pub enum ActionView {
    Fetch { url: Seq<char>, timeout: u64 },
    ReadRecorded { url: Seq<char>, user: Seq<char>, token: Seq<char>, timeout: u64 },
    WriteRecorded {
        url: Seq<char>,
        user: Seq<char>,
        token: Seq<char>,
        timeout: u64,
        body: Seq<char>,
    },
}

impl View for Action {
    type V = ActionView;

    open spec fn view(&self) -> ActionView {
        match *self {
            Action::Fetch { url, timeout } => ActionView::Fetch { url: url@, timeout },
            Action::ReadRecorded { url, user, token, timeout } => ActionView::ReadRecorded {
                url: url@,
                user: user@,
                token: token@,
                timeout,
            },
            Action::WriteRecorded { url, user, token, timeout, body } => {
                (ActionView::WriteRecorded {
                    url: url@,
                    user: user@,
                    token: token@,
                    timeout,
                    body: body@,
                })
            },
        }
    }
}

/// How a cycle ended.
pub enum CycleOutcome {
    /// The discovery fetch failed; the provider was not contacted.
    FetchFailed(FetchError),
    /// The provider read failed or its payload was malformed.
    ReadFailed(FetchError),
    /// Fetched and recorded IPs agree; nothing was written.
    InSync(Ip),
    /// The provider write failed.
    WriteFailed(UpdateError),
    /// The fetched IP was written to the provider.
    Updated(String),
}

/// Abstract value of a [`CycleOutcome`]: errors by their cause text.
pub enum OutcomeView {
    FetchFailed(Seq<char>),
    ReadFailed(Seq<char>),
    InSync(Seq<char>),
    WriteFailed(Seq<char>),
    Updated(Seq<char>),
}

impl View for CycleOutcome {
    type V = OutcomeView;

    open spec fn view(&self) -> OutcomeView {
        match *self {
            CycleOutcome::FetchFailed(e) => OutcomeView::FetchFailed(e@),
            CycleOutcome::ReadFailed(e) => OutcomeView::ReadFailed(e@),
            CycleOutcome::InSync(ip) => OutcomeView::InSync(ip@),
            CycleOutcome::WriteFailed(e) => OutcomeView::WriteFailed(e@),
            CycleOutcome::Updated(ip) => OutcomeView::Updated(ip@),
        }
    }
}

/// What one step of the machine asks of the caller: perform another
/// HTTP call, or end the cycle with the given outcome.
pub enum StepResult {
    Next(Action),
    Done(CycleOutcome),
}

/// Abstract value of a [`StepResult`].
pub enum StepView {
    Next(ActionView),
    Done(OutcomeView),
}

impl View for StepResult {
    type V = StepView;

    open spec fn view(&self) -> StepView {
        match *self {
            StepResult::Next(a) => StepView::Next(a@),
            StepResult::Done(o) => StepView::Done(o@),
        }
    }
}

/// The event that each phase awaits: the machine only accepts the
/// answer to the call it asked for.
pub open spec fn expects(ph: PhaseView, ev: EventView) -> bool {
    match (ph, ev) {
        (PhaseView::AwaitingFetch, EventView::FetchDone(_)) => true,
        (PhaseView::AwaitingRecorded(_), EventView::ReadDone(_)) => true,
        (PhaseView::AwaitingWrite(_), EventView::WriteDone(_)) => true,
        _ => false,
    }
}

/// The read action directed at the provider.
pub open spec fn read_action(p: TwoDNSConfigView) -> ActionView {
    ActionView::ReadRecorded { url: p.url, user: p.user, token: p.token, timeout: p.timeout }
}

/// The write action that records `ip` at the provider.
pub open spec fn write_action(p: TwoDNSConfigView, ip: Seq<char>) -> ActionView {
    ActionView::WriteRecorded {
        url: p.url,
        user: p.user,
        token: p.token,
        timeout: p.timeout,
        body: payload_spec(ip),
    }
}

/// The whole behaviour of one step, at the abstract level: the phase
/// the machine moves to and what it asks of the caller.
///
/// - A transport failure or a non-2xx status ends the cycle with the
///   matching failure outcome.
/// - A fetched body is trimmed of surrounding whitespace and becomes
///   the fetched IP.
/// - A read body must carry an `ip_address` field; its value is
///   compared with the fetched IP by exact equality, and only a
///   difference leads to a write.
/// - A successful write ends the cycle with the written value.
///
/// The machine only ever accepts the event its phase awaits (see
/// [`expects`]); the final arm covers the remaining pairs merely to
/// keep the function total.
pub open spec fn model_step(p: TwoDNSConfigView, ph: PhaseView, ev: EventView) -> (
    PhaseView,
    StepView,
) {
    match (ph, ev) {
        (PhaseView::AwaitingFetch, EventView::FetchDone(r)) => match r {
            Result::Err(cause) => (
                PhaseView::Idle,
                StepView::Done(OutcomeView::FetchFailed(cause)),
            ),
            Result::Ok(resp) => {
                if !is_success_status(resp.status) {
                    (
                        PhaseView::Idle,
                        StepView::Done(OutcomeView::FetchFailed(status_cause(resp.status as nat))),
                    )
                } else {
                    (
                        PhaseView::AwaitingRecorded(trim_spec(resp.body)),
                        StepView::Next(read_action(p)),
                    )
                }
            },
        },
        (PhaseView::AwaitingRecorded(fetched), EventView::ReadDone(r)) => match r {
            Result::Err(cause) => (PhaseView::Idle, StepView::Done(OutcomeView::ReadFailed(cause))),
            Result::Ok(resp) => {
                if !is_success_status(resp.status) {
                    (
                        PhaseView::Idle,
                        StepView::Done(OutcomeView::ReadFailed(status_cause(resp.status as nat))),
                    )
                } else {
                    match ip_field_value(resp.body) {
                        Option::None => (
                            PhaseView::Idle,
                            StepView::Done(OutcomeView::ReadFailed(malformed_cause())),
                        ),
                        Option::Some(recorded) => {
                            if recorded == fetched {
                                (PhaseView::Idle, StepView::Done(OutcomeView::InSync(fetched)))
                            } else {
                                (
                                    PhaseView::AwaitingWrite(fetched),
                                    StepView::Next(write_action(p, fetched)),
                                )
                            }
                        },
                    }
                }
            },
        },
        (PhaseView::AwaitingWrite(fetched), EventView::WriteDone(r)) => match r {
            Result::Err(cause) => (
                PhaseView::Idle,
                StepView::Done(OutcomeView::WriteFailed(cause)),
            ),
            Result::Ok(resp) => {
                if !is_success_status(resp.status) {
                    (
                        PhaseView::Idle,
                        StepView::Done(OutcomeView::WriteFailed(status_cause(resp.status as nat))),
                    )
                } else {
                    (PhaseView::Idle, StepView::Done(OutcomeView::Updated(fetched)))
                }
            },
        },
        _ => (ph, StepView::Done(OutcomeView::FetchFailed(Seq::empty()))),
    }
}

/// A successful fetch always hands on a whitespace-trimmed IP: the
/// machine proceeds to the provider read with exactly the trimmed
/// response body as the fetched value.
pub proof fn lemma_fetched_ip_trimmed(p: TwoDNSConfigView, resp: ResponseView)
    requires
        is_success_status(resp.status),
    ensures
        model_step(p, PhaseView::AwaitingFetch, EventView::FetchDone(Result::Ok(resp))) == (
            PhaseView::AwaitingRecorded(trim_spec(resp.body)),
            StepView::Next(read_action(p)),
        ),
{
}

/// When the fetched IP equals the recorded one, the cycle ends in sync
/// at once: the writer is never invoked.
pub proof fn lemma_equal_ips_skip_write(
    p: TwoDNSConfigView,
    fetched: Seq<char>,
    resp: ResponseView,
)
    requires
        is_success_status(resp.status),
        ip_field_value(resp.body) == Some(fetched),
    ensures
        model_step(
            p,
            PhaseView::AwaitingRecorded(fetched),
            EventView::ReadDone(Result::Ok(resp)),
        ) == (PhaseView::Idle, StepView::Done(OutcomeView::InSync(fetched))),
{
}

/// When the fetched IP differs from the recorded one, the writer is
/// invoked exactly once, with the fetched value, and a successful
/// write reports that value: the read step asks for one write, and the
/// write phase never asks for anything further, whatever comes back.
pub proof fn lemma_differing_ips_write_once(
    p: TwoDNSConfigView,
    fetched: Seq<char>,
    recorded: Seq<char>,
    resp: ResponseView,
    wresp: ResponseView,
)
    requires
        is_success_status(resp.status),
        ip_field_value(resp.body) == Some(recorded),
        recorded != fetched,
        is_success_status(wresp.status),
    ensures
        model_step(
            p,
            PhaseView::AwaitingRecorded(fetched),
            EventView::ReadDone(Result::Ok(resp)),
        ) == (PhaseView::AwaitingWrite(fetched), StepView::Next(write_action(p, fetched))),
        model_step(
            p,
            PhaseView::AwaitingWrite(fetched),
            EventView::WriteDone(Result::Ok(wresp)),
        ) == (PhaseView::Idle, StepView::Done(OutcomeView::Updated(fetched))),
        forall|ev: EventView|
            expects(PhaseView::AwaitingWrite(fetched), ev) ==> {
                let (ph2, r) = model_step(p, PhaseView::AwaitingWrite(fetched), ev);
                ph2 is Idle && !(r is Next)
            },
{
}

/// The cause a failed fetch or read carries: the transport's message,
/// or the unexpected status.
pub open spec fn failure_cause(r: Result<ResponseView, Seq<char>>) -> Seq<char> {
    match r {
        Result::Err(cause) => cause,
        Result::Ok(resp) => status_cause(resp.status as nat),
    }
}

/// A failed discovery fetch — transport trouble or a non-2xx status —
/// ends the cycle at once: the provider is neither read nor written,
/// and the machine is back between cycles.
pub proof fn lemma_fetch_failure_skips_cycle(
    p: TwoDNSConfigView,
    r: Result<ResponseView, Seq<char>>,
)
    requires
        r matches Result::Ok(resp) ==> !is_success_status(resp.status),
    ensures
        model_step(p, PhaseView::AwaitingFetch, EventView::FetchDone(r)) == (
            PhaseView::Idle,
            StepView::Done(OutcomeView::FetchFailed(failure_cause(r))),
        ),
{
}

/// A non-2xx provider read surfaces as a fetch failure and a non-2xx
/// provider write as an update failure; either way the cycle ends and
/// the machine is ready for the next tick.
pub proof fn lemma_non_success_status_surfaces(
    p: TwoDNSConfigView,
    fetched: Seq<char>,
    resp: ResponseView,
)
    requires
        !is_success_status(resp.status),
    ensures
        model_step(
            p,
            PhaseView::AwaitingRecorded(fetched),
            EventView::ReadDone(Result::Ok(resp)),
        ) == (PhaseView::Idle, StepView::Done(OutcomeView::ReadFailed(status_cause(resp.status as nat)))),
        model_step(
            p,
            PhaseView::AwaitingWrite(fetched),
            EventView::WriteDone(Result::Ok(resp)),
        ) == (PhaseView::Idle, StepView::Done(OutcomeView::WriteFailed(status_cause(resp.status as nat)))),
{
}

/// The reconciliation state machine: the immutable configuration, the
/// round-robin cursor, and the phase within the current cycle.
pub struct Reconciler {
    pub config: Config,
    pub cursor: usize,
    pub phase: Phase,
}

impl Reconciler {
    /// The machine is well formed when the endpoint list is non-empty
    /// and the cursor points into it.
    pub open spec fn wf(&self) -> bool {
        &&& self.config.wf()
        &&& (self.cursor as int) < self.config.update@.urls.len()
    }

    /// Builds a machine over `config`, rejecting a configuration
    /// without discovery endpoints.
    pub fn new(config: Config) -> (r: Option<Reconciler>)
        ensures
            match r {
                Option::Some(m) => {
                    &&& config.wf()
                    &&& m.wf()
                    &&& m.config == config
                    &&& m.cursor == 0
                    &&& m.phase@ is Idle
                },
                Option::None => !config.wf(),
            },
    {
        if config.is_valid() {
            Option::Some(Reconciler { config, cursor: 0, phase: Phase::Idle })
        } else {
            Option::None
        }
    }

    /// Starts a cycle: selects a discovery endpoint under the
    /// configured mode and asks the caller to fetch from it.  Under
    /// round-robin the cursor's endpoint is taken and the cursor
    /// advances by one, wrapping at the end of the list; under random
    /// selection some endpoint of the list is taken — the last one
    /// included — and the cursor stays put.
    pub fn begin_cycle(&mut self) -> (a: Action)
        requires
            old(self).wf(),
            old(self).phase@ is Idle,
        ensures
            final(self).wf(),
            final(self).config == old(self).config,
            final(self).phase@ is AwaitingFetch,
            a matches Action::Fetch { url, timeout } && timeout == old(self).config.update.timeout
                && (match old(self).config.update.mode {
                ProviderMode::RoundRobin => {
                    &&& url@ == old(self).config.update@.urls[old(self).cursor as int]
                    &&& final(self).cursor as int == rr_next(
                        old(self).cursor as int,
                        old(self).config.update@.urls.len() as int,
                    )
                },
                ProviderMode::Random => {
                    &&& exists|i: int|
                        0 <= i < old(self).config.update@.urls.len() && url@ == old(
                            self,
                        ).config.update@.urls[i]
                    &&& final(self).cursor == old(self).cursor
                },
            }),
    {
        let len: usize = self.config.update.urls.len();
        let idx: usize = match self.config.update.mode {
            ProviderMode::RoundRobin => {
                let i: usize = self.cursor;
                self.cursor = if i + 1 == len {
                    0
                } else {
                    i + 1
                };
                proof {
                    if i + 1 == len {
                        vstd::arithmetic::div_mod::lemma_mod_self_0(len as int);
                    } else {
                        vstd::arithmetic::div_mod::lemma_small_mod(
                            (i + 1) as nat,
                            len as nat,
                        );
                    }
                }
                i
            },
            ProviderMode::Random => random_index(len),
        };
        let url = self.config.update.urls[idx].clone();
        self.phase = Phase::AwaitingFetch;
        proof {
            assert(url@ == self.config.update@.urls[idx as int]);
        }
        Action::Fetch { url, timeout: self.config.update.timeout }
    }

    /// Feeds the machine the result of the call it asked for; the
    /// machine answers with the next call or with the cycle's outcome,
    /// exactly as [`model_step`] says.
    pub fn step(&mut self, event: Event) -> (r: StepResult)
        requires
            old(self).wf(),
            expects(old(self).phase@, event@),
        ensures
            final(self).wf(),
            final(self).config == old(self).config,
            final(self).cursor == old(self).cursor,
            (final(self).phase@, r@) == model_step(
                old(self).config.twodns@,
                old(self).phase@,
                event@,
            ),
    {
        let mut ph = Phase::Idle;
        core::mem::swap(&mut ph, &mut self.phase);
        match (ph, event) {
            (Phase::AwaitingFetch, Event::FetchDone(res)) => match res {
                Result::Err(cause) => StepResult::Done(
                    CycleOutcome::FetchFailed(FetchError::transport(cause)),
                ),
                Result::Ok(resp) => {
                    if !is_success(resp.status) {
                        StepResult::Done(
                            CycleOutcome::FetchFailed(FetchError::status(resp.status)),
                        )
                    } else {
                        let ip = Ip { ip_address: trim_ip(resp.body.as_str()) };
                        self.phase = Phase::AwaitingRecorded(ip);
                        StepResult::Next(
                            Action::ReadRecorded {
                                url: self.config.twodns.url.clone(),
                                user: self.config.twodns.user.clone(),
                                token: self.config.twodns.token.clone(),
                                timeout: self.config.twodns.timeout,
                            },
                        )
                    }
                },
            },
            (Phase::AwaitingRecorded(fetched), Event::ReadDone(res)) => match res {
                Result::Err(cause) => StepResult::Done(
                    CycleOutcome::ReadFailed(FetchError::transport(cause)),
                ),
                Result::Ok(resp) => {
                    if !is_success(resp.status) {
                        StepResult::Done(CycleOutcome::ReadFailed(FetchError::status(resp.status)))
                    } else {
                        match extract_ip_address(resp.body.as_str()) {
                            Option::None => StepResult::Done(
                                CycleOutcome::ReadFailed(FetchError::malformed_payload()),
                            ),
                            Option::Some(recorded) => {
                                if recorded == fetched.ip_address {
                                    StepResult::Done(CycleOutcome::InSync(fetched))
                                } else {
                                    let body = encode_ip_payload(fetched.ip_address.as_str());
                                    self.phase = Phase::AwaitingWrite(fetched);
                                    StepResult::Next(
                                        Action::WriteRecorded {
                                            url: self.config.twodns.url.clone(),
                                            user: self.config.twodns.user.clone(),
                                            token: self.config.twodns.token.clone(),
                                            timeout: self.config.twodns.timeout,
                                            body,
                                        },
                                    )
                                }
                            },
                        }
                    }
                },
            },
            (Phase::AwaitingWrite(fetched), Event::WriteDone(res)) => match res {
                Result::Err(cause) => StepResult::Done(
                    CycleOutcome::WriteFailed(UpdateError::transport(cause)),
                ),
                Result::Ok(resp) => {
                    if !is_success(resp.status) {
                        StepResult::Done(
                            CycleOutcome::WriteFailed(UpdateError::status(resp.status)),
                        )
                    } else {
                        StepResult::Done(CycleOutcome::Updated(fetched.ip_address))
                    }
                },
            },
            _ => unreached(),
        }
    }
}

} // verus!

