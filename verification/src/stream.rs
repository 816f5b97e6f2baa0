//! The streaming client's state and decisions: building requests for the
//! streaming service, keeping the record of subscriptions that a reconnected
//! stream asks for again, and the reconnection policy. The WebSocket itself
//! is driven by the caller.

use vstd::prelude::*;
use vstd::string::*;
use crate::enums::StreamCommand;
use crate::enums::StreamService;
use crate::error::SchwabError;
use crate::error::is_stream_error;
use crate::subscriptions::KeyFields;
use crate::subscriptions::ReplayGroup;
use crate::subscriptions::SubscriptionMap;
use crate::subscriptions::Subscriptions;
use crate::subscriptions::apply_request;
use crate::subscriptions::group_ok;
use crate::subscriptions::insert_keys;
use crate::subscriptions::lemma_insert_keys;
use crate::subscriptions::replay_covers;
use crate::subscriptions::replays;
use crate::subscriptions::service_subs;
use crate::text::join_commas;
use crate::text::join_with_commas;
use crate::text::same_text;
use crate::text::split_commas;
use crate::text::views;
use crate::types::StreamRequest;
use crate::types::StreamerInfo;
use crate::types::param_lookup;
use crate::types::param_views;

verus! {

/// Seconds to wait before the first reconnection attempt.
pub const INITIAL_BACKOFF_SECS: u64 = 2;

/// Longest wait between reconnection attempts.
pub const MAX_BACKOFF_SECS: u64 = 128;

/// A connection that failed within this many seconds is not retried.
pub const QUICK_FAILURE_SECS: u64 = 90;

/// The waits the reconnection policy uses: 2, 4, 8, 16, 32, 64 or 128 seconds.
pub open spec fn backoff_step(b: u64) -> bool {
    b == 2 || b == 4 || b == 8 || b == 16 || b == 32 || b == 64 || b == 128
}

/// The wait after the next failure: doubled, at most 128 seconds.
pub open spec fn next_backoff(b: u64) -> u64 {
    if 2 * b < MAX_BACKOFF_SECS {
        (2 * b) as u64
    } else {
        MAX_BACKOFF_SECS
    }
}

/// Doubling keeps the wait among the policy's waits, never shortens it,
/// and stops at 128 seconds.
pub proof fn law_backoff_steps(b: u64)
    requires
        backoff_step(b),
    ensures
        backoff_step(next_backoff(b)),
        next_backoff(b) >= b,
        b == MAX_BACKOFF_SECS ==> next_backoff(b) == MAX_BACKOFF_SECS,
        b < MAX_BACKOFF_SECS ==> next_backoff(b) == 2 * b,
{
}

/// What to do after a connection ended.
#[derive(Debug, PartialEq, Eq, Structural)]
pub enum ReconnectAction {
    /// Give up: the stream closed normally, or failed so soon that the
    /// configuration is likely wrong.
    Stop,
    /// Wait this many seconds, then connect again.
    RetryAfter(u64),
}

/// The service, command and parameters of a request, as the record of
/// subscriptions reads them.
pub open spec fn params_view(p: Option<Vec<(String, String)>>) -> Option<Seq<(Seq<char>, Seq<char>)>> {
    match p {
        Some(v) => Some(param_views(v@)),
        None => None,
    }
}

/// The record after a request: a request that names both `keys` and
/// `fields` is applied as `apply_request` says; any other leaves it as it was.
pub open spec fn record_spec(subs: SubscriptionMap, r: StreamRequest) -> SubscriptionMap {
    match params_view(r.parameters) {
        Some(p) => match (param_lookup(p, "keys"@), param_lookup(p, "fields"@)) {
            (Some(k), Some(f)) => apply_request(subs, r.service@, r.command@, k, f),
            _ => subs,
        },
        None => subs,
    }
}

/// The record after the requests `rs`, in order.
pub open spec fn record_all(subs: SubscriptionMap, rs: Seq<StreamRequest>) -> SubscriptionMap
    decreases rs.len(),
{
    if rs.len() == 0 {
        subs
    } else {
        record_spec(record_all(subs, rs.drop_last()), rs.last())
    }
}

/// The parameters naming keys and fields.
pub open spec fn subscription_params(keys: Seq<char>, fields: Seq<char>) -> Seq<(Seq<char>, Seq<char>)> {
    seq![("keys"@, keys), ("fields"@, fields)]
}

/// The request `r` asks again for the group `g`, as an `ADD`.
pub open spec fn replays_group(r: StreamRequest, g: ReplayGroup) -> bool {
    &&& r.service@ == g.service@
    &&& r.command@ == "ADD"@
    &&& params_view(r.parameters) == Some(subscription_params(g.keys@, g.fields@))
}

/// The abstract state of a stream client.
pub struct StreamState {
    pub streamer_info: Option<StreamerInfo>,
    pub request_id: u64,
    pub active: bool,
    pub subscriptions: SubscriptionMap,
    pub backoff_secs: u64,
}

/// WebSocket stream client for real-time data
pub struct StreamClient {
    streamer_info: Option<StreamerInfo>,
    request_id: u64,
    active: bool,
    subscriptions: Subscriptions,
    backoff_secs: u64,
}

impl View for StreamClient {
    type V = StreamState;

    closed spec fn view(&self) -> StreamState {
        StreamState {
            streamer_info: self.streamer_info,
            request_id: self.request_id,
            active: self.active,
            subscriptions: self.subscriptions@,
            backoff_secs: self.backoff_secs,
        }
    }
}

/// `r` is a request of `service` with `command` and parameters `params`,
/// numbered `id`, carrying the customer and correlation ids of `info`.
pub open spec fn request_made(r: StreamRequest, service: Seq<char>, command: Seq<char>, id: u64, info: StreamerInfo, params: Option<Seq<(Seq<char>, Seq<char>)>>) -> bool {
    &&& r.service@ == service
    &&& r.command@ == command
    &&& r.requestid == id
    &&& r.schwab_client_customer_id@ == info.schwab_client_customer_id@
    &&& r.schwab_client_correl_id@ == info.schwab_client_correl_id@
    &&& params_view(r.parameters) == params
}

/// The outcome of building a request when the state was `st`: the request
/// number advances in any case; without streamer information the request
/// fails.
pub open spec fn built(res: Result<StreamRequest, SchwabError>, st: StreamState, service: Seq<char>, command: Seq<char>, params: Option<Seq<(Seq<char>, Seq<char>)>>) -> bool {
    match st.streamer_info {
        None => res matches Err(e) && is_stream_error(e, "No streamer info available"@),
        Some(info) => res matches Ok(r) && request_made(r, service, command, (st.request_id + 1) as u64, info, params),
    }
}

fn find_param<'a>(params: &'a Vec<(String, String)>, name: &str) -> (r: Option<&'a String>)
    ensures
        match r {
            Some(v) => param_lookup(param_views(params@), name@) == Some(v@),
            None => param_lookup(param_views(params@), name@) is None,
        },
{
    let mut i = params.len();
    proof {
        assert(param_views(params@).take(params@.len() as int) =~= param_views(params@));
    }
    while i > 0
        invariant
            i <= params@.len(),
            param_lookup(param_views(params@), name@) == param_lookup(param_views(params@).take(i as int), name@),
        decreases i,
    {
        let ghost pv = param_views(params@).take(i as int);
        proof {
            assert(pv.drop_last() =~= param_views(params@).take(i - 1));
            assert(pv.last() == (params@[i - 1].0@, params@[i - 1].1@));
        }
        if same_text(params[i - 1].0.as_str(), name) {
            return Some(&params[i - 1].1);
        }
        i = i - 1;
    }
    None
}

impl StreamClient {
    #[verifier::type_invariant]
    spec fn well_formed(self) -> bool {
        &&& self.subscriptions.wf()
        &&& backoff_step(self.backoff_secs)
    }

    /// Create a new stream client: no streamer information, no requests made,
    /// inactive, no subscriptions, first wait 2 seconds.
    pub fn new() -> (c: StreamClient)
        ensures
            c@.streamer_info is None,
            c@.request_id == 0,
            !c@.active,
            c@.subscriptions == SubscriptionMap::empty(),
            c@.backoff_secs == INITIAL_BACKOFF_SECS,
    {
        StreamClient {
            streamer_info: None,
            request_id: 0,
            active: false,
            subscriptions: Subscriptions::new(),
            backoff_secs: INITIAL_BACKOFF_SECS,
        }
    }

    /// Check if stream is active
    pub fn is_active(&self) -> (a: bool)
        ensures
            a == self@.active,
    {
        self.active
    }

    /// Marks the stream connected (logged in) or not.
    pub fn set_active(&mut self, active: bool)
        ensures
            final(self)@ == (StreamState { active, ..old(self)@ }),
    {
        proof {
            use_type_invariant(&*self);
        }
        self.active = active;
    }

    /// Set streamer info (called from main client)
    pub fn set_streamer_info(&mut self, info: StreamerInfo)
        ensures
            final(self)@ == (StreamState { streamer_info: Some(info), ..old(self)@ }),
    {
        proof {
            use_type_invariant(&*self);
        }
        self.streamer_info = Some(info);
    }

    /// The seconds to wait before the next reconnection attempt.
    pub fn backoff_secs(&self) -> (b: u64)
        ensures
            b == self@.backoff_secs,
            backoff_step(b),
    {
        proof {
            use_type_invariant(self);
        }
        self.backoff_secs
    }

    /// The streamer information requests are made with, once it is known.
    pub fn streamer_info(&self) -> (info: Option<&StreamerInfo>)
        ensures
            match info {
                Some(i) => self@.streamer_info == Some(*i),
                None => self@.streamer_info is None,
            },
    {
        match &self.streamer_info {
            Some(i) => Some(i),
            None => None,
        }
    }

    /// The id of the last request made (0 before the first).
    pub fn last_request_id(&self) -> (id: u64)
        ensures
            id == self@.request_id,
    {
        self.request_id
    }

    /// Get next request ID
    pub fn next_request_id(&mut self) -> (id: u64)
        requires
            old(self)@.request_id < u64::MAX,
        ensures
            id == old(self)@.request_id + 1,
            final(self)@ == (StreamState { request_id: id, ..old(self)@ }),
    {
        proof {
            use_type_invariant(&*self);
        }
        self.request_id = self.request_id + 1;
        self.request_id
    }

    /// The streamer information, which the user preferences provide
    /// (`Client::apply_user_preferences`).
    fn get_streamer_info(&self) -> (res: Result<StreamerInfo, SchwabError>)
        ensures
            match self@.streamer_info {
                Some(info) => res == Ok::<StreamerInfo, SchwabError>(info),
                None => res matches Err(e) && is_stream_error(
                    e,
                    "Streamer info not available - call get_user_preferences() first"@,
                ),
            },
    {
        match &self.streamer_info {
            Some(info) => Ok(info.copy()),
            None => Err(SchwabError::stream("Streamer info not available - call get_user_preferences() first")),
        }
    }

    /// Start the streaming connection: succeeds once the streamer
    /// information is known (the caller then connects), and fails before.
    /// The client's state is left as it was.
    pub fn start(&mut self) -> (res: Result<(), SchwabError>)
        ensures
            final(self)@ == old(self)@,
            res is Ok <==> old(self)@.streamer_info is Some,
            res matches Err(e) ==> is_stream_error(
                e,
                "Streamer info not available - call get_user_preferences() first"@,
            ),
    {
        proof {
            use_type_invariant(&*self);
        }
        let info = self.get_streamer_info()?;
        self.streamer_info = Some(info);
        Ok(())
    }

    /// Create a basic stream request
    fn create_basic_request(&mut self, service: StreamService, command: StreamCommand, parameters: Option<Vec<(String, String)>>) -> (res: Result<StreamRequest, SchwabError>)
        requires
            old(self)@.request_id < u64::MAX,
        ensures
            final(self)@ == (StreamState { request_id: (old(self)@.request_id + 1) as u64, ..old(self)@ }),
            built(res, old(self)@, service.api_name_spec(), command.api_name_spec(), params_view(parameters)),
    {
        let service_name = service.api_name().to_owned();
        let command_name = command.api_name().to_owned();
        let requestid = self.next_request_id();
        match &self.streamer_info {
            None => Err(SchwabError::stream("No streamer info available")),
            Some(info) => Ok(StreamRequest {
                service: service_name,
                command: command_name,
                requestid,
                schwab_client_customer_id: info.schwab_client_customer_id.clone(),
                schwab_client_correl_id: info.schwab_client_correl_id.clone(),
                parameters,
            }),
        }
    }

    /// Record a request for reconnection
    fn record_request(&mut self, request: &StreamRequest)
        ensures
            final(self)@ == (StreamState {
                subscriptions: record_spec(old(self)@.subscriptions, *request),
                ..old(self)@
            }),
    {
        proof {
            use_type_invariant(&*self);
        }
        if let Some(params) = &request.parameters {
            let keys = find_param(params, "keys");
            let fields = find_param(params, "fields");
            if let (Some(keys), Some(fields)) = (keys, fields) {
                let mut subs = Subscriptions::new();
                std::mem::swap(&mut subs, &mut self.subscriptions);
                subs.record(&request.service, request.command.as_str(), keys.as_str(), fields.as_str());
                std::mem::swap(&mut subs, &mut self.subscriptions);
            }
        }
    }

    /// Records a subscription request for reconnection and tells whether it
    /// is to be sent now (the stream is active) or only kept for when it
    /// connects.
    pub fn send_request(&mut self, request: &StreamRequest) -> (send_now: bool)
        ensures
            final(self)@ == (StreamState {
                subscriptions: record_spec(old(self)@.subscriptions, *request),
                ..old(self)@
            }),
            send_now == old(self)@.active,
    {
        self.record_request(request);
        self.active
    }

    /// Records the requests in order, and tells whether they are to be sent
    /// now (the stream is active) or only kept for when it connects.
    pub fn send_requests(&mut self, requests: &[StreamRequest]) -> (send_now: bool)
        ensures
            final(self)@ == (StreamState {
                subscriptions: record_all(old(self)@.subscriptions, requests@),
                ..old(self)@
            }),
            send_now == old(self)@.active,
    {
        let ghost start = self@;
        let mut i: usize = 0;
        proof {
            assert(requests@.take(0) =~= Seq::<StreamRequest>::empty());
        }
        while i < requests.len()
            invariant
                i <= requests@.len(),
                self@ == (StreamState {
                    subscriptions: record_all(start.subscriptions, requests@.take(i as int)),
                    ..start
                }),
            decreases requests@.len() - i,
        {
            proof {
                assert(requests@.take(i + 1).drop_last() =~= requests@.take(i as int));
                assert(requests@.take(i + 1).last() == requests@[i as int]);
            }
            self.send_request(&requests[i]);
            i = i + 1;
        }
        proof {
            assert(requests@.take(requests@.len() as int) =~= requests@);
        }
        self.active
    }

    /// Builds a subscription request of `service` for the keys and fields,
    /// and records it.
    fn subscribe(&mut self, service: StreamService, keys: &[String], fields: &[String], command: StreamCommand) -> (res: Result<StreamRequest, SchwabError>)
        requires
            old(self)@.request_id < u64::MAX,
        ensures
            subscribed(res, old(self)@, final(self)@, service, views(keys@), views(fields@), command),
    {
        let mut params: Vec<(String, String)> = Vec::new();
        params.push(("keys".to_owned(), join_with_commas(keys)));
        params.push(("fields".to_owned(), join_with_commas(fields)));
        proof {
            assert(param_views(params@) =~= subscription_params(
                join_commas(views(keys@)),
                join_commas(views(fields@)),
            ));
        }
        let request = self.create_basic_request(service, command, Some(params))?;
        let ghost mid = self@;
        self.send_request(&request);
        proof {
            lemma_subscription_lookup(join_commas(views(keys@)), join_commas(views(fields@)));
        }
        Ok(request)
    }

    /// Subscribe to level one equities
    pub fn level_one_equities(&mut self, keys: &[String], fields: &[String], command: StreamCommand) -> (res: Result<StreamRequest, SchwabError>)
        requires
            old(self)@.request_id < u64::MAX,
        ensures
            subscribed(res, old(self)@, final(self)@, StreamService::LevelOneEquities, views(keys@), views(fields@), command),
    {
        self.subscribe(StreamService::LevelOneEquities, keys, fields, command)
    }

    /// Subscribe to level one options
    pub fn level_one_options(&mut self, keys: &[String], fields: &[String], command: StreamCommand) -> (res: Result<StreamRequest, SchwabError>)
        requires
            old(self)@.request_id < u64::MAX,
        ensures
            subscribed(res, old(self)@, final(self)@, StreamService::LevelOneOptions, views(keys@), views(fields@), command),
    {
        self.subscribe(StreamService::LevelOneOptions, keys, fields, command)
    }

    /// Subscribe to level one futures
    pub fn level_one_futures(&mut self, keys: &[String], fields: &[String], command: StreamCommand) -> (res: Result<StreamRequest, SchwabError>)
        requires
            old(self)@.request_id < u64::MAX,
        ensures
            subscribed(res, old(self)@, final(self)@, StreamService::LevelOneFutures, views(keys@), views(fields@), command),
    {
        self.subscribe(StreamService::LevelOneFutures, keys, fields, command)
    }

    /// Subscribe to level one forex
    pub fn level_one_forex(&mut self, keys: &[String], fields: &[String], command: StreamCommand) -> (res: Result<StreamRequest, SchwabError>)
        requires
            old(self)@.request_id < u64::MAX,
        ensures
            subscribed(res, old(self)@, final(self)@, StreamService::LevelOneForex, views(keys@), views(fields@), command),
    {
        self.subscribe(StreamService::LevelOneForex, keys, fields, command)
    }

    /// Subscribe to NYSE book
    pub fn nyse_book(&mut self, keys: &[String], fields: &[String], command: StreamCommand) -> (res: Result<StreamRequest, SchwabError>)
        requires
            old(self)@.request_id < u64::MAX,
        ensures
            subscribed(res, old(self)@, final(self)@, StreamService::NyseBook, views(keys@), views(fields@), command),
    {
        self.subscribe(StreamService::NyseBook, keys, fields, command)
    }

    /// Subscribe to NASDAQ book
    pub fn nasdaq_book(&mut self, keys: &[String], fields: &[String], command: StreamCommand) -> (res: Result<StreamRequest, SchwabError>)
        requires
            old(self)@.request_id < u64::MAX,
        ensures
            subscribed(res, old(self)@, final(self)@, StreamService::NasdaqBook, views(keys@), views(fields@), command),
    {
        self.subscribe(StreamService::NasdaqBook, keys, fields, command)
    }

    /// Subscribe to chart equity
    pub fn chart_equity(&mut self, keys: &[String], fields: &[String], command: StreamCommand) -> (res: Result<StreamRequest, SchwabError>)
        requires
            old(self)@.request_id < u64::MAX,
        ensures
            subscribed(res, old(self)@, final(self)@, StreamService::ChartEquity, views(keys@), views(fields@), command),
    {
        self.subscribe(StreamService::ChartEquity, keys, fields, command)
    }

    /// Subscribe to account activity; the keys default to
    /// `Account Activity` and the fields to `0,1,2,3`.
    pub fn account_activity(&mut self, keys: Option<&[String]>, fields: Option<&[String]>, command: StreamCommand) -> (res: Result<StreamRequest, SchwabError>)
        requires
            old(self)@.request_id < u64::MAX,
        ensures
            subscribed(
                res,
                old(self)@,
                final(self)@,
                StreamService::AccountActivity,
                match keys {
                    Some(k) => views(k@),
                    None => seq!["Account Activity"@],
                },
                match fields {
                    Some(f) => views(f@),
                    None => seq!["0"@, "1"@, "2"@, "3"@],
                },
                command,
            ),
    {
        let mut default_keys: Vec<String> = Vec::new();
        default_keys.push("Account Activity".to_owned());
        let mut default_fields: Vec<String> = Vec::new();
        default_fields.push("0".to_owned());
        default_fields.push("1".to_owned());
        default_fields.push("2".to_owned());
        default_fields.push("3".to_owned());
        proof {
            assert(views(default_keys@) =~= seq!["Account Activity"@]);
            assert(views(default_fields@) =~= seq!["0"@, "1"@, "2"@, "3"@]);
        }
        let keys = match keys {
            Some(k) => k,
            None => default_keys.as_slice(),
        };
        let fields = match fields {
            Some(f) => f,
            None => default_fields.as_slice(),
        };
        self.subscribe(StreamService::AccountActivity, keys, fields, command)
    }

    /// Stop the streaming connection: drops the record of subscriptions when
    /// asked, builds the logout request for the caller to send, and marks the
    /// stream inactive.
    pub fn stop(&mut self, clear_subscriptions: bool) -> (res: Result<StreamRequest, SchwabError>)
        requires
            old(self)@.request_id < u64::MAX,
        ensures
            built(res, old(self)@, "ADMIN"@, "LOGOUT"@, None),
            final(self)@ == (StreamState {
                request_id: (old(self)@.request_id + 1) as u64,
                subscriptions: if clear_subscriptions {
                    SubscriptionMap::empty()
                } else {
                    old(self)@.subscriptions
                },
                active: false,
                ..old(self)@
            }),
    {
        proof {
            use_type_invariant(&*self);
        }
        if clear_subscriptions {
            let mut subs = Subscriptions::new();
            std::mem::swap(&mut subs, &mut self.subscriptions);
            subs.clear();
            std::mem::swap(&mut subs, &mut self.subscriptions);
        }
        let logout = self.create_basic_request(StreamService::Admin, StreamCommand::Logout, None);
        proof {
            use_type_invariant(&*self);
        }
        self.active = false;
        logout
    }

    /// The login request of a new connection, carrying the access token and
    /// the channel and function ids of the streamer information.
    pub fn login_request(&mut self, access_token: &str) -> (res: Result<StreamRequest, SchwabError>)
        requires
            old(self)@.request_id < u64::MAX,
        ensures
            match old(self)@.streamer_info {
                None => final(self)@ == old(self)@ && (res matches Err(e) && is_stream_error(
                    e,
                    "No streamer info available"@,
                )),
                Some(info) => final(self)@ == (StreamState {
                    request_id: (old(self)@.request_id + 1) as u64,
                    ..old(self)@
                }) && (res matches Ok(r) && request_made(
                    r,
                    "ADMIN"@,
                    "LOGIN"@,
                    (old(self)@.request_id + 1) as u64,
                    info,
                    Some(
                        seq![
                            ("Authorization"@, access_token@),
                            ("SchwabClientChannel"@, info.schwab_client_channel@),
                            ("SchwabClientFunctionId"@, info.schwab_client_function_id@),
                        ],
                    ),
                )),
            },
    {
        let params = match &self.streamer_info {
            None => {
                return Err(SchwabError::stream("No streamer info available"));
            },
            Some(info) => {
                let mut params: Vec<(String, String)> = Vec::new();
                params.push(("Authorization".to_owned(), access_token.to_owned()));
                params.push(("SchwabClientChannel".to_owned(), info.schwab_client_channel.clone()));
                params.push(("SchwabClientFunctionId".to_owned(), info.schwab_client_function_id.clone()));
                params
            },
        };
        let ghost pv = param_views(params@);
        proof {
            assert(pv =~= seq![
                ("Authorization"@, access_token@),
                ("SchwabClientChannel"@, self@.streamer_info->0.schwab_client_channel@),
                ("SchwabClientFunctionId"@, self@.streamer_info->0.schwab_client_function_id@),
            ]);
        }
        self.create_basic_request(StreamService::Admin, StreamCommand::Login, Some(params))
    }

    /// The groups of recorded subscriptions to ask for again after connecting.
    pub fn replay_groups(&self) -> (gs: Vec<ReplayGroup>)
        ensures
            replays(gs@, self@.subscriptions),
    {
        proof {
            use_type_invariant(self);
        }
        self.subscriptions.replay_groups()
    }

    /// The `ADD` requests that ask for the groups again, numbered in order.
    pub fn queued_subscription_requests(&mut self, groups: &Vec<ReplayGroup>) -> (res: Result<Vec<StreamRequest>, SchwabError>)
        requires
            old(self)@.request_id + groups@.len() <= u64::MAX,
        ensures
            match old(self)@.streamer_info {
                None => if groups@.len() == 0 {
                    final(self)@ == old(self)@ && (res matches Ok(rs) && rs@.len() == 0)
                } else {
                    final(self)@ == (StreamState { request_id: (old(self)@.request_id + 1) as u64, ..old(self)@ })
                        && (res matches Err(e) && is_stream_error(e, "No streamer info available"@))
                },
                Some(info) => final(self)@ == (StreamState {
                    request_id: (old(self)@.request_id + groups@.len()) as u64,
                    ..old(self)@
                }) && (res matches Ok(rs) && rs@.len() == groups@.len() && forall|t: int|
                    0 <= t < rs@.len() ==> replays_group(#[trigger] rs@[t], groups@[t]) && request_made(
                        rs@[t],
                        groups@[t].service@,
                        "ADD"@,
                        (old(self)@.request_id + 1 + t) as u64,
                        info,
                        Some(subscription_params(groups@[t].keys@, groups@[t].fields@)),
                    )),
            },
    {
        if self.streamer_info.is_none() {
            if groups.len() == 0 {
                return Ok(Vec::new());
            }
            let _skipped = self.next_request_id();
            return Err(SchwabError::stream("No streamer info available"));
        }
        let mut rs: Vec<StreamRequest> = Vec::new();
        let mut t: usize = 0;
        let ghost start = self@;
        while t < groups.len()
            invariant
                t <= groups@.len(),
                start.request_id + groups@.len() <= u64::MAX,
                self@ == (StreamState { request_id: (start.request_id + t) as u64, ..start }),
                start.streamer_info is Some,
                rs@.len() == t,
                forall|u: int| 0 <= u < t ==> replays_group(#[trigger] rs@[u], groups@[u]) && request_made(
                    rs@[u],
                    groups@[u].service@,
                    "ADD"@,
                    (start.request_id + 1 + u) as u64,
                    start.streamer_info->0,
                    Some(subscription_params(groups@[u].keys@, groups@[u].fields@)),
                ),
            decreases groups@.len() - t,
        {
            let g = &groups[t];
            let requestid = self.next_request_id();
            let info = match &self.streamer_info {
                Some(info) => info,
                None => {
                    return Err(SchwabError::stream("No streamer info available"));
                },
            };
            let mut params: Vec<(String, String)> = Vec::new();
            params.push(("keys".to_owned(), g.keys.clone()));
            params.push(("fields".to_owned(), g.fields.clone()));
            proof {
                assert(param_views(params@) =~= subscription_params(g.keys@, g.fields@));
            }
            let r = StreamRequest {
                service: g.service.clone(),
                command: "ADD".to_owned(),
                requestid,
                schwab_client_customer_id: info.schwab_client_customer_id.clone(),
                schwab_client_correl_id: info.schwab_client_correl_id.clone(),
                parameters: Some(params),
            };
            let ghost before = rs@;
            rs.push(r);
            proof {
                assert forall|u: int| 0 <= u < t + 1 implies replays_group(#[trigger] rs@[u], groups@[u]) && request_made(
                    rs@[u],
                    groups@[u].service@,
                    "ADD"@,
                    (start.request_id + 1 + u) as u64,
                    start.streamer_info->0,
                    Some(subscription_params(groups@[u].keys@, groups@[u].fields@)),
                ) by {
                    if u < t {
                        assert(rs@[u] == before[u]);
                    }
                }
            }
            t = t + 1;
        }
        Ok(rs)
    }

    /// Decides what follows the end of a connection that lasted
    /// `elapsed_secs` (closed by the server, ended, or failed): the stream is
    /// no longer active; a normal close, or a failure within 90 seconds,
    /// stops it; any other failure waits the current backoff, which then
    /// doubles up to 128 seconds.
    pub fn connection_ended(&mut self, closed_normally: bool, elapsed_secs: u64) -> (action: ReconnectAction)
        ensures
            if closed_normally || elapsed_secs < QUICK_FAILURE_SECS {
                action == ReconnectAction::Stop && final(self)@ == (StreamState { active: false, ..old(self)@ })
            } else {
                action == ReconnectAction::RetryAfter(old(self)@.backoff_secs) && final(self)@ == (StreamState {
                    backoff_secs: next_backoff(old(self)@.backoff_secs),
                    active: false,
                    ..old(self)@
                })
            },
            backoff_step(final(self)@.backoff_secs),
    {
        proof {
            use_type_invariant(&*self);
        }
        self.active = false;
        if closed_normally || elapsed_secs < QUICK_FAILURE_SECS {
            return ReconnectAction::Stop;
        }
        let wait = self.backoff_secs;
        self.backoff_secs = if self.backoff_secs * 2 < MAX_BACKOFF_SECS {
            self.backoff_secs * 2
        } else {
            MAX_BACKOFF_SECS
        };
        ReconnectAction::RetryAfter(wait)
    }

    /// A connection was established: the next failure waits 2 seconds again.
    pub fn reset_backoff(&mut self)
        ensures
            final(self)@ == (StreamState { backoff_secs: INITIAL_BACKOFF_SECS, ..old(self)@ }),
    {
        proof {
            use_type_invariant(&*self);
        }
        self.backoff_secs = INITIAL_BACKOFF_SECS;
    }
}

/// The request names `keys` and `fields` as given.
pub proof fn lemma_subscription_lookup(keys: Seq<char>, fields: Seq<char>)
    ensures
        param_lookup(subscription_params(keys, fields), "keys"@) == Some(keys),
        param_lookup(subscription_params(keys, fields), "fields"@) == Some(fields),
{
    reveal_strlit("keys");
    reveal_strlit("fields");
    assert("fields"@ != "keys"@) by {
        assert("fields"@.len() != "keys"@.len());
    }
    let p = subscription_params(keys, fields);
    assert(p.drop_last() =~= seq![("keys"@, keys)]);
    assert(p.drop_last().drop_last() =~= Seq::<(Seq<char>, Seq<char>)>::empty());
    assert(param_lookup(p.drop_last(), "keys"@) == Some(keys));
}

/// The outcome of a subscription request of `service` for the keys and fields
/// given: the request number advances; with streamer information the request
/// carries the joined keys and fields and the record takes it up, without it
/// the request fails and the record stays as it was.
pub open spec fn subscribed(res: Result<StreamRequest, SchwabError>, before: StreamState, after: StreamState, service: StreamService, keys: Seq<Seq<char>>, fields: Seq<Seq<char>>, command: StreamCommand) -> bool {
    &&& built(res, before, service.api_name_spec(), command.api_name_spec(), Some(subscription_params(join_commas(keys), join_commas(fields))))
    &&& after.request_id == before.request_id + 1
    &&& after.streamer_info == before.streamer_info
    &&& after.active == before.active
    &&& after.backoff_secs == before.backoff_secs
    &&& after.subscriptions == if res is Ok {
        apply_request(before.subscriptions, service.api_name_spec(), command.api_name_spec(), join_commas(keys), join_commas(fields))
    } else {
        before.subscriptions
    }
}

/// The record after the first `j` replayed requests agrees with `subs` on
/// every key it holds, holds no empty service, and holds every key the first
/// `j` groups list.
proof fn lemma_replay_prefix(subs: SubscriptionMap, gs: Seq<ReplayGroup>, rs: Seq<StreamRequest>, j: int)
    requires
        replays(gs, subs),
        rs.len() == gs.len(),
        forall|t: int| 0 <= t < rs.len() ==> replays_group(#[trigger] rs[t], gs[t]),
        0 <= j <= rs.len(),
    ensures
        ({
            let f = record_all(SubscriptionMap::empty(), rs.take(j));
            &&& forall|s: Seq<char>| #[trigger] f.contains_key(s) ==> subs.contains_key(s) && (exists|k: Seq<char>| #[trigger] f[s].contains_key(k))
            &&& forall|s: Seq<char>, k: Seq<char>| #[trigger] f.contains_key(s) && #[trigger] f[s].contains_key(k) ==> subs[s].contains_key(k) && f[s][k] == subs[s][k]
            &&& forall|t: int, k: Seq<char>| 0 <= t < j && #[trigger] split_commas(gs[t].keys@).contains(k) ==> f.contains_key(gs[t].service@) && f[gs[t].service@].contains_key(k)
        }),
    decreases j,
{
    if j == 0 {
        assert(rs.take(0) =~= Seq::<StreamRequest>::empty());
    } else {
        lemma_replay_prefix(subs, gs, rs, j - 1);
        let prev = record_all(SubscriptionMap::empty(), rs.take(j - 1));
        assert(rs.take(j).drop_last() =~= rs.take(j - 1));
        let r = rs[j - 1];
        let g = gs[j - 1];
        assert(rs.take(j).last() == r);
        assert(replays_group(r, g));
        assert(group_ok(g, subs));
        lemma_subscription_lookup(g.keys@, g.fields@);
        let svc = g.service@;
        let ks = split_commas(g.keys@);
        let fs = split_commas(g.fields@);
        let cur = service_subs(prev, svc);
        let next = insert_keys(cur, ks, fs);
        let f = record_all(SubscriptionMap::empty(), rs.take(j));
        assert(f == prev.insert(svc, next));
        assert forall|k: Seq<char>| #[trigger] next.contains_key(k) implies subs[svc].contains_key(k) && next[k] == subs[svc][k] by {
            lemma_insert_keys(cur, ks, fs, k);
            if !ks.contains(k) {
                assert(prev.contains_key(svc) && prev[svc].contains_key(k));
            }
        }
        assert forall|s: Seq<char>| #[trigger] f.contains_key(s) implies subs.contains_key(s) && (exists|k: Seq<char>| #[trigger] f[s].contains_key(k)) by {
            if s == svc {
                lemma_insert_keys(cur, ks, fs, ks[0]);
                assert(ks.contains(ks[0]));
                assert(f[s].contains_key(ks[0]));
            } else {
                assert(prev.contains_key(s));
                let k = choose|k: Seq<char>| #[trigger] prev[s].contains_key(k);
                assert(f[s].contains_key(k));
            }
        }
        assert forall|s: Seq<char>, k: Seq<char>| #[trigger] f.contains_key(s) && #[trigger] f[s].contains_key(k) implies subs[s].contains_key(k) && f[s][k] == subs[s][k] by {
            if s == svc {
                assert(next.contains_key(k));
            } else {
                assert(prev.contains_key(s) && prev[s].contains_key(k));
            }
        }
        assert forall|t: int, k: Seq<char>| 0 <= t < j && #[trigger] split_commas(gs[t].keys@).contains(k) implies f.contains_key(gs[t].service@) && f[gs[t].service@].contains_key(k) by {
            if t < j - 1 {
                assert(prev.contains_key(gs[t].service@) && prev[gs[t].service@].contains_key(k));
                if gs[t].service@ == svc {
                    lemma_insert_keys(cur, ks, fs, k);
                }
            } else {
                lemma_insert_keys(cur, ks, fs, k);
            }
        }
    }
}

/// Asking again for the groups of a record, in `ADD` requests, rebuilds the
/// record from nothing: the rebuilt record holds exactly the services that
/// had some subscription, each with the same keys and fields.
pub proof fn law_replay_restores(subs: SubscriptionMap, gs: Seq<ReplayGroup>, rs: Seq<StreamRequest>)
    requires
        replays(gs, subs),
        rs.len() == gs.len(),
        forall|t: int| 0 <= t < rs.len() ==> replays_group(#[trigger] rs[t], gs[t]),
    ensures
        forall|s: Seq<char>| #[trigger] record_all(SubscriptionMap::empty(), rs).contains_key(s) <==> (
        subs.contains_key(s) && exists|k: Seq<char>| #[trigger] subs[s].contains_key(k)),
        forall|s: Seq<char>| #[trigger] record_all(SubscriptionMap::empty(), rs).contains_key(s) ==> record_all(
            SubscriptionMap::empty(),
            rs,
        )[s] == subs[s],
{
    lemma_replay_prefix(subs, gs, rs, rs.len() as int);
    assert(rs.take(rs.len() as int) =~= rs);
    let f = record_all(SubscriptionMap::empty(), rs);
    assert forall|s: Seq<char>, k: Seq<char>| #[trigger] subs.contains_key(s) && #[trigger] subs[s].contains_key(k) implies f.contains_key(s) && f[s].contains_key(k) by {
        assert(replay_covers(gs, s, k));
        let t = choose|t: int| 0 <= t < gs.len() && gs[t].service@ == s && #[trigger] split_commas(gs[t].keys@).contains(k);
    }
    assert forall|s: Seq<char>| #[trigger] f.contains_key(s) <==> (subs.contains_key(s) && exists|k: Seq<char>| #[trigger] subs[s].contains_key(k)) by {
        if f.contains_key(s) {
            let k = choose|k: Seq<char>| #[trigger] f[s].contains_key(k);
            assert(subs[s].contains_key(k));
        }
        if subs.contains_key(s) && exists|k: Seq<char>| #[trigger] subs[s].contains_key(k) {
            let k = choose|k: Seq<char>| #[trigger] subs[s].contains_key(k);
            assert(f.contains_key(s));
        }
    }
    assert forall|s: Seq<char>| #[trigger] f.contains_key(s) implies f[s] == subs[s] by {
        assert forall|k: Seq<char>| #[trigger] f[s].contains_key(k) == subs[s].contains_key(k) by {
            if subs[s].contains_key(k) {
                assert(f.contains_key(s) && f[s].contains_key(k));
            }
        }
        assert(f[s] =~= subs[s]);
    }
}

} // verus!
