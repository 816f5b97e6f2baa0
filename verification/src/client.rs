//! The REST side of the client: for every API call, the HTTP request to send
//! (method, URL, headers, query parameters), and the reading of the parts of
//! a response the client interprets itself. Sending and JSON decoding are
//! the caller's.

use vstd::prelude::*;
use vstd::string::*;
use crate::codec::url_encode;
use crate::codec::url_encoded;
use crate::enums::FrequencyType;
use crate::enums::MoversSort;
use crate::enums::OptionRange;
use crate::enums::OptionStrategy;
use crate::enums::OptionType;
use crate::enums::OrderStatus;
use crate::enums::PeriodType;
use crate::enums::TimeFormat;
use crate::enums::quoted;
use crate::error::SchwabError;
use crate::error::is_api_error;
use crate::error::is_config_error;
use crate::error::is_generic_error;
use crate::error::is_token_error;
use crate::stream::StreamClient;
use crate::stream::params_view;
use crate::text::after_last;
use crate::text::decimal;
use crate::text::decimal_string;
use crate::text::join_commas;
use crate::text::join_with_commas;
use crate::text::same_text;
use crate::text::text_after_last;
use crate::text::views;
use crate::time::UtcTime;
use crate::time::chrono_formatted;
use crate::time::date_pattern;
use crate::time::iso_millis_pattern;
use crate::tokens::TokenManager;
use crate::tokens::TokenState;
use crate::tokens::credential_problem;
use crate::tokens::fresh_state;
use crate::pkce::verifier_ok;
use crate::tokens::auth_url;
use crate::types::UserPreferences;
use crate::types::param_lookup;
use crate::types::param_views;

verus! {

/// Time allowed for one HTTP request.
#[derive(Debug, Clone, Copy, PartialEq, Eq, Structural)]
pub struct RequestTimeout {
    pub secs: u64,
    pub nanos: u32,
}

/// HTTP methods the client uses.
#[derive(Debug, Clone, Copy, PartialEq, Eq, Structural)]
pub enum HttpMethod {
    Get,
    Post,
    Put,
    Delete,
}

/// An authenticated HTTP request to the API.
#[derive(Debug)]
pub struct HttpRequest {
    pub method: HttpMethod,
    pub url: String,
    pub headers: Vec<(String, String)>,
    /// Query parameters, when the call has any (possibly none of them set).
    pub query: Option<Vec<(String, String)>>,
    pub timeout: RequestTimeout,
    /// The request carries a JSON body (an order), which the caller attaches.
    pub json_body: bool,
}

/// The method named by an HTTP verb, if the client supports it.
pub open spec fn method_named(m: Seq<char>) -> Option<HttpMethod> {
    if m == "GET"@ {
        Some(HttpMethod::Get)
    } else if m == "POST"@ {
        Some(HttpMethod::Post)
    } else if m == "PUT"@ {
        Some(HttpMethod::Put)
    } else if m == "DELETE"@ {
        Some(HttpMethod::Delete)
    } else {
        None
    }
}

/// The headers of a request made with access token `token`.
pub open spec fn request_headers(token: Seq<char>, json_body: bool) -> Seq<(Seq<char>, Seq<char>)> {
    seq![("Authorization"@, "Bearer "@ + token), ("Accept"@, "application/json"@)] + if json_body {
        seq![("Content-Type"@, "application/json"@)]
    } else {
        seq![]
    }
}

/// The abstract state of a client, apart from its stream.
pub struct ClientState {
    pub tokens: TokenState,
    pub base_url: Seq<char>,
    pub timeout: RequestTimeout,
    pub stream: crate::stream::StreamState,
}

/// `res` is the request a client in state `st` makes with `method` to
/// `endpoint` with the query `params`: it fails when there is no access token.
pub open spec fn request_for(res: Result<HttpRequest, SchwabError>, st: ClientState, method: HttpMethod, endpoint: Seq<char>, params: Option<Seq<(Seq<char>, Seq<char>)>>, json_body: bool) -> bool {
    match st.tokens.access_token {
        None => res matches Err(e) && is_token_error(e, "No access token available"@),
        Some(tok) => res matches Ok(r) && {
            &&& r.method == method
            &&& r.url@ == st.base_url + endpoint
            &&& param_views(r.headers@) == request_headers(tok, json_body)
            &&& params_view(r.query) == params
            &&& r.timeout == st.timeout
            &&& r.json_body == json_body
        },
    }
}

/// One parameter when a value is given, none otherwise.
pub open spec fn opt_param(name: Seq<char>, value: Option<Seq<char>>) -> Seq<(Seq<char>, Seq<char>)> {
    match value {
        Some(v) => seq![(name, v)],
        None => seq![],
    }
}

/// The view of an optional text.
pub open spec fn opt_text(o: Option<&str>) -> Option<Seq<char>> {
    match o {
        Some(s) => Some(s@),
        None => None,
    }
}

/// How Rust writes a boolean.
pub open spec fn bool_text(b: bool) -> Seq<char> {
    if b {
        "true"@
    } else {
        "false"@
    }
}

/// An optional boolean, written.
pub open spec fn opt_bool(o: Option<bool>) -> Option<Seq<char>> {
    match o {
        Some(b) => Some(bool_text(b)),
        None => None,
    }
}

/// An optional integer, written in decimal.
pub open spec fn opt_int(o: Option<i32>) -> Option<Seq<char>> {
    match o {
        Some(n) => Some(decimal(n as int)),
        None => None,
    }
}

/// An instant written in one of the API's time formats.
pub open spec fn time_text(t: UtcTime, format: TimeFormat) -> Seq<char> {
    match format {
        TimeFormat::Iso8601 => chrono_formatted(t.secs(), t.nanos(), iso_millis_pattern()) + "Z"@,
        TimeFormat::Epoch => decimal(t.secs() as int),
        TimeFormat::EpochMs => decimal(t.secs() * 1000 + t.nanos() / 1_000_000),
        TimeFormat::YearMonthDay => chrono_formatted(t.secs(), t.nanos(), date_pattern()),
    }
}

/// An optional instant, written.
pub open spec fn opt_time(o: Option<UtcTime>, format: TimeFormat) -> Option<Seq<char>> {
    match o {
        Some(t) => Some(time_text(t, format)),
        None => None,
    }
}

/// Named parameters, by their views.
pub type Params = Seq<(Seq<char>, Seq<char>)>;

/// An optional order status, as its JSON text.
pub open spec fn opt_status(o: Option<OrderStatus>) -> Option<Seq<char>> {
    match o {
        Some(x) => Some(quoted(x.api_name_spec())),
        None => None,
    }
}

/// An optional contract type, as its JSON text.
pub open spec fn opt_contract_type(o: Option<OptionType>) -> Option<Seq<char>> {
    match o {
        Some(x) => Some(quoted(x.api_name_spec())),
        None => None,
    }
}

/// An optional option strategy, as its JSON text.
pub open spec fn opt_strategy(o: Option<OptionStrategy>) -> Option<Seq<char>> {
    match o {
        Some(x) => Some(quoted(x.api_name_spec())),
        None => None,
    }
}

/// An optional strike range, as its JSON text.
pub open spec fn opt_range(o: Option<OptionRange>) -> Option<Seq<char>> {
    match o {
        Some(x) => Some(quoted(x.api_name_spec())),
        None => None,
    }
}

/// An optional period type, as its JSON text.
pub open spec fn opt_period_type(o: Option<PeriodType>) -> Option<Seq<char>> {
    match o {
        Some(x) => Some(quoted(x.api_name_spec())),
        None => None,
    }
}

/// An optional frequency type, as its JSON text.
pub open spec fn opt_frequency_type(o: Option<FrequencyType>) -> Option<Seq<char>> {
    match o {
        Some(x) => Some(quoted(x.api_name_spec())),
        None => None,
    }
}

/// An optional movers order, as its JSON text.
pub open spec fn opt_sort(o: Option<MoversSort>) -> Option<Seq<char>> {
    match o {
        Some(x) => Some(quoted(x.api_name_spec())),
        None => None,
    }
}

/// The query naming the optional `fields` of an account or a quote.
pub open spec fn fields_query(fields: Option<&str>) -> Params {
    opt_param("fields"@, opt_text(fields))
}

/// The query of an order listing between two instants.
pub open spec fn orders_query(
    from: UtcTime,
    to: UtcTime,
    max_results: Option<i32>,
    status: Option<OrderStatus>,
) -> Params {
    seq![
        ("fromEnteredTime"@, time_text(from, TimeFormat::Iso8601)),
        ("toEnteredTime"@, time_text(to, TimeFormat::Iso8601)),
    ] + opt_param("maxResults"@, opt_int(max_results)) + opt_param("status"@, opt_status(status))
}

/// The query of a transaction listing.
pub open spec fn transactions_query(
    start: UtcTime,
    end: UtcTime,
    types: Seq<char>,
    symbol: Option<&str>,
) -> Params {
    seq![
        ("startDate"@, time_text(start, TimeFormat::Iso8601)),
        ("endDate"@, time_text(end, TimeFormat::Iso8601)),
        ("types"@, types),
    ] + opt_param("symbol"@, opt_text(symbol))
}

/// The query of the quotes of several symbols.
pub open spec fn quotes_query(symbols: Seq<Seq<char>>, fields: Option<&str>, indicative: Option<bool>) -> Params {
    seq![("symbols"@, join_commas(symbols))] + opt_param("fields"@, opt_text(fields)) + opt_param(
        "indicative"@,
        opt_bool(indicative),
    )
}

/// The query of an option chain; its dates are written `YYYY-MM-DD`.
pub open spec fn option_chain_query(
    symbol: Seq<char>,
    contract_type: Option<OptionType>,
    strike_count: Option<i32>,
    include_underlying_quote: Option<bool>,
    strategy: Option<OptionStrategy>,
    interval: Option<&str>,
    strike: Option<&str>,
    range: Option<OptionRange>,
    from_date: Option<UtcTime>,
    to_date: Option<UtcTime>,
) -> Params {
    seq![("symbol"@, symbol)]
        + opt_param("contractType"@, opt_contract_type(contract_type))
        + opt_param("strikeCount"@, opt_int(strike_count))
        + opt_param("includeUnderlyingQuote"@, opt_bool(include_underlying_quote))
        + opt_param("strategy"@, opt_strategy(strategy))
        + opt_param("interval"@, opt_text(interval))
        + opt_param("strike"@, opt_text(strike))
        + opt_param("range"@, opt_range(range))
        + opt_param("fromDate"@, opt_time(from_date, TimeFormat::YearMonthDay))
        + opt_param("toDate"@, opt_time(to_date, TimeFormat::YearMonthDay))
}

/// The query of a price history; its dates are written in epoch milliseconds.
pub open spec fn price_history_query(
    symbol: Seq<char>,
    period_type: Option<PeriodType>,
    period: Option<i32>,
    frequency_type: Option<FrequencyType>,
    frequency: Option<i32>,
    start_date: Option<UtcTime>,
    end_date: Option<UtcTime>,
    need_extended_hours_data: Option<bool>,
    need_previous_close: Option<bool>,
) -> Params {
    seq![("symbol"@, symbol)]
        + opt_param("periodType"@, opt_period_type(period_type))
        + opt_param("period"@, opt_int(period))
        + opt_param("frequencyType"@, opt_frequency_type(frequency_type))
        + opt_param("frequency"@, opt_int(frequency))
        + opt_param("startDate"@, opt_time(start_date, TimeFormat::EpochMs))
        + opt_param("endDate"@, opt_time(end_date, TimeFormat::EpochMs))
        + opt_param("needExtendedHoursData"@, opt_bool(need_extended_hours_data))
        + opt_param("needPreviousClose"@, opt_bool(need_previous_close))
}

/// The query of the movers of an index.
pub open spec fn movers_query(symbol: Seq<char>, sort: Option<MoversSort>, frequency: Option<i32>) -> Params {
    seq![("symbol"@, symbol)] + opt_param("sort"@, opt_sort(sort)) + opt_param("frequency"@, opt_int(frequency))
}

/// The query naming the optional day of market hours, written `YYYY-MM-DD`.
pub open spec fn date_query(date: Option<UtcTime>) -> Params {
    opt_param("date"@, opt_time(date, TimeFormat::YearMonthDay))
}

/// The query of the hours of several markets.
pub open spec fn market_hours_query(markets: Seq<Seq<char>>, date: Option<UtcTime>) -> Params {
    seq![("symbols"@, join_commas(markets))] + date_query(date)
}

/// An HTTP status of success (200 through 299).
pub open spec fn status_success(status: u16) -> bool {
    200 <= status <= 299
}

fn push_param(v: &mut Vec<(String, String)>, name: &str, value: String)
    ensures
        param_views(final(v)@) == param_views(old(v)@).push((name@, value@)),
{
    let ghost before = v@;
    let n = name.to_owned();
    v.push((n, value));
    proof {
        assert(param_views(v@) =~= param_views(before).push((name@, value@)));
    }
}

fn push_opt_param(v: &mut Vec<(String, String)>, name: &str, value: Option<String>)
    ensures
        param_views(final(v)@) == param_views(old(v)@) + opt_param(
            name@,
            match value {
                Some(s) => Some(s@),
                None => None,
            },
        ),
{
    match value {
        Some(s) => {
            let ghost sv = s@;
            push_param(v, name, s);
            proof {
                assert(param_views(old(v)@).push((name@, sv)) =~= param_views(old(v)@) + seq![(name@, sv)]);
            }
        },
        None => {
            proof {
                assert(param_views(v@) =~= param_views(v@) + Seq::<(Seq<char>, Seq<char>)>::empty());
            }
        },
    }
}

fn opt_text_string(o: Option<&str>) -> (r: Option<String>)
    ensures
        match r {
            Some(s) => opt_text(o) == Some(s@),
            None => opt_text(o) is None,
        },
{
    match o {
        Some(s) => Some(s.to_owned()),
        None => None,
    }
}

fn bool_string(b: bool) -> (s: String)
    ensures
        s@ == bool_text(b),
{
    if b {
        "true".to_owned()
    } else {
        "false".to_owned()
    }
}

fn opt_bool_string(o: Option<bool>) -> (r: Option<String>)
    ensures
        match r {
            Some(s) => opt_bool(o) == Some(s@),
            None => opt_bool(o) is None,
        },
{
    match o {
        Some(b) => Some(bool_string(b)),
        None => None,
    }
}

fn opt_int_string(o: Option<i32>) -> (r: Option<String>)
    ensures
        match r {
            Some(s) => opt_int(o) == Some(s@),
            None => opt_int(o) is None,
        },
{
    match o {
        Some(n) => Some(decimal_string(n as i128)),
        None => None,
    }
}

/// Whether an HTTP status reports success, as `StatusCode::is_success` does.
pub fn is_success_status(status: u16) -> (ok: bool)
    ensures
        ok == status_success(status),
{
    200 <= status && status <= 299
}

/// Reads a response's status: success, or an API error carrying the status
/// and the response text.
pub fn check_response(status: u16, error_text: &str) -> (res: Result<(), SchwabError>)
    ensures
        status_success(status) <==> res is Ok,
        res matches Err(e) ==> is_api_error(e, status, error_text@),
{
    if is_success_status(status) {
        Ok(())
    } else {
        Err(SchwabError::api(status, error_text))
    }
}

/// The id of a placed order, the last segment of the `Location` header the
/// API answers with; a missing (or unreadable) header is an error.
pub fn order_id_from_location(location: Option<&str>) -> (res: Result<String, SchwabError>)
    ensures
        match location {
            Some(l) => res matches Ok(id) && id@ == after_last(l@, '/'),
            None => res matches Err(e) && is_generic_error(
                e,
                "Order placed but order ID not found in response"@,
            ),
        },
{
    match location {
        Some(l) => Ok(text_after_last(l, '/')),
        None => Err(SchwabError::generic("Order placed but order ID not found in response")),
    }
}

/// Main Schwab API client
pub struct Client {
    token_manager: TokenManager,
    base_url: String,
    timeout: RequestTimeout,
    pub stream: StreamClient,
}

impl View for Client {
    type V = ClientState;

    closed spec fn view(&self) -> ClientState {
        ClientState {
            tokens: self.token_manager@,
            base_url: self.base_url@,
            timeout: self.timeout,
            stream: self.stream@,
        }
    }
}

impl Client {
    /// Create a new Schwab API client; credentials are checked as
    /// `TokenManager::new` checks them, and requests time out after 10 seconds.
    pub fn new(app_key: String, app_secret: String, callback_url: String) -> (res: Result<Self, SchwabError>)
        ensures
            res is Ok <==> credential_problem(app_key@, app_secret@, callback_url@) is None,
            res matches Err(e) ==> is_config_error(
                e,
                credential_problem(app_key@, app_secret@, callback_url@).unwrap(),
            ),
            res matches Ok(c) ==> {
                &&& c@.tokens == fresh_state(app_key@, app_secret@, callback_url@, "tokens.json"@, c@.tokens.code_verifier)
                &&& verifier_ok(c@.tokens.code_verifier)
                &&& c@.base_url == "https://api.schwabapi.com"@
                &&& c@.timeout == (RequestTimeout { secs: 10, nanos: 0 })
                &&& c@.stream.streamer_info is None
                &&& c@.stream.request_id == 0
                &&& !c@.stream.active
                &&& c@.stream.subscriptions == crate::subscriptions::SubscriptionMap::empty()
            },
    {
        let token_manager = TokenManager::new(app_key, app_secret, callback_url, None)?;
        let stream = StreamClient::new();
        Ok(Client {
            token_manager,
            base_url: "https://api.schwabapi.com".to_owned(),
            timeout: RequestTimeout { secs: 10, nanos: 0 },
            stream,
        })
    }

    /// The token manager.
    pub fn token_manager(&self) -> (tm: &TokenManager)
        ensures
            tm@ == self@.tokens,
    {
        &self.token_manager
    }

    /// The token manager, to store new tokens in.
    pub fn token_manager_mut(&mut self) -> (tm: &mut TokenManager)
        ensures
            tm@ == old(self)@.tokens,
            final(self)@ == (ClientState { tokens: final(tm)@, ..old(self)@ }),
    {
        &mut self.token_manager
    }

    /// Get the authorization URL for OAuth2 flow
    pub fn get_auth_url(&self) -> (url: String)
        ensures
            url@ == auth_url(self@.tokens.app_key, self@.tokens.callback_url, self@.tokens.code_verifier),
    {
        self.token_manager.get_auth_url()
    }

    /// Set timeout for HTTP requests
    pub fn set_timeout(&mut self, timeout: RequestTimeout)
        ensures
            final(self)@ == (ClientState { timeout, ..old(self)@ }),
    {
        self.timeout = timeout;
    }

    /// Takes the streamer information from the user preferences, when they
    /// carry any, for the stream client.
    pub fn apply_user_preferences(&mut self, preferences: &UserPreferences)
        ensures
            match preferences.streamer_info {
                Some(v) if v@.len() > 0 => final(self)@ == (ClientState {
                    stream: crate::stream::StreamState {
                        streamer_info: Some(v@[0]),
                        ..old(self)@.stream
                    },
                    ..old(self)@
                }),
                _ => final(self)@ == old(self)@,
            },
    {
        if let Some(infos) = &preferences.streamer_info {
            if infos.len() > 0 {
                self.stream.set_streamer_info(infos[0].copy());
            }
        }
    }

    /// Format DateTime to string based on TimeFormat
    pub fn format_time(&self, dt: &UtcTime, format: TimeFormat) -> (s: String)
        ensures
            s@ == time_text(*dt, format),
    {
        match format {
            TimeFormat::Iso8601 => {
                let mut s = dt.format("%Y-%m-%dT%H:%M:%S%.3f");
                s.append("Z");
                s
            },
            TimeFormat::Epoch => decimal_string(dt.timestamp() as i128),
            TimeFormat::EpochMs => decimal_string(dt.timestamp_millis()),
            TimeFormat::YearMonthDay => dt.format("%Y-%m-%d"),
        }
    }

    fn opt_time_string(&self, o: Option<UtcTime>, format: TimeFormat) -> (r: Option<String>)
        ensures
            match r {
                Some(s) => opt_time(o, format) == Some(s@),
                None => opt_time(o, format) is None,
            },
    {
        match o {
            Some(t) => Some(self.format_time(&t, format)),
            None => None,
        }
    }

    /// Make an authenticated HTTP request
    fn make_request(&self, method: &str, endpoint: &str, params: Option<Vec<(String, String)>>, json_body: bool) -> (res: Result<HttpRequest, SchwabError>)
        ensures
            match (self@.tokens.access_token, method_named(method@)) {
                (None, _) => res matches Err(e) && is_token_error(e, "No access token available"@),
                (Some(_), None) => res matches Err(e) && is_generic_error(e, "Unsupported HTTP method"@),
                (Some(_), Some(m)) => request_for(res, self@, m, endpoint@, params_view(params), json_body),
            },
    {
        let access_token = self.token_manager.get_access_token()?;
        let mut url = self.base_url.clone();
        url.append(endpoint);
        let method = if same_text(method, "GET") {
            HttpMethod::Get
        } else if same_text(method, "POST") {
            HttpMethod::Post
        } else if same_text(method, "PUT") {
            HttpMethod::Put
        } else if same_text(method, "DELETE") {
            HttpMethod::Delete
        } else {
            return Err(SchwabError::generic("Unsupported HTTP method"));
        };
        let mut bearer = "Bearer ".to_owned();
        bearer.append(access_token.as_str());
        let mut headers: Vec<(String, String)> = Vec::new();
        push_param(&mut headers, "Authorization", bearer);
        push_param(&mut headers, "Accept", "application/json".to_owned());
        if json_body {
            push_param(&mut headers, "Content-Type", "application/json".to_owned());
        }
        proof {
            let tok = self@.tokens.access_token->0;
            assert(param_views(headers@) =~= request_headers(tok, json_body));
        }
        Ok(HttpRequest { method, url, headers, query: params, timeout: self.timeout, json_body })
    }

    /// The query of optional `fields`.
    fn fields_params(fields: Option<&str>) -> (p: Vec<(String, String)>)
        ensures
            param_views(p@) == fields_query(fields),
    {
        let mut params: Vec<(String, String)> = Vec::new();
        push_opt_param(&mut params, "fields", opt_text_string(fields));
        proof {
            assert(param_views(params@) =~= fields_query(fields));
        }
        params
    }

    /// The query of an optional market day.
    fn date_params(&self, date: Option<UtcTime>) -> (p: Vec<(String, String)>)
        ensures
            param_views(p@) == date_query(date),
    {
        let mut params: Vec<(String, String)> = Vec::new();
        push_opt_param(&mut params, "date", self.opt_time_string(date, TimeFormat::YearMonthDay));
        proof {
            assert(param_views(params@) =~= date_query(date));
        }
        params
    }

    /// The query of an order listing.
    fn orders_params(
        &self,
        from_entered_time: &UtcTime,
        to_entered_time: &UtcTime,
        max_results: Option<i32>,
        status: Option<OrderStatus>,
    ) -> (p: Vec<(String, String)>)
        ensures
            param_views(p@) == orders_query(*from_entered_time, *to_entered_time, max_results, status),
    {
        let mut params: Vec<(String, String)> = Vec::new();
        push_param(&mut params, "fromEnteredTime", self.format_time(from_entered_time, TimeFormat::Iso8601));
        push_param(&mut params, "toEnteredTime", self.format_time(to_entered_time, TimeFormat::Iso8601));
        push_opt_param(&mut params, "maxResults", opt_int_string(max_results));
        let status_text = match status {
            Some(x) => Some(x.to_json_string()),
            None => None,
        };
        push_opt_param(&mut params, "status", status_text);
        proof {
            assert(param_views(params@) =~= orders_query(*from_entered_time, *to_entered_time, max_results, status));
        }
        params
    }

    /// Get linked account numbers and hashes
    pub fn get_account_numbers(&self) -> (res: Result<HttpRequest, SchwabError>)
        ensures
            request_for(res, self@, HttpMethod::Get, "/trader/v1/accounts/accountNumbers"@, None, false),
    {
        proof {
            lemma_method_names();
        }
        self.make_request("GET", "/trader/v1/accounts/accountNumbers", None, false)
    }

    /// Get details for all linked accounts
    pub fn get_accounts(&self, fields: Option<&str>) -> (res: Result<HttpRequest, SchwabError>)
        ensures
            request_for(res, self@, HttpMethod::Get, "/trader/v1/accounts"@, Some(fields_query(fields)), false),
    {
        proof {
            lemma_method_names();
        }
        self.make_request("GET", "/trader/v1/accounts", Some(Self::fields_params(fields)), false)
    }

    /// Get details for a specific account
    pub fn get_account(&self, account_hash: &str, fields: Option<&str>) -> (res: Result<HttpRequest, SchwabError>)
        ensures
            request_for(
                res,
                self@,
                HttpMethod::Get,
                "/trader/v1/accounts/"@ + account_hash@,
                Some(fields_query(fields)),
                false,
            ),
    {
        let mut endpoint = "/trader/v1/accounts/".to_owned();
        endpoint.append(account_hash);
        proof {
            lemma_method_names();
        }
        self.make_request("GET", endpoint.as_str(), Some(Self::fields_params(fields)), false)
    }

    /// Get orders for a specific account
    pub fn get_account_orders(
        &self,
        account_hash: &str,
        from_entered_time: &UtcTime,
        to_entered_time: &UtcTime,
        max_results: Option<i32>,
        status: Option<OrderStatus>,
    ) -> (res: Result<HttpRequest, SchwabError>)
        ensures
            request_for(
                res,
                self@,
                HttpMethod::Get,
                "/trader/v1/accounts/"@ + account_hash@ + "/orders"@,
                Some(orders_query(*from_entered_time, *to_entered_time, max_results, status)),
                false,
            ),
    {
        let mut endpoint = "/trader/v1/accounts/".to_owned();
        endpoint.append(account_hash);
        endpoint.append("/orders");
        let params = self.orders_params(from_entered_time, to_entered_time, max_results, status);
        proof {
            lemma_method_names();
        }
        self.make_request("GET", endpoint.as_str(), Some(params), false)
    }

    /// Get all orders for all accounts
    pub fn get_all_orders(
        &self,
        from_entered_time: &UtcTime,
        to_entered_time: &UtcTime,
        max_results: Option<i32>,
        status: Option<OrderStatus>,
    ) -> (res: Result<HttpRequest, SchwabError>)
        ensures
            request_for(
                res,
                self@,
                HttpMethod::Get,
                "/trader/v1/orders"@,
                Some(orders_query(*from_entered_time, *to_entered_time, max_results, status)),
                false,
            ),
    {
        let params = self.orders_params(from_entered_time, to_entered_time, max_results, status);
        proof {
            lemma_method_names();
        }
        self.make_request("GET", "/trader/v1/orders", Some(params), false)
    }

    /// Place an order (the order goes in the JSON body)
    pub fn place_order(&self, account_hash: &str) -> (res: Result<HttpRequest, SchwabError>)
        ensures
            request_for(res, self@, HttpMethod::Post, "/trader/v1/accounts/"@ + account_hash@ + "/orders"@, None, true),
    {
        let mut endpoint = "/trader/v1/accounts/".to_owned();
        endpoint.append(account_hash);
        endpoint.append("/orders");
        proof {
            lemma_method_names();
        }
        self.make_request("POST", endpoint.as_str(), None, true)
    }

    /// The path of one order.
    fn order_path(account_hash: &str, order_id: &str) -> (p: String)
        ensures
            p@ == "/trader/v1/accounts/"@ + account_hash@ + "/orders/"@ + order_id@,
    {
        let mut endpoint = "/trader/v1/accounts/".to_owned();
        endpoint.append(account_hash);
        endpoint.append("/orders/");
        endpoint.append(order_id);
        endpoint
    }

    /// Get order details
    pub fn get_order(&self, account_hash: &str, order_id: &str) -> (res: Result<HttpRequest, SchwabError>)
        ensures
            request_for(
                res,
                self@,
                HttpMethod::Get,
                "/trader/v1/accounts/"@ + account_hash@ + "/orders/"@ + order_id@,
                None,
                false,
            ),
    {
        let endpoint = Self::order_path(account_hash, order_id);
        proof {
            lemma_method_names();
        }
        self.make_request("GET", endpoint.as_str(), None, false)
    }

    /// Cancel an order
    pub fn cancel_order(&self, account_hash: &str, order_id: &str) -> (res: Result<HttpRequest, SchwabError>)
        ensures
            request_for(
                res,
                self@,
                HttpMethod::Delete,
                "/trader/v1/accounts/"@ + account_hash@ + "/orders/"@ + order_id@,
                None,
                false,
            ),
    {
        let endpoint = Self::order_path(account_hash, order_id);
        proof {
            lemma_method_names();
        }
        self.make_request("DELETE", endpoint.as_str(), None, false)
    }

    /// Replace an order (the new order goes in the JSON body)
    pub fn replace_order(&self, account_hash: &str, order_id: &str) -> (res: Result<HttpRequest, SchwabError>)
        ensures
            request_for(
                res,
                self@,
                HttpMethod::Put,
                "/trader/v1/accounts/"@ + account_hash@ + "/orders/"@ + order_id@,
                None,
                true,
            ),
    {
        let endpoint = Self::order_path(account_hash, order_id);
        proof {
            lemma_method_names();
        }
        self.make_request("PUT", endpoint.as_str(), None, true)
    }

    /// Get transactions for an account
    pub fn get_transactions(
        &self,
        account_hash: &str,
        start_date: &UtcTime,
        end_date: &UtcTime,
        types: &str,
        symbol: Option<&str>,
    ) -> (res: Result<HttpRequest, SchwabError>)
        ensures
            request_for(
                res,
                self@,
                HttpMethod::Get,
                "/trader/v1/accounts/"@ + account_hash@ + "/transactions"@,
                Some(transactions_query(*start_date, *end_date, types@, symbol)),
                false,
            ),
    {
        let mut endpoint = "/trader/v1/accounts/".to_owned();
        endpoint.append(account_hash);
        endpoint.append("/transactions");
        let mut params: Vec<(String, String)> = Vec::new();
        push_param(&mut params, "startDate", self.format_time(start_date, TimeFormat::Iso8601));
        push_param(&mut params, "endDate", self.format_time(end_date, TimeFormat::Iso8601));
        push_param(&mut params, "types", types.to_owned());
        push_opt_param(&mut params, "symbol", opt_text_string(symbol));
        proof {
            assert(param_views(params@) =~= transactions_query(*start_date, *end_date, types@, symbol));
            lemma_method_names();
        }
        self.make_request("GET", endpoint.as_str(), Some(params), false)
    }

    /// Get transaction details
    pub fn get_transaction(&self, account_hash: &str, transaction_id: &str) -> (res: Result<HttpRequest, SchwabError>)
        ensures
            request_for(
                res,
                self@,
                HttpMethod::Get,
                "/trader/v1/accounts/"@ + account_hash@ + "/transactions/"@ + transaction_id@,
                None,
                false,
            ),
    {
        let mut endpoint = "/trader/v1/accounts/".to_owned();
        endpoint.append(account_hash);
        endpoint.append("/transactions/");
        endpoint.append(transaction_id);
        proof {
            lemma_method_names();
        }
        self.make_request("GET", endpoint.as_str(), None, false)
    }

    /// Get user preferences (whose streamer information `apply_user_preferences` takes up)
    pub fn get_user_preferences(&self) -> (res: Result<HttpRequest, SchwabError>)
        ensures
            request_for(res, self@, HttpMethod::Get, "/trader/v1/userPreference"@, None, false),
    {
        proof {
            lemma_method_names();
        }
        self.make_request("GET", "/trader/v1/userPreference", None, false)
    }

    /// Get quotes for multiple symbols
    pub fn get_quotes(&self, symbols: &[String], fields: Option<&str>, indicative: Option<bool>) -> (res: Result<HttpRequest, SchwabError>)
        ensures
            request_for(
                res,
                self@,
                HttpMethod::Get,
                "/marketdata/v1/quotes"@,
                Some(quotes_query(views(symbols@), fields, indicative)),
                false,
            ),
    {
        let mut params: Vec<(String, String)> = Vec::new();
        push_param(&mut params, "symbols", join_with_commas(symbols));
        push_opt_param(&mut params, "fields", opt_text_string(fields));
        push_opt_param(&mut params, "indicative", opt_bool_string(indicative));
        proof {
            assert(param_views(params@) =~= quotes_query(views(symbols@), fields, indicative));
            lemma_method_names();
        }
        self.make_request("GET", "/marketdata/v1/quotes", Some(params), false)
    }

    /// Get quote for a single symbol (percent-encoded in the path)
    pub fn get_quote(&self, symbol: &str, fields: Option<&str>) -> (res: Result<HttpRequest, SchwabError>)
        ensures
            request_for(
                res,
                self@,
                HttpMethod::Get,
                "/marketdata/v1/"@ + url_encoded(symbol@) + "/quotes"@,
                Some(fields_query(fields)),
                false,
            ),
    {
        let mut endpoint = "/marketdata/v1/".to_owned();
        let encoded = url_encode(symbol);
        endpoint.append(encoded.as_str());
        endpoint.append("/quotes");
        proof {
            lemma_method_names();
        }
        self.make_request("GET", endpoint.as_str(), Some(Self::fields_params(fields)), false)
    }

    /// Get option chain (interval and strike come written as the caller wants them sent)
    pub fn get_option_chain(
        &self,
        symbol: &str,
        contract_type: Option<OptionType>,
        strike_count: Option<i32>,
        include_underlying_quote: Option<bool>,
        strategy: Option<OptionStrategy>,
        interval: Option<&str>,
        strike: Option<&str>,
        range: Option<OptionRange>,
        from_date: Option<UtcTime>,
        to_date: Option<UtcTime>,
    ) -> (res: Result<HttpRequest, SchwabError>)
        ensures
            request_for(
                res,
                self@,
                HttpMethod::Get,
                "/marketdata/v1/chains"@,
                Some(option_chain_query(
                    symbol@,
                    contract_type,
                    strike_count,
                    include_underlying_quote,
                    strategy,
                    interval,
                    strike,
                    range,
                    from_date,
                    to_date,
                )),
                false,
            ),
    {
        let mut params: Vec<(String, String)> = Vec::new();
        push_param(&mut params, "symbol", symbol.to_owned());
        proof {
            assert(param_views(params@) =~= seq![("symbol"@, symbol@)]);
        }
        let contract_type_text = match contract_type {
            Some(x) => Some(x.to_json_string()),
            None => None,
        };
        push_opt_param(&mut params, "contractType", contract_type_text);
        push_opt_param(&mut params, "strikeCount", opt_int_string(strike_count));
        push_opt_param(&mut params, "includeUnderlyingQuote", opt_bool_string(include_underlying_quote));
        let strategy_text = match strategy {
            Some(x) => Some(x.to_json_string()),
            None => None,
        };
        push_opt_param(&mut params, "strategy", strategy_text);
        push_opt_param(&mut params, "interval", opt_text_string(interval));
        push_opt_param(&mut params, "strike", opt_text_string(strike));
        let range_text = match range {
            Some(x) => Some(x.to_json_string()),
            None => None,
        };
        push_opt_param(&mut params, "range", range_text);
        push_opt_param(&mut params, "fromDate", self.opt_time_string(from_date, TimeFormat::YearMonthDay));
        push_opt_param(&mut params, "toDate", self.opt_time_string(to_date, TimeFormat::YearMonthDay));
        proof {
            lemma_method_names();
        }
        self.make_request("GET", "/marketdata/v1/chains", Some(params), false)
    }

    /// Get price history
    pub fn get_price_history(
        &self,
        symbol: &str,
        period_type: Option<PeriodType>,
        period: Option<i32>,
        frequency_type: Option<FrequencyType>,
        frequency: Option<i32>,
        start_date: Option<UtcTime>,
        end_date: Option<UtcTime>,
        need_extended_hours_data: Option<bool>,
        need_previous_close: Option<bool>,
    ) -> (res: Result<HttpRequest, SchwabError>)
        ensures
            request_for(
                res,
                self@,
                HttpMethod::Get,
                "/marketdata/v1/pricehistory"@,
                Some(price_history_query(
                    symbol@,
                    period_type,
                    period,
                    frequency_type,
                    frequency,
                    start_date,
                    end_date,
                    need_extended_hours_data,
                    need_previous_close,
                )),
                false,
            ),
    {
        let mut params: Vec<(String, String)> = Vec::new();
        push_param(&mut params, "symbol", symbol.to_owned());
        proof {
            assert(param_views(params@) =~= seq![("symbol"@, symbol@)]);
        }
        let period_type_text = match period_type {
            Some(x) => Some(x.to_json_string()),
            None => None,
        };
        push_opt_param(&mut params, "periodType", period_type_text);
        push_opt_param(&mut params, "period", opt_int_string(period));
        let frequency_type_text = match frequency_type {
            Some(x) => Some(x.to_json_string()),
            None => None,
        };
        push_opt_param(&mut params, "frequencyType", frequency_type_text);
        push_opt_param(&mut params, "frequency", opt_int_string(frequency));
        push_opt_param(&mut params, "startDate", self.opt_time_string(start_date, TimeFormat::EpochMs));
        push_opt_param(&mut params, "endDate", self.opt_time_string(end_date, TimeFormat::EpochMs));
        push_opt_param(&mut params, "needExtendedHoursData", opt_bool_string(need_extended_hours_data));
        push_opt_param(&mut params, "needPreviousClose", opt_bool_string(need_previous_close));
        proof {
            lemma_method_names();
        }
        self.make_request("GET", "/marketdata/v1/pricehistory", Some(params), false)
    }

    /// Get market movers
    pub fn get_movers(&self, symbol: &str, sort: Option<MoversSort>, frequency: Option<i32>) -> (res: Result<HttpRequest, SchwabError>)
        ensures
            request_for(
                res,
                self@,
                HttpMethod::Get,
                "/marketdata/v1/movers"@,
                Some(movers_query(symbol@, sort, frequency)),
                false,
            ),
    {
        let mut params: Vec<(String, String)> = Vec::new();
        push_param(&mut params, "symbol", symbol.to_owned());
        let sort_text = match sort {
            Some(x) => Some(x.to_json_string()),
            None => None,
        };
        push_opt_param(&mut params, "sort", sort_text);
        push_opt_param(&mut params, "frequency", opt_int_string(frequency));
        proof {
            assert(param_views(params@) =~= movers_query(symbol@, sort, frequency));
            lemma_method_names();
        }
        self.make_request("GET", "/marketdata/v1/movers", Some(params), false)
    }

    /// Get market hours
    pub fn get_market_hours(&self, symbols: &[String], date: Option<UtcTime>) -> (res: Result<HttpRequest, SchwabError>)
        ensures
            request_for(
                res,
                self@,
                HttpMethod::Get,
                "/marketdata/v1/markets"@,
                Some(market_hours_query(views(symbols@), date)),
                false,
            ),
    {
        let mut params: Vec<(String, String)> = Vec::new();
        push_param(&mut params, "symbols", join_with_commas(symbols));
        push_opt_param(&mut params, "date", self.opt_time_string(date, TimeFormat::YearMonthDay));
        proof {
            assert(param_views(params@) =~= market_hours_query(views(symbols@), date));
            lemma_method_names();
        }
        self.make_request("GET", "/marketdata/v1/markets", Some(params), false)
    }

    /// Get market hours for a specific market
    pub fn get_market_hour(&self, market_id: &str, date: Option<UtcTime>) -> (res: Result<HttpRequest, SchwabError>)
        ensures
            request_for(
                res,
                self@,
                HttpMethod::Get,
                "/marketdata/v1/markets/"@ + market_id@,
                Some(date_query(date)),
                false,
            ),
    {
        let mut endpoint = "/marketdata/v1/markets/".to_owned();
        endpoint.append(market_id);
        proof {
            lemma_method_names();
        }
        self.make_request("GET", endpoint.as_str(), Some(self.date_params(date)), false)
    }

    /// Search instruments
    pub fn search_instruments(&self, symbol: &str, projection: &str) -> (res: Result<HttpRequest, SchwabError>)
        ensures
            request_for(
                res,
                self@,
                HttpMethod::Get,
                "/marketdata/v1/instruments"@,
                Some(seq![("symbol"@, symbol@), ("projection"@, projection@)]),
                false,
            ),
    {
        let mut params: Vec<(String, String)> = Vec::new();
        push_param(&mut params, "symbol", symbol.to_owned());
        push_param(&mut params, "projection", projection.to_owned());
        proof {
            assert(param_views(params@) =~= seq![("symbol"@, symbol@), ("projection"@, projection@)]);
            lemma_method_names();
        }
        self.make_request("GET", "/marketdata/v1/instruments", Some(params), false)
    }

    /// Get instrument by CUSIP
    pub fn get_instrument_by_cusip(&self, cusip: &str) -> (res: Result<HttpRequest, SchwabError>)
        ensures
            request_for(res, self@, HttpMethod::Get, "/marketdata/v1/instruments/"@ + cusip@, None, false),
    {
        let mut endpoint = "/marketdata/v1/instruments/".to_owned();
        endpoint.append(cusip);
        proof {
            lemma_method_names();
        }
        self.make_request("GET", endpoint.as_str(), None, false)
    }
}

/// Looking a name up in parameters followed by an optional one finds the
/// optional one when it is given under that name, else looks further back.
proof fn lemma_lookup_opt_param(p: Params, n: Seq<char>, v: Option<Seq<char>>, m: Seq<char>)
    ensures
        param_lookup(p + opt_param(n, v), m) == if n == m && v is Some {
            v
        } else {
            param_lookup(p, m)
        },
{
    match v {
        Some(x) => {
            assert((p + seq![(n, x)]).drop_last() =~= p);
            assert((p + seq![(n, x)]).last() == (n, x));
        },
        None => {
            assert(p + Seq::<(Seq<char>, Seq<char>)>::empty() =~= p);
        },
    }
}

/// Looking a name up in a single parameter.
proof fn lemma_lookup_single(n: Seq<char>, v: Seq<char>, m: Seq<char>)
    ensures
        param_lookup(seq![(n, v)], m) == if n == m {
            Some(v)
        } else {
            None::<Seq<char>>
        },
{
    let single = seq![(n, v)];
    assert(single.drop_last() =~= Seq::<(Seq<char>, Seq<char>)>::empty());
    assert(single.last() == (n, v));
    assert(param_lookup(Seq::<(Seq<char>, Seq<char>)>::empty(), m) is None);
}

/// Both dates of a price history query are written in epoch milliseconds:
/// `startDate` names the start instant and `endDate` the end instant, each
/// as the decimal count of milliseconds since the epoch, and neither is
/// named when its instant is not given.
pub proof fn law_price_history_dates_in_millis(
    symbol: Seq<char>,
    period_type: Option<PeriodType>,
    period: Option<i32>,
    frequency_type: Option<FrequencyType>,
    frequency: Option<i32>,
    start_date: Option<UtcTime>,
    end_date: Option<UtcTime>,
    need_extended_hours_data: Option<bool>,
    need_previous_close: Option<bool>,
)
    ensures
        ({
            let q = price_history_query(
                symbol,
                period_type,
                period,
                frequency_type,
                frequency,
                start_date,
                end_date,
                need_extended_hours_data,
                need_previous_close,
            );
            &&& param_lookup(q, "startDate"@) == match start_date {
                Some(t) => Some(decimal(t.secs() * 1000 + t.nanos() / 1_000_000)),
                None => None,
            }
            &&& param_lookup(q, "endDate"@) == match end_date {
                Some(t) => Some(decimal(t.secs() * 1000 + t.nanos() / 1_000_000)),
                None => None,
            }
        }),
{
    reveal_strlit("symbol");
    reveal_strlit("periodType");
    reveal_strlit("period");
    reveal_strlit("frequencyType");
    reveal_strlit("frequency");
    reveal_strlit("startDate");
    reveal_strlit("endDate");
    reveal_strlit("needExtendedHoursData");
    reveal_strlit("needPreviousClose");
    let names = seq![
        "symbol"@,
        "periodType"@,
        "period"@,
        "frequencyType"@,
        "frequency"@,
        "needExtendedHoursData"@,
        "needPreviousClose"@,
    ];
    assert("frequency"@[0] != "startDate"@[0]);
    assert forall|i: int| 0 <= i < names.len() implies #[trigger] names[i] != "startDate"@ && names[i] != "endDate"@ by {
        if i == 4 {
            assert(names[i][0] != "startDate"@[0]);
        } else {
            assert(names[i].len() != "startDate"@.len());
        }
        assert(names[i].len() != "endDate"@.len());
    }
    assert("startDate"@ != "endDate"@) by {
        assert("startDate"@.len() != "endDate"@.len());
    }
    let q1 = seq![("symbol"@, symbol)];
    let q2 = q1 + opt_param("periodType"@, opt_period_type(period_type));
    let q3 = q2 + opt_param("period"@, opt_int(period));
    let q4 = q3 + opt_param("frequencyType"@, opt_frequency_type(frequency_type));
    let q5 = q4 + opt_param("frequency"@, opt_int(frequency));
    let q6 = q5 + opt_param("startDate"@, opt_time(start_date, TimeFormat::EpochMs));
    let q7 = q6 + opt_param("endDate"@, opt_time(end_date, TimeFormat::EpochMs));
    let q8 = q7 + opt_param("needExtendedHoursData"@, opt_bool(need_extended_hours_data));
    let q9 = q8 + opt_param("needPreviousClose"@, opt_bool(need_previous_close));
    assert(names[0] == "symbol"@ && names[1] == "periodType"@ && names[2] == "period"@);
    assert(names[3] == "frequencyType"@ && names[4] == "frequency"@);
    assert(names[5] == "needExtendedHoursData"@ && names[6] == "needPreviousClose"@);
    let dates = seq!["startDate"@, "endDate"@];
    assert forall|j: int| 0 <= j < 2 implies param_lookup(q9, #[trigger] dates[j]) == param_lookup(q7, dates[j]) by {
        lemma_lookup_opt_param(q8, "needPreviousClose"@, opt_bool(need_previous_close), dates[j]);
        lemma_lookup_opt_param(q7, "needExtendedHoursData"@, opt_bool(need_extended_hours_data), dates[j]);
    }
    assert forall|j: int| 0 <= j < 2 implies param_lookup(q5, #[trigger] dates[j]) is None by {
        lemma_lookup_opt_param(q4, "frequency"@, opt_int(frequency), dates[j]);
        lemma_lookup_opt_param(q3, "frequencyType"@, opt_frequency_type(frequency_type), dates[j]);
        lemma_lookup_opt_param(q2, "period"@, opt_int(period), dates[j]);
        lemma_lookup_opt_param(q1, "periodType"@, opt_period_type(period_type), dates[j]);
        lemma_lookup_single("symbol"@, symbol, dates[j]);
    }
    lemma_lookup_opt_param(q6, "endDate"@, opt_time(end_date, TimeFormat::EpochMs), "startDate"@);
    lemma_lookup_opt_param(q6, "endDate"@, opt_time(end_date, TimeFormat::EpochMs), "endDate"@);
    lemma_lookup_opt_param(q5, "startDate"@, opt_time(start_date, TimeFormat::EpochMs), "startDate"@);
    lemma_lookup_opt_param(q5, "startDate"@, opt_time(start_date, TimeFormat::EpochMs), "endDate"@);
    assert(dates[0] == "startDate"@ && dates[1] == "endDate"@);
}

/// The date range of an option chain query is the caller's: `fromDate`
/// names the from date and `toDate` the to date, each written `YYYY-MM-DD`
/// by chrono, and neither is named when its date is not given.
pub proof fn law_option_chain_date_range(
    symbol: Seq<char>,
    contract_type: Option<OptionType>,
    strike_count: Option<i32>,
    include_underlying_quote: Option<bool>,
    strategy: Option<OptionStrategy>,
    interval: Option<&str>,
    strike: Option<&str>,
    range: Option<OptionRange>,
    from_date: Option<UtcTime>,
    to_date: Option<UtcTime>,
)
    ensures
        ({
            let q = option_chain_query(
                symbol,
                contract_type,
                strike_count,
                include_underlying_quote,
                strategy,
                interval,
                strike,
                range,
                from_date,
                to_date,
            );
            &&& param_lookup(q, "fromDate"@) == match from_date {
                Some(t) => Some(chrono_formatted(t.secs(), t.nanos(), "%Y-%m-%d"@)),
                None => None,
            }
            &&& param_lookup(q, "toDate"@) == match to_date {
                Some(t) => Some(chrono_formatted(t.secs(), t.nanos(), "%Y-%m-%d"@)),
                None => None,
            }
        }),
{
    reveal_strlit("symbol");
    reveal_strlit("contractType");
    reveal_strlit("strikeCount");
    reveal_strlit("includeUnderlyingQuote");
    reveal_strlit("strategy");
    reveal_strlit("interval");
    reveal_strlit("strike");
    reveal_strlit("range");
    reveal_strlit("fromDate");
    reveal_strlit("toDate");
    let names = seq![
        "symbol"@,
        "contractType"@,
        "strikeCount"@,
        "includeUnderlyingQuote"@,
        "strategy"@,
        "interval"@,
        "strike"@,
        "range"@,
    ];
    assert(names[0] == "symbol"@ && names[1] == "contractType"@ && names[2] == "strikeCount"@);
    assert(names[3] == "includeUnderlyingQuote"@ && names[4] == "strategy"@ && names[5] == "interval"@);
    assert(names[6] == "strike"@ && names[7] == "range"@);
    assert forall|i: int| 0 <= i < names.len() implies #[trigger] names[i] != "fromDate"@ && names[i] != "toDate"@ by {
        if i == 4 || i == 5 {
            assert(names[i][0] != "fromDate"@[0]);
        } else {
            assert(names[i].len() != "fromDate"@.len());
        }
        if i == 0 || i == 6 {
            assert(names[i][0] != "toDate"@[0]);
        } else {
            assert(names[i].len() != "toDate"@.len());
        }
    }
    assert("fromDate"@ != "toDate"@) by {
        assert("fromDate"@.len() != "toDate"@.len());
    }
    let q1 = seq![("symbol"@, symbol)];
    let q2 = q1 + opt_param("contractType"@, opt_contract_type(contract_type));
    let q3 = q2 + opt_param("strikeCount"@, opt_int(strike_count));
    let q4 = q3 + opt_param("includeUnderlyingQuote"@, opt_bool(include_underlying_quote));
    let q5 = q4 + opt_param("strategy"@, opt_strategy(strategy));
    let q6 = q5 + opt_param("interval"@, opt_text(interval));
    let q7 = q6 + opt_param("strike"@, opt_text(strike));
    let q8 = q7 + opt_param("range"@, opt_range(range));
    let q9 = q8 + opt_param("fromDate"@, opt_time(from_date, TimeFormat::YearMonthDay));
    let dates = seq!["fromDate"@, "toDate"@];
    assert forall|j: int| 0 <= j < 2 implies param_lookup(q8, #[trigger] dates[j]) is None by {
        lemma_lookup_opt_param(q7, "range"@, opt_range(range), dates[j]);
        lemma_lookup_opt_param(q6, "strike"@, opt_text(strike), dates[j]);
        lemma_lookup_opt_param(q5, "interval"@, opt_text(interval), dates[j]);
        lemma_lookup_opt_param(q4, "strategy"@, opt_strategy(strategy), dates[j]);
        lemma_lookup_opt_param(q3, "includeUnderlyingQuote"@, opt_bool(include_underlying_quote), dates[j]);
        lemma_lookup_opt_param(q2, "strikeCount"@, opt_int(strike_count), dates[j]);
        lemma_lookup_opt_param(q1, "contractType"@, opt_contract_type(contract_type), dates[j]);
        lemma_lookup_single("symbol"@, symbol, dates[j]);
    }
    assert(dates[0] == "fromDate"@ && dates[1] == "toDate"@);
    lemma_lookup_opt_param(q9, "toDate"@, opt_time(to_date, TimeFormat::YearMonthDay), "fromDate"@);
    lemma_lookup_opt_param(q9, "toDate"@, opt_time(to_date, TimeFormat::YearMonthDay), "toDate"@);
    lemma_lookup_opt_param(q8, "fromDate"@, opt_time(from_date, TimeFormat::YearMonthDay), "fromDate"@);
    lemma_lookup_opt_param(q8, "fromDate"@, opt_time(from_date, TimeFormat::YearMonthDay), "toDate"@);
}

/// An order listing asks for orders entered from `from` to `to`, in that
/// order, each written as ISO 8601 with milliseconds and a `Z`.
pub proof fn law_orders_time_range(from: UtcTime, to: UtcTime, max_results: Option<i32>, status: Option<OrderStatus>)
    ensures
        ({
            let q = orders_query(from, to, max_results, status);
            &&& param_lookup(q, "fromEnteredTime"@) == Some(
                chrono_formatted(from.secs(), from.nanos(), "%Y-%m-%dT%H:%M:%S%.3f"@) + "Z"@,
            )
            &&& param_lookup(q, "toEnteredTime"@) == Some(
                chrono_formatted(to.secs(), to.nanos(), "%Y-%m-%dT%H:%M:%S%.3f"@) + "Z"@,
            )
        }),
{
    reveal_strlit("fromEnteredTime");
    reveal_strlit("toEnteredTime");
    reveal_strlit("maxResults");
    reveal_strlit("status");
    let names = seq!["fromEnteredTime"@, "toEnteredTime"@];
    assert(names[0] == "fromEnteredTime"@ && names[1] == "toEnteredTime"@);
    assert("fromEnteredTime"@ != "toEnteredTime"@) by {
        assert("fromEnteredTime"@.len() != "toEnteredTime"@.len());
    }
    let q2 = seq![
        ("fromEnteredTime"@, time_text(from, TimeFormat::Iso8601)),
        ("toEnteredTime"@, time_text(to, TimeFormat::Iso8601)),
    ];
    let q3 = q2 + opt_param("maxResults"@, opt_int(max_results));
    assert forall|j: int| 0 <= j < 2 implies param_lookup(orders_query(from, to, max_results, status), #[trigger] names[j])
        == param_lookup(q2, names[j]) by {
        assert(names[j].len() != "status"@.len());
        assert(names[j].len() != "maxResults"@.len());
        lemma_lookup_opt_param(q3, "status"@, opt_status(status), names[j]);
        lemma_lookup_opt_param(q2, "maxResults"@, opt_int(max_results), names[j]);
    }
    assert(q2.drop_last() =~= seq![("fromEnteredTime"@, time_text(from, TimeFormat::Iso8601))]);
    lemma_lookup_single("fromEnteredTime"@, time_text(from, TimeFormat::Iso8601), "fromEnteredTime"@);
}

/// A transaction listing asks for the period from `start` to `end`, in that
/// order, each written as ISO 8601 with milliseconds and a `Z`, and for the
/// types given.
pub proof fn law_transactions_period(start: UtcTime, end: UtcTime, types: Seq<char>, symbol: Option<&str>)
    ensures
        ({
            let q = transactions_query(start, end, types, symbol);
            &&& param_lookup(q, "startDate"@) == Some(
                chrono_formatted(start.secs(), start.nanos(), "%Y-%m-%dT%H:%M:%S%.3f"@) + "Z"@,
            )
            &&& param_lookup(q, "endDate"@) == Some(
                chrono_formatted(end.secs(), end.nanos(), "%Y-%m-%dT%H:%M:%S%.3f"@) + "Z"@,
            )
            &&& param_lookup(q, "types"@) == Some(types)
        }),
{
    reveal_strlit("startDate");
    reveal_strlit("endDate");
    reveal_strlit("types");
    reveal_strlit("symbol");
    let names = seq!["startDate"@, "endDate"@, "types"@];
    assert(names[0] == "startDate"@ && names[1] == "endDate"@ && names[2] == "types"@);
    assert("startDate"@ != "endDate"@ && "startDate"@ != "types"@ && "endDate"@ != "types"@) by {
        assert("startDate"@.len() != "endDate"@.len());
        assert("startDate"@.len() != "types"@.len());
        assert("endDate"@.len() != "types"@.len());
    }
    let s1 = seq![("startDate"@, time_text(start, TimeFormat::Iso8601))];
    let s2 = s1.push(("endDate"@, time_text(end, TimeFormat::Iso8601)));
    let q3 = s2.push(("types"@, types));
    assert(q3 =~= seq![
        ("startDate"@, time_text(start, TimeFormat::Iso8601)),
        ("endDate"@, time_text(end, TimeFormat::Iso8601)),
        ("types"@, types),
    ]);
    assert forall|j: int| 0 <= j < 3 implies param_lookup(transactions_query(start, end, types, symbol), #[trigger] names[j])
        == param_lookup(q3, names[j]) by {
        assert(names[j].len() != "symbol"@.len());
        lemma_lookup_opt_param(q3, "symbol"@, opt_text(symbol), names[j]);
    }
    assert(q3.drop_last() =~= s2);
    assert(s2.drop_last() =~= s1);
    assert(q3.last() == ("types"@, types));
    assert(s2.last() == ("endDate"@, time_text(end, TimeFormat::Iso8601)));
    assert(param_lookup(q3, "types"@) == Some(types));
    assert(param_lookup(q3, "endDate"@) == param_lookup(s2, "endDate"@));
    assert(param_lookup(s2, "endDate"@) == Some(time_text(end, TimeFormat::Iso8601)));
    assert(param_lookup(q3, "startDate"@) == param_lookup(s2, "startDate"@));
    assert(param_lookup(s2, "startDate"@) == param_lookup(s1, "startDate"@));
    lemma_lookup_single("startDate"@, time_text(start, TimeFormat::Iso8601), "startDate"@);
}

/// The verbs the client sends name their methods.
pub proof fn lemma_method_names()
    ensures
        method_named("GET"@) == Some(HttpMethod::Get),
        method_named("POST"@) == Some(HttpMethod::Post),
        method_named("PUT"@) == Some(HttpMethod::Put),
        method_named("DELETE"@) == Some(HttpMethod::Delete),
{
    reveal_strlit("GET");
    reveal_strlit("POST");
    reveal_strlit("PUT");
    reveal_strlit("DELETE");
    assert("POST"@ != "GET"@) by {
        assert("POST"@.len() != "GET"@.len());
    }
    assert("PUT"@ != "GET"@) by {
        assert("PUT"@[0] != "GET"@[0]);
    }
    assert("PUT"@ != "POST"@) by {
        assert("PUT"@.len() != "POST"@.len());
    }
    assert("DELETE"@ != "GET"@) by {
        assert("DELETE"@.len() != "GET"@.len());
    }
    assert("DELETE"@ != "POST"@) by {
        assert("DELETE"@.len() != "POST"@.len());
    }
    assert("DELETE"@ != "PUT"@) by {
        assert("DELETE"@.len() != "PUT"@.len());
    }
}

} // verus!
