//! The router of the taxonomy API: it resolves a request into the call to
//! make on the taxonomy, or answers it at once, and turns what the
//! taxonomy gave back into the reply.
//!
//! The router makes no call itself. `handle` says which call is due; the
//! caller makes it and hands the outcome to `respond`.

use vstd::prelude::*;
use crate::identity::{extract, identified, Credentials, CredentialsView, User, UserView};
use crate::json::json_member;
use crate::payload::{
    decode, decoded, parse_body, structured_body, ParseError, ParseErrorView, Payload,
    PayloadView,
};
use crate::media::is_media_type;
use crate::response::{
    answerable, build_parse_error, build_response, encode_result, failure, failure_reply,
    fetch_reply, get_binary, json_reply, not_found, not_found_reply, parse_error_reply,
    plain_type, unauthorized, unauthorized_reply, Entries, GetterResultMap, Response,
    ResponseView,
};
use crate::route::{
    find, lemma_table_routes, one, path_view, place_view, route_of, rules_view, standard,
    standard_rules, two, with_id, Method, Operation, Rule, RuleView, SegmentView,
};
use crate::text::opt_view;

verus! {

/// A request, as the transport hands it over.
#[derive(Debug)]
pub struct Request {
    pub method: Method,
    /// The URL as the caller wrote it.
    pub url: String,
    /// The segments of the path below the point where the router is mounted.
    pub path: Vec<String>,
    /// The declared content type of the body, if any.
    pub content_type: Option<String>,
    /// What the verification of the session made of the authorization header.
    pub credentials: Credentials,
    /// The whole body.
    pub body: Vec<u8>,
}

/// What a `Request` holds.
pub struct RequestView {
    pub method: Method,
    pub url: Seq<char>,
    pub path: Seq<Seq<char>>,
    pub content_type: Option<Seq<char>>,
    pub credentials: CredentialsView,
    pub body: Seq<u8>,
}

impl View for Request {
    type V = RequestView;

    open spec fn view(&self) -> RequestView {
        RequestView {
            method: self.method,
            url: self.url@,
            path: path_view(self.path),
            content_type: opt_view(self.content_type),
            credentials: self.credentials@,
            body: self.body@,
        }
    }
}

/// Which entities a listing is about.
#[derive(Debug)]
pub enum Selection {
    /// All of them: the selector that constrains nothing.
    All,
    /// Those that the selectors in this JSON value match.
    Matching(serde_json::Value),
}

/// Which channels values are fetched from.
#[derive(Debug)]
pub enum Source {
    /// The channel with this identifier.
    Channel(String),
    /// Those that the selectors in this JSON value match.
    Matching(serde_json::Value),
}

/// What a `Source` holds.
pub enum SourceView {
    Channel(Seq<char>),
    Matching(serde_json::Value),
}

impl View for Source {
    type V = SourceView;

    open spec fn view(&self) -> SourceView {
        match *self {
            Source::Channel(id) => SourceView::Channel(id@),
            Source::Matching(selectors) => SourceView::Matching(selectors),
        }
    }
}

/// What is sent, and to which channels.
#[derive(Debug)]
pub enum Targets {
    /// One payload for the channel with this identifier.
    Channel(String, Payload),
    /// The pairs of selectors and payload in this JSON value.
    Pairs(serde_json::Value),
}

/// What `Targets` hold.
pub enum TargetsView {
    Channel(Seq<char>, PayloadView),
    Pairs(serde_json::Value),
}

impl View for Targets {
    type V = TargetsView;

    open spec fn view(&self) -> TargetsView {
        match *self {
            Targets::Channel(id, payload) => TargetsView::Channel(id@, payload@),
            Targets::Pairs(targets) => TargetsView::Pairs(targets),
        }
    }
}

/// The two fields of a request that changes tags.
#[derive(Debug)]
pub struct Tagging {
    /// The selectors of the entities to tag, as JSON.
    pub selectors: serde_json::Value,
    /// The tags, as JSON.
    pub tags: serde_json::Value,
}

/// A call to make on the taxonomy.
#[derive(Debug)]
pub enum Call {
    GetServices(Selection),
    GetChannels(Selection),
    FetchValues(Source, User),
    SendValues(Targets, User),
    AddServiceTags(Tagging),
    AddChannelTags(Tagging),
    RemoveServiceTags(Tagging),
    RemoveChannelTags(Tagging),
}

/// What a `Call` holds.
pub enum CallView {
    GetServices(Selection),
    GetChannels(Selection),
    FetchValues(SourceView, UserView),
    SendValues(TargetsView, UserView),
    AddServiceTags(Tagging),
    AddChannelTags(Tagging),
    RemoveServiceTags(Tagging),
    RemoveChannelTags(Tagging),
}

impl View for Call {
    type V = CallView;

    open spec fn view(&self) -> CallView {
        match *self {
            Call::GetServices(selection) => CallView::GetServices(selection),
            Call::GetChannels(selection) => CallView::GetChannels(selection),
            Call::FetchValues(source, user) => CallView::FetchValues(source@, user@),
            Call::SendValues(targets, user) => CallView::SendValues(targets@, user@),
            Call::AddServiceTags(tagging) => CallView::AddServiceTags(tagging),
            Call::AddChannelTags(tagging) => CallView::AddChannelTags(tagging),
            Call::RemoveServiceTags(tagging) => CallView::RemoveServiceTags(tagging),
            Call::RemoveChannelTags(tagging) => CallView::RemoveChannelTags(tagging),
        }
    }
}

/// What is due after a request was looked at.
#[derive(Debug)]
pub enum Step {
    /// The reply is known: send it.
    Respond(Response),
    /// Make this call on the taxonomy, then let `respond` build the reply.
    Invoke(Call),
}

/// What a `Step` holds.
pub enum StepView {
    Respond(ResponseView),
    Invoke(CallView),
}

impl View for Step {
    type V = StepView;

    open spec fn view(&self) -> StepView {
        match *self {
            Step::Respond(response) => StepView::Respond(response@),
            Step::Invoke(call) => StepView::Invoke(call@),
        }
    }
}

/// What came back from the taxonomy.
#[derive(Debug)]
pub enum Reply {
    /// The arguments did not have the shape that the operation expects; no
    /// call was made.
    Rejected(ParseError),
    /// A payload could not be converted for the taxonomy; no call was made.
    Failed,
    /// The result of the call, rendered as JSON.
    Done(serde_json::Value),
    /// The result of a fetch, with its rendering as JSON.
    Fetched(GetterResultMap, serde_json::Value),
}

/// What a `Reply` holds.
pub enum ReplyView {
    Rejected(ParseErrorView),
    Failed,
    Done(serde_json::Value),
    Fetched(Entries, serde_json::Value),
}

impl View for Reply {
    type V = ReplyView;

    open spec fn view(&self) -> ReplyView {
        match *self {
            Reply::Rejected(error) => ReplyView::Rejected(error@),
            Reply::Failed => ReplyView::Failed,
            Reply::Done(rendered) => ReplyView::Done(rendered),
            Reply::Fetched(map, rendered) => ReplyView::Fetched(map@, rendered),
        }
    }
}

/// The name of the field that holds the tags.
pub open spec fn tags_field() -> Seq<char> {
    "tags"@
}

/// The name of the field that holds the selectors of services.
pub open spec fn services_field() -> Seq<char> {
    "services"@
}

/// The name of the field that holds the selectors of channels.
pub open spec fn channels_field() -> Seq<char> {
    "channels"@
}

/// The error for a field that a body lacks. The place is the field's name
/// below the body.
pub open spec fn missing_field(name: Seq<char>) -> ParseErrorView {
    ParseErrorView::MissingField { name, at: "body."@ + name }
}

/// The tagging that two members of a body make up. The selectors are
/// looked at first.
pub open spec fn tagging_from(
    selectors: Option<serde_json::Value>,
    tags: Option<serde_json::Value>,
    field: Seq<char>,
) -> Result<Tagging, ParseErrorView> {
    match selectors {
        None => Err(missing_field(field)),
        Some(selectors) => match tags {
            None => Err(missing_field(tags_field())),
            Some(tags) => Ok(Tagging { selectors, tags }),
        },
    }
}

/// The tagging that a body asks for, with the selectors under `field`.
pub open spec fn tagging_of(body: Seq<u8>, field: Seq<char>) -> Result<Tagging, ParseErrorView> {
    match structured_body(body) {
        Err(error) => Err(error),
        Ok(json) => tagging_from(
            json_member(json, field),
            json_member(json, tags_field()),
            field,
        ),
    }
}

/// The call that an operation takes from a request that is routed to it,
/// or the reason why the body does not provide the arguments.
pub open spec fn planned(operation: Operation, request: RequestView, user: UserView) -> Result<
    CallView,
    ParseErrorView,
> {
    match operation {
        Operation::FetchChannel => Ok(
            CallView::FetchValues(SourceView::Channel(request.path[1]), user),
        ),
        Operation::SendChannel => match decoded(request.body, request.content_type) {
            Ok(payload) => Ok(
                CallView::SendValues(TargetsView::Channel(request.path[1], payload), user),
            ),
            Err(error) => Err(error),
        },
        Operation::ListServices => Ok(CallView::GetServices(Selection::All)),
        Operation::ListChannels => Ok(CallView::GetChannels(Selection::All)),
        Operation::SelectServices => match structured_body(request.body) {
            Ok(json) => Ok(CallView::GetServices(Selection::Matching(json))),
            Err(error) => Err(error),
        },
        Operation::SelectChannels => match structured_body(request.body) {
            Ok(json) => Ok(CallView::GetChannels(Selection::Matching(json))),
            Err(error) => Err(error),
        },
        Operation::FetchValues => match structured_body(request.body) {
            Ok(json) => Ok(CallView::FetchValues(SourceView::Matching(json), user)),
            Err(error) => Err(error),
        },
        Operation::SendValues => match structured_body(request.body) {
            Ok(json) => Ok(CallView::SendValues(TargetsView::Pairs(json), user)),
            Err(error) => Err(error),
        },
        Operation::AddServiceTags => match tagging_of(request.body, services_field()) {
            Ok(tagging) => Ok(CallView::AddServiceTags(tagging)),
            Err(error) => Err(error),
        },
        Operation::AddChannelTags => match tagging_of(request.body, channels_field()) {
            Ok(tagging) => Ok(CallView::AddChannelTags(tagging)),
            Err(error) => Err(error),
        },
        Operation::RemoveServiceTags => match tagging_of(request.body, services_field()) {
            Ok(tagging) => Ok(CallView::RemoveServiceTags(tagging)),
            Err(error) => Err(error),
        },
        Operation::RemoveChannelTags => match tagging_of(request.body, channels_field()) {
            Ok(tagging) => Ok(CallView::RemoveChannelTags(tagging)),
            Err(error) => Err(error),
        },
    }
}

/// What is due for a request: a caller whose token is not valid is turned
/// away before anything else is looked at; a request that no rule matches
/// is told so; a body that does not decode is reported to the caller as a
/// bad request and no call is made; every other request leads to the call
/// of its route.
pub open spec fn handled(request: RequestView) -> StepView {
    match identified(request.credentials) {
        None => StepView::Respond(unauthorized_reply()),
        Some(user) => match route_of(request.method, request.path) {
            None => StepView::Respond(not_found_reply(request.url)),
            Some(operation) => match planned(operation, request, user) {
                Ok(call) => StepView::Invoke(call),
                Err(error) => StepView::Respond(parse_error_reply(error)),
            },
        },
    }
}

/// A request that no rule matches, from a caller that is not turned
/// away, is answered with status 404 and a body that names the URL it asked
/// for.
pub proof fn lemma_unrouted_is_not_found(request: RequestView)
    requires
        identified(request.credentials) is Some,
        route_of(request.method, request.path) is None,
    ensures
        handled(request) == StepView::Respond(not_found_reply(request.url)),
        not_found_reply(request.url).status.code_of() == 404,
        not_found_reply(request.url).body == vstd::utf8::encode_utf8(
            "Unknown url: "@ + request.url,
        ),
{
}

/// A caller whose token is not valid is turned away with status 401,
/// whatever it asked for.
pub proof fn lemma_invalid_token_is_unauthorized(request: RequestView)
    requires
        request.credentials is Invalid,
    ensures
        handled(request) == StepView::Respond(unauthorized_reply()),
        unauthorized_reply().status.code_of() == 401,
{
}

/// A body that does not decode, on a route that takes one, is answered
/// with status 400 and the line that describes the error, as plain text.
pub proof fn lemma_undecodable_body_is_bad_request(
    request: RequestView,
    user: UserView,
    operation: Operation,
    error: ParseErrorView,
)
    requires
        identified(request.credentials) == Some(user),
        route_of(request.method, request.path) == Some(operation),
        planned(operation, request, user) == Err::<CallView, ParseErrorView>(error),
    ensures
        handled(request) == StepView::Respond(parse_error_reply(error)),
        parse_error_reply(error).status.code_of() == 400,
        parse_error_reply(error).content_type == Some(plain_type()),
        parse_error_reply(error).body == vstd::utf8::encode_utf8(error.describe()),
{
}

/// A structured body that is not UTF-8 text does not decode.
pub proof fn lemma_body_that_is_not_text(body: Seq<u8>)
    requires
        !vstd::utf8::valid_utf8(body),
    ensures
        structured_body(body) is Err,
{
}

/// Whether the body of a request is looked at: the caller is not turned
/// away, and the request is routed to an operation that takes arguments
/// from the body.
pub open spec fn body_wanted(request: RequestView) -> bool {
    &&& identified(request.credentials) is Some
    &&& route_of(request.method, request.path) matches Some(operation)
    &&& operation.takes_body()
}

/// Where the body of a request is not looked at, what is due is the same
/// whatever the body holds.
pub proof fn lemma_unwanted_body_is_ignored(request: RequestView, body: Seq<u8>)
    requires
        !body_wanted(request),
    ensures
        handled(request) == handled(RequestView { body, ..request }),
{
}

/// Whether what came back from the taxonomy can be made into a reply: the
/// binary value that a fetch stands for, if any, is labelled with a media
/// type.
pub open spec fn sendable(reply: ReplyView) -> bool {
    match reply {
        ReplyView::Fetched(entries, _) => answerable(entries),
        _ => true,
    }
}

/// The reply that is made of what came back from the taxonomy.
pub open spec fn answered(reply: ReplyView) -> ResponseView {
    match reply {
        ReplyView::Rejected(error) => parse_error_reply(error),
        ReplyView::Failed => failure_reply(),
        ReplyView::Done(rendered) => json_reply(crate::json::json_text(rendered)),
        ReplyView::Fetched(entries, rendered) => fetch_reply(entries, rendered),
    }
}

/// The views of a tagging, or of the reason why there is none.
pub open spec fn tagging_result_view(r: Result<Tagging, ParseError>) -> Result<
    Tagging,
    ParseErrorView,
> {
    match r {
        Ok(tagging) => Ok(tagging),
        Err(error) => Err(error@),
    }
}

/// The views of a call, or of the reason why there is none.
pub open spec fn call_result_view(r: Result<Call, ParseError>) -> Result<
    CallView,
    ParseErrorView,
> {
    match r {
        Ok(call) => Ok(call@),
        Err(error) => Err(error@),
    }
}

/// Builds the error for a field that a body lacks.
pub fn missing(name: &str) -> (r: ParseError)
    ensures
        r@ == missing_field(name@),
{
    ParseError::MissingField {
        name: String::from_str(name),
        at: String::from_str("body.").concat(name),
    }
}

/// Makes a tagging of the two members that were found in a body, or
/// reports the first that is missing: the selectors under `field`, then the
/// tags.
pub fn tagging(
    selectors: Option<serde_json::Value>,
    tags: Option<serde_json::Value>,
    field: &str,
) -> (r: Result<Tagging, ParseError>)
    ensures
        tagging_result_view(r) == tagging_from(selectors, tags, field@),
{
    match selectors {
        None => Err(missing(field)),
        Some(selectors) => match tags {
            None => Err(missing("tags")),
            Some(tags) => Ok(Tagging { selectors, tags }),
        },
    }
}

/// Decodes the body of a request that changes tags: one JSON value with
/// the selectors under `field` and the tags under `tags`.
pub fn read_tagging(body: &Vec<u8>, field: &str) -> (r: Result<Tagging, ParseError>)
    ensures
        tagging_result_view(r) == tagging_of(body@, field@),
{
    match parse_body(body) {
        Err(error) => Err(error),
        Ok(json) => tagging(
            crate::json::member(&json, field),
            crate::json::member(&json, "tags"),
            field,
        ),
    }
}

/// Obtains the arguments of an operation from a request that is routed to
/// it.
fn plan(operation: Operation, request: &Request, user: User) -> (r: Result<Call, ParseError>)
    requires
        route_of(request@.method, request@.path) == Some(operation),
    ensures
        call_result_view(r) == planned(operation, request@, user@),
{
    match operation {
        Operation::FetchChannel => Ok(
            Call::FetchValues(Source::Channel(request.path[1].clone()), user),
        ),
        Operation::SendChannel => match decode(&request.body, &request.content_type) {
            Ok(payload) => Ok(
                Call::SendValues(Targets::Channel(request.path[1].clone(), payload), user),
            ),
            Err(error) => Err(error),
        },
        Operation::ListServices => Ok(Call::GetServices(Selection::All)),
        Operation::ListChannels => Ok(Call::GetChannels(Selection::All)),
        Operation::SelectServices => match parse_body(&request.body) {
            Ok(json) => Ok(Call::GetServices(Selection::Matching(json))),
            Err(error) => Err(error),
        },
        Operation::SelectChannels => match parse_body(&request.body) {
            Ok(json) => Ok(Call::GetChannels(Selection::Matching(json))),
            Err(error) => Err(error),
        },
        Operation::FetchValues => match parse_body(&request.body) {
            Ok(json) => Ok(Call::FetchValues(Source::Matching(json), user)),
            Err(error) => Err(error),
        },
        Operation::SendValues => match parse_body(&request.body) {
            Ok(json) => Ok(Call::SendValues(Targets::Pairs(json), user)),
            Err(error) => Err(error),
        },
        Operation::AddServiceTags => match read_tagging(&request.body, "services") {
            Ok(tagging) => Ok(Call::AddServiceTags(tagging)),
            Err(error) => Err(error),
        },
        Operation::AddChannelTags => match read_tagging(&request.body, "channels") {
            Ok(tagging) => Ok(Call::AddChannelTags(tagging)),
            Err(error) => Err(error),
        },
        Operation::RemoveServiceTags => match read_tagging(&request.body, "services") {
            Ok(tagging) => Ok(Call::RemoveServiceTags(tagging)),
            Err(error) => Err(error),
        },
        Operation::RemoveChannelTags => match read_tagging(&request.body, "channels") {
            Ok(tagging) => Ok(Call::RemoveChannelTags(tagging)),
            Err(error) => Err(error),
        },
    }
}

/// This is a specialized router for the taxonomy API. It holds the route
/// table, which never changes.
#[derive(Debug)]
pub struct TaxonomyRouter {
    rules: Vec<Rule>,
}

impl TaxonomyRouter {
    #[verifier::type_invariant]
    spec fn holds_standard_rules(self) -> bool {
        rules_view(self.rules) == standard_rules()
    }

    /// The route table that the router holds.
    pub closed spec fn table(&self) -> Seq<RuleView> {
        rules_view(self.rules)
    }

    /// A router with the rules of the gateway.
    pub fn new() -> (r: Self)
        ensures
            r.table() == standard_rules(),
    {
        TaxonomyRouter { rules: standard() }
    }

    /// Looks at a request and says what is due: a reply, or a call on the
    /// taxonomy.
    pub fn handle(&self, request: &Request) -> (r: Step)
        ensures
            r@ == handled(request@),
    {
        let user = match extract(&request.credentials) {
            Ok(user) => user,
            Err(_) => {
                return Step::Respond(unauthorized());
            },
        };
        proof {
            use_type_invariant(self);
        }
        let found = find(&self.rules, request.method, &request.path);
        proof {
            lemma_table_routes(request@.method, request@.path, place_view(found));
        }
        match found {
            None => Step::Respond(not_found(request.url.as_str())),
            Some(i) => {
                match plan(self.rules[i].operation, request, user) {
                    Ok(call) => Step::Invoke(call),
                    Err(error) => Step::Respond(build_parse_error(&error)),
                }
            },
        }
    }

    /// Tells whether the body of a request will be looked at. The body
    /// that the request holds is not.
    pub fn wants_body(&self, request: &Request) -> (r: bool)
        ensures
            r == body_wanted(request@),
    {
        match extract(&request.credentials) {
            Err(_) => false,
            Ok(_) => {
                proof {
                    use_type_invariant(self);
                }
                let found = find(&self.rules, request.method, &request.path);
                proof {
                    lemma_table_routes(request@.method, request@.path, place_view(found));
                }
                match found {
                    None => false,
                    Some(i) => {
                        assert(rules_view(self.rules)[i as int] == self.rules[i as int]@);
                        self.rules[i].operation.reads_body()
                    },
                }
            },
        }
    }

    /// Builds the reply from what came back from the taxonomy. A fetch is
    /// answered with the raw binary value where its result stands for one;
    /// failures of single entities are part of the rendering and do not
    /// change the status of the reply.
    pub fn respond(&self, reply: &Reply) -> (r: Response)
        requires
            sendable(reply@),
        ensures
            r@ == answered(reply@),
    {
        match reply {
            Reply::Rejected(error) => build_parse_error(error),
            Reply::Failed => failure(),
            Reply::Done(rendered) => build_response(rendered),
            Reply::Fetched(map, rendered) => encode_result(map, rendered),
        }
    }

    /// Builds the reply from what came back from the taxonomy, where there
    /// is one: a fetch that stands for a binary value whose label is no
    /// media type has none.
    pub fn try_respond(&self, reply: &Reply) -> (r: Option<Response>)
        ensures
            match r {
                Some(response) => sendable(reply@) && response@ == answered(reply@),
                None => !sendable(reply@),
            },
    {
        let sendable = match reply {
            Reply::Fetched(map, _) => match get_binary(map) {
                Some(binary) => is_media_type(binary.mimetype.as_str()),
                None => true,
            },
            _ => true,
        };
        if sendable {
            Some(self.respond(reply))
        } else {
            None
        }
    }
}

/// An entry of the list of what the router serves: a path pattern, written
/// with `/` between its segments and `:id` for an identifier, and the
/// methods it is served under.
#[derive(Debug)]
pub struct Endpoint {
    pub methods: Vec<Method>,
    pub path: String,
}

/// What an `Endpoint` holds.
pub struct EndpointView {
    pub methods: Seq<Method>,
    pub path: Seq<char>,
}

impl View for Endpoint {
    type V = EndpointView;

    open spec fn view(&self) -> EndpointView {
        EndpointView { methods: self.methods@, path: self.path@ }
    }
}

/// The view of a list of endpoints.
pub open spec fn endpoints_view(endpoints: Vec<Endpoint>) -> Seq<EndpointView> {
    endpoints@.map_values(|endpoint: Endpoint| endpoint@)
}

/// The endpoints of the gateway.
pub open spec fn standard_endpoints() -> Seq<EndpointView> {
    seq![
        EndpointView { methods: seq![Method::Get, Method::Post], path: "services"@ },
        EndpointView { methods: seq![Method::Post, Method::Delete], path: "services/tags"@ },
        EndpointView { methods: seq![Method::Get, Method::Post], path: "channels"@ },
        EndpointView { methods: seq![Method::Put], path: "channels/get"@ },
        EndpointView { methods: seq![Method::Put], path: "channels/set"@ },
        EndpointView { methods: seq![Method::Post, Method::Delete], path: "channels/tags"@ },
        EndpointView { methods: seq![Method::Get, Method::Put], path: "channel/:id"@ },
    ]
}

/// The endpoints that ask for an authenticated caller: all of them where
/// authentication is switched on, none where it is not.
pub open spec fn protected_endpoints(authentication: bool) -> Seq<EndpointView> {
    if authentication {
        standard_endpoints()
    } else {
        Seq::empty()
    }
}

/// How a segment of a pattern is written in an endpoint.
pub open spec fn segment_text(segment: SegmentView) -> Seq<char> {
    match segment {
        SegmentView::Literal(text) => text,
        SegmentView::Id => ":id"@,
    }
}

/// How a pattern is written in an endpoint: its segments with `/` between
/// them.
pub open spec fn pattern_text(pattern: Seq<SegmentView>) -> Seq<char>
    decreases pattern.len(),
{
    if pattern.len() == 0 {
        Seq::empty()
    } else if pattern.len() == 1 {
        segment_text(pattern[0])
    } else {
        pattern_text(pattern.drop_last()) + "/"@ + segment_text(pattern.last())
    }
}

/// Whether an endpoint announces a rule: the rule's pattern under the
/// rule's method.
pub open spec fn announces(endpoint: EndpointView, rule: RuleView) -> bool {
    endpoint.path == pattern_text(rule.pattern) && endpoint.methods.contains(rule.method)
}

impl Endpoint {
    /// An endpoint that is served under one method.
    fn single(method: Method, path: &str) -> (r: Endpoint)
        ensures
            r@ == (EndpointView { methods: seq![method], path: path@ }),
    {
        let r = Endpoint { methods: vec![method], path: String::from_str(path) };
        assert(r@.methods =~= seq![method]);
        r
    }

    /// An endpoint that is served under two methods.
    fn pair(first: Method, second: Method, path: &str) -> (r: Endpoint)
        ensures
            r@ == (EndpointView { methods: seq![first, second], path: path@ }),
    {
        let r = Endpoint { methods: vec![first, second], path: String::from_str(path) };
        r
    }
}

/// The list of endpoints supported by the router.
pub fn endpoints() -> (r: Vec<Endpoint>)
    ensures
        endpoints_view(r) == standard_endpoints(),
{
    let mut list: Vec<Endpoint> = Vec::new();
    list.push(Endpoint::pair(Method::Get, Method::Post, "services"));
    list.push(Endpoint::pair(Method::Post, Method::Delete, "services/tags"));
    list.push(Endpoint::pair(Method::Get, Method::Post, "channels"));
    list.push(Endpoint::single(Method::Put, "channels/get"));
    list.push(Endpoint::single(Method::Put, "channels/set"));
    list.push(Endpoint::pair(Method::Post, Method::Delete, "channels/tags"));
    list.push(Endpoint::pair(Method::Get, Method::Put, "channel/:id"));
    list
}

/// Sets the gateway up: the router, the endpoints it serves, and those of
/// them that ask for an authenticated caller.
pub fn create(authentication: bool) -> (r: (TaxonomyRouter, Vec<Endpoint>, Vec<Endpoint>))
    ensures
        r.0.table() == standard_rules(),
        endpoints_view(r.1) == standard_endpoints(),
        endpoints_view(r.2) == protected_endpoints(authentication),
{
    let router = TaxonomyRouter::new();
    let auth_endpoints = if authentication {
        endpoints()
    } else {
        let none: Vec<Endpoint> = Vec::new();
        none
    };
    (router, endpoints(), auth_endpoints)
}

/// The place in the list of the endpoint that announces a rule.
pub open spec fn endpoint_of(rule: int) -> int {
    if rule == 0 || rule == 1 {
        6
    } else if rule == 2 || rule == 3 {
        0
    } else if rule == 4 || rule == 5 {
        2
    } else if rule == 6 {
        3
    } else if rule == 7 {
        4
    } else if rule == 8 || rule == 10 {
        1
    } else {
        5
    }
}

/// How the patterns of the rules are written.
proof fn lemma_pattern_texts()
    ensures
        pattern_text(with_id("channel"@)) == "channel/:id"@,
        pattern_text(one("services"@)) == "services"@,
        pattern_text(one("channels"@)) == "channels"@,
        pattern_text(two("channels"@, "get"@)) == "channels/get"@,
        pattern_text(two("channels"@, "set"@)) == "channels/set"@,
        pattern_text(two("services"@, "tags"@)) == "services/tags"@,
        pattern_text(two("channels"@, "tags"@)) == "channels/tags"@,
{
    reveal_with_fuel(pattern_text, 3);
    reveal_strlit("/");
    reveal_strlit(":id");
    reveal_strlit("channel");
    reveal_strlit("channels");
    reveal_strlit("services");
    reveal_strlit("get");
    reveal_strlit("set");
    reveal_strlit("tags");
    reveal_strlit("channel/:id");
    reveal_strlit("channels/get");
    reveal_strlit("channels/set");
    reveal_strlit("services/tags");
    reveal_strlit("channels/tags");
}

/// Every rule of the route table is announced by an endpoint.
pub proof fn lemma_rules_are_announced(rule: int)
    requires
        0 <= rule < standard_rules().len(),
    ensures
        0 <= endpoint_of(rule) < standard_endpoints().len(),
        announces(standard_endpoints()[endpoint_of(rule)], standard_rules()[rule]),
{
    lemma_pattern_texts();
    let endpoint = standard_endpoints()[endpoint_of(rule)];
    let method = standard_rules()[rule].method;
    assert(endpoint.methods[0] == method || endpoint.methods[1] == method);
}

/// The place in the table of the rule that an endpoint announces under
/// the method at a place in its list of methods.
pub open spec fn rule_under(endpoint: int, method: int) -> int {
    if endpoint == 0 {
        if method == 0 {
            2
        } else {
            3
        }
    } else if endpoint == 1 {
        if method == 0 {
            8
        } else {
            10
        }
    } else if endpoint == 2 {
        if method == 0 {
            4
        } else {
            5
        }
    } else if endpoint == 3 {
        6
    } else if endpoint == 4 {
        7
    } else if endpoint == 5 {
        if method == 0 {
            9
        } else {
            11
        }
    } else {
        if method == 0 {
            0
        } else {
            1
        }
    }
}

/// Every endpoint announces, under each of its methods, a rule of the
/// route table.
pub proof fn lemma_endpoints_are_served(endpoint: int, method: int)
    requires
        0 <= endpoint < standard_endpoints().len(),
        0 <= method < standard_endpoints()[endpoint].methods.len(),
    ensures
        0 <= rule_under(endpoint, method) < standard_rules().len(),
        endpoint_of(rule_under(endpoint, method)) == endpoint,
        standard_rules()[rule_under(endpoint, method)].method
            == standard_endpoints()[endpoint].methods[method],
        pattern_text(standard_rules()[rule_under(endpoint, method)].pattern)
            == standard_endpoints()[endpoint].path,
{
    lemma_pattern_texts();
}

} // verus!
