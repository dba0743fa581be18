//! Replies of the gateway: status, content type and body, and the rule that
//! decides between a raw binary body and a JSON one.

use vstd::prelude::*;
use vstd::utf8::encode_utf8;
use crate::json::json_text;
use crate::media::{is_media_type, media_type};
use crate::payload::{
    decoded, is_structured, Binary, BinaryView, ParseError, ParseErrorView, Payload, PayloadView,
};

verus! {

/// The status of a reply.
#[derive(Clone, Copy, Debug, PartialEq, Eq, Structural)]
pub enum Status {
    Success,
    BadRequest,
    Unauthorized,
    NotFound,
    InternalServerError,
}

impl Status {
    /// The HTTP status code.
    pub open spec fn code_of(self) -> u16 {
        match self {
            Status::Success => 200,
            Status::BadRequest => 400,
            Status::Unauthorized => 401,
            Status::NotFound => 404,
            Status::InternalServerError => 500,
        }
    }

    /// The HTTP status code.
    pub fn code(self) -> (c: u16)
        ensures
            c == self.code_of(),
    {
        match self {
            Status::Success => 200,
            Status::BadRequest => 400,
            Status::Unauthorized => 401,
            Status::NotFound => 404,
            Status::InternalServerError => 500,
        }
    }
}

/// A reply, ready to be written to the transport.
#[derive(Debug)]
pub struct Response {
    pub status: Status,
    pub content_type: Option<String>,
    pub body: Vec<u8>,
}

/// What a `Response` holds.
pub struct ResponseView {
    pub status: Status,
    pub content_type: Option<Seq<char>>,
    pub body: Seq<u8>,
}

impl View for Response {
    type V = ResponseView;

    open spec fn view(&self) -> ResponseView {
        ResponseView {
            status: self.status,
            content_type: crate::text::opt_view(self.content_type),
            body: self.body@,
        }
    }
}

/// The content type of a JSON reply.
pub open spec fn json_type() -> Seq<char> {
    "application/json"@
}

/// The content type of a plain text reply.
pub open spec fn plain_type() -> Seq<char> {
    "text/plain; charset=utf-8"@
}

/// The words that open the body of a reply to an unknown URL.
pub open spec fn unknown_url_prefix() -> Seq<char> {
    "Unknown url: "@
}

/// The reply that carries a binary value: its bytes, under its own media
/// type.
pub open spec fn binary_reply(payload: BinaryView) -> ResponseView {
    ResponseView {
        status: Status::Success,
        content_type: Some(payload.mimetype),
        body: payload.data,
    }
}

/// The reply to a failure that is the gateway's own.
pub open spec fn failure_reply() -> ResponseView {
    ResponseView { status: Status::InternalServerError, content_type: None, body: Seq::empty() }
}

/// The reply that carries a JSON text.
pub open spec fn json_reply(text: Seq<char>) -> ResponseView {
    ResponseView {
        status: Status::Success,
        content_type: Some(json_type()),
        body: encode_utf8(text),
    }
}

/// The reply that is made of what the serializer gave: the JSON text, or
/// the report of a failure where it gave none.
pub open spec fn serialized_reply(text: Result<Seq<char>, serde_json::Error>) -> ResponseView {
    match text {
        Ok(t) => json_reply(t),
        Err(_) => failure_reply(),
    }
}

/// The reply to a body that does not decode.
pub open spec fn parse_error_reply(error: ParseErrorView) -> ResponseView {
    ResponseView {
        status: Status::BadRequest,
        content_type: Some(plain_type()),
        body: encode_utf8(error.describe()),
    }
}

/// The reply to a request that no route matches.
pub open spec fn not_found_reply(url: Seq<char>) -> ResponseView {
    ResponseView {
        status: Status::NotFound,
        content_type: None,
        body: encode_utf8(unknown_url_prefix() + url),
    }
}

/// The reply to a caller whose session token is not valid.
pub open spec fn unauthorized_reply() -> ResponseView {
    ResponseView { status: Status::Unauthorized, content_type: None, body: Seq::empty() }
}

/// The view of a serialized text, or of the failure to write one.
pub open spec fn text_result_view(text: Result<String, serde_json::Error>) -> Result<
    Seq<char>,
    serde_json::Error,
> {
    match text {
        Ok(t) => Ok(t@),
        Err(e) => Err(e),
    }
}

/// Builds the reply that carries a binary value. The value's media type
/// becomes the content type of the reply, so it has to be one.
pub fn build_binary_response(payload: &Binary) -> (r: Response)
    requires
        media_type(payload@.mimetype),
    ensures
        r@ == binary_reply(payload@),
{
    Response {
        status: Status::Success,
        content_type: Some(payload.mimetype.clone()),
        body: payload.data.clone(),
    }
}

/// Builds the reply that carries a binary value, where its media type is
/// one; a value labelled with anything else has no reply.
pub fn try_binary_response(payload: &Binary) -> (r: Option<Response>)
    ensures
        match r {
            Some(response) => media_type(payload@.mimetype) && response@ == binary_reply(payload@),
            None => !media_type(payload@.mimetype),
        },
{
    if is_media_type(payload.mimetype.as_str()) {
        Some(build_binary_response(payload))
    } else {
        None
    }
}

/// Builds the reply to a failure that is the gateway's own.
pub fn failure() -> (r: Response)
    ensures
        r@ == failure_reply(),
{
    Response { status: Status::InternalServerError, content_type: None, body: Vec::new() }
}

/// Builds the reply from what the serializer made of a JSON value.
pub fn from_serialized(text: Result<String, serde_json::Error>) -> (r: Response)
    ensures
        r@ == serialized_reply(text_result_view(text)),
{
    match text {
        Ok(t) => Response {
            status: Status::Success,
            content_type: Some(String::from_str("application/json")),
            body: t.as_str().as_bytes_vec(),
        },
        Err(_) => failure(),
    }
}

/// Builds the reply that carries a JSON value as text.
pub fn build_response(json: &serde_json::Value) -> (r: Response)
    ensures
        r@ == json_reply(json_text(*json)),
{
    from_serialized(crate::json::to_text(json))
}

/// Builds the reply to a body that does not decode.
pub fn build_parse_error(error: &ParseError) -> (r: Response)
    ensures
        r@ == parse_error_reply(error@),
{
    Response {
        status: Status::BadRequest,
        content_type: Some(String::from_str("text/plain; charset=utf-8")),
        body: error.describe().as_str().as_bytes_vec(),
    }
}

/// Builds the reply to a request that no route matches. The body names the
/// URL that was asked for.
pub fn not_found(url: &str) -> (r: Response)
    ensures
        r@ == not_found_reply(url@),
{
    Response {
        status: Status::NotFound,
        content_type: None,
        body: String::from_str("Unknown url: ").concat(url).as_str().as_bytes_vec(),
    }
}

/// Builds the reply to a caller whose session token is not valid.
pub fn unauthorized() -> (r: Response)
    ensures
        r@ == unauthorized_reply(),
{
    Response { status: Status::Unauthorized, content_type: None, body: Vec::new() }
}

/// What fetching one entity gave.
#[derive(Debug)]
pub enum Fetched {
    /// A value.
    Value(Payload),
    /// Nothing to report.
    Empty,
    /// A failure, with what the taxonomy said of it.
    Error(String),
}

/// What a `Fetched` holds.
pub enum FetchedView {
    Value(PayloadView),
    Empty,
    Error(Seq<char>),
}

impl View for Fetched {
    type V = FetchedView;

    open spec fn view(&self) -> FetchedView {
        match *self {
            Fetched::Value(payload) => FetchedView::Value(payload@),
            Fetched::Empty => FetchedView::Empty,
            Fetched::Error(message) => FetchedView::Error(message@),
        }
    }
}

/// The entries of a result map, as pairs of identifier and outcome.
pub type Entries = Seq<(Seq<char>, FetchedView)>;

/// No identifier occurs twice.
pub open spec fn distinct_ids(entries: Entries) -> bool {
    forall|i: int, j: int|
        0 <= i < j < entries.len() ==> (#[trigger] entries[i]).0 != (#[trigger] entries[j]).0
}

/// Whether an identifier has an entry.
pub open spec fn has_id(entries: Entries, id: Seq<char>) -> bool {
    exists|i: int| 0 <= i < entries.len() && (#[trigger] entries[i]).0 == id
}

/// The place of an identifier that has an entry.
pub open spec fn place_of(entries: Entries, id: Seq<char>) -> int {
    choose|i: int| 0 <= i < entries.len() && (#[trigger] entries[i]).0 == id
}

/// The entries after an outcome was recorded for an identifier: it takes
/// the place of an earlier outcome for the same identifier, and else comes
/// last.
pub open spec fn recorded(entries: Entries, id: Seq<char>, outcome: FetchedView) -> Entries {
    if has_id(entries, id) {
        entries.update(place_of(entries, id), (id, outcome))
    } else {
        entries.push((id, outcome))
    }
}

/// The binary value that a result map stands for as a whole: the value of
/// its only entry, where there is exactly one entry and it holds a binary
/// value.
pub open spec fn sole_binary(entries: Entries) -> Option<BinaryView> {
    if entries.len() == 1 {
        match entries[0].1 {
            FetchedView::Value(PayloadView::Binary(binary)) => Some(binary),
            _ => None,
        }
    } else {
        None
    }
}

/// Whether a result map can be answered: the binary value that it stands
/// for, if any, is labelled with a media type.
pub open spec fn answerable(entries: Entries) -> bool {
    match sole_binary(entries) {
        Some(binary) => media_type(binary.mimetype),
        None => true,
    }
}

/// The reply to a fetch: the raw binary value where the result map stands
/// for one, and else the JSON rendering of the whole map.
pub open spec fn fetch_reply(entries: Entries, rendered: serde_json::Value) -> ResponseView {
    match sole_binary(entries) {
        Some(binary) => binary_reply(binary),
        None => json_reply(json_text(rendered)),
    }
}

/// The outcome of fetching, for each entity that was asked for. Each
/// identifier has one entry at most.
#[derive(Debug)]
pub struct GetterResultMap {
    entries: Vec<(String, Fetched)>,
}

impl View for GetterResultMap {
    type V = Entries;

    closed spec fn view(&self) -> Entries {
        self.entries@.map_values(|e: (String, Fetched)| (e.0@, e.1@))
    }
}

impl GetterResultMap {
    /// No identifier occurs twice.
    pub open spec fn well_formed(&self) -> bool {
        distinct_ids(self@)
    }

    /// A result map without entries.
    pub fn new() -> (r: Self)
        ensures
            r@ == Entries::empty(),
            r.well_formed(),
    {
        let r = GetterResultMap { entries: Vec::new() };
        r
    }

    /// The number of entries.
    pub fn len(&self) -> (n: usize)
        ensures
            n == self@.len(),
    {
        self.entries.len()
    }

    /// Records the outcome for an identifier, in place of an earlier one
    /// for the same identifier.
    pub fn insert(&mut self, id: String, outcome: Fetched)
        requires
            old(self).well_formed(),
        ensures
            final(self)@ == recorded(old(self)@, id@, outcome@),
            final(self).well_formed(),
    {
        let ghost before = self@;
        let mut i: usize = 0;
        while i < self.entries.len()
            invariant
                i <= self.entries.len(),
                self@ == before,
                before == old(self)@,
                distinct_ids(before),
                forall|j: int| 0 <= j < i ==> (#[trigger] before[j]).0 != id@,
            decreases self.entries.len() - i,
        {
            if self.entries[i].0 == id {
                assert(before[i as int].0 == id@);
                self.entries.set(i, (id, outcome));
                assert(self@ =~= before.update(i as int, (id@, outcome@)));
                return ;
            }
            i += 1;
        }
        self.entries.push((id, outcome));
    }
}

/// Tells whether a result map is a binary payload: a map with a single
/// entry that holds a binary value.
pub fn get_binary(map: &GetterResultMap) -> (r: Option<Binary>)
    ensures
        match r {
            Some(binary) => sole_binary(map@) == Some(binary@),
            None => sole_binary(map@) is None,
        },
{
    if map.len() != 1 {
        return None;
    }
    match &map.entries[0].1 {
        Fetched::Value(Payload::Binary(data)) => Some(
            Binary { mimetype: data.mimetype.clone(), data: data.data.clone() },
        ),
        _ => None,
    }
}

/// Builds the reply to a fetch from its result map and the JSON rendering
/// of that map: the raw binary value where the map has exactly one entry
/// and that entry holds a binary value, the rendering in every other case.
pub fn encode_result(map: &GetterResultMap, rendered: &serde_json::Value) -> (r: Response)
    requires
        answerable(map@),
    ensures
        r@ == fetch_reply(map@, *rendered),
{
    match get_binary(map) {
        Some(payload) => build_binary_response(&payload),
        None => build_response(rendered),
    }
}

/// A result map with exactly one entry, which holds a binary value, is
/// answered with the bytes of that value under its media type.
pub proof fn lemma_single_binary_is_raw(
    id: Seq<char>,
    binary: BinaryView,
    rendered: serde_json::Value,
)
    ensures
        fetch_reply(seq![(id, FetchedView::Value(PayloadView::Binary(binary)))], rendered)
            == (ResponseView {
            status: Status::Success,
            content_type: Some(binary.mimetype),
            body: binary.data,
        }),
{
}

/// A result map with no entry, or with more than one, is answered with its
/// JSON rendering, whatever the entries hold; so is a single entry that
/// holds no binary value.
pub proof fn lemma_other_results_are_json(entries: Entries, rendered: serde_json::Value)
    requires
        entries.len() != 1 || !(entries[0].1 matches FetchedView::Value(PayloadView::Binary(_))),
    ensures
        answerable(entries),
        fetch_reply(entries, rendered) == json_reply(json_text(rendered)),
        fetch_reply(entries, rendered).status == Status::Success,
        fetch_reply(entries, rendered).content_type == Some(json_type()),
{
}

/// A binary value that is sent as a reply and read back as a request body
/// under the same content type is the same value, provided that its media
/// type does not announce structured data.
pub proof fn lemma_binary_round_trip(binary: BinaryView)
    requires
        !is_structured(binary.mimetype),
    ensures
        decoded(binary_reply(binary).body, binary_reply(binary).content_type) == Ok::<
            PayloadView,
            crate::payload::ParseErrorView,
        >(PayloadView::Binary(binary)),
{
}

} // verus!
