//! The route table: an ordered list of rules, each a method and a path
//! pattern bound to an operation, and the search for the rule that a
//! request matches.

use vstd::prelude::*;

verus! {

/// The method of a request.
#[derive(Clone, Copy, Debug, PartialEq, Eq, Structural)]
pub enum Method {
    Get,
    Post,
    Put,
    Delete,
    /// Any method that no rule is bound to.
    Other,
}

/// What a rule is bound to: an operation of the taxonomy, together with
/// the way its arguments are obtained from the request.
#[derive(Clone, Copy, Debug, PartialEq, Eq, Structural)]
pub enum Operation {
    /// Fetch the value of the channel that the path names.
    FetchChannel,
    /// Send the body to the channel that the path names.
    SendChannel,
    /// List all services.
    ListServices,
    /// List the services that the selectors in the body match.
    SelectServices,
    /// List all channels.
    ListChannels,
    /// List the channels that the selectors in the body match.
    SelectChannels,
    /// Fetch values from the channels that the selectors in the body match.
    FetchValues,
    /// Send the values in the body to the channels it selects.
    SendValues,
    /// Add the tags in the body to the services it selects.
    AddServiceTags,
    /// Add the tags in the body to the channels it selects.
    AddChannelTags,
    /// Remove the tags in the body from the services it selects.
    RemoveServiceTags,
    /// Remove the tags in the body from the channels it selects.
    RemoveChannelTags,
}

impl Operation {
    /// Whether the operation takes arguments from the body of the request.
    pub open spec fn takes_body(self) -> bool {
        match self {
            Operation::FetchChannel => false,
            Operation::ListServices => false,
            Operation::ListChannels => false,
            _ => true,
        }
    }

    /// Tells whether the operation takes arguments from the body of the
    /// request.
    pub fn reads_body(self) -> (r: bool)
        ensures
            r == self.takes_body(),
    {
        match self {
            Operation::FetchChannel => false,
            Operation::ListServices => false,
            Operation::ListChannels => false,
            _ => true,
        }
    }
}

/// One segment of a path pattern.
#[derive(Debug)]
pub enum Segment {
    /// Matches this text and no other.
    Literal(String),
    /// Matches any identifier.
    Id,
}

/// What a `Segment` holds.
pub enum SegmentView {
    Literal(Seq<char>),
    Id,
}

impl View for Segment {
    type V = SegmentView;

    open spec fn view(&self) -> SegmentView {
        match *self {
            Segment::Literal(text) => SegmentView::Literal(text@),
            Segment::Id => SegmentView::Id,
        }
    }
}

/// A rule of the route table.
#[derive(Debug)]
pub struct Rule {
    pub method: Method,
    pub pattern: Vec<Segment>,
    pub operation: Operation,
}

/// What a `Rule` holds.
pub struct RuleView {
    pub method: Method,
    pub pattern: Seq<SegmentView>,
    pub operation: Operation,
}

impl View for Rule {
    type V = RuleView;

    open spec fn view(&self) -> RuleView {
        RuleView {
            method: self.method,
            pattern: pattern_view(self.pattern),
            operation: self.operation,
        }
    }
}

/// The view of a path: the text of each segment.
pub open spec fn path_view(path: Vec<String>) -> Seq<Seq<char>> {
    path@.map_values(|part: String| part@)
}

/// The view of a pattern.
pub open spec fn pattern_view(pattern: Vec<Segment>) -> Seq<SegmentView> {
    pattern@.map_values(|segment: Segment| segment@)
}

/// The view of a rule table.
pub open spec fn rules_view(rules: Vec<Rule>) -> Seq<RuleView> {
    rules@.map_values(|rule: Rule| rule@)
}

/// Whether a pattern segment accepts a path segment.
pub open spec fn segment_matches(segment: SegmentView, part: Seq<char>) -> bool {
    match segment {
        SegmentView::Literal(text) => text == part,
        SegmentView::Id => true,
    }
}

/// Whether a pattern accepts a path: segment by segment, over the same
/// length.
pub open spec fn pattern_matches(pattern: Seq<SegmentView>, path: Seq<Seq<char>>) -> bool {
    &&& pattern.len() == path.len()
    &&& forall|i: int| 0 <= i < pattern.len() ==> segment_matches(#[trigger] pattern[i], path[i])
}

/// Whether a rule applies to a request.
pub open spec fn rule_matches(rule: RuleView, method: Method, path: Seq<Seq<char>>) -> bool {
    rule.method == method && pattern_matches(rule.pattern, path)
}

/// Whether `found` is the outcome of searching `rules` in order for the
/// first rule that applies.
pub open spec fn is_first_match(
    rules: Seq<RuleView>,
    method: Method,
    path: Seq<Seq<char>>,
    found: Option<int>,
) -> bool {
    match found {
        Some(i) => {
            &&& 0 <= i < rules.len()
            &&& rule_matches(rules[i], method, path)
            &&& forall|j: int| 0 <= j < i ==> !rule_matches(#[trigger] rules[j], method, path)
        },
        None => forall|j: int|
            0 <= j < rules.len() ==> !rule_matches(#[trigger] rules[j], method, path),
    }
}

/// A pattern of one literal segment.
pub open spec fn one(first: Seq<char>) -> Seq<SegmentView> {
    seq![SegmentView::Literal(first)]
}

/// A pattern of two literal segments.
pub open spec fn two(first: Seq<char>, second: Seq<char>) -> Seq<SegmentView> {
    seq![SegmentView::Literal(first), SegmentView::Literal(second)]
}

/// A pattern of a literal segment followed by an identifier.
pub open spec fn with_id(first: Seq<char>) -> Seq<SegmentView> {
    seq![SegmentView::Literal(first), SegmentView::Id]
}

/// The rules of the gateway, in the order in which they are tried.
pub open spec fn standard_rules() -> Seq<RuleView> {
    seq![
        RuleView {
            method: Method::Get,
            pattern: with_id("channel"@),
            operation: Operation::FetchChannel,
        },
        RuleView {
            method: Method::Put,
            pattern: with_id("channel"@),
            operation: Operation::SendChannel,
        },
        RuleView {
            method: Method::Get,
            pattern: one("services"@),
            operation: Operation::ListServices,
        },
        RuleView {
            method: Method::Post,
            pattern: one("services"@),
            operation: Operation::SelectServices,
        },
        RuleView {
            method: Method::Get,
            pattern: one("channels"@),
            operation: Operation::ListChannels,
        },
        RuleView {
            method: Method::Post,
            pattern: one("channels"@),
            operation: Operation::SelectChannels,
        },
        RuleView {
            method: Method::Put,
            pattern: two("channels"@, "get"@),
            operation: Operation::FetchValues,
        },
        RuleView {
            method: Method::Put,
            pattern: two("channels"@, "set"@),
            operation: Operation::SendValues,
        },
        RuleView {
            method: Method::Post,
            pattern: two("services"@, "tags"@),
            operation: Operation::AddServiceTags,
        },
        RuleView {
            method: Method::Post,
            pattern: two("channels"@, "tags"@),
            operation: Operation::AddChannelTags,
        },
        RuleView {
            method: Method::Delete,
            pattern: two("services"@, "tags"@),
            operation: Operation::RemoveServiceTags,
        },
        RuleView {
            method: Method::Delete,
            pattern: two("channels"@, "tags"@),
            operation: Operation::RemoveChannelTags,
        },
    ]
}

/// Whether a path consists of exactly this one segment.
pub open spec fn is_one(path: Seq<Seq<char>>, first: Seq<char>) -> bool {
    path.len() == 1 && path[0] == first
}

/// Whether a path consists of exactly these two segments.
pub open spec fn is_two(path: Seq<Seq<char>>, first: Seq<char>, second: Seq<char>) -> bool {
    path.len() == 2 && path[0] == first && path[1] == second
}

/// The operation that a request is routed to, if any.
pub open spec fn route_of(method: Method, path: Seq<Seq<char>>) -> Option<Operation> {
    if path.len() == 2 && path[0] == "channel"@ {
        match method {
            Method::Get => Some(Operation::FetchChannel),
            Method::Put => Some(Operation::SendChannel),
            _ => None,
        }
    } else if is_one(path, "services"@) {
        match method {
            Method::Get => Some(Operation::ListServices),
            Method::Post => Some(Operation::SelectServices),
            _ => None,
        }
    } else if is_one(path, "channels"@) {
        match method {
            Method::Get => Some(Operation::ListChannels),
            Method::Post => Some(Operation::SelectChannels),
            _ => None,
        }
    } else if is_two(path, "channels"@, "get"@) {
        match method {
            Method::Put => Some(Operation::FetchValues),
            _ => None,
        }
    } else if is_two(path, "channels"@, "set"@) {
        match method {
            Method::Put => Some(Operation::SendValues),
            _ => None,
        }
    } else if is_two(path, "services"@, "tags"@) {
        match method {
            Method::Post => Some(Operation::AddServiceTags),
            Method::Delete => Some(Operation::RemoveServiceTags),
            _ => None,
        }
    } else if is_two(path, "channels"@, "tags"@) {
        match method {
            Method::Post => Some(Operation::AddChannelTags),
            Method::Delete => Some(Operation::RemoveChannelTags),
            _ => None,
        }
    } else {
        None
    }
}

/// The texts that occur in the rules differ from one another where the
/// rules rely on it.
proof fn lemma_literals()
    ensures
        "channel"@ != "channels"@,
        "channel"@ != "services"@,
        "channels"@ != "services"@,
        "get"@ != "set"@,
        "get"@ != "tags"@,
        "set"@ != "tags"@,
{
    reveal_strlit("channel");
    reveal_strlit("channels");
    reveal_strlit("services");
    reveal_strlit("get");
    reveal_strlit("set");
    reveal_strlit("tags");
    assert("channel"@.len() != "channels"@.len());
    assert("channel"@[0] != "services"@[0]);
    assert("channels"@[0] != "services"@[0]);
    assert("get"@[0] != "set"@[0]);
    assert("get"@[0] != "tags"@[0]);
    assert("set"@[0] != "tags"@[0]);
}

/// A one-segment pattern accepts exactly the path of that segment.
proof fn lemma_one(path: Seq<Seq<char>>, first: Seq<char>)
    ensures
        pattern_matches(one(first), path) <==> is_one(path, first),
{
    let pattern = one(first);
    if pattern_matches(pattern, path) {
        assert(segment_matches(pattern[0], path[0]));
    }
}

/// A two-segment pattern accepts exactly the path of these segments.
proof fn lemma_two(path: Seq<Seq<char>>, first: Seq<char>, second: Seq<char>)
    ensures
        pattern_matches(two(first, second), path) <==> is_two(path, first, second),
{
    let pattern = two(first, second);
    if pattern_matches(pattern, path) {
        assert(segment_matches(pattern[0], path[0]));
        assert(segment_matches(pattern[1], path[1]));
    }
}

/// A pattern that ends in an identifier accepts exactly the two-segment
/// paths that begin with its literal.
proof fn lemma_with_id(path: Seq<Seq<char>>, first: Seq<char>)
    ensures
        pattern_matches(with_id(first), path) <==> path.len() == 2 && path[0] == first,
{
    let pattern = with_id(first);
    if pattern_matches(pattern, path) {
        assert(segment_matches(pattern[0], path[0]));
    }
}

/// The place in the table of the rule that is bound to an operation.
pub open spec fn rule_of(operation: Operation) -> int {
    match operation {
        Operation::FetchChannel => 0,
        Operation::SendChannel => 1,
        Operation::ListServices => 2,
        Operation::SelectServices => 3,
        Operation::ListChannels => 4,
        Operation::SelectChannels => 5,
        Operation::FetchValues => 6,
        Operation::SendValues => 7,
        Operation::AddServiceTags => 8,
        Operation::AddChannelTags => 9,
        Operation::RemoveServiceTags => 10,
        Operation::RemoveChannelTags => 11,
    }
}

/// Each operation is bound by exactly one rule of the table.
pub proof fn lemma_rule_of()
    ensures
        standard_rules().len() == 12,
        forall|operation: Operation|
            0 <= #[trigger] rule_of(operation) < 12 && standard_rules()[rule_of(
                operation,
            )].operation == operation,
        forall|i: int|
            0 <= i < 12 ==> rule_of((#[trigger] standard_rules()[i]).operation) == i,
{
}

/// A rule of the table applies to exactly the requests that are routed to
/// the operation it is bound to.
pub proof fn lemma_rule_applies(method: Method, path: Seq<Seq<char>>, i: int)
    requires
        0 <= i < standard_rules().len(),
    ensures
        rule_matches(standard_rules()[i], method, path) <==> route_of(method, path) == Some(
            standard_rules()[i].operation,
        ),
{
    lemma_literals();
    lemma_with_id(path, "channel"@);
    lemma_one(path, "services"@);
    lemma_one(path, "channels"@);
    lemma_two(path, "channels"@, "get"@);
    lemma_two(path, "channels"@, "set"@);
    lemma_two(path, "services"@, "tags"@);
    lemma_two(path, "channels"@, "tags"@);
}

/// The rules of the table exclude one another: at most one of them applies
/// to a request.
pub proof fn lemma_rules_exclusive(method: Method, path: Seq<Seq<char>>, i: int, j: int)
    requires
        0 <= i < standard_rules().len(),
        0 <= j < standard_rules().len(),
        rule_matches(standard_rules()[i], method, path),
        rule_matches(standard_rules()[j], method, path),
    ensures
        i == j,
{
    lemma_rule_of();
    lemma_rule_applies(method, path, i);
    lemma_rule_applies(method, path, j);
}

/// Searching the table in order finds the rule that is bound to the
/// operation that the request is routed to, and finds none for a request
/// that is routed nowhere.
pub proof fn lemma_table_routes(method: Method, path: Seq<Seq<char>>, found: Option<int>)
    requires
        is_first_match(standard_rules(), method, path, found),
    ensures
        match found {
            Some(i) => route_of(method, path) == Some(standard_rules()[i].operation),
            None => route_of(method, path) is None,
        },
{
    match found {
        Some(i) => {
            lemma_rule_applies(method, path, i);
        },
        None => {
            if route_of(method, path) is Some {
                let k = rule_of(route_of(method, path)->0);
                lemma_rule_of();
                lemma_rule_applies(method, path, k);
            }
        },
    }
}

impl Segment {
    /// A segment that matches `text` alone.
    pub fn literal(text: &str) -> (r: Segment)
        ensures
            r@ == SegmentView::Literal(text@),
    {
        Segment::Literal(String::from_str(text))
    }

    /// Whether the segment accepts a path segment.
    pub fn accepts(&self, part: &String) -> (r: bool)
        ensures
            r == segment_matches(self@, part@),
    {
        match self {
            Segment::Literal(text) => *text == *part,
            Segment::Id => true,
        }
    }
}

impl Rule {
    /// Whether the rule's pattern accepts a path.
    pub fn accepts(&self, path: &Vec<String>) -> (r: bool)
        ensures
            r == pattern_matches(self@.pattern, path_view(*path)),
    {
        if self.pattern.len() != path.len() {
            return false;
        }
        let mut i: usize = 0;
        while i < self.pattern.len()
            invariant
                i <= self.pattern.len(),
                self.pattern.len() == path.len(),
                forall|j: int|
                    0 <= j < i ==> segment_matches(
                        #[trigger] self@.pattern[j],
                        path_view(*path)[j],
                    ),
            decreases self.pattern.len() - i,
        {
            if !self.pattern[i].accepts(&path[i]) {
                assert(!segment_matches(self@.pattern[i as int], path_view(*path)[i as int]));
                return false;
            }
            i += 1;
        }
        true
    }

    /// Whether the rule applies to a request.
    pub fn applies(&self, method: Method, path: &Vec<String>) -> (r: bool)
        ensures
            r == rule_matches(self@, method, path_view(*path)),
    {
        self.method == method && self.accepts(path)
    }
}

/// The place of a rule in a table, as the integer it stands for.
pub open spec fn place_view(place: Option<usize>) -> Option<int> {
    match place {
        Some(i) => Some(i as int),
        None => None,
    }
}

/// Searches a table in order and returns the place of the first rule that
/// applies to the request, or nothing where none applies.
pub fn find(rules: &Vec<Rule>, method: Method, path: &Vec<String>) -> (r: Option<usize>)
    ensures
        is_first_match(rules_view(*rules), method, path_view(*path), place_view(r)),
{
    let mut i: usize = 0;
    while i < rules.len()
        invariant
            i <= rules.len(),
            forall|j: int|
                0 <= j < i ==> !rule_matches(
                    #[trigger] rules_view(*rules)[j],
                    method,
                    path_view(*path),
                ),
        decreases rules.len() - i,
    {
        if rules[i].applies(method, path) {
            return Some(i);
        }
        i += 1;
    }
    None
}

impl Rule {
    /// A rule for the path of one literal segment.
    fn one(method: Method, first: &str, operation: Operation) -> (r: Rule)
        ensures
            r@ == (RuleView { method, pattern: one(first@), operation }),
    {
        let r = Rule { method, pattern: vec![Segment::literal(first)], operation };
        assert(r@.pattern =~= one(first@));
        r
    }

    /// A rule for the path of two literal segments.
    fn two(method: Method, first: &str, second: &str, operation: Operation) -> (r: Rule)
        ensures
            r@ == (RuleView { method, pattern: two(first@, second@), operation }),
    {
        let r = Rule {
            method,
            pattern: vec![Segment::literal(first), Segment::literal(second)],
            operation,
        };
        assert(r@.pattern =~= two(first@, second@));
        r
    }

    /// A rule for the paths of a literal segment followed by an identifier.
    fn with_id(method: Method, first: &str, operation: Operation) -> (r: Rule)
        ensures
            r@ == (RuleView { method, pattern: with_id(first@), operation }),
    {
        let r = Rule { method, pattern: vec![Segment::literal(first), Segment::Id], operation };
        assert(r@.pattern =~= with_id(first@));
        r
    }
}

/// Builds the rules of the gateway, in the order in which they are tried.
pub fn standard() -> (rules: Vec<Rule>)
    ensures
        rules_view(rules) == standard_rules(),
{
    let mut rules: Vec<Rule> = Vec::new();
    rules.push(Rule::with_id(Method::Get, "channel", Operation::FetchChannel));
    rules.push(Rule::with_id(Method::Put, "channel", Operation::SendChannel));
    rules.push(Rule::one(Method::Get, "services", Operation::ListServices));
    rules.push(Rule::one(Method::Post, "services", Operation::SelectServices));
    rules.push(Rule::one(Method::Get, "channels", Operation::ListChannels));
    rules.push(Rule::one(Method::Post, "channels", Operation::SelectChannels));
    rules.push(Rule::two(Method::Put, "channels", "get", Operation::FetchValues));
    rules.push(Rule::two(Method::Put, "channels", "set", Operation::SendValues));
    rules.push(Rule::two(Method::Post, "services", "tags", Operation::AddServiceTags));
    rules.push(Rule::two(Method::Post, "channels", "tags", Operation::AddChannelTags));
    rules.push(Rule::two(Method::Delete, "services", "tags", Operation::RemoveServiceTags));
    rules.push(Rule::two(Method::Delete, "channels", "tags", Operation::RemoveChannelTags));
    rules
}

} // verus!
