//! The three price sources and the interpretation of their HTTP responses.
use vstd::prelude::*;
use crate::json::{
    array_items, error_text, json_view, member, number_of, number_view, parse_json,
    parsed, Json,
};
use crate::text::{decimal, decimal_spec};

verus! {

/// One access on the way from a response's root to its price.
#[derive(Clone, Copy)]
pub enum Step {
    /// The member of an object under this key.
    Key(&'static str),
    /// The element of an array at this position.
    Index(usize),
}

/// The assets whose prices are polled.
#[derive(Clone, Copy, PartialEq, Eq, Structural, Debug)]
pub enum PriceSource {
    Bitcoin,
    Ethereum,
    SP500,
}

/// How fetching a price failed.
#[derive(Debug)]
pub enum FetchError {
    /// No JSON document was obtained: the request or the body read failed.
    Network(String),
    /// A body was obtained but is not JSON, or holds no price where expected.
    Parse(String),
}

/// What the HTTP layer made of one GET request.
#[derive(Debug)]
pub enum Response {
    /// The request failed (connection, DNS, error status), with the error text.
    CallFailed(String),
    /// The response came but its body could not be read, with the error text.
    ReadFailed(String),
    /// The full body, as text.
    Body(String),
}

/// The text of one step in a rendered path; `first` for the path's first step.
pub open spec fn step_text(s: Step, first: bool) -> Seq<char> {
    match s {
        Step::Key(k) => if first { k@ } else { "."@ + k@ },
        Step::Index(i) => "["@ + decimal_spec(i as nat) + "]"@,
    }
}

/// A path written the way it reads in code: `chart.result[0].meta`.
pub open spec fn rendered(path: Seq<Step>) -> Seq<char>
    decreases path.len(),
{
    if path.len() == 0 {
        Seq::empty()
    } else {
        rendered(path.drop_last()) + step_text(path.last(), path.len() == 1)
    }
}

/// Writes a path the way it reads in code.
pub fn render_path(path: &Vec<Step>) -> (r: String)
    ensures
        r@ == rendered(path@),
{
    let mut s = String::new();
    let mut i: usize = 0;
    while i < path.len()
        invariant
            i <= path.len(),
            s@ == rendered(path@.subrange(0, i as int)),
        decreases path.len() - i,
    {
        proof {
            assert(path@.subrange(0, i + 1).drop_last() == path@.subrange(0, i as int));
            reveal_strlit(".");
            reveal_strlit("[");
            reveal_strlit("]");
        }
        match path[i] {
            Step::Key(k) => {
                if i > 0 {
                    s.append(".");
                }
                s.append(k);
            },
            Step::Index(j) => {
                s.append("[");
                let d = decimal(j as u64);
                s.append(d.as_str());
                s.append("]");
            },
        }
        i = i + 1;
    }
    assert(path@.subrange(0, path.len() as int) == path@);
    s
}

/// The value one step leads to from `j`, if any.
pub open spec fn step_into(j: Json, s: Step) -> Option<Json> {
    match s {
        Step::Key(k) => match j {
            Json::Object(m) => if m.contains_key(k@) { Some(m[k@]) } else { None },
            _ => None,
        },
        Step::Index(i) => match j {
            Json::Array(a) => if i < a.len() { Some(a[i as int]) } else { None },
            _ => None,
        },
    }
}

/// The value that `path` leads to from `j`, if every step finds one.
pub open spec fn value_at(j: Json, path: Seq<Step>) -> Option<Json>
    decreases path.len(),
{
    if path.len() == 0 {
        Some(j)
    } else {
        match value_at(j, path.drop_last()) {
            Some(x) => step_into(x, path.last()),
            None => None,
        }
    }
}

/// The decimal text of the number at the end of `path`, if a number stands there.
pub open spec fn price_at(j: Json, path: Seq<Step>) -> Option<Seq<char>> {
    match value_at(j, path) {
        Some(Json::Number(t)) => Some(t),
        _ => None,
    }
}

proof fn lemma_lost_stays_lost(j: Json, path: Seq<Step>, i: int)
    requires
        0 <= i <= path.len(),
        value_at(j, path.subrange(0, i)) is None,
    ensures
        value_at(j, path) is None,
    decreases path.len() - i,
{
    if i == path.len() {
        assert(path.subrange(0, i) == path);
    } else {
        assert(path.subrange(0, i + 1).drop_last() == path.subrange(0, i));
        lemma_lost_stays_lost(j, path, i + 1);
    }
}

/// Follows `path` from `root` and returns the number found at its end, or
/// `None` where a step finds nothing or the end is not a number.
pub fn walk(root: &serde_json::Value, path: &Vec<Step>) -> (r: Option<serde_json::Number>)
    ensures
        match price_at(json_view(*root), path@) {
            Some(t) => r matches Some(n) && number_view(n) == t,
            None => r is None,
        },
{
    let ghost j = json_view(*root);
    let mut cur: &serde_json::Value = root;
    let mut i: usize = 0;
    while i < path.len()
        invariant
            i <= path.len(),
            j == json_view(*root),
            value_at(j, path@.subrange(0, i as int)) == Some(json_view(*cur)),
        decreases path.len() - i,
    {
        proof {
            assert(path@.subrange(0, i + 1).drop_last() == path@.subrange(0, i as int));
            assert(path@.subrange(0, i + 1).last() == path@[i as int]);
        }
        match path[i] {
            Step::Key(k) => match member(cur, k) {
                Some(next) => {
                    cur = next;
                },
                None => {
                    proof { lemma_lost_stays_lost(j, path@, i + 1); }
                    return None;
                },
            },
            Step::Index(k) => match array_items(cur) {
                Some(items) => {
                    if k < items.len() {
                        cur = &items[k];
                    } else {
                        proof { lemma_lost_stays_lost(j, path@, i + 1); }
                        return None;
                    }
                },
                None => {
                    proof { lemma_lost_stays_lost(j, path@, i + 1); }
                    return None;
                },
            },
        }
        i = i + 1;
    }
    assert(path@.subrange(0, path.len() as int) == path@);
    number_of(cur)
}

impl FetchError {
    /// The detail text that the failure carries.
    pub open spec fn detail(&self) -> Seq<char> {
        match self {
            FetchError::Network(d) => d@,
            FetchError::Parse(d) => d@,
        }
    }

    /// The failure as a log message names it.
    pub open spec fn message_spec(&self) -> Seq<char> {
        match self {
            FetchError::Network(d) => "network error: "@ + d@,
            FetchError::Parse(d) => "parse error: "@ + d@,
        }
    }

    /// The failure as a log message: its kind, then its detail.
    pub fn message(&self) -> (r: String)
        ensures
            r@ == self.message_spec(),
    {
        match self {
            FetchError::Network(d) => {
                let mut s = String::from_str("network error: ");
                s.append(d.as_str());
                s
            },
            FetchError::Parse(d) => {
                let mut s = String::from_str("parse error: ");
                s.append(d.as_str());
                s
            },
        }
    }
}

impl PriceSource {
    /// The asset code.
    pub open spec fn code(self) -> &'static str {
        match self {
            PriceSource::Bitcoin => "BTC",
            PriceSource::Ethereum => "ETH",
            PriceSource::SP500 => "SP500",
        }
    }

    /// The record file of the asset.
    pub open spec fn path_of_file(self) -> &'static str {
        match self {
            PriceSource::Bitcoin => "bitcoin_prices.csv",
            PriceSource::Ethereum => "ethereum_prices.csv",
            PriceSource::SP500 => "sp500_prices.csv",
        }
    }

    /// The endpoint that quotes the asset.
    pub open spec fn endpoint(self) -> &'static str {
        match self {
            PriceSource::Bitcoin =>
                "https://api.coingecko.com/api/v3/simple/price?ids=bitcoin&vs_currencies=usd",
            PriceSource::Ethereum =>
                "https://api.coingecko.com/api/v3/simple/price?ids=ethereum&vs_currencies=usd",
            PriceSource::SP500 => "https://query2.finance.yahoo.com/v8/finance/chart/%5EGSPC",
        }
    }

    /// Where the price stands in a response of the endpoint.
    pub open spec fn extraction(self) -> Seq<Step> {
        match self {
            PriceSource::Bitcoin => seq![Step::Key("bitcoin"), Step::Key("usd")],
            PriceSource::Ethereum => seq![Step::Key("ethereum"), Step::Key("usd")],
            PriceSource::SP500 => seq![
                Step::Key("chart"),
                Step::Key("result"),
                Step::Index(0),
                Step::Key("meta"),
                Step::Key("regularMarketPrice"),
            ],
        }
    }

    /// The detail of the failure when a response holds no price where expected.
    pub open spec fn missing_detail(self) -> Seq<char> {
        match self {
            PriceSource::SP500 => "missing "@ + rendered(self.extraction()),
            _ => "missing field "@ + rendered(self.extraction()),
        }
    }

    /// The detail of the failure when a response holds no price where expected.
    pub fn missing_message(&self) -> (r: String)
        ensures
            r@ == self.missing_detail(),
    {
        let mut s = match self {
            PriceSource::SP500 => String::from_str("missing "),
            _ => String::from_str("missing field "),
        };
        let p = render_path(&self.path());
        s.append(p.as_str());
        s
    }

    /// The price found along the source's path in a parsed response, or a
    /// `Parse` failure naming the path.
    pub fn extract(&self, root: &serde_json::Value) -> (r: Result<serde_json::Number, FetchError>)
        ensures
            match price_at(json_view(*root), self.extraction()) {
                Some(t) => r matches Ok(n) && number_view(n) == t,
                None => r matches Err(e) && e is Parse && e.detail() == self.missing_detail(),
            },
    {
        match walk(root, &self.path()) {
            Some(n) => Ok(n),
            None => Err(FetchError::Parse(self.missing_message())),
        }
    }

    /// Interprets what the HTTP layer made of a GET to the source's endpoint:
    /// a transport failure is a `Network` failure, a body that is not JSON or
    /// holds no price on the source's path is a `Parse` failure, and otherwise
    /// the price is returned.
    pub fn price_from_response(&self, response: &Response) -> (r: Result<serde_json::Number, FetchError>)
        ensures
            match response {
                Response::CallFailed(e) => r matches Err(f) && f is Network
                    && f.detail() == "GET "@ + self.endpoint()@ + ": "@ + e@,
                Response::ReadFailed(e) => r matches Err(f) && f is Network
                    && f.detail() == "read body "@ + self.endpoint()@ + ": "@ + e@,
                Response::Body(b) => match parsed(b@) {
                    Ok(j) => match price_at(j, self.extraction()) {
                        Some(t) => r matches Ok(n) && number_view(n) == t,
                        None => r matches Err(f) && f is Parse && f.detail() == self.missing_detail(),
                    },
                    Err(m) => r matches Err(f) && f is Parse
                        && f.detail() == "json: "@ + m + " | body: "@ + b@,
                },
            },
    {
        match response {
            Response::CallFailed(e) => {
                let mut d = String::from_str("GET ");
                d.append(self.url());
                d.append(": ");
                d.append(e.as_str());
                Err(FetchError::Network(d))
            },
            Response::ReadFailed(e) => {
                let mut d = String::from_str("read body ");
                d.append(self.url());
                d.append(": ");
                d.append(e.as_str());
                Err(FetchError::Network(d))
            },
            Response::Body(b) => match parse_json(b.as_str()) {
                Ok(v) => self.extract(&v),
                Err(err) => {
                    let mut d = String::from_str("json: ");
                    let m = error_text(&err);
                    d.append(m.as_str());
                    d.append(" | body: ");
                    d.append(b.as_str());
                    Err(FetchError::Parse(d))
                },
            },
        }
    }

    /// The asset code.
    pub fn name(&self) -> (r: &'static str)
        ensures
            r == self.code(),
    {
        match self {
            PriceSource::Bitcoin => "BTC",
            PriceSource::Ethereum => "ETH",
            PriceSource::SP500 => "SP500",
        }
    }

    /// The record file of the asset.
    pub fn file_path(&self) -> (r: &'static str)
        ensures
            r == self.path_of_file(),
    {
        match self {
            PriceSource::Bitcoin => "bitcoin_prices.csv",
            PriceSource::Ethereum => "ethereum_prices.csv",
            PriceSource::SP500 => "sp500_prices.csv",
        }
    }

    /// The endpoint that quotes the asset.
    pub fn url(&self) -> (r: &'static str)
        ensures
            r == self.endpoint(),
    {
        match self {
            PriceSource::Bitcoin =>
                "https://api.coingecko.com/api/v3/simple/price?ids=bitcoin&vs_currencies=usd",
            PriceSource::Ethereum =>
                "https://api.coingecko.com/api/v3/simple/price?ids=ethereum&vs_currencies=usd",
            PriceSource::SP500 => "https://query2.finance.yahoo.com/v8/finance/chart/%5EGSPC",
        }
    }

    /// Where the price stands in a response of the endpoint.
    pub fn path(&self) -> (r: Vec<Step>)
        ensures
            r@ == self.extraction(),
    {
        match self {
            PriceSource::Bitcoin => vec![Step::Key("bitcoin"), Step::Key("usd")],
            PriceSource::Ethereum => vec![Step::Key("ethereum"), Step::Key("usd")],
            PriceSource::SP500 => vec![
                Step::Key("chart"),
                Step::Key("result"),
                Step::Index(0),
                Step::Key("meta"),
                Step::Key("regularMarketPrice"),
            ],
        }
    }
}

} // verus!
