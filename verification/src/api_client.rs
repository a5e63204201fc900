//! The remote findings service as a collaborator: which request each call
//! needs, and what the outcome of sending it means. Sending it is left to the
//! caller.

use vstd::prelude::*;
use crate::codec::parse;
use crate::codec::parsed;
use crate::json::entries_view;
use crate::json::items_view;
use crate::json::json_outcome;
use crate::json::Json;
use crate::json::JsonValue;
use crate::protocol::optional_view;
use crate::protocol::text_field;
use crate::text::chain;
use crate::text::chain3;
use crate::text::text_outcome;

verus! {

/// A GET request.
#[derive(Debug, PartialEq)]
pub struct HttpRequest {
    pub url: String,
    /// The token to authenticate with as bearer, where the call needs one.
    pub bearer: Option<String>,
    /// The media type to ask for in the header `Accept`, where the call names one.
    pub accept: Option<String>,
    /// The query parameters, in order.
    pub query: Vec<(String, Json)>,
}

/// What an `HttpRequest` stands for.
pub struct RequestValue {
    pub url: Seq<char>,
    pub bearer: Option<Seq<char>>,
    pub accept: Option<Seq<char>>,
    pub query: Seq<(Seq<char>, JsonValue)>,
}

/// The view of an optional text.
pub open spec fn optional_string(o: Option<String>) -> Option<Seq<char>> {
    match o {
        Some(s) => Some(s@),
        None => None,
    }
}

impl View for HttpRequest {
    type V = RequestValue;

    open spec fn view(&self) -> RequestValue {
        RequestValue {
            url: self.url@,
            bearer: optional_string(self.bearer),
            accept: optional_string(self.accept),
            query: entries_view(self.query@),
        }
    }
}

/// How sending a request ended.
#[derive(Debug, PartialEq)]
pub enum HttpOutcome {
    /// No answer came.
    NotSent,
    /// An answer came: whether its status says success, the status as text,
    /// and the body where it could be read.
    Answered { success: bool, status: String, body: Option<String> },
}

/// What an `HttpOutcome` stands for.
pub enum AnswerValue {
    NotSent,
    Answered { success: bool, status: Seq<char>, body: Option<Seq<char>> },
}

impl View for HttpOutcome {
    type V = AnswerValue;

    open spec fn view(&self) -> AnswerValue {
        match self {
            HttpOutcome::NotSent => AnswerValue::NotSent,
            HttpOutcome::Answered { success, status, body } => AnswerValue::Answered {
                success: *success,
                status: status@,
                body: optional_string(*body),
            },
        }
    }
}

/// The request that lists the deployments that a token gives access to.
pub open spec fn deployments_call(token: Seq<char>) -> RequestValue {
    RequestValue {
        url: "https://semgrep.dev/api/v1/deployments"@,
        bearer: Some(token),
        accept: Some("application/json"@),
        query: Seq::empty(),
    }
}

/// The request that fetches the findings of the deployment `slug`.
pub open spec fn findings_call(
    token: Seq<char>,
    slug: Seq<char>,
    params: Seq<(Seq<char>, JsonValue)>,
) -> RequestValue {
    RequestValue {
        url: "https://semgrep.dev/api/v1/deployments/"@ + slug + "/findings"@,
        bearer: Some(token),
        accept: Some("application/json"@),
        query: params,
    }
}

/// The request that fetches the document at `url`.
pub open spec fn fetch_call(url: Seq<char>) -> RequestValue {
    RequestValue { url, bearer: None, accept: None, query: Seq::empty() }
}

/// The slugs of the deployments that a JSON value lists: it is an object
/// whose `deployments` is an array of objects, each with a string `slug`.
pub open spec fn slugs(j: JsonValue) -> Option<Seq<Seq<char>>> {
    match j.field("deployments"@) {
        Some(JsonValue::Array(items)) => if forall|i: int|
            0 <= i < items.len() ==> text_field(#[trigger] items[i], "slug"@) is Some {
            Some(Seq::new(items.len(), |i: int| text_field(items[i], "slug"@)->0))
        } else {
            None
        },
        _ => None,
    }
}

/// What the body of an answer reads as: the JSON value that it holds, if an
/// answer came, its body could be read and is well-formed.
pub open spec fn body_of(outcome: AnswerValue) -> Option<JsonValue> {
    match outcome {
        AnswerValue::Answered { success, status, body: Some(text) } => parsed(text),
        _ => None,
    }
}

/// The slug that the answer to `deployments_call` tells, given what its body
/// reads as: that of the first deployment. No deployment is a failure.
pub open spec fn slug_reading(outcome: AnswerValue, body: Option<JsonValue>) -> Result<
    Seq<char>,
    Seq<char>,
> {
    match outcome {
        AnswerValue::NotSent => Err("Failed to fetch deployments"@),
        AnswerValue::Answered { success, status, body: _ } => if !success {
            Err("Failed to fetch deployments: "@ + status)
        } else {
            match body {
                Some(j) => match slugs(j) {
                    Some(all) => if all.len() == 0 {
                        Err("No deployments found for this token"@)
                    } else {
                        Ok(all[0])
                    },
                    None => Err("Failed to parse deployments response"@),
                },
                None => Err("Failed to parse deployments response"@),
            }
        },
    }
}

/// The text of a body, empty where it could not be read.
pub open spec fn body_text(body: Option<Seq<char>>) -> Seq<char> {
    match body {
        Some(t) => t,
        None => Seq::empty(),
    }
}

/// The findings that the answer to `findings_call` tells, given what its
/// body reads as.
pub open spec fn findings_reading(outcome: AnswerValue, body: Option<JsonValue>) -> Result<
    JsonValue,
    Seq<char>,
> {
    match outcome {
        AnswerValue::NotSent => Err("Failed to send request to Semgrep Findings API"@),
        AnswerValue::Answered { success, status, body: text } => if !success {
            Err("API request failed with status "@ + status + ": "@ + body_text(text))
        } else {
            match body {
                Some(j) => Ok(j),
                None => Err("Failed to parse filings API response"@),
            }
        },
    }
}

/// The document that the answer to `fetch_call(url)` tells.
pub open spec fn text_reading(url: Seq<char>, outcome: AnswerValue) -> Result<Seq<char>, Seq<char>> {
    match outcome {
        AnswerValue::NotSent => Err("Failed to fetch URL: "@ + url),
        AnswerValue::Answered { success, status, body } => if !success {
            Err("Request failed: "@ + status)
        } else {
            match body {
                Some(t) => Ok(t),
                None => Err("Failed to get response text"@),
            }
        },
    }
}

/// The remote findings service.
pub struct ApiClient;

impl ApiClient {
    /// The request that lists the deployments that `token` gives access to.
    pub fn list_deployments(token: &str) -> (r: HttpRequest)
        ensures
            r@ == deployments_call(token@),
    {
        let query = crate::json::new_entries();
        HttpRequest {
            url: "https://semgrep.dev/api/v1/deployments".to_owned(),
            bearer: Some(token.to_owned()),
            accept: Some("application/json".to_owned()),
            query,
        }
    }

    /// The slug of the first deployment that the answer lists, once its body
    /// has been read as `body`.
    pub fn first_slug(outcome: &HttpOutcome, body: Option<Json>) -> (r: Result<String, String>)
        ensures
            text_outcome(r) == slug_reading(outcome@, optional_view(body)),
    {
        match outcome {
            HttpOutcome::NotSent => Err("Failed to fetch deployments".to_owned()),
            HttpOutcome::Answered { success, status, body: _ } => {
                if !*success {
                    return Err(chain("Failed to fetch deployments: ", status.as_str()));
                }
                let j = match &body {
                    Some(j) => j,
                    None => {
                        return Err("Failed to parse deployments response".to_owned());
                    },
                };
                let items = match j.get("deployments") {
                    Some(Json::Array(items)) => {
                        proof {
                            crate::json::lemma_array_view(*items);
                        }
                        items
                    },
                    _ => {
                        return Err("Failed to parse deployments response".to_owned());
                    },
                };
                let ghost all = items_view(items@);
                let mut i: usize = 0;
                while i < items.len()
                    invariant
                        i <= items.len(),
                        all == items_view(items@),
                        optional_view(body) == Some(j@),
                        j@.field("deployments"@) == Some(JsonValue::Array(all)),
                        outcome@ is Answered && outcome@->success,
                        forall|k: int| 0 <= k < i ==> text_field(#[trigger] all[k], "slug"@) is Some,
                    decreases items.len() - i,
                {
                    match items[i].get("slug") {
                        Some(Json::String(_)) => {},
                        _ => {
                            assert(text_field(all[i as int], "slug"@) is None);
                            return Err("Failed to parse deployments response".to_owned());
                        },
                    }
                    i += 1;
                }
                if items.len() == 0 {
                    return Err("No deployments found for this token".to_owned());
                }
                match items[0].get("slug") {
                    Some(Json::String(s)) => Ok(s.clone()),
                    _ => Err("Failed to parse deployments response".to_owned()),
                }
            },
        }
    }

    /// The slug that the answer to `list_deployments` tells.
    pub fn get_deployment_slug(outcome: &HttpOutcome) -> (r: Result<String, String>)
        ensures
            text_outcome(r) == slug_reading(outcome@, body_of(outcome@)),
    {
        let body = Self::read_body(outcome);
        Self::first_slug(outcome, body)
    }

    /// The request that fetches the findings of the deployment `slug` with
    /// the query parameters `params`.
    pub fn get_findings(token: &str, slug: &str, params: Vec<(String, Json)>) -> (r: HttpRequest)
        ensures
            r@ == findings_call(token@, slug@, entries_view(params@)),
    {
        HttpRequest {
            url: chain3("https://semgrep.dev/api/v1/deployments/", slug, "/findings"),
            bearer: Some(token.to_owned()),
            accept: Some("application/json".to_owned()),
            query: params,
        }
    }

    /// The findings that the answer tells, once its body has been read as `body`.
    pub fn findings(outcome: &HttpOutcome, body: Option<Json>) -> (r: Result<Json, String>)
        ensures
            json_outcome(r) == findings_reading(outcome@, optional_view(body)),
    {
        match outcome {
            HttpOutcome::NotSent => Err("Failed to send request to Semgrep Findings API".to_owned()),
            HttpOutcome::Answered { success, status, body: text } => {
                if !*success {
                    let mut message = chain3(
                        "API request failed with status ",
                        status.as_str(),
                        ": ",
                    );
                    match text {
                        Some(t) => {
                            message.append(t.as_str());
                        },
                        None => {
                            assert(message@ + Seq::<char>::empty() =~= message@);
                        },
                    }
                    return Err(message);
                }
                match body {
                    Some(j) => Ok(j),
                    None => Err("Failed to parse filings API response".to_owned()),
                }
            },
        }
    }

    /// The findings that the answer to `get_findings` tells.
    pub fn read_findings(outcome: &HttpOutcome) -> (r: Result<Json, String>)
        ensures
            json_outcome(r) == findings_reading(outcome@, body_of(outcome@)),
    {
        let body = Self::read_body(outcome);
        Self::findings(outcome, body)
    }

    /// The request that fetches the document at `url`.
    pub fn fetch_url(url: &str) -> (r: HttpRequest)
        ensures
            r@ == fetch_call(url@),
    {
        let query = crate::json::new_entries();
        HttpRequest { url: url.to_owned(), bearer: None, accept: None, query }
    }

    /// The document that the answer to `fetch_url(url)` tells.
    pub fn read_text(url: &str, outcome: &HttpOutcome) -> (r: Result<String, String>)
        ensures
            text_outcome(r) == text_reading(url@, outcome@),
    {
        match outcome {
            HttpOutcome::NotSent => Err(chain("Failed to fetch URL: ", url)),
            HttpOutcome::Answered { success, status, body } => {
                if !*success {
                    return Err(chain("Request failed: ", status.as_str()));
                }
                match body {
                    Some(t) => Ok(t.clone()),
                    None => Err("Failed to get response text".to_owned()),
                }
            },
        }
    }

    /// What the body of an answer reads as.
    fn read_body(outcome: &HttpOutcome) -> (r: Option<Json>)
        ensures
            optional_view(r) == body_of(outcome@),
    {
        match outcome {
            HttpOutcome::Answered { success, status, body: Some(text) } => parse(text.as_str()),
            _ => None,
        }
    }
}

} // verus!
