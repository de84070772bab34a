//! HTTP probes of the backend: the requests made, and the report of each reply.

use vstd::prelude::*;
use crate::json::{opt_view, member_view, json_compact, json_member, compact_json, member_json};
use crate::lines::{views, joined, push_line, push_joined};

verus! {

/// A response of the backend.
pub struct Response {
    /// The status code.
    pub status: u16,
    /// The status as it is printed, code and reason (`404 Not Found`).
    pub status_text: String,
    /// The body as it came.
    pub body: Vec<u8>,
}

/// What came of one request.
pub enum HttpReply {
    /// No response came; the text of the transport error.
    Unreachable(String),
    /// A response came.
    Answered(Response),
}

/// A status in the 2xx range.
pub open spec fn is_success(status: u16) -> bool {
    200 <= status <= 299
}

/// Whether `status` is in the 2xx range.
pub fn status_is_success(status: u16) -> (r: bool)
    ensures
        r == is_success(status),
{
    200 <= status && status <= 299
}

/// The base URL of the backend.
pub fn default_base_url() -> (r: String)
    ensures
        r@ == "http://localhost:3001"@,
{
    String::from_str("http://localhost:3001")
}

/// The URL of the health endpoint under `base`.
pub fn health_url(base: &str) -> (r: String)
    ensures
        r@ == base@ + "/api/health"@,
{
    joined(base, "/api/health")
}

/// The URL of the addition endpoint under `base`.
pub fn add_url(base: &str) -> (r: String)
    ensures
        r@ == base@ + "/api/add"@,
{
    joined(base, "/api/add")
}

/// The body of the addition request: the operands 15.5 and 24.3.
pub fn add_body() -> (r: String)
    ensures
        r@ == "{\"num1\":15.5,\"num2\":24.3}"@,
{
    String::from_str("{\"num1\":15.5,\"num2\":24.3}")
}

/// The body of the addition request whose first operand is no number.
pub fn invalid_add_body() -> (r: String)
    ensures
        r@ == "{\"num1\":\"invalid\",\"num2\":5}"@,
{
    String::from_str("{\"num1\":\"invalid\",\"num2\":5}")
}

// ---- the health command ----

/// The compact JSON of a reply's body, where the reply is a success; `None`
/// for any other reply, whose body is not read.
pub open spec fn success_json(reply: HttpReply) -> Option<Seq<char>> {
    match reply {
        HttpReply::Answered(r) => if is_success(r.status) {
            json_compact(r.body@)
        } else {
            None
        },
        HttpReply::Unreachable(_) => None,
    }
}

/// The hint printed where the backend could not be reached.
pub open spec fn hint_line() -> Seq<char> {
    "💡 Make sure the backend server is running on port 3001"@
}

/// What the health command prints for a reply, given the compact JSON of
/// its body (`None` where it is no JSON document).
pub open spec fn health_lines_of(reply: HttpReply, parsed: Option<Seq<char>>) -> Seq<Seq<char>> {
    seq!["🏥 Checking API health..."@] + match reply {
        HttpReply::Unreachable(e) => seq!["❌ Failed to connect to API: "@ + e@, hint_line()],
        HttpReply::Answered(r) => if !is_success(r.status) {
            seq!["❌ API health check failed with status: "@ + r.status_text@]
        } else {
            match parsed {
                Some(j) => seq!["✅ API is healthy: "@ + j],
                None => seq!["⚠️  API responded but returned invalid JSON"@],
            }
        },
    }
}

/// The lines of the health command for `reply`, where `parsed` is the compact
/// JSON of the reply's body, if it is a document.
pub fn health_lines(reply: &HttpReply, parsed: &Option<String>) -> (r: Vec<String>)
    ensures
        views(r@) == health_lines_of(*reply, opt_view(*parsed)),
{
    let mut out: Vec<String> = Vec::new();
    push_line(&mut out, "🏥 Checking API health...");
    match reply {
        HttpReply::Unreachable(e) => {
            push_joined(&mut out, "❌ Failed to connect to API: ", e.as_str());
            push_line(&mut out, "💡 Make sure the backend server is running on port 3001");
        },
        HttpReply::Answered(resp) => {
            if !status_is_success(resp.status) {
                push_joined(
                    &mut out,
                    "❌ API health check failed with status: ",
                    resp.status_text.as_str(),
                );
            } else {
                match parsed {
                    Some(j) => {
                        push_joined(&mut out, "✅ API is healthy: ", j.as_str());
                    },
                    None => {
                        push_line(&mut out, "⚠️  API responded but returned invalid JSON");
                    },
                }
            }
        },
    }
    assert(views(out@) =~= health_lines_of(*reply, opt_view(*parsed)));
    out
}

/// The lines of the health command for `reply`; the body is read as JSON
/// only where the status is a success.
pub fn health_report(reply: &HttpReply) -> (r: Vec<String>)
    ensures
        views(r@) == health_lines_of(*reply, success_json(*reply)),
{
    let parsed = match reply {
        HttpReply::Answered(resp) => if status_is_success(resp.status) {
            compact_json(&resp.body)
        } else {
            None
        },
        HttpReply::Unreachable(_) => None,
    };
    health_lines(reply, &parsed)
}

/// A response of the health endpoint whose status is no success is reported
/// by its status alone: its body is not read, and whatever it holds, the
/// report is the same.
pub proof fn lemma_health_status_failure(reply: HttpReply, p: Option<Seq<char>>)
    requires
        reply matches HttpReply::Answered(r) && !is_success(r.status),
    ensures
        success_json(reply) is None,
        health_lines_of(reply, p) == health_lines_of(reply, success_json(reply)),
        health_lines_of(reply, p) == seq![
            "🏥 Checking API health..."@,
            "❌ API health check failed with status: "@ + reply->Answered_0.status_text@,
        ],
{
}

/// Where the backend cannot be reached, the health command reports the
/// transport error and a hint that the server may not be running.
pub proof fn lemma_health_unreachable(e: String, p: Option<Seq<char>>)
    ensures
        health_lines_of(HttpReply::Unreachable(e), p) == seq![
            "🏥 Checking API health..."@,
            "❌ Failed to connect to API: "@ + e@,
            hint_line(),
        ],
{
}

// ---- the test command ----

/// The verdict on the health endpoint in the test command.
pub open spec fn health_check_of(reply: HttpReply) -> Seq<char> {
    match reply {
        HttpReply::Unreachable(_) => "❌ Connection failed"@,
        HttpReply::Answered(r) => if is_success(r.status) {
            "✅"@
        } else {
            "❌ Status: "@ + r.status_text@
        },
    }
}

/// The verdict on the health endpoint in the test command.
pub fn health_check(reply: &HttpReply) -> (r: String)
    ensures
        r@ == health_check_of(*reply),
{
    match reply {
        HttpReply::Unreachable(_) => String::from_str("❌ Connection failed"),
        HttpReply::Answered(resp) => if status_is_success(resp.status) {
            String::from_str("✅")
        } else {
            joined("❌ Status: ", resp.status_text.as_str())
        },
    }
}

/// The member `sum` of a reply's body, where the reply is a success; `None`
/// for any other reply, whose body is not read.
pub open spec fn success_sum(reply: HttpReply) -> Option<Option<Seq<char>>> {
    match reply {
        HttpReply::Answered(r) => if is_success(r.status) {
            json_member(r.body@, "sum"@)
        } else {
            None
        },
        HttpReply::Unreachable(_) => None,
    }
}

/// The verdict on the addition endpoint, given the compact JSON of the
/// member `sum` of the reply's body (`None` where the body is no document,
/// `Some(None)` where it has no such member) and the compact JSON of the
/// expected sum. serde_json writes a number read as a float in the shortest
/// form that reads back as the same float, so where `expected` is in that
/// form the texts are equal exactly when the floats are.
pub open spec fn add_check_of(
    reply: HttpReply,
    sum: Option<Option<Seq<char>>>,
    expected: Seq<char>,
) -> Seq<char> {
    match reply {
        HttpReply::Unreachable(e) => "❌ Request failed: "@ + e@,
        HttpReply::Answered(r) => if !is_success(r.status) {
            "❌ Status: "@ + r.status_text@
        } else {
            match sum {
                None => "❌ Invalid JSON response"@,
                Some(None) => "❌ No sum field in response"@,
                Some(Some(t)) => if t == expected {
                    "✅ Sum calculation correct: "@ + t
                } else {
                    "❌ Incorrect sum: "@ + t
                },
            }
        },
    }
}

/// The verdict on the addition endpoint for `reply`, where `sum` is the
/// member `sum` of the body as compact JSON and `expected` the expected sum.
pub fn add_check_with(reply: &HttpReply, sum: &Option<Option<String>>, expected: &str) -> (r:
    String)
    ensures
        r@ == add_check_of(*reply, member_view(*sum), expected@),
{
    match reply {
        HttpReply::Unreachable(e) => joined("❌ Request failed: ", e.as_str()),
        HttpReply::Answered(resp) => if !status_is_success(resp.status) {
            joined("❌ Status: ", resp.status_text.as_str())
        } else {
            match sum {
                None => String::from_str("❌ Invalid JSON response"),
                Some(None) => String::from_str("❌ No sum field in response"),
                Some(Some(t)) => {
                    let e = String::from_str(expected);
                    if *t == e {
                        joined("✅ Sum calculation correct: ", t.as_str())
                    } else {
                        joined("❌ Incorrect sum: ", t.as_str())
                    }
                },
            }
        },
    }
}

/// The verdict on the addition endpoint for `reply`; the body is read as
/// JSON only where the status is a success.
pub fn add_check(reply: &HttpReply, expected: &str) -> (r: String)
    ensures
        r@ == add_check_of(*reply, success_sum(*reply), expected@),
{
    let sum = match reply {
        HttpReply::Answered(resp) => if status_is_success(resp.status) {
            member_json(&resp.body, "sum")
        } else {
            None
        },
        HttpReply::Unreachable(_) => None,
    };
    add_check_with(reply, &sum, expected)
}

/// The verdict on the request with a malformed operand: it should be
/// refused with status 400.
pub open spec fn error_check_of(reply: HttpReply) -> Seq<char> {
    match reply {
        HttpReply::Unreachable(e) => "❌ Request failed: "@ + e@,
        HttpReply::Answered(r) => if r.status == 400 {
            "✅ Error handling works"@
        } else {
            "❌ Expected 400, got: "@ + r.status_text@
        },
    }
}

/// The verdict on the request with a malformed operand.
pub fn error_check(reply: &HttpReply) -> (r: String)
    ensures
        r@ == error_check_of(*reply),
{
    match reply {
        HttpReply::Unreachable(e) => joined("❌ Request failed: ", e.as_str()),
        HttpReply::Answered(resp) => if resp.status == 400 {
            String::from_str("✅ Error handling works")
        } else {
            joined("❌ Expected 400, got: ", resp.status_text.as_str())
        },
    }
}

/// The expected sum of the addition request, as serde_json writes it.
pub open spec fn expected_sum() -> Seq<char> {
    "39.8"@
}

/// What the test command prints, given the three replies.
pub open spec fn test_lines_of(health: HttpReply, add: HttpReply, invalid: HttpReply) -> Seq<
    Seq<char>,
> {
    seq![
        "🧪 Testing API endpoints..."@,
        "Testing health endpoint... "@ + health_check_of(health),
        "Testing addition endpoint... "@ + add_check_of(add, success_sum(add), expected_sum()),
        "Testing error handling... "@ + error_check_of(invalid),
        "🎉 API tests completed!"@,
    ]
}

/// The lines of the test command: the health, addition and malformed
/// addition requests, each reported on its own line; one failing does not
/// keep the others from being reported.
pub fn test_report(health: &HttpReply, add: &HttpReply, invalid: &HttpReply) -> (r: Vec<String>)
    ensures
        views(r@) == test_lines_of(*health, *add, *invalid),
{
    let mut out: Vec<String> = Vec::new();
    push_line(&mut out, "🧪 Testing API endpoints...");
    let h = health_check(health);
    push_joined(&mut out, "Testing health endpoint... ", h.as_str());
    let a = add_check(add, "39.8");
    push_joined(&mut out, "Testing addition endpoint... ", a.as_str());
    let e = error_check(invalid);
    push_joined(&mut out, "Testing error handling... ", e.as_str());
    push_line(&mut out, "🎉 API tests completed!");
    assert(views(out@) =~= test_lines_of(*health, *add, *invalid));
    out
}

} // verus!
