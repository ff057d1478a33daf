//! Reading the outcome of a verification run from the agent's response.

use vstd::prelude::*;

use crate::config::{GbaConfig, SessionConfig};
use crate::context::{empty_context, PromptContext, PromptContextView};
use crate::text::{chars_of, contains, seq_contains, views};

verus! {

/// Verification result.
#[derive(Debug, Clone, PartialEq, Eq)]
pub struct VerificationResult {
    /// Whether verification passed.
    pub passed: bool,
    /// Detailed output from verification.
    pub details: String,
    /// Summary of what was verified.
    pub summary: Option<String>,
}

/// The fields of a JSON verification report; each may be absent.
#[derive(Debug, Clone, PartialEq, Eq)]
pub struct VerificationFields {
    /// Explicit pass/fail flag.
    pub passed: Option<bool>,
    /// Status word, such as "passed" or "failed".
    pub status: Option<String>,
    /// Detailed output.
    pub details: Option<String>,
    /// Summary of what was verified.
    pub summary: Option<String>,
}

/// What `str::to_lowercase` returns: the Unicode lowercase mapping of `s`.
pub uninterp spec fn spec_lowercase(s: Seq<char>) -> Seq<char>;

/// Lowercases a string with `str::to_lowercase`. The contract claims only that the
/// result is the value named `spec_lowercase` of the input (the Unicode lowercase
/// mapping, which depends on the input alone); what that mapping is, is not stated.
#[verifier::external_body]
fn to_lowercase(s: &str) -> (r: String)
    ensures
        r@ == spec_lowercase(s@),
{
    s.to_lowercase()
}

/// A lowercased response reports success.
pub open spec fn text_reports_pass(lower: Seq<char>) -> bool {
    ||| contains(lower, "passed"@)
    ||| contains(lower, "success"@)
    ||| contains(lower, "all tests passed"@)
    ||| contains(lower, "verification complete"@)
    ||| contains(lower, "build"@) && contains(lower, "succeeded"@)
}

/// A lowercased response reports failure.
pub open spec fn text_reports_failure(lower: Seq<char>) -> bool {
    ||| contains(lower, "failed"@)
    ||| contains(lower, "error"@)
    ||| contains(lower, "tests failed"@)
}

/// A lowercased status word means success.
pub open spec fn status_is_success(lower: Seq<char>) -> bool {
    lower == "passed"@ || lower == "success"@
}

/// Tests whether `text` contains the pattern `pat`.
fn has(text: &Vec<char>, pat: &str) -> (r: bool)
    ensures
        r == contains(text@, pat@),
{
    let p = chars_of(pat);
    seq_contains(text, &p)
}

/// The verdict of a lowercased free-text response: it reports success and does not
/// report failure.
pub fn text_verdict(lower: &str) -> (r: bool)
    ensures
        r == (text_reports_pass(lower@) && !text_reports_failure(lower@)),
{
    let t = chars_of(lower);
    let passed = has(&t, "passed") || has(&t, "success") || has(&t, "all tests passed") || has(
        &t,
        "verification complete",
    ) || (has(&t, "build") && has(&t, "succeeded"));
    let failed = has(&t, "failed") || has(&t, "error") || has(&t, "tests failed");
    passed && !failed
}

/// Tests whether a lowercased status word means success.
pub fn status_verdict(lower: &str) -> (r: bool)
    ensures
        r == status_is_success(lower@),
{
    let s = String::from_str(lower);
    let a = String::from_str("passed");
    let b = String::from_str("success");
    s == a || s == b
}

/// Determines the verification result from a free-text response.
pub fn parse_text_response(response: &str) -> (r: VerificationResult)
    ensures
        r.passed == (text_reports_pass(spec_lowercase(response@)) && !text_reports_failure(
            spec_lowercase(response@),
        )),
        r.details@ == response@,
        r.summary is None,
{
    let lower = to_lowercase(response);
    VerificationResult {
        passed: text_verdict(lower.as_str()),
        details: String::from_str(response),
        summary: None,
    }
}

/// The pass flag of a JSON report: the explicit flag if present, else whether the
/// lowercased status means success (false without a status).
pub open spec fn report_passed(f: VerificationFields) -> bool {
    match f.passed {
        Some(p) => p,
        None => match f.status {
            Some(s) => status_is_success(spec_lowercase(s@)),
            None => false,
        },
    }
}

/// The details of a JSON report: its details if present, else the whole response.
pub open spec fn report_details(f: VerificationFields, response: Seq<char>) -> Seq<char> {
    match f.details {
        Some(d) => d@,
        None => response,
    }
}

/// Determines the verification result from the fields of a JSON report.
pub fn result_from_fields(fields: VerificationFields, response: &str) -> (r: VerificationResult)
    ensures
        r.passed == report_passed(fields),
        r.details@ == report_details(fields, response@),
        r.summary == fields.summary,
{
    let passed = match fields.passed {
        Some(p) => p,
        None => match &fields.status {
            Some(s) => {
                let lower = to_lowercase(s.as_str());
                status_verdict(lower.as_str())
            },
            None => false,
        },
    };
    let details = match fields.details {
        Some(d) => d,
        None => String::from_str(response),
    };
    VerificationResult { passed, details, summary: fields.summary }
}

/// Determines the verification result of a response, given the fields of the JSON
/// object it holds (`None` when it holds no `{...}` piece or that piece does not parse
/// as a report): the JSON report when there is one, else the free text.
pub fn parse_verification_response(
    response: &str,
    report: Option<VerificationFields>,
) -> (r: VerificationResult)
    ensures
        match report {
            Some(f) => r.passed == report_passed(f) && r.details@ == report_details(f, response@)
                && r.summary == f.summary,
            None => r.passed == (text_reports_pass(spec_lowercase(response@))
                && !text_reports_failure(spec_lowercase(response@))) && r.details@ == response@
                && r.summary is None,
        },
{
    match report {
        Some(f) => result_from_fields(f, response),
        None => parse_text_response(response),
    }
}

/// Verifies a feature: the prompt context of the verification and the session it
/// runs with. The session itself is run by the caller.
#[derive(Debug, Clone)]
pub struct Verifier {
    working_dir: String,
    feature_id: String,
    review_issues: Vec<String>,
    session: SessionConfig,
}

impl Verifier {
    /// The working directory.
    pub closed spec fn spec_working_dir(&self) -> Seq<char> {
        self.working_dir@
    }

    /// The verified feature.
    pub closed spec fn spec_feature_id(&self) -> Seq<char> {
        self.feature_id@
    }

    /// The review issues passed on to the verification.
    pub closed spec fn spec_review_issues(&self) -> Seq<Seq<char>> {
        views(self.review_issues@)
    }

    /// The session configuration of verifications.
    pub closed spec fn spec_session(&self) -> SessionConfig {
        self.session
    }

    /// A verifier for `feature_id` in the configured working directory, with no
    /// review issues.
    pub fn new(config: &GbaConfig, feature_id: &str) -> (r: Self)
        ensures
            r.spec_working_dir() == config.working_dir@,
            r.spec_feature_id() == feature_id@,
            r.spec_review_issues().len() == 0,
            r.spec_session() == config.sessions.run_verify,
    {
        let r = Verifier {
            working_dir: config.working_dir.clone(),
            feature_id: String::from_str(feature_id),
            review_issues: Vec::new(),
            session: config.sessions.run_verify.copied(),
        };
        assert(views(r.review_issues@) =~= Seq::<Seq<char>>::empty());
        r
    }

    /// The same verifier, passing on `issues` from the review.
    pub fn with_review_issues(self, issues: Vec<String>) -> (r: Self)
        ensures
            r.spec_review_issues() == views(issues@),
            r.spec_working_dir() == self.spec_working_dir(),
            r.spec_feature_id() == self.spec_feature_id(),
            r.spec_session() == self.spec_session(),
    {
        Verifier { review_issues: issues, ..self }
    }

    /// The verified feature.
    pub fn feature_id(&self) -> (r: &str)
        ensures
            r@ == self.spec_feature_id(),
    {
        self.feature_id.as_str()
    }

    /// The session configuration of verifications.
    pub fn session(&self) -> (r: &SessionConfig)
        ensures
            *r == self.spec_session(),
    {
        &self.session
    }

    /// The context of the verification prompts, given the feature's verification
    /// plan.
    pub fn verify_context(&self, verification_plan: &str) -> (r: PromptContext)
        ensures
            r@ == (PromptContextView {
                working_dir: self.spec_working_dir(),
                feature_slug: self.spec_feature_id(),
                feature_id: self.spec_feature_id(),
                verification_plan: verification_plan@,
                review_issues: self.spec_review_issues(),
                ..empty_context()
            }),
    {
        PromptContext::new().with_working_dir(self.working_dir.as_str()).with_feature_slug(
            self.feature_id.as_str(),
        ).with_feature_id(self.feature_id.as_str()).with_verification_plan(
            verification_plan,
        ).with_review_issues(self.review_issues.clone())
    }
}

/// A free-text response that mentions a failure never passes, whatever else it says.
pub proof fn law_failure_text_never_passes(lower: Seq<char>)
    ensures
        text_reports_failure(lower) ==> !(text_reports_pass(lower) && !text_reports_failure(
            lower,
        )),
{
}

/// A lowercased response that mentions any of the pass indicators ("passed",
/// "success", "all tests passed", "verification complete", or both "build" and
/// "succeeded") and neither "failed" nor "error" is a passing verdict; one that
/// mentions none of the pass indicators never is.
pub proof fn law_pass_indicators_pass(lower: Seq<char>)
    ensures
        (contains(lower, "passed"@) || contains(lower, "success"@) || contains(
            lower,
            "all tests passed"@,
        ) || contains(lower, "verification complete"@) || (contains(lower, "build"@) && contains(
            lower,
            "succeeded"@,
        ))) && !contains(lower, "failed"@) && !contains(lower, "error"@) ==> text_reports_pass(
            lower,
        ) && !text_reports_failure(lower),
        !contains(lower, "passed"@) && !contains(lower, "success"@) && !contains(
            lower,
            "all tests passed"@,
        ) && !contains(lower, "verification complete"@) && !(contains(lower, "build"@)
            && contains(lower, "succeeded"@)) ==> !text_reports_pass(lower),
{
    reveal_strlit("tests failed");
    reveal_strlit("failed");
    assert("tests failed"@.subrange(6, 12) =~= "failed"@);
    lemma_contains_suffix(lower, "tests failed"@, "failed"@, 6);
}

/// A text that contains `p` contains every piece of `p`: here the piece of `p` that
/// starts at `k` and is `q`.
proof fn lemma_contains_suffix(s: Seq<char>, p: Seq<char>, q: Seq<char>, k: int)
    requires
        0 <= k,
        k + q.len() <= p.len(),
        p.subrange(k, k + q.len()) == q,
    ensures
        contains(s, p) ==> contains(s, q),
{
    if contains(s, p) {
        let i = choose|i: int| 0 <= i <= s.len() - p.len() && #[trigger] s.subrange(i, i + p.len()) == p;
        assert(s.subrange(i + k, i + k + q.len()) =~= p.subrange(k, k + q.len()));
    }
}

} // verus!

verus! {

/// The JSON object a verification response holds: the piece from its first `{` to
/// its last `}`, if both occur.
pub fn verification_json(response: &str) -> (r: Option<String>)
    requires
        crate::text::brackets_ordered(response@, '{', '}'),
    ensures
        match r {
            Some(x) => crate::text::spec_bracketed(response@, '{', '}') == Some(x@),
            None => crate::text::spec_bracketed(response@, '{', '}') is None,
        },
{
    crate::text::bracketed_slice(response, '{', '}')
}

} // verus!
