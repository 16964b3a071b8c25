//! The audit gate's data: structured findings parsed out of a backend's
//! audit response, and the check for critical findings. The response text
//! has any code-fence markers stripped and is then read as a JSON list of
//! finding records; anything else is a parse failure.
use vstd::prelude::*;

use crate::json::{
    JsonValue, as_str_value, get_field, parse_json, parsed_json, spec_as_str, spec_get,
};
use crate::text::{dec_str, replace_all, replace_all_str, str_eq, usize_to_string};

verus! {

/// The abstract content of one audit finding.
pub ghost struct AuditIssueRep {
    pub severity: Seq<char>,
    pub title: Seq<char>,
    pub impact: Seq<char>,
    pub context: Seq<char>,
    pub suggestion: Seq<char>,
}

/// One structured finding reported by an audit pass.
#[derive(Clone, Debug)]
pub struct AuditIssueJson {
    pub severity: String,
    pub title: String,
    pub impact: String,
    pub context: String,
    pub suggestion: String,
}

impl View for AuditIssueJson {
    type V = AuditIssueRep;

    open spec fn view(&self) -> AuditIssueRep {
        AuditIssueRep {
            severity: self.severity@,
            title: self.title@,
            impact: self.impact@,
            context: self.context@,
            suggestion: self.suggestion@,
        }
    }
}

impl DeepView for AuditIssueJson {
    type V = AuditIssueRep;

    open spec fn deep_view(&self) -> AuditIssueRep {
        self@
    }
}

/// A failure to read a backend response as structured findings.
#[derive(Clone, Debug)]
pub struct ParseFailure {
    pub message: String,
}

/// The outcome of one audit pass: the findings and a summary line.
#[derive(Clone, Debug)]
pub struct AuditResult {
    pub issues: Vec<AuditIssueJson>,
    pub summary: String,
}

impl AuditResult {
    /// True exactly when some finding's severity is the word CRITICAL,
    /// matched case-sensitively; an empty finding list has none.
    pub fn has_critical_issues(&self) -> (r: bool)
        ensures
            r == exists|i: int|
                0 <= i < self.issues@.len() && (#[trigger] self.issues@[i]).severity@
                    == "CRITICAL"@,
    {
        let n = self.issues.len();
        let mut i: usize = 0;
        while i < n
            invariant
                n == self.issues@.len(),
                i <= n,
                forall|k: int|
                    0 <= k < i ==> (#[trigger] self.issues@[k]).severity@ != "CRITICAL"@,
            decreases n - i,
        {
            if str_eq(self.issues[i].severity.as_str(), "CRITICAL") {
                return true;
            }
            i += 1;
        }
        false
    }
}

/// The audit response with any code-fence markers stripped.
pub open spec fn stripped_response(response: Seq<char>) -> Seq<char> {
    replace_all(replace_all(response, "```json"@, ""@), "```"@, ""@)
}

/// The string under a key of a JSON object, if the key holds a string.
pub open spec fn field_str(v: JsonValue, key: Seq<char>) -> Option<Seq<char>> {
    match spec_get(v, key) {
        Some(f) => spec_as_str(f),
        None => None,
    }
}

/// The finding that one JSON value describes: an object whose five fields
/// are all present and all strings.
pub open spec fn issue_of_json(v: JsonValue) -> Option<AuditIssueRep> {
    if field_str(v, "severity"@) is Some && field_str(v, "title"@) is Some && field_str(
        v,
        "impact"@,
    ) is Some && field_str(v, "context"@) is Some && field_str(v, "suggestion"@) is Some {
        Some(
            AuditIssueRep {
                severity: field_str(v, "severity"@)->0,
                title: field_str(v, "title"@)->0,
                impact: field_str(v, "impact"@)->0,
                context: field_str(v, "context"@)->0,
                suggestion: field_str(v, "suggestion"@)->0,
            },
        )
    } else {
        None
    }
}

/// The findings that a parsed document describes: a JSON list each of
/// whose elements describes a finding.
pub open spec fn issues_of_json(v: JsonValue) -> Option<Seq<AuditIssueRep>> {
    match v {
        JsonValue::Array(items) => if forall|i: int|
            0 <= i < items@.len() ==> #[trigger] issue_of_json(items@[i]) is Some {
            Some(Seq::new(items@.len(), |i: int| issue_of_json(items@[i])->0))
        } else {
            None
        },
        _ => None,
    }
}

/// What parsing an audit response yields: the findings and the summary
/// line, or nothing when the stripped text is not a valid list of
/// findings.
pub open spec fn audit_parse_spec(response: Seq<char>) -> Option<(Seq<AuditIssueRep>, Seq<char>)> {
    match parsed_json(stripped_response(response)) {
        Some(doc) => match issues_of_json(doc) {
            Some(issues) => Some((issues, "Found "@ + dec_str(issues.len()) + " issues"@)),
            None => None,
        },
        None => None,
    }
}

fn issue_from_value(v: &JsonValue) -> (r: Option<AuditIssueJson>)
    ensures
        match r {
            Some(iss) => issue_of_json(*v) == Some(iss@),
            None => issue_of_json(*v) is None,
        },
{
    let severity = match get_field(v, "severity") {
        Some(f) => match as_str_value(f) {
            Some(s) => s.clone(),
            None => { return None; },
        },
        None => { return None; },
    };
    let title = match get_field(v, "title") {
        Some(f) => match as_str_value(f) {
            Some(s) => s.clone(),
            None => { return None; },
        },
        None => { return None; },
    };
    let impact = match get_field(v, "impact") {
        Some(f) => match as_str_value(f) {
            Some(s) => s.clone(),
            None => { return None; },
        },
        None => { return None; },
    };
    let context = match get_field(v, "context") {
        Some(f) => match as_str_value(f) {
            Some(s) => s.clone(),
            None => { return None; },
        },
        None => { return None; },
    };
    let suggestion = match get_field(v, "suggestion") {
        Some(f) => match as_str_value(f) {
            Some(s) => s.clone(),
            None => { return None; },
        },
        None => { return None; },
    };
    Some(AuditIssueJson { severity, title, impact, context, suggestion })
}

/// Parses a backend's audit response: strips code-fence markers, reads the
/// rest as a JSON list of finding records, and reports how many were
/// found. Fails exactly when the stripped text is not such a list.
#[verifier::rlimit(60)]
pub fn parse_audit_response(response: &str) -> (r: Result<AuditResult, ParseFailure>)
    ensures
        r is Ok <==> audit_parse_spec(response@) is Some,
        r matches Ok(res) ==> {
            &&& res.issues.deep_view() == (audit_parse_spec(response@)->0).0
            &&& res.summary@ == (audit_parse_spec(response@)->0).1
        },
{
    let without_fence = replace_all_str(response, "```json", "");
    let stripped = replace_all_str(without_fence.as_str(), "```", "");
    let doc = match parse_json(stripped.as_str()) {
        Ok(doc) => doc,
        Err(e) => { return Err(ParseFailure { message: e }); },
    };
    match doc {
        JsonValue::Array(items) => {
            let n = items.len();
            let mut issues: Vec<AuditIssueJson> = Vec::new();
            let mut i: usize = 0;
            while i < n
                invariant
                    n == items@.len(),
                    i <= n,
                    issues@.len() == i,
                    parsed_json(stripped_response(response@)) == Some(JsonValue::Array(items)),
                    forall|k: int| 0 <= k < i ==> #[trigger] issue_of_json(items@[k]) is Some,
                    forall|k: int|
                        0 <= k < i ==> issue_of_json(items@[k]) == Some(
                            (#[trigger] issues@[k])@,
                        ),
                decreases n - i,
            {
                match issue_from_value(&items[i]) {
                    Some(iss) => { issues.push(iss); },
                    None => {
                        assert(issues_of_json(JsonValue::Array(items)) is None) by {
                            assert(!(issue_of_json(items@[i as int]) is Some));
                        }
                        return Err(
                            ParseFailure {
                                message: "audit response is not a list of findings".to_owned(),
                            },
                        );
                    },
                }
                i += 1;
            }
            let mut summary = "Found ".to_owned();
            let count = usize_to_string(issues.len());
            summary.append(count.as_str());
            summary.append(" issues");
            let ghost spec_issues = issues_of_json(JsonValue::Array(items))->0;
            assert(issues_of_json(JsonValue::Array(items)) is Some);
            assert(issues.deep_view() =~= spec_issues);
            Ok(AuditResult { issues, summary })
        },
        _ => Err(ParseFailure { message: "audit response is not a JSON list".to_owned() }),
    }
}

} // verus!
