//! Prompt construction: substituting a change's diff into the configured
//! base prompt and appending the allowed commit types, the output format
//! requirements and the example messages, in that fixed order. Building a
//! prompt is a pure function of the diff, the template and the base prompt.
use vstd::prelude::*;

use crate::config::LocalTemplate;
use crate::text::{
    dec_str, first_occurrence, has_occurrence, join_seqs, join_strings, occurs_at, replace_all,
    replace_all_str, replace_first, replace_first_str, usize_to_string,
};

verus! {

/// The placeholder inside a base or audit prompt that the diff replaces.
pub open spec fn diff_placeholder() -> Seq<char> {
    "{{git_diff}}"@
}

/// The prompt that one change's diff, template block and base prompt
/// produce: the diff substituted for the placeholder, then the allowed
/// commit types, the output format with its length cap, and the examples.
pub open spec fn built_prompt(
    diff: Seq<char>,
    types: Seq<Seq<char>>,
    template: Seq<char>,
    max_length: nat,
    examples: Seq<Seq<char>>,
    base: Seq<char>,
) -> Seq<char> {
    replace_first(base, diff_placeholder(), diff) + "\n\nAllowed commit types:\n- "@ + join_seqs(
        types,
        "\n- "@,
    ) + "\n\nOutput format requirements:"@ + "\n- Follow this template: "@ + template
        + "\n- Maximum length: "@ + dec_str(max_length) + " characters"@
        + "\n\nExample commits:\n- "@ + join_seqs(examples, "\n- "@)
}

/// The audit prompt: the diff substituted for every placeholder
/// occurrence in the audit template.
pub open spec fn built_audit_prompt(diff: Seq<char>, audit_template: Seq<char>) -> Seq<char> {
    replace_all(audit_template, diff_placeholder(), diff)
}

/// Builds the message-generation prompt for one change.
pub fn build_file_prompt(diff: &str, templates: &LocalTemplate, base_prompt: &str) -> (r: String)
    ensures
        r@ == built_prompt(
            diff@,
            templates.commit_types.deep_view(),
            templates.output_format.template@,
            templates.output_format.max_length as nat,
            templates.output_format.examples.deep_view(),
            base_prompt@,
        ),
{
    let mut out = replace_first_str(base_prompt, "{{git_diff}}", diff);
    out.append("\n\nAllowed commit types:\n- ");
    let types = join_strings(&templates.commit_types, "\n- ");
    out.append(types.as_str());
    out.append("\n\nOutput format requirements:");
    out.append("\n- Follow this template: ");
    out.append(templates.output_format.template.as_str());
    out.append("\n- Maximum length: ");
    let cap = usize_to_string(templates.output_format.max_length);
    out.append(cap.as_str());
    out.append(" characters");
    out.append("\n\nExample commits:\n- ");
    let examples = join_strings(&templates.output_format.examples, "\n- ");
    out.append(examples.as_str());
    out
}

/// Builds the audit prompt for one change.
pub fn build_audit_prompt(diff: &str, audit_template: &str) -> (r: String)
    ensures
        r@ == built_audit_prompt(diff@, audit_template@),
{
    replace_all_str(audit_template, "{{git_diff}}", diff)
}

/// Prompt construction is deterministic: the same diff, template block and
/// base prompt always produce the same prompt.
pub proof fn lemma_prompt_deterministic(
    diff1: Seq<char>,
    types1: Seq<Seq<char>>,
    template1: Seq<char>,
    max_length1: nat,
    examples1: Seq<Seq<char>>,
    base1: Seq<char>,
    diff2: Seq<char>,
    types2: Seq<Seq<char>>,
    template2: Seq<char>,
    max_length2: nat,
    examples2: Seq<Seq<char>>,
    base2: Seq<char>,
)
    requires
        diff1 == diff2,
        types1 == types2,
        template1 == template2,
        max_length1 == max_length2,
        examples1 == examples2,
        base1 == base2,
    ensures
        built_prompt(diff1, types1, template1, max_length1, examples1, base1) == built_prompt(
            diff2,
            types2,
            template2,
            max_length2,
            examples2,
            base2,
        ),
{
}

/// The diff is substituted exactly once: when the base prompt holds the
/// placeholder, the substituted part of the built prompt is the base with
/// the diff in place of the placeholder's least occurrence, the rest of
/// the base kept as it stands on either side.
pub proof fn lemma_substitution_once(diff: Seq<char>, base: Seq<char>)
    requires
        has_occurrence(base, diff_placeholder()),
    ensures
        ({
            let i = first_occurrence(base, diff_placeholder());
            &&& occurs_at(base, diff_placeholder(), i)
            &&& forall|j: int| 0 <= j < i ==> !occurs_at(base, diff_placeholder(), j)
            &&& replace_first(base, diff_placeholder(), diff) == base.subrange(0, i) + diff
                + base.subrange(i + diff_placeholder().len() as int, base.len() as int)
        }),
{
    crate::text::lemma_first_occurrence(base, diff_placeholder());
}

} // verus!
