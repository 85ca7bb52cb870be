//! Transactional configuration changes.
//!
//! Full replacement (backup, write, validate, roll back on rejection)
//! and incremental provider append (duplicate detection, section build,
//! append) are decided here over plain text values; the surrounding
//! application performs the file reads, writes and copies these
//! decisions call for.

use vstd::prelude::*;

use crate::render::client_opt_lines;
use crate::render::header_token;
use crate::render::lemma_unlines_app;
use crate::render::provider_comment_line;
use crate::render::provider_core_lines;
use crate::render::unlines;
use crate::render::append_core_lines;
use crate::text::concat2;
use crate::text::concat3;
use crate::text::contains_str;
use crate::text::has_substring;
use crate::types::AddProviderRequest;
use crate::types::AddProviderResponse;
use crate::types::Provider;
use crate::types::RequestError;
use crate::types::UpdateConfigResponse;
use crate::types::ValidationResult;

verus! {

/// The file content after a full-update transaction: the new content
/// when the validator accepted it, the pre-call content otherwise.
pub open spec fn update_outcome_content(current: Seq<char>, newc: Seq<char>, accepted: bool) -> Seq<
    char,
> {
    if accepted {
        newc
    } else {
        current
    }
}

/// Rollback: when the validator rejects the new content, the
/// transaction leaves the file content exactly as it was before the
/// call.
pub proof fn lemma_update_rollback(current: Seq<char>, newc: Seq<char>)
    ensures
        update_outcome_content(current, newc, false) == current,
{
}

/// Idempotence: running the full-update transaction a second time with
/// the same new content and the same verdict does not change the file
/// content any further.
pub proof fn lemma_update_idempotent(current: Seq<char>, newc: Seq<char>, accepted: bool)
    ensures
        update_outcome_content(update_outcome_content(current, newc, accepted), newc, accepted)
            == update_outcome_content(current, newc, accepted),
{
}

/// Step 4 of the full update: given the validator's verdict on the
/// newly written content, says whether the backup must be copied back
/// (`r.0`) and reports the outcome.
pub fn update_after_validation(v: &ValidationResult) -> (r: (bool, UpdateConfigResponse))
    ensures
        r.0 == (v is Invalid),
        r.1.success == (v is Valid),
        v is Valid ==> r.1.message@ == "Configuration updated successfully"@,
        v matches ValidationResult::Invalid(d) ==> r.1.message@ == "Invalid configuration: "@
            + d@,
{
    match v {
        ValidationResult::Valid => (
            false,
            UpdateConfigResponse {
                success: true,
                message: String::from_str("Configuration updated successfully"),
            },
        ),
        ValidationResult::Invalid(d) => (
            true,
            UpdateConfigResponse {
                success: false,
                message: concat2("Invalid configuration: ", d.as_str()),
            },
        ),
    }
}

/// The whole full-update transaction at the level of file content:
/// given the pre-call content, the caller-supplied new content and the
/// validator's verdict on it, returns the content the file holds after
/// the operation, together with the response.  The content is either
/// the new text or byte-identical to the pre-call text, never anything
/// in between.
pub fn apply_update_transaction(current: &String, newc: &String, v: &ValidationResult) -> (r: (
    String,
    UpdateConfigResponse,
))
    ensures
        r.0@ == update_outcome_content(current@, newc@, v is Valid),
        r.1.success == (v is Valid),
        v is Valid ==> r.1.message@ == "Configuration updated successfully"@,
        v matches ValidationResult::Invalid(d) ==> r.1.message@ == "Invalid configuration: "@
            + d@,
{
    let (restore, resp) = update_after_validation(v);
    if restore {
        (current.clone(), resp)
    } else {
        (newc.clone(), resp)
    }
}

/// Failure of step 1 of the full update (the backup): the operation
/// aborts with no side effect.
pub fn update_backup_failed_response(e: &str) -> (r: UpdateConfigResponse)
    ensures
        !r.success,
        r.message@ == "Failed to backup config: "@ + e@,
{
    UpdateConfigResponse { success: false, message: concat2("Failed to backup config: ", e) }
}

/// Failure of step 2 of the full update (the write): the operation
/// aborts; the backup stays behind, harmless.
pub fn update_write_failed_response(e: &str) -> (r: UpdateConfigResponse)
    ensures
        !r.success,
        r.message@ == "Failed to write config: "@ + e@,
{
    UpdateConfigResponse { success: false, message: concat2("Failed to write config: ", e) }
}

/// The text appended for one new provider: a separating line break,
/// then the section's core lines.
pub open spec fn provider_section_text(p: Provider) -> Seq<char> {
    seq!['\n'] + unlines(provider_core_lines(p))
}

/// Builds the section text that `add_provider` appends for `p`.
pub fn build_provider_section(p: &Provider) -> (r: String)
    ensures
        r@ == provider_section_text(*p),
{
    let mut out = String::from_str("\n");
    proof {
        reveal_strlit("\n");
        assert(out@ =~= seq!['\n']);
    }
    append_core_lines(&mut out, p);
    out
}

/// Decides whether a configuration already defines a provider named
/// `name`, by the presence of its bracketed section header.
pub fn config_defines_provider(existing: &str, name: &str) -> (r: bool)
    ensures
        r == has_substring(existing@, header_token(name@)),
{
    let tok = concat3("[", name, "]");
    proof {
        assert(tok@ =~= header_token(name@));
    }
    contains_str(existing, tok.as_str())
}

/// Outcome of the provider-append decision: either the name is already
/// taken and the prepared failure response is returned, or the full
/// candidate content to write is handed back.
pub enum AddDecision {
    Duplicate(AddProviderResponse),
    Append(String),
}

/// Decides an add-provider request against the current file content:
/// rejects a name whose section header is already present, otherwise
/// produces the candidate content, the old text with the new section
/// appended.
pub fn add_provider_decide(existing: &String, p: &Provider) -> (r: AddDecision)
    ensures
        (r is Duplicate) <==> has_substring(existing@, header_token(p.name@)),
        r matches AddDecision::Duplicate(resp) ==> !resp.success
            && resp.message@ == "Provider "@ + p.name@ + " already exists in config"@
            && resp.updated_config@.len() == 0,
        r matches AddDecision::Append(u) ==> u@ == existing@ + provider_section_text(*p)
            && has_substring(u@, header_token(p.name@)),
{
    proof {
        lemma_readded_provider_is_duplicate(existing@, *p);
    }
    if config_defines_provider(existing.as_str(), p.name.as_str()) {
        AddDecision::Duplicate(
            AddProviderResponse {
                success: false,
                message: concat3("Provider ", p.name.as_str(), " already exists in config"),
                updated_config: String::new(),
            },
        )
    } else {
        let section = build_provider_section(p);
        let updated = existing.clone().concat(section.as_str());
        AddDecision::Append(updated)
    }
}

/// Extracts the provider payload of an add-provider request; its
/// absence is the one invalid-argument failure of the service.
pub fn take_provider(req: AddProviderRequest) -> (r: Result<(Provider, bool), RequestError>)
    ensures
        (r is Ok) <==> (req.provider is Some),
        r matches Ok((p, ai)) ==> req.provider == Some(p) && ai == req.apply_immediately,
        r is Err ==> r matches Err(RequestError::MissingProvider),
{
    match req.provider {
        Some(p) => Ok((p, req.apply_immediately)),
        None => Err(RequestError::MissingProvider),
    }
}

/// Response when the current configuration could not be read: a
/// read-error, reported distinctly from validation problems.
pub fn add_read_failed_response(e: &str) -> (r: AddProviderResponse)
    ensures
        !r.success,
        r.message@ == "Failed to read existing config: "@ + e@,
        r.updated_config@.len() == 0,
{
    AddProviderResponse {
        success: false,
        message: concat2("Failed to read existing config: ", e),
        updated_config: String::new(),
    }
}

/// Response when the pre-edit backup failed: no write is performed.
pub fn add_backup_failed_response(e: &str) -> (r: AddProviderResponse)
    ensures
        !r.success,
        r.message@ == "Failed to backup config: "@ + e@,
        r.updated_config@.len() == 0,
{
    AddProviderResponse {
        success: false,
        message: concat2("Failed to backup config: ", e),
        updated_config: String::new(),
    }
}

/// Response when writing the appended content failed.
pub fn add_write_failed_response(e: &str) -> (r: AddProviderResponse)
    ensures
        !r.success,
        r.message@ == "Failed to write updated config: "@ + e@,
        r.updated_config@.len() == 0,
{
    AddProviderResponse {
        success: false,
        message: concat2("Failed to write updated config: ", e),
        updated_config: String::new(),
    }
}

/// Success response of add-provider: the full updated text goes back to
/// the caller for confirmation.
pub fn add_success_response(name: &str, updated: String) -> (r: AddProviderResponse)
    ensures
        r.success,
        r.message@ == "Provider "@ + name@ + " added successfully"@,
        r.updated_config@ == updated@,
{
    AddProviderResponse {
        success: true,
        message: concat3("Provider ", name, " added successfully"),
        updated_config: updated,
    }
}

/// The section text built for a provider contains that provider's
/// bracketed header.
pub proof fn lemma_section_contains_header(p: Provider)
    ensures
        has_substring(provider_section_text(p), header_token(p.name@)),
{
    reveal_strlit("; ");
    reveal_strlit(" service");
    let name = p.name@;
    let c = provider_comment_line(name);
    let h = header_token(name);
    let tail = client_opt_lines(p) + seq![
        crate::render::accept_line(p.accept_port),
        crate::render::connect_line(p.connect_host@, p.connect_port),
    ];
    assert(provider_core_lines(p) =~= seq![c, h] + tail);
    lemma_unlines_app(seq![c, h], tail);
    reveal_with_fuel(unlines, 3);
    assert(seq![c, h].drop_first() =~= seq![h]);
    assert(seq![h].drop_first() =~= Seq::<Seq<char>>::empty());
    assert(unlines(seq![c, h]) =~= c + seq!['\n'] + h + seq!['\n']);
    let text = provider_section_text(p);
    assert(text =~= seq!['\n'] + c + seq!['\n'] + h + seq!['\n'] + unlines(tail));
    let off = 2 + c.len() as int;
    assert(text.subrange(off, off + h.len()) =~= h);
    assert(has_substring(text, h));
}

/// A substring of `b` is a substring of `a + b`.
pub proof fn lemma_has_substring_append_left(a: Seq<char>, b: Seq<char>, t: Seq<char>)
    requires
        has_substring(b, t),
    ensures
        has_substring(a + b, t),
{
    let i = choose|i: int| 0 <= i && i + t.len() <= b.len() && #[trigger] b.subrange(i, i + t.len())
        == t;
    assert((a + b).subrange(a.len() + i, a.len() + i + t.len()) =~= b.subrange(i, i + t.len()));
}

/// Re-adding a provider after a successful add must fail as a
/// duplicate: the content produced by appending `p`'s section contains
/// `p`'s header, which is exactly what the duplicate check looks for.
pub proof fn lemma_readded_provider_is_duplicate(existing: Seq<char>, p: Provider)
    ensures
        has_substring(existing + provider_section_text(p), header_token(p.name@)),
{
    lemma_section_contains_header(p);
    lemma_has_substring_append_left(existing, provider_section_text(p), header_token(p.name@));
}

} // verus!
