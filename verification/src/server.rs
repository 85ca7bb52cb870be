//! The service's own state: the configured paths of the active
//! configuration file and of the PID file, and the request-level
//! operations that need them.

use vstd::prelude::*;

use crate::render::render_config;
use crate::render::spec_render_config;
use crate::text::concat2;
use crate::text::line_free;
use crate::types::GenerateConfigRequest;
use crate::types::GenerateConfigResponse;

verus! {

/// The control-plane service.  It holds no state about the supervised
/// process itself: only the two well-known paths.  Everything else is
/// re-derived from the file system and the PID file on each call.
pub struct StunnelServer {
    config_path: String,
    pid_file: String,
}

impl StunnelServer {
    /// The configured path of the active configuration file.
    pub closed spec fn spec_config_path(&self) -> Seq<char> {
        self.config_path@
    }

    /// The configured path of the PID file.
    pub closed spec fn spec_pid_file(&self) -> Seq<char> {
        self.pid_file@
    }

    pub fn new(config_path: String, pid_file: String) -> (s: Self)
        ensures
            s.spec_config_path() == config_path@,
            s.spec_pid_file() == pid_file@,
    {
        Self { config_path, pid_file }
    }

    /// The path of the active configuration file.
    pub fn config_path(&self) -> (r: &String)
        ensures
            r@ == self.spec_config_path(),
    {
        &self.config_path
    }

    /// The path of the PID file of the supervised process.
    pub fn pid_file(&self) -> (r: &String)
        ensures
            r@ == self.spec_pid_file(),
    {
        &self.pid_file
    }

    /// A request may override the config path; an empty override means
    /// the service's configured path.
    pub fn resolve_config_path(&self, requested: &str) -> (r: String)
        ensures
            requested@.len() > 0 ==> r@ == requested@,
            requested@.len() == 0 ==> r@ == self.spec_config_path(),
    {
        if requested.is_empty() {
            self.config_path.clone()
        } else {
            String::from_str(requested)
        }
    }

    /// Renders the configuration a generation request asks for, with a
    /// fresh issuance timestamp in its header comment.  The text is
    /// exactly the rendering of the request under some single-line
    /// timestamp.
    pub fn render_generated_config(&self, req: &GenerateConfigRequest) -> (r: String)
        ensures
            exists|ts: Seq<char>|
                line_free(ts) && r@ == #[trigger] spec_render_config(
                    req.settings,
                    req.providers@,
                    ts,
                ),
    {
        let ts = now_rfc3339();
        render_config(&req.settings, &req.providers, ts.as_str())
    }
}

/// Relies on chrono's `Utc::now().to_rfc3339()`: an RFC 3339 timestamp
/// such as `2014-11-28T12:00:09+00:00`, a single line of text with no
/// line break in it.  Nothing else is assumed of the current time.
#[verifier::external_body]
fn now_rfc3339() -> (r: String)
    ensures
        line_free(r@),
{
    chrono::Utc::now().to_rfc3339()
}

/// Response when the generated text could not be written.  Generation
/// is the full-reset path: no backup is taken, and a failed write
/// reports failure with no content.
pub fn generate_write_failed_response(e: &str) -> (r: GenerateConfigResponse)
    ensures
        !r.success,
        r.message@ == "Failed to write config file: "@ + e@,
        r.config_content@.len() == 0,
        r.config_path@.len() == 0,
{
    GenerateConfigResponse {
        success: false,
        message: concat2("Failed to write config file: ", e),
        config_content: String::new(),
        config_path: String::new(),
    }
}

/// Success response of generation: the written text and its path go
/// back to the caller.  A validation warning after the write does not
/// change this outcome; generation stands once the file is written.
pub fn generate_success_response(content: String, path: &str) -> (r: GenerateConfigResponse)
    ensures
        r.success,
        r.message@ == "Configuration generated successfully"@,
        r.config_content@ == content@,
        r.config_path@ == path@,
{
    GenerateConfigResponse {
        success: true,
        message: String::from_str("Configuration generated successfully"),
        config_content: content,
        config_path: String::from_str(path),
    }
}

} // verus!
