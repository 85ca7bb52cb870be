//! Rendering of the tunnel's text configuration.
//!
//! The document is specified line by line: `config_lines` gives the exact
//! sequence of lines for a generation request, and `unlines` joins them,
//! each followed by a line break.  The executable renderer is proved to
//! produce exactly that text.

use vstd::prelude::*;

use crate::text::dec_digits;
use crate::text::u32_to_dec;
use crate::types::GlobalSettings;
use crate::types::Provider;

verus! {

pub open spec fn blank_line() -> Seq<char> {
    Seq::empty()
}

pub open spec fn banner_line() -> Seq<char> {
    "; Stunnel configuration generated by Rust gRPC server"@
}

pub open spec fn generated_line(ts: Seq<char>) -> Seq<char> {
    "; Generated at: "@ + ts
}

pub open spec fn foreground_line() -> Seq<char> {
    "foreground = yes"@
}

pub open spec fn debug_line() -> Seq<char> {
    "debug = 7"@
}

/// The pid line names the requested PID file, or the conventional
/// default when the request leaves it empty.
pub open spec fn effective_pid_file(g: GlobalSettings) -> Seq<char> {
    if g.pid_file@.len() == 0 {
        "/var/run/stunnel.pid"@
    } else {
        g.pid_file@
    }
}

pub open spec fn pid_line(g: GlobalSettings) -> Seq<char> {
    "pid = "@ + effective_pid_file(g)
}

pub open spec fn cert_line(g: GlobalSettings) -> Seq<char> {
    "cert = "@ + g.cert_path@
}

pub open spec fn key_line(g: GlobalSettings) -> Seq<char> {
    "key = "@ + g.key_path@
}

pub open spec fn cafile_line(g: GlobalSettings) -> Seq<char> {
    "CAfile = "@ + g.ca_path@
}

pub open spec fn verify_line() -> Seq<char> {
    "verify = 2"@
}

pub open spec fn provider_comment_line(name: Seq<char>) -> Seq<char> {
    "; "@ + name + " service"@
}

/// The bracketed section header, `[name]`; also the token whose presence
/// in a configuration marks the provider as already defined.
pub open spec fn header_token(name: Seq<char>) -> Seq<char> {
    "["@ + name + "]"@
}

pub open spec fn client_line() -> Seq<char> {
    "client = yes"@
}

pub open spec fn accept_line(port: u32) -> Seq<char> {
    "accept = 127.0.0.1:"@ + dec_digits(port as nat)
}

pub open spec fn connect_line(host: Seq<char>, port: u32) -> Seq<char> {
    "connect = "@ + host + ":"@ + dec_digits(port as nat)
}

/// The optional `foreground = yes` line.
pub open spec fn foreground_opt_lines(g: GlobalSettings) -> Seq<Seq<char>> {
    if g.foreground {
        seq![foreground_line()]
    } else {
        Seq::empty()
    }
}

/// The optional `cert` line: omitted entirely for an empty path.
pub open spec fn cert_opt_lines(g: GlobalSettings) -> Seq<Seq<char>> {
    if g.cert_path@.len() > 0 {
        seq![cert_line(g)]
    } else {
        Seq::empty()
    }
}

/// The optional `key` line: omitted entirely for an empty path.
pub open spec fn key_opt_lines(g: GlobalSettings) -> Seq<Seq<char>> {
    if g.key_path@.len() > 0 {
        seq![key_line(g)]
    } else {
        Seq::empty()
    }
}

/// The optional CA lines.  A present CA path forces peer-certificate
/// verification on: `CAfile` and `verify = 2` are emitted together.
pub open spec fn ca_opt_lines(g: GlobalSettings) -> Seq<Seq<char>> {
    if g.ca_path@.len() > 0 {
        seq![cafile_line(g), verify_line()]
    } else {
        Seq::empty()
    }
}

/// The lines before the first provider section, in order: banner and
/// timestamp comments, a blank line, the optional and fixed global keys,
/// and a closing blank line.
pub open spec fn global_lines(g: GlobalSettings, ts: Seq<char>) -> Seq<Seq<char>> {
    seq![banner_line(), generated_line(ts), blank_line()] + foreground_opt_lines(g) + seq![
        debug_line(),
        pid_line(g),
    ] + cert_opt_lines(g) + key_opt_lines(g) + ca_opt_lines(g) + seq![blank_line()]
}

/// The optional `client = yes` line: present exactly for client-mode
/// providers.
pub open spec fn client_opt_lines(p: Provider) -> Seq<Seq<char>> {
    if p.is_client {
        seq![client_line()]
    } else {
        Seq::empty()
    }
}

/// The lines of one provider section, without the blank separator that
/// follows it in a generated document: a comment, the header, the
/// optional client flag, and the accept and connect assignments.
pub open spec fn provider_core_lines(p: Provider) -> Seq<Seq<char>> {
    seq![provider_comment_line(p.name@), header_token(p.name@)] + client_opt_lines(p) + seq![
        accept_line(p.accept_port),
        connect_line(p.connect_host@, p.connect_port),
    ]
}

/// One provider section as generated: its core lines plus the blank
/// separator line.
pub open spec fn provider_lines(p: Provider) -> Seq<Seq<char>> {
    provider_core_lines(p).push(blank_line())
}

/// Sections for all providers, in the order supplied.
pub open spec fn providers_lines(ps: Seq<Provider>) -> Seq<Seq<char>>
    decreases ps.len(),
{
    if ps.len() == 0 {
        Seq::empty()
    } else {
        providers_lines(ps.drop_last()) + provider_lines(ps.last())
    }
}

/// Every line of a generated configuration, in order.
pub open spec fn config_lines(g: GlobalSettings, ps: Seq<Provider>, ts: Seq<char>) -> Seq<Seq<char>> {
    global_lines(g, ts) + providers_lines(ps)
}

/// Joins lines into a document: every line is followed by a line break.
pub open spec fn unlines(ls: Seq<Seq<char>>) -> Seq<char>
    decreases ls.len(),
{
    if ls.len() == 0 {
        Seq::empty()
    } else {
        ls[0] + seq!['\n'] + unlines(ls.drop_first())
    }
}

/// The full text of a generated configuration.
pub open spec fn spec_render_config(g: GlobalSettings, ps: Seq<Provider>, ts: Seq<char>) -> Seq<char> {
    unlines(config_lines(g, ps, ts))
}

pub proof fn lemma_unlines_push(ls: Seq<Seq<char>>, l: Seq<char>)
    ensures
        unlines(ls.push(l)) == unlines(ls) + l + seq!['\n'],
    decreases ls.len(),
{
    reveal_with_fuel(unlines, 3);
    if ls.len() == 0 {
        assert(ls.push(l).drop_first() =~= Seq::<Seq<char>>::empty());
        assert(ls.push(l)[0] == l);
        assert(unlines(ls.push(l)) =~= unlines(ls) + l + seq!['\n']);
    } else {
        assert(ls.push(l).drop_first() =~= ls.drop_first().push(l));
        lemma_unlines_push(ls.drop_first(), l);
        assert(unlines(ls.push(l)) =~= unlines(ls) + l + seq!['\n']);
    }
}

pub proof fn lemma_unlines_app(a: Seq<Seq<char>>, b: Seq<Seq<char>>)
    ensures
        unlines(a + b) == unlines(a) + unlines(b),
    decreases a.len(),
{
    reveal_with_fuel(unlines, 3);
    if a.len() == 0 {
        assert(a + b =~= b);
        assert(unlines(a + b) =~= unlines(a) + unlines(b));
    } else {
        assert((a + b).drop_first() =~= a.drop_first() + b);
        lemma_unlines_app(a.drop_first(), b);
        assert((a + b)[0] == a[0]);
        assert(unlines(a + b) =~= unlines(a) + unlines(b));
    }
}

/// Appends `line` and a line break to `out`.
fn push_line(out: &mut String, line: &str)
    ensures
        final(out)@ == old(out)@ + line@ + seq!['\n'],
{
    out.append(line);
    out.append("\n");
    proof {
        reveal_strlit("\n");
        assert(out@ =~= old(out)@ + line@ + seq!['\n']);
    }
}

/// Renders the full configuration document for the given settings and
/// providers, with `ts` as the issuance timestamp of the header comment.
pub fn render_config(g: &GlobalSettings, providers: &Vec<Provider>, ts: &str) -> (r: String)
    ensures
        r@ == spec_render_config(*g, providers@, ts@),
{
    let mut out = String::new();
    let ghost mut ls: Seq<Seq<char>> = Seq::empty();
    proof {
        reveal_strlit("");
        assert(out@ =~= unlines(ls));
    }

    push_line(&mut out, "; Stunnel configuration generated by Rust gRPC server");
    proof {
        lemma_unlines_push(ls, banner_line());
        ls = ls.push(banner_line());
    }

    let mut gen: String = String::from_str("; Generated at: ");
    gen.append(ts);
    push_line(&mut out, gen.as_str());
    proof {
        lemma_unlines_push(ls, generated_line(ts@));
        ls = ls.push(generated_line(ts@));
    }

    push_line(&mut out, "");
    proof {
        reveal_strlit("");
        assert(""@ =~= blank_line());
        lemma_unlines_push(ls, blank_line());
        ls = ls.push(blank_line());
    }

    if g.foreground {
        push_line(&mut out, "foreground = yes");
        proof {
            lemma_unlines_push(ls, foreground_line());
            ls = ls.push(foreground_line());
        }
    }

    push_line(&mut out, "debug = 7");
    proof {
        lemma_unlines_push(ls, debug_line());
        ls = ls.push(debug_line());
    }

    let mut pid: String = String::from_str("pid = ");
    if g.pid_file.as_str().is_empty() {
        pid.append("/var/run/stunnel.pid");
    } else {
        pid.append(g.pid_file.as_str());
    }
    push_line(&mut out, pid.as_str());
    proof {
        assert(pid@ =~= pid_line(*g));
        lemma_unlines_push(ls, pid_line(*g));
        ls = ls.push(pid_line(*g));
    }

    if !g.cert_path.as_str().is_empty() {
        let mut l: String = String::from_str("cert = ");
        l.append(g.cert_path.as_str());
        push_line(&mut out, l.as_str());
        proof {
            lemma_unlines_push(ls, cert_line(*g));
            ls = ls.push(cert_line(*g));
        }
    }

    if !g.key_path.as_str().is_empty() {
        let mut l: String = String::from_str("key = ");
        l.append(g.key_path.as_str());
        push_line(&mut out, l.as_str());
        proof {
            lemma_unlines_push(ls, key_line(*g));
            ls = ls.push(key_line(*g));
        }
    }

    if !g.ca_path.as_str().is_empty() {
        let mut l: String = String::from_str("CAfile = ");
        l.append(g.ca_path.as_str());
        push_line(&mut out, l.as_str());
        proof {
            lemma_unlines_push(ls, cafile_line(*g));
            ls = ls.push(cafile_line(*g));
        }
        push_line(&mut out, "verify = 2");
        proof {
            lemma_unlines_push(ls, verify_line());
            ls = ls.push(verify_line());
        }
    }

    push_line(&mut out, "");
    proof {
        reveal_strlit("");
        assert(""@ =~= blank_line());
        lemma_unlines_push(ls, blank_line());
        ls = ls.push(blank_line());
        assert(ls =~~= global_lines(*g, ts@));
        assert(providers@.subrange(0, 0) =~= Seq::<Provider>::empty());
        assert(ls =~~= config_lines(*g, providers@.subrange(0, 0), ts@));
    }

    let mut idx: usize = 0;
    while idx < providers.len()
        invariant
            idx <= providers.len(),
            out@ == unlines(ls),
            ls == config_lines(*g, providers@.subrange(0, idx as int), ts@),
        decreases providers.len() - idx,
    {
        let p = &providers[idx];
        append_core_lines(&mut out, p);
        push_line(&mut out, "");
        proof {
            reveal_strlit("");
            assert(""@ =~= blank_line());
            lemma_unlines_push(provider_core_lines(*p), blank_line());
            lemma_unlines_app(ls, provider_lines(*p));
            ls = ls + provider_lines(*p);
            assert(out@ == unlines(ls));
            assert(providers@.subrange(0, idx + 1).drop_last() =~= providers@.subrange(
                0,
                idx as int,
            ));
            assert(providers@.subrange(0, idx + 1).last() == providers@[idx as int]);
            assert(ls =~~= config_lines(*g, providers@.subrange(0, idx + 1), ts@));
        }
        idx += 1;
    }
    proof {
        assert(providers@.subrange(0, providers@.len() as int) =~= providers@);
    }
    out
}

/// Appends the core lines of one provider section (comment, header,
/// optional client flag, accept and connect) to a document under
/// construction, each followed by a line break.
pub fn append_core_lines(out: &mut String, p: &Provider)
    ensures
        final(out)@ == old(out)@ + unlines(provider_core_lines(*p)),
{
    let ghost base: Seq<char> = out@;
    let ghost mut ls: Seq<Seq<char>> = Seq::empty();
    proof {
        assert(out@ =~= base + unlines(ls));
    }
    let mut c: String = String::from_str("; ");
    c.append(p.name.as_str());
    c.append(" service");
    push_line(out, c.as_str());
    proof {
        assert(c@ =~= provider_comment_line(p.name@));
        lemma_unlines_push(ls, provider_comment_line(p.name@));
        ls = ls.push(provider_comment_line(p.name@));
    }

    let mut h: String = String::from_str("[");
    h.append(p.name.as_str());
    h.append("]");
    push_line(out, h.as_str());
    proof {
        assert(h@ =~= header_token(p.name@));
        lemma_unlines_push(ls, header_token(p.name@));
        ls = ls.push(header_token(p.name@));
    }

    if p.is_client {
        push_line(out, "client = yes");
        proof {
            lemma_unlines_push(ls, client_line());
            ls = ls.push(client_line());
        }
    }

    let mut a: String = String::from_str("accept = 127.0.0.1:");
    let ap = u32_to_dec(p.accept_port);
    a.append(ap.as_str());
    push_line(out, a.as_str());
    proof {
        assert(a@ =~= accept_line(p.accept_port));
        lemma_unlines_push(ls, accept_line(p.accept_port));
        ls = ls.push(accept_line(p.accept_port));
    }

    let mut co: String = String::from_str("connect = ");
    co.append(p.connect_host.as_str());
    co.append(":");
    let cp = u32_to_dec(p.connect_port);
    co.append(cp.as_str());
    push_line(out, co.as_str());
    proof {
        assert(co@ =~= connect_line(p.connect_host@, p.connect_port));
        lemma_unlines_push(ls, connect_line(p.connect_host@, p.connect_port));
        ls = ls.push(connect_line(p.connect_host@, p.connect_port));
    }

    proof {
        assert(ls =~~= provider_core_lines(*p));
    }
}

} // verus!
