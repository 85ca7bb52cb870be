//! A spec-level parse of the section structure of a rendered
//! configuration, and the proof that generation round-trips: the
//! document a generation request renders parses back into exactly one
//! section per provider, in the order the providers were supplied.

use vstd::prelude::*;

use crate::render::accept_line;
use crate::render::banner_line;
use crate::render::blank_line;
use crate::render::cafile_line;
use crate::render::cert_line;
use crate::render::client_line;
use crate::render::client_opt_lines;
use crate::render::config_lines;
use crate::render::connect_line;
use crate::render::debug_line;
use crate::render::foreground_line;
use crate::render::generated_line;
use crate::render::global_lines;
use crate::render::header_token;
use crate::render::key_line;
use crate::render::pid_line;
use crate::render::provider_comment_line;
use crate::render::provider_lines;
use crate::render::providers_lines;
use crate::render::spec_render_config;
use crate::render::unlines;
use crate::render::verify_line;
use crate::text::dec_digits;
use crate::text::digit_char;
use crate::text::line_free;
use crate::types::GlobalSettings;
use crate::types::Provider;

verus! {

/// Splitting a document at its line breaks; the empty document is one
/// empty line.
pub open spec fn split_lines(s: Seq<char>) -> Seq<Seq<char>>
    decreases s.len(),
{
    if s.len() == 0 {
        seq![Seq::<char>::empty()]
    } else if s[0] == '\n' {
        seq![Seq::<char>::empty()] + split_lines(s.drop_first())
    } else {
        let rest = split_lines(s.drop_first());
        seq![seq![s[0]] + rest[0]] + rest.drop_first()
    }
}

/// A line of the form `[name]`.
pub open spec fn is_header_line(l: Seq<char>) -> bool {
    l.len() >= 2 && l[0] == '[' && l[l.len() - 1] == ']'
}

/// The name between the brackets of a header line.
pub open spec fn header_name(l: Seq<char>) -> Seq<char> {
    l.subrange(1, l.len() - 1)
}

/// The section names declared by a sequence of lines, in order.
pub open spec fn header_names(ls: Seq<Seq<char>>) -> Seq<Seq<char>>
    decreases ls.len(),
{
    if ls.len() == 0 {
        Seq::empty()
    } else if is_header_line(ls[0]) {
        seq![header_name(ls[0])] + header_names(ls.drop_first())
    } else {
        header_names(ls.drop_first())
    }
}

/// The section names a configuration document declares, in order: the
/// names of its `[name]` lines.
pub open spec fn parsed_section_names(s: Seq<char>) -> Seq<Seq<char>> {
    header_names(split_lines(s))
}

/// Every line fits on one line: none contains a line break.
pub open spec fn lines_ok(ls: Seq<Seq<char>>) -> bool {
    forall|i: int| 0 <= i < ls.len() ==> line_free(#[trigger] ls[i])
}

/// The string fields of the global settings hold single-line values.
pub open spec fn settings_single_line(g: GlobalSettings) -> bool {
    line_free(g.pid_file@) && line_free(g.cert_path@) && line_free(g.key_path@) && line_free(
        g.ca_path@,
    )
}

/// The provider's name and host hold single-line values.
pub open spec fn provider_single_line(p: Provider) -> bool {
    line_free(p.name@) && line_free(p.connect_host@)
}

/// All providers of a request hold single-line values.
pub open spec fn providers_single_line(ps: Seq<Provider>) -> bool {
    forall|i: int| 0 <= i < ps.len() ==> provider_single_line(#[trigger] ps[i])
}

/// A split always yields at least one line.
proof fn lemma_split_lines_len(s: Seq<char>)
    ensures
        split_lines(s).len() >= 1,
    decreases s.len(),
{
    if s.len() == 0 {
    } else {
        lemma_split_lines_len(s.drop_first());
    }
}

/// Concatenation keeps freedom from line breaks.
pub proof fn lemma_line_free_app(a: Seq<char>, b: Seq<char>)
    requires
        line_free(a),
        line_free(b),
    ensures
        line_free(a + b),
{
    assert forall|i: int| 0 <= i < (a + b).len() implies (a + b)[i] != '\n' by {
        if i < a.len() {
            assert((a + b)[i] == a[i]);
        } else {
            assert((a + b)[i] == b[i - a.len()]);
        }
    }
}

/// Splitting after one break-free line and its line break yields that
/// line, then the split of the remainder.
proof fn lemma_split_lines_line(line: Seq<char>, rest: Seq<char>)
    requires
        line_free(line),
    ensures
        split_lines(line + seq!['\n'] + rest) == seq![line] + split_lines(rest),
    decreases line.len(),
{
    let s = line + seq!['\n'] + rest;
    if line.len() == 0 {
        assert(s[0] == '\n');
        assert(s.drop_first() =~= rest);
        assert(line =~= Seq::<char>::empty());
        assert(split_lines(s) =~= seq![line] + split_lines(rest));
    } else {
        assert(s[0] == line[0]);
        assert(s[0] != '\n');
        assert(s.drop_first() =~= line.drop_first() + seq!['\n'] + rest);
        lemma_split_lines_line(line.drop_first(), rest);
        let inner = split_lines(line.drop_first() + seq!['\n'] + rest);
        lemma_split_lines_len(rest);
        assert(inner[0] == line.drop_first());
        assert(inner.drop_first() =~= split_lines(rest));
        assert(seq![s[0]] + inner[0] =~= line);
        assert(split_lines(s) =~= seq![line] + split_lines(rest));
    }
}

/// Splitting a joined sequence of break-free lines gives those lines
/// back, plus the empty line after the final line break.
pub proof fn lemma_split_unlines(ls: Seq<Seq<char>>)
    requires
        lines_ok(ls),
    ensures
        split_lines(unlines(ls)) == ls + seq![Seq::<char>::empty()],
    decreases ls.len(),
{
    if ls.len() == 0 {
        assert(split_lines(unlines(ls)) =~= ls + seq![Seq::<char>::empty()]);
    } else {
        assert(unlines(ls) == ls[0] + seq!['\n'] + unlines(ls.drop_first()));
        lemma_split_lines_line(ls[0], unlines(ls.drop_first()));
        assert(lines_ok(ls.drop_first())) by {
            assert(forall|i: int|
                0 <= i < ls.drop_first().len() ==> #[trigger] ls.drop_first()[i] == ls[i + 1]);
        }
        lemma_split_unlines(ls.drop_first());
        assert(split_lines(unlines(ls)) =~= ls + seq![Seq::<char>::empty()]);
    }
}

/// Section names of concatenated line sequences, in order.
pub proof fn lemma_header_names_app(a: Seq<Seq<char>>, b: Seq<Seq<char>>)
    ensures
        header_names(a + b) == header_names(a) + header_names(b),
    decreases a.len(),
{
    reveal_with_fuel(header_names, 2);
    if a.len() == 0 {
        assert(a + b =~= b);
        assert(header_names(a + b) =~= header_names(a) + header_names(b));
    } else {
        assert((a + b)[0] == a[0]);
        assert((a + b).drop_first() =~= a.drop_first() + b);
        lemma_header_names_app(a.drop_first(), b);
        assert(header_names(a + b) =~= header_names(a) + header_names(b));
    }
}

/// Lines none of which is a header declare no section.
proof fn lemma_no_headers(ls: Seq<Seq<char>>)
    requires
        forall|i: int| 0 <= i < ls.len() ==> !is_header_line(#[trigger] ls[i]),
    ensures
        header_names(ls) == Seq::<Seq<char>>::empty(),
    decreases ls.len(),
{
    if ls.len() == 0 {
    } else {
        assert(!is_header_line(ls[0]));
        assert(forall|i: int|
            0 <= i < ls.drop_first().len() ==> #[trigger] ls.drop_first()[i] == ls[i + 1]);
        lemma_no_headers(ls.drop_first());
    }
}

/// A rendered decimal number is free of line breaks.
proof fn lemma_dec_digits_line_free(n: nat)
    ensures
        line_free(dec_digits(n)),
    decreases n,
{
    if n < 10 {
        assert(dec_digits(n) == seq![digit_char(n)]);
        assert(digit_char(n) != '\n');
    } else {
        lemma_dec_digits_line_free(n / 10);
        assert(digit_char(n % 10) != '\n');
        assert(forall|i: int|
            0 <= i < dec_digits(n / 10).len() ==> #[trigger] dec_digits(n)[i] == dec_digits(
                n / 10,
            )[i]);
    }
}

/// The global part of a generated document: all lines break-free, and
/// none of them a section header.
proof fn lemma_global_lines_sections(g: GlobalSettings, ts: Seq<char>)
    requires
        settings_single_line(g),
        line_free(ts),
    ensures
        lines_ok(global_lines(g, ts)),
        header_names(global_lines(g, ts)) == Seq::<Seq<char>>::empty(),
{
    reveal_strlit("; Stunnel configuration generated by Rust gRPC server");
    reveal_strlit("; Generated at: ");
    reveal_strlit("foreground = yes");
    reveal_strlit("debug = 7");
    reveal_strlit("pid = ");
    reveal_strlit("/var/run/stunnel.pid");
    reveal_strlit("cert = ");
    reveal_strlit("key = ");
    reveal_strlit("CAfile = ");
    reveal_strlit("verify = 2");

    assert(line_free(banner_line()));
    assert(line_free(generated_line(ts))) by {
        lemma_line_free_app("; Generated at: "@, ts);
    }
    assert(line_free(blank_line()));
    assert(line_free(foreground_line()));
    assert(line_free(debug_line()));
    assert(line_free(pid_line(g))) by {
        if g.pid_file@.len() == 0 {
            lemma_line_free_app("pid = "@, "/var/run/stunnel.pid"@);
        } else {
            lemma_line_free_app("pid = "@, g.pid_file@);
        }
    }
    assert(line_free(cert_line(g))) by {
        lemma_line_free_app("cert = "@, g.cert_path@);
    }
    assert(line_free(key_line(g))) by {
        lemma_line_free_app("key = "@, g.key_path@);
    }
    assert(line_free(cafile_line(g))) by {
        lemma_line_free_app("CAfile = "@, g.ca_path@);
    }
    assert(line_free(verify_line()));

    assert(!is_header_line(banner_line()));
    assert(!is_header_line(generated_line(ts))) by {
        assert(generated_line(ts)[0] == ';');
    }
    assert(!is_header_line(blank_line()));
    assert(!is_header_line(foreground_line()));
    assert(!is_header_line(debug_line()));
    assert(!is_header_line(pid_line(g))) by {
        assert(pid_line(g)[0] == 'p');
    }
    assert(!is_header_line(cert_line(g))) by {
        assert(cert_line(g)[0] == 'c');
    }
    assert(!is_header_line(key_line(g))) by {
        assert(key_line(g)[0] == 'k');
    }
    assert(!is_header_line(cafile_line(g))) by {
        assert(cafile_line(g)[0] == 'C');
    }
    assert(!is_header_line(verify_line()));

    let gl = global_lines(g, ts);
    assert forall|i: int| 0 <= i < gl.len() implies line_free(#[trigger] gl[i])
        && !is_header_line(gl[i]) by {
        lemma_global_line_cases(g, ts, i);
    }
    lemma_no_headers(gl);
}

/// Every line of the global part is one of its named lines.
proof fn lemma_global_line_cases(g: GlobalSettings, ts: Seq<char>, i: int)
    requires
        0 <= i < global_lines(g, ts).len(),
    ensures
        global_lines(g, ts)[i] == banner_line() || global_lines(g, ts)[i] == generated_line(ts)
            || global_lines(g, ts)[i] == blank_line() || global_lines(g, ts)[i]
            == foreground_line() || global_lines(g, ts)[i] == debug_line() || global_lines(g, ts)[i]
            == pid_line(g) || global_lines(g, ts)[i] == cert_line(g) || global_lines(g, ts)[i]
            == key_line(g) || global_lines(g, ts)[i] == cafile_line(g) || global_lines(g, ts)[i]
            == verify_line(),
{
}

/// One provider's section lines: all break-free, and exactly its
/// header declares a section.
proof fn lemma_provider_lines_sections(p: Provider)
    requires
        provider_single_line(p),
    ensures
        lines_ok(provider_lines(p)),
        header_names(provider_lines(p)) == seq![p.name@],
{
    reveal_strlit("; ");
    reveal_strlit(" service");
    reveal_strlit("[");
    reveal_strlit("]");
    reveal_strlit("client = yes");
    reveal_strlit("accept = 127.0.0.1:");
    reveal_strlit("connect = ");
    reveal_strlit(":");

    let c = provider_comment_line(p.name@);
    let h = header_token(p.name@);
    let a = accept_line(p.accept_port);
    let co = connect_line(p.connect_host@, p.connect_port);

    assert(line_free(c)) by {
        lemma_line_free_app("; "@, p.name@);
        lemma_line_free_app("; "@ + p.name@, " service"@);
    }
    assert(line_free(h)) by {
        lemma_line_free_app("["@, p.name@);
        lemma_line_free_app("["@ + p.name@, "]"@);
    }
    assert(line_free(client_line()));
    assert(line_free(a)) by {
        lemma_dec_digits_line_free(p.accept_port as nat);
        lemma_line_free_app("accept = 127.0.0.1:"@, dec_digits(p.accept_port as nat));
    }
    assert(line_free(co)) by {
        lemma_dec_digits_line_free(p.connect_port as nat);
        lemma_line_free_app("connect = "@, p.connect_host@);
        lemma_line_free_app("connect = "@ + p.connect_host@, ":"@);
        lemma_line_free_app("connect = "@ + p.connect_host@ + ":"@, dec_digits(
            p.connect_port as nat,
        ));
    }
    assert(line_free(blank_line()));

    assert(!is_header_line(c)) by {
        assert(c[0] == ';');
    }
    assert(is_header_line(h)) by {
        assert(h[0] == '[');
        assert(h[h.len() - 1] == ']');
    }
    assert(header_name(h) =~= p.name@);
    assert(!is_header_line(client_line()));
    assert(!is_header_line(a)) by {
        assert(a[0] == 'a');
    }
    assert(!is_header_line(co)) by {
        assert(co[0] == 'c');
    }
    assert(!is_header_line(blank_line()));

    let pl = provider_lines(p);
    let tail3 = seq![a, co, blank_line()];
    let tail2 = client_opt_lines(p) + tail3;
    let tail1 = seq![h] + tail2;
    let whole = seq![c] + tail1;
    assert(pl =~= whole);
    assert forall|i: int| 0 <= i < pl.len() implies line_free(#[trigger] pl[i]) by {
        assert(pl[i] == c || pl[i] == h || pl[i] == client_line() || pl[i] == a || pl[i] == co
            || pl[i] == blank_line());
    }
    lemma_header_names_app(seq![c], tail1);
    lemma_header_names_app(seq![h], tail2);
    lemma_header_names_app(client_opt_lines(p), tail3);
    reveal_with_fuel(header_names, 2);
    assert(header_names(seq![c]) =~= Seq::<Seq<char>>::empty()) by {
        assert(seq![c].drop_first() =~= Seq::<Seq<char>>::empty());
    }
    assert(header_names(seq![h]) =~= seq![p.name@]) by {
        assert(seq![h].drop_first() =~= Seq::<Seq<char>>::empty());
    }
    assert(header_names(client_opt_lines(p)) =~= Seq::<Seq<char>>::empty()) by {
        if p.is_client {
            assert(client_opt_lines(p) =~= seq![client_line()]);
            assert(seq![client_line()].drop_first() =~= Seq::<Seq<char>>::empty());
        }
    }
    assert(header_names(tail3) =~= Seq::<Seq<char>>::empty()) by {
        assert(forall|i: int| 0 <= i < 3 ==> !is_header_line(#[trigger] tail3[i]));
        lemma_no_headers(tail3);
    }
    assert(header_names(pl) =~= seq![p.name@]);
}

/// The provider part of a generated document: all lines break-free,
/// and its section names are the provider names in input order.
proof fn lemma_providers_lines_sections(ps: Seq<Provider>)
    requires
        providers_single_line(ps),
    ensures
        lines_ok(providers_lines(ps)),
        header_names(providers_lines(ps)) == ps.map_values(|p: Provider| p.name@),
    decreases ps.len(),
{
    if ps.len() == 0 {
        assert(header_names(providers_lines(ps)) =~= ps.map_values(|p: Provider| p.name@));
    } else {
        let front = ps.drop_last();
        let last = ps.last();
        assert(providers_single_line(front)) by {
            assert(forall|i: int| 0 <= i < front.len() ==> #[trigger] front[i] == ps[i]);
        }
        lemma_providers_lines_sections(front);
        lemma_provider_lines_sections(last);
        lemma_header_names_app(providers_lines(front), provider_lines(last));
        assert(lines_ok(providers_lines(ps))) by {
            let whole = providers_lines(front) + provider_lines(last);
            assert(providers_lines(ps) == whole);
            assert forall|i: int| 0 <= i < whole.len() implies line_free(#[trigger] whole[i]) by {
                if i < providers_lines(front).len() {
                    assert(whole[i] == providers_lines(front)[i]);
                } else {
                    assert(whole[i] == provider_lines(last)[i - providers_lines(front).len()]);
                }
            }
        }
        assert(header_names(providers_lines(ps)) =~= ps.map_values(|p: Provider| p.name@)) by {
            assert(front.map_values(|p: Provider| p.name@) =~= ps.map_values(
                |p: Provider| p.name@,
            ).drop_last());
        }
    }
}

/// Absent optional settings are omitted entirely: a generated document
/// holds no line at all for an empty certificate, key or CA path, and
/// no foreground line unless asked for — rather than an assignment
/// with an empty value.
pub proof fn lemma_absent_optional_fields_omitted(g: GlobalSettings, ts: Seq<char>)
    ensures
        !g.foreground ==> !global_lines(g, ts).contains(foreground_line()),
        g.cert_path@.len() == 0 ==> !global_lines(g, ts).contains(cert_line(g)),
        g.key_path@.len() == 0 ==> !global_lines(g, ts).contains(key_line(g)),
        g.ca_path@.len() == 0 ==> !global_lines(g, ts).contains(cafile_line(g)),
        g.ca_path@.len() == 0 ==> !global_lines(g, ts).contains(verify_line()),
{
    reveal_strlit("; Stunnel configuration generated by Rust gRPC server");
    reveal_strlit("; Generated at: ");
    reveal_strlit("foreground = yes");
    reveal_strlit("debug = 7");
    reveal_strlit("pid = ");
    reveal_strlit("/var/run/stunnel.pid");
    reveal_strlit("cert = ");
    reveal_strlit("key = ");
    reveal_strlit("CAfile = ");
    reveal_strlit("verify = 2");
    let gl = global_lines(g, ts);
    assert(banner_line()[0] == ';');
    assert(generated_line(ts)[0] == ';');
    assert(debug_line()[0] == 'd');
    assert(pid_line(g)[0] == 'p');
    assert(foreground_line()[0] == 'f');
    assert(cert_line(g)[0] == 'c');
    assert(key_line(g)[0] == 'k');
    assert(cafile_line(g)[0] == 'C');
    assert(verify_line()[0] == 'v');
    assert forall|i: int| 0 <= i < gl.len() implies gl[i] == banner_line() || gl[i]
        == generated_line(ts) || gl[i] == blank_line() || (g.foreground && gl[i]
        == foreground_line()) || gl[i] == debug_line() || gl[i] == pid_line(g) || (
    g.cert_path@.len() > 0 && gl[i] == cert_line(g)) || (g.key_path@.len() > 0 && gl[i]
        == key_line(g)) || (g.ca_path@.len() > 0 && (gl[i] == cafile_line(g) || gl[i]
        == verify_line())) by {
        lemma_global_line_cases(g, ts, i);
    }
    if !g.foreground {
        assert forall|i: int| 0 <= i < gl.len() implies gl[i] != foreground_line() by {
            assert(foreground_line().len() == 16);
        }
        assert(!gl.contains(foreground_line()));
    }
}

/// Round trip of generation: for single-line settings, timestamp and
/// provider fields, the rendered document parses back into exactly one
/// section per provider, under that provider's name, in the order the
/// providers were supplied.
pub proof fn lemma_generated_config_parses_back(g: GlobalSettings, ps: Seq<Provider>, ts: Seq<char>)
    requires
        settings_single_line(g),
        line_free(ts),
        providers_single_line(ps),
    ensures
        parsed_section_names(spec_render_config(g, ps, ts)) == ps.map_values(|p: Provider| p.name@),
{
    lemma_global_lines_sections(g, ts);
    lemma_providers_lines_sections(ps);
    let cl = config_lines(g, ps, ts);
    assert(lines_ok(cl)) by {
        assert forall|i: int| 0 <= i < cl.len() implies line_free(#[trigger] cl[i]) by {
            if i < global_lines(g, ts).len() {
                assert(cl[i] == global_lines(g, ts)[i]);
            } else {
                assert(cl[i] == providers_lines(ps)[i - global_lines(g, ts).len()]);
            }
        }
    }
    lemma_split_unlines(cl);
    lemma_header_names_app(cl, seq![Seq::<char>::empty()]);
    lemma_header_names_app(global_lines(g, ts), providers_lines(ps));
    reveal_with_fuel(header_names, 2);
    assert(header_names(seq![Seq::<char>::empty()]) =~= Seq::<Seq<char>>::empty()) by {
        assert(seq![Seq::<char>::empty()].drop_first() =~= Seq::<Seq<char>>::empty());
    }
    assert(parsed_section_names(spec_render_config(g, ps, ts)) =~= ps.map_values(
        |p: Provider| p.name@,
    ));
}

} // verus!
