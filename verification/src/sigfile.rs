//! The line-oriented probe-definition and service-listing formats. Parsing
//! is forgiving by design: comment and blank lines are skipped, malformed
//! lines are skipped, a match pattern the matcher refuses is skipped, and
//! parsing always continues — a bad file never fails database construction.

use vstd::prelude::*;

verus! {

use vstd::string::StrSliceExecFns;
use vstd::string::StringExecFns;
use crate::patterns::{reject_pattern, spec_reject_pattern};
use crate::text::{
    find_from, spec_is_blank, spec_join_spaces, spec_lines, spec_parse_u16, spec_parse_u64,
    spec_starts_with, spec_tokens, spec_trim_pair, strs_view, find_char_from, is_blank, join_from,
    parse_u16, parse_u64, split_lines, split_tokens, starts_with, trim_pair,
};
use crate::types::{
    nmap_match_view, nmap_probe_view, nmap_service_view, opt_probe_view, opt_str_view,
    probes_view, services_view, NmapMatch, NmapMatchV, NmapProbe, NmapProbeV, NmapService,
    NmapServiceV,
};

/// The entry one service-listing line yields: nothing for a comment, a
/// blank line, or a line of fewer than three tokens; else the service name,
/// the port and protocol split from the second token (an unparseable port
/// reads as 0, a missing protocol as `tcp`), and the remaining tokens
/// joined as the description.
pub open spec fn spec_service_line(line: Seq<char>) -> Option<NmapServiceV> {
    if spec_starts_with(line, "#"@) || spec_is_blank(line) {
        Option::None
    } else {
        let toks = spec_tokens(line);
        if toks.len() >= 3 {
            let pp = toks[1];
            let j = find_from(pp, '/', 0);
            let port = match spec_parse_u16(pp.take(j)) {
                Option::Some(v) => v,
                Option::None => 0u16,
            };
            let protocol = if j < pp.len() {
                pp.subrange(j + 1, find_from(pp, '/', j + 1))
            } else {
                "tcp"@
            };
            Option::Some(
                NmapServiceV {
                    name: toks[0],
                    port: port,
                    protocol: protocol,
                    description: Option::Some(spec_join_spaces(toks.skip(2))),
                },
            )
        } else {
            Option::None
        }
    }
}

/// The services the lines yield, in file order.
pub open spec fn spec_services_of_lines(lines: Seq<Seq<char>>) -> Seq<NmapServiceV>
    decreases lines.len(),
{
    if lines.len() == 0 {
        Seq::empty()
    } else {
        spec_services_of_lines(lines.drop_last()) + (match spec_service_line(lines.last()) {
            Option::Some(s) => seq![s],
            Option::None => Seq::empty(),
        })
    }
}

/// What parsing a whole service-listing text yields.
pub open spec fn spec_parse_services(content: Seq<char>) -> Seq<NmapServiceV> {
    spec_services_of_lines(spec_lines(content))
}

/// Parses the text of a service-listing file. Comment, blank, and
/// malformed lines are skipped; parsing never fails.
pub fn parse_nmap_services(content: &str) -> (r: Vec<NmapService>)
    ensures
        services_view(r@) == spec_parse_services(content@),
{
    let lines = split_lines(content);
    let ghost lv = spec_lines(content@);
    let mut out: Vec<NmapService> = Vec::new();
    let mut li: usize = 0;
    proof {
        assert(lv.take(0) =~= Seq::<Seq<char>>::empty());
        assert(services_view(out@) =~= spec_services_of_lines(lv.take(0)));
    }
    while li < lines.len()
        invariant
            strs_view(lines@) == lv,
            lines@.len() == lv.len(),
            0 <= li <= lines@.len(),
            services_view(out@) == spec_services_of_lines(lv.take(li as int)),
        decreases lines@.len() - li,
    {
        let line = &lines[li];
        proof {
            assert(lv[li as int] == line@);
            assert(lv.take(li + 1).drop_last() =~= lv.take(li as int));
            assert(lv.take(li + 1).last() == line@);
        }
        if !starts_with(line.as_str(), "#") && !is_blank(line.as_str()) {
            let toks = split_tokens(line.as_str());
            if toks.len() >= 3 {
                let name = toks[0].clone();
                let pp = &toks[1];
                let ghost ppv = pp@;
                proof {
                    assert(strs_view(toks@)[1] == pp@);
                }
                let pp_len = pp.as_str().unicode_len();
                let j = find_char_from(pp.as_str(), '/', 0);
                let port_piece = pp.as_str().substring_char(0, j);
                proof {
                    assert(port_piece@ =~= ppv.take(j as int));
                }
                let port = match parse_u16(port_piece) {
                    Some(v) => v,
                    None => 0,
                };
                let protocol = if j < pp_len {
                    let j2 = find_char_from(pp.as_str(), '/', j + 1);
                    let piece = pp.as_str().substring_char(j + 1, j2);
                    proof {
                        assert(piece@ =~= ppv.subrange(j + 1, find_from(ppv, '/', j + 1)));
                    }
                    piece.to_owned()
                } else {
                    String::from_str("tcp")
                };
                let description = Some(join_from(&toks, 2));
                let entry = NmapService { name, port, protocol, description };
                proof {
                    assert(strs_view(toks@).skip(2) =~= spec_tokens(line@).skip(2));
                    assert(nmap_service_view(entry) =~~= spec_service_line(line@)->0);
                    assert(services_view(out@.push(entry)) =~= services_view(out@).push(
                        nmap_service_view(entry),
                    ));
                    assert(spec_services_of_lines(lv.take(li + 1)) =~= spec_services_of_lines(
                        lv.take(li as int),
                    ).push(nmap_service_view(entry)));
                }
                out.push(entry);
            } else {
                proof {
                    assert(spec_services_of_lines(lv.take(li + 1)) =~= spec_services_of_lines(
                        lv.take(li as int),
                    ));
                }
            }
        } else {
            proof {
                assert(spec_services_of_lines(lv.take(li + 1)) =~= spec_services_of_lines(
                    lv.take(li as int),
                ));
            }
        }
        li += 1;
    }
    proof {
        assert(lv.take(lines@.len() as int) =~= lv);
    }
    out
}

/// The value of the last `key/value` token with the given prefix, scanned
/// from the back, with `strip` leading characters removed; nothing when no
/// token carries the prefix.
pub open spec fn spec_kv(args: Seq<Seq<char>>, prefix: Seq<char>, strip: int) -> Option<Seq<char>>
    decreases args.len(),
{
    if args.len() == 0 {
        Option::None
    } else if spec_starts_with(args.last(), prefix) {
        Option::Some(args.last().skip(strip))
    } else {
        spec_kv(args.drop_last(), prefix, strip)
    }
}

/// A finished probe joins the list; an unfinished none leaves it as it is.
pub open spec fn spec_flush(done: Seq<NmapProbeV>, cur: Option<NmapProbeV>) -> Seq<NmapProbeV> {
    match cur {
        Option::Some(p) => done.push(p),
        Option::None => done,
    }
}

/// The probe a `Probe` directive declares: name, transport protocol, and
/// the payload token with its `q`/`|` delimiters trimmed, under the default
/// waits; nothing for a directive of fewer than four tokens.
pub open spec fn spec_probe_line(line: Seq<char>) -> Option<NmapProbeV> {
    let toks = spec_tokens(line);
    if toks.len() >= 4 {
        Option::Some(
            NmapProbeV {
                name: toks[1],
                protocol: toks[2],
                probe_string: spec_trim_pair(toks[3], 'q', '|'),
                total_wait_ms: 6000,
                tcp_wrapped_ms: 3000,
                matches: Seq::empty(),
            },
        )
    } else {
        Option::None
    }
}

/// The match a `match` declaration yields: the service name, the pattern
/// token with its `m`/`|` delimiters trimmed, and the `v/`, `p/`, `o/`,
/// `i/` and `cpe:/` suffix tokens; nothing for a declaration of fewer than
/// three tokens or a pattern the matcher refuses.
pub open spec fn spec_match_line(line: Seq<char>) -> Option<NmapMatchV> {
    let toks = spec_tokens(line);
    if toks.len() >= 3 {
        let pat = spec_trim_pair(toks[2], 'm', '|');
        if spec_reject_pattern(pat) {
            Option::None
        } else {
            Option::Some(
                NmapMatchV {
                    service: toks[1],
                    pattern: pat,
                    version_info: spec_kv(toks.skip(3), "v/"@, 2),
                    product_info: spec_kv(toks.skip(3), "p/"@, 2),
                    os_info: spec_kv(toks.skip(3), "o/"@, 2),
                    extra_info: spec_kv(toks.skip(3), "i/"@, 2),
                    cpe: spec_kv(toks.skip(3), "cpe:/"@, 0),
                },
            )
        }
    } else {
        Option::None
    }
}

/// The wait a timing directive sets: its second token as a decimal, the
/// default for a bare directive, nothing (keep the old wait) when the token
/// does not parse.
pub open spec fn spec_wait_ms(line: Seq<char>, dflt: u64) -> Option<u64> {
    let toks = spec_tokens(line);
    if toks.len() >= 2 {
        spec_parse_u64(toks[1])
    } else {
        Option::Some(dflt)
    }
}

/// How one line moves the parse state on: comments and blanks are skipped;
/// a `Probe` directive finishes the current probe and opens a new one (or
/// none, when malformed); `match` and timing directives amend the current
/// probe and are ignored without one; anything else is ignored.
pub open spec fn spec_probe_step(
    done: Seq<NmapProbeV>,
    cur: Option<NmapProbeV>,
    line: Seq<char>,
) -> (Seq<NmapProbeV>, Option<NmapProbeV>) {
    if spec_starts_with(line, "#"@) || spec_is_blank(line) {
        (done, cur)
    } else if spec_starts_with(line, "Probe "@) {
        (spec_flush(done, cur), spec_probe_line(line))
    } else if spec_starts_with(line, "match "@) {
        match cur {
            Option::Some(p) => match spec_match_line(line) {
                Option::Some(m) => (done, Option::Some(
                    NmapProbeV { matches: p.matches.push(m), ..p },
                )),
                Option::None => (done, Option::Some(p)),
            },
            Option::None => (done, cur),
        }
    } else if spec_starts_with(line, "totalwaitms "@) {
        match cur {
            Option::Some(p) => match spec_wait_ms(line, 6000) {
                Option::Some(ms) => (done, Option::Some(NmapProbeV { total_wait_ms: ms, ..p })),
                Option::None => (done, Option::Some(p)),
            },
            Option::None => (done, cur),
        }
    } else if spec_starts_with(line, "tcpwrappedms "@) {
        match cur {
            Option::Some(p) => match spec_wait_ms(line, 3000) {
                Option::Some(ms) => (done, Option::Some(NmapProbeV { tcp_wrapped_ms: ms, ..p })),
                Option::None => (done, Option::Some(p)),
            },
            Option::None => (done, cur),
        }
    } else {
        (done, cur)
    }
}

/// The parse state after the given lines.
pub open spec fn spec_probes_fold(lines: Seq<Seq<char>>) -> (Seq<NmapProbeV>, Option<NmapProbeV>)
    decreases lines.len(),
{
    if lines.len() == 0 {
        (Seq::<NmapProbeV>::empty(), Option::<NmapProbeV>::None)
    } else {
        let st = spec_probes_fold(lines.drop_last());
        spec_probe_step(st.0, st.1, lines.last())
    }
}

/// What parsing a whole probe-definition text yields.
pub open spec fn spec_parse_probes(content: Seq<char>) -> Seq<NmapProbeV> {
    let st = spec_probes_fold(spec_lines(content));
    spec_flush(st.0, st.1)
}

/// A match declaration the parser skips — among them one whose pattern
/// holds `**` — leaves the parse state exactly as it was.
pub proof fn lemma_skipped_match_line_is_inert(
    done: Seq<NmapProbeV>,
    cur: Option<NmapProbeV>,
    line: Seq<char>,
)
    requires
        spec_starts_with(line, "match "@),
        spec_match_line(line) is None,
    ensures
        spec_probe_step(done, cur, line) == (done, cur),
{
    reveal_strlit("match ");
    reveal_strlit("#");
    reveal_strlit("Probe ");
    assert(line[0] == 'm');
    assert(!spec_starts_with(line, "#"@));
    assert(!spec_starts_with(line, "Probe "@));
    assert(!spec_is_blank(line)) by {
        assert(!crate::text::is_space(line[0]));
    }
}

/// Skipping is local: taking one skipped match declaration out of a line
/// list gives the very same parse — the lines around it never notice it.
pub proof fn lemma_skipped_match_line_drops_out(
    pre: Seq<Seq<char>>,
    line: Seq<char>,
    post: Seq<Seq<char>>,
)
    requires
        spec_starts_with(line, "match "@),
        spec_match_line(line) is None,
    ensures
        spec_probes_fold(pre + seq![line] + post) == spec_probes_fold(pre + post),
    decreases post.len(),
{
    if post.len() == 0 {
        assert(pre + seq![line] + post =~= pre + seq![line]);
        assert(pre + post =~= pre);
        assert((pre + seq![line]).drop_last() =~= pre);
        assert((pre + seq![line]).last() == line);
        let st = spec_probes_fold(pre);
        lemma_skipped_match_line_is_inert(st.0, st.1, line);
    } else {
        let shorter = post.drop_last();
        lemma_skipped_match_line_drops_out(pre, line, shorter);
        assert((pre + seq![line] + post).drop_last() =~= pre + seq![line] + shorter);
        assert((pre + seq![line] + post).last() == post.last());
        assert((pre + post).drop_last() =~= pre + shorter);
        assert((pre + post).last() == post.last());
    }
}

/// Scans `toks[from..]` from the back for the last token with the given
/// prefix and returns it with `strip` leading characters removed.
fn kv_scan(toks: &Vec<String>, from: usize, prefix: &str, strip: usize) -> (r: Option<String>)
    requires
        from <= toks@.len(),
        strip <= prefix@.len(),
    ensures
        opt_str_view(r) == spec_kv(strs_view(toks@).skip(from as int), prefix@, strip as int),
{
    let ghost args = strs_view(toks@).skip(from as int);
    let mut i: usize = toks.len();
    proof {
        assert(args.take(toks@.len() - from) =~= args);
    }
    while i > from
        invariant
            from <= i <= toks@.len(),
            strip <= prefix@.len(),
            args == strs_view(toks@).skip(from as int),
            spec_kv(args, prefix@, strip as int) == spec_kv(
                args.take(i - from),
                prefix@,
                strip as int,
            ),
        decreases i,
    {
        i -= 1;
        let tok = &toks[i];
        proof {
            assert(args.take(i + 1 - from).last() == tok@);
            assert(args.take(i + 1 - from).drop_last() =~= args.take(i - from));
        }
        if starts_with(tok.as_str(), prefix) {
            let tlen = tok.as_str().unicode_len();
            proof {
                assert(spec_starts_with(tok@, prefix@));
                assert(prefix@.len() <= tok@.len());
                assert(strip <= tlen);
            }
            let piece = tok.as_str().substring_char(strip, tlen);
            proof {
                assert(piece@ =~= tok@.skip(strip as int));
            }
            return Some(piece.to_owned());
        }
    }
    proof {
        assert(args.take(0) =~= Seq::<Seq<char>>::empty());
    }
    None
}

/// Parses the text of a probe-definition file: `Probe`, `match`,
/// `totalwaitms` and `tcpwrappedms` directives, line by line. Comment,
/// blank and malformed lines are skipped, as is every match pattern the
/// matcher refuses; parsing never fails.
pub fn parse_nmap_probes(content: &str) -> (r: Vec<NmapProbe>)
    ensures
        probes_view(r@) == spec_parse_probes(content@),
{
    let lines = split_lines(content);
    let ghost lv = spec_lines(content@);
    let mut done: Vec<NmapProbe> = Vec::new();
    let mut cur: Option<NmapProbe> = None;
    let mut li: usize = 0;
    proof {
        assert(lv.take(0) =~= Seq::<Seq<char>>::empty());
        assert(probes_view(done@) =~= spec_probes_fold(lv.take(0)).0);
    }
    while li < lines.len()
        invariant
            strs_view(lines@) == lv,
            lines@.len() == lv.len(),
            0 <= li <= lines@.len(),
            probes_view(done@) == spec_probes_fold(lv.take(li as int)).0,
            opt_probe_view(cur) == spec_probes_fold(lv.take(li as int)).1,
        decreases lines@.len() - li,
    {
        let line = &lines[li];
        let ghost st = spec_probes_fold(lv.take(li as int));
        proof {
            assert(lv[li as int] == line@);
            assert(lv.take(li + 1).drop_last() =~= lv.take(li as int));
            assert(lv.take(li + 1).last() == line@);
            assert(spec_probes_fold(lv.take(li + 1)) == spec_probe_step(st.0, st.1, line@));
        }
        if starts_with(line.as_str(), "#") || is_blank(line.as_str()) {
            // comment or blank: skipped
        } else if starts_with(line.as_str(), "Probe ") {
            match cur {
                Some(p) => {
                    proof {
                        assert(probes_view(done@.push(p)) =~= probes_view(done@).push(
                            nmap_probe_view(p),
                        ));
                    }
                    done.push(p);
                },
                None => {},
            }
            let toks = split_tokens(line.as_str());
            if toks.len() >= 4 {
                let probe_string = trim_pair(toks[3].as_str(), 'q', '|');
                let newp = NmapProbe {
                    name: toks[1].clone(),
                    protocol: toks[2].clone(),
                    probe_string,
                    total_wait_ms: 6000,
                    tcp_wrapped_ms: 3000,
                    matches: Vec::new(),
                };
                proof {
                    assert(nmap_probe_view(newp) =~~= spec_probe_line(line@)->0);
                }
                cur = Some(newp);
            } else {
                cur = None;
            }
        } else if starts_with(line.as_str(), "match ") {
            match cur {
                Some(mut p) => {
                    let ghost pv = nmap_probe_view(p);
                    let toks = split_tokens(line.as_str());
                    if toks.len() >= 3 {
                        let pat = trim_pair(toks[2].as_str(), 'm', '|');
                        if !reject_pattern(pat.as_str()) {
                            proof {
                                reveal_strlit("v/");
                                reveal_strlit("p/");
                                reveal_strlit("o/");
                                reveal_strlit("i/");
                                reveal_strlit("cpe:/");
                            }
                            let m = NmapMatch {
                                service: toks[1].clone(),
                                pattern: pat,
                                version_info: kv_scan(&toks, 3, "v/", 2),
                                product_info: kv_scan(&toks, 3, "p/", 2),
                                os_info: kv_scan(&toks, 3, "o/", 2),
                                extra_info: kv_scan(&toks, 3, "i/", 2),
                                cpe: kv_scan(&toks, 3, "cpe:/", 0),
                            };
                            proof {
                                assert(strs_view(toks@).skip(3) =~= spec_tokens(line@).skip(3));
                                assert(nmap_match_view(m) =~~= spec_match_line(line@)->0);
                                assert(p.matches@.push(m).map_values(
                                    |x: NmapMatch| nmap_match_view(x),
                                ) =~= pv.matches.push(nmap_match_view(m)));
                            }
                            p.matches.push(m);
                            proof {
                                assert(nmap_probe_view(p) =~~= NmapProbeV {
                                    matches: pv.matches.push(nmap_match_view(m)),
                                    ..pv
                                });
                            }
                        }
                    }
                    cur = Some(p);
                },
                None => {
                    cur = None;
                },
            }
        } else if starts_with(line.as_str(), "totalwaitms ") {
            match cur {
                Some(mut p) => {
                    let toks = split_tokens(line.as_str());
                    if toks.len() >= 2 {
                        match parse_u64(toks[1].as_str()) {
                            Some(ms) => {
                                p.total_wait_ms = ms;
                            },
                            None => {},
                        }
                    } else {
                        p.total_wait_ms = 6000;
                    }
                    cur = Some(p);
                },
                None => {
                    cur = None;
                },
            }
        } else if starts_with(line.as_str(), "tcpwrappedms ") {
            match cur {
                Some(mut p) => {
                    let toks = split_tokens(line.as_str());
                    if toks.len() >= 2 {
                        match parse_u64(toks[1].as_str()) {
                            Some(ms) => {
                                p.tcp_wrapped_ms = ms;
                            },
                            None => {},
                        }
                    } else {
                        p.tcp_wrapped_ms = 3000;
                    }
                    cur = Some(p);
                },
                None => {
                    cur = None;
                },
            }
        } else {
            // unrecognized directive: skipped
        }
        li += 1;
    }
    proof {
        assert(lv.take(lines@.len() as int) =~= lv);
    }
    match cur {
        Some(p) => {
            proof {
                assert(probes_view(done@.push(p)) =~= probes_view(done@).push(nmap_probe_view(p)));
            }
            done.push(p);
        },
        None => {},
    }
    done
}

} // verus!
