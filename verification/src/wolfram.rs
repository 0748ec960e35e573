//! The knowledge-engine handler's logic: resolving the response mode from
//! the flags, building the request URL for the mode's endpoint, and turning
//! a parsed structured document into the lines to print. The HTTP call, the
//! temporary image file and the viewer launch stay outside the library.

use vstd::prelude::*;
use vstd::string::StringExecFns;
use vstd::utf8::encode_utf8;
use vstd::utf8::decode_utf8;
use crate::text::{blank, is_blank};
use crate::urlenc::{lemma_percent_round_trip, percent_decoded, percent_encode, percent_encoded};

verus! {

/// The three response modes of the knowledge engine.
#[derive(Debug, Clone, Copy, PartialEq, Eq, Structural)]
pub enum WolframMode {
    Simple,
    Short,
    Full,
}

/// Mode precedence: an explicit simple flag wins; otherwise short, which is
/// also the default when no flag at all is set; full only when it alone
/// remains.
pub open spec fn spec_wolfram_mode(simple: bool, short: bool, full: bool) -> WolframMode {
    if simple {
        WolframMode::Simple
    } else if short || !full {
        WolframMode::Short
    } else {
        WolframMode::Full
    }
}

pub fn wolfram_mode(simple: bool, short: bool, full: bool) -> (m: WolframMode)
    ensures
        m == spec_wolfram_mode(simple, short, full),
{
    if simple {
        WolframMode::Simple
    } else if short || !full {
        WolframMode::Short
    } else {
        WolframMode::Full
    }
}

/// The environment variable that holds each mode's base URL.
pub open spec fn spec_wolfram_env_var(m: WolframMode) -> Seq<char> {
    match m {
        WolframMode::Simple => "WOLFRAM_API_SIMPLE"@,
        WolframMode::Short => "WOLFRAM_API_SHORT"@,
        WolframMode::Full => "WOLFRAM_API_FULL"@,
    }
}

pub fn wolfram_env_var(m: &WolframMode) -> (r: &'static str)
    ensures
        r@ == spec_wolfram_env_var(*m),
{
    match m {
        WolframMode::Simple => "WOLFRAM_API_SIMPLE",
        WolframMode::Short => "WOLFRAM_API_SHORT",
        WolframMode::Full => "WOLFRAM_API_FULL",
    }
}

/// The status line printed before the request goes out.
pub open spec fn spec_wolfram_announce(m: WolframMode) -> Seq<char> {
    match m {
        WolframMode::Simple => "Downloading Wolfram Alpha image..."@,
        WolframMode::Short => "Querying Wolfram Alpha [Short]..."@,
        WolframMode::Full => "Querying Wolfram Alpha [Full]..."@,
    }
}

/// The report when the mode's base-URL variable is absent.
pub open spec fn spec_wolfram_missing_env(m: WolframMode) -> Seq<char> {
    match m {
        WolframMode::Simple => "Missing env var: WOLFRAM_API_SIMPLE"@,
        WolframMode::Short => "Missing env var for selected mode: Short"@,
        WolframMode::Full => "Missing env var for selected mode: Full"@,
    }
}

/// The request URL: the mode's base URL with the percent-encoded query
/// appended.
pub open spec fn spec_wolfram_url(base: Seq<char>, q: Seq<char>) -> Seq<char> {
    base + percent_encoded(encode_utf8(q))
}

/// A built request URL carries the query correctly: what follows the base
/// URL is the percent-encoded query, percent-decoding it yields exactly the
/// query's UTF-8 bytes, and those decode back to the original query text.
pub proof fn lemma_wolfram_url_round_trip(base: Seq<char>, q: Seq<char>)
    ensures
        spec_wolfram_url(base, q).skip(base.len() as int) == percent_encoded(encode_utf8(q)),
        percent_decoded(percent_encoded(encode_utf8(q))) == Some(encode_utf8(q)),
        decode_utf8(encode_utf8(q)) == q,
{
    assert(spec_wolfram_url(base, q).skip(base.len() as int) =~= percent_encoded(encode_utf8(q)));
    lemma_percent_round_trip(q);
}

/// Everything one knowledge-engine request needs: the mode, the URL and the
/// status line.
pub struct WolframPlan {
    pub mode: WolframMode,
    pub url: String,
    pub announce: String,
}

/// Assembles one knowledge-engine request for an already resolved mode,
/// given the mode's base URL as the environment provided it. A missing
/// variable yields the reported message instead of a request.
pub fn plan_wolfram_request(mode: &WolframMode, base_url: Option<String>, query: &str) -> (r:
    Result<WolframPlan, String>)
    ensures
        match base_url {
            Some(base) => r matches Ok(p) && p.mode == *mode && p.url@ == spec_wolfram_url(
                base@,
                query@,
            ) && p.announce@ == spec_wolfram_announce(*mode),
            None => r matches Err(m) && m@ == spec_wolfram_missing_env(*mode),
        },
{
    match base_url {
        Some(base) => {
            let mut url = base;
            url.append(percent_encode(query).as_str());
            let announce = match mode {
                WolframMode::Simple => String::from_str("Downloading Wolfram Alpha image..."),
                WolframMode::Short => String::from_str("Querying Wolfram Alpha [Short]..."),
                WolframMode::Full => String::from_str("Querying Wolfram Alpha [Full]..."),
            };
            Ok(WolframPlan { mode: *mode, url, announce })
        },
        None => {
            let m = match mode {
                WolframMode::Simple => String::from_str("Missing env var: WOLFRAM_API_SIMPLE"),
                WolframMode::Short => String::from_str(
                    "Missing env var for selected mode: Short",
                ),
                WolframMode::Full => String::from_str("Missing env var for selected mode: Full"),
            };
            Err(m)
        },
    }
}

/// One subpod of a structured-mode document: optionally some plain text.
pub struct Subpod {
    pub plaintext: Option<String>,
}

/// One pod of a structured-mode document: a title and its subpods.
pub struct Pod {
    pub title: String,
    pub subpods: Vec<Subpod>,
}

/// The lines a sequence of subpods contributes: each text that is present
/// and not blank, verbatim; blank or absent texts contribute nothing.
pub open spec fn subpod_lines(subs: Seq<Subpod>) -> Seq<Seq<char>>
    decreases subs.len(),
{
    if subs.len() == 0 {
        Seq::empty()
    } else {
        (match subs[0].plaintext {
            Some(t) => if !is_blank(t@) {
                seq![t@]
            } else {
                Seq::empty()
            },
            None => Seq::empty(),
        }) + subpod_lines(subs.drop_first())
    }
}

/// The lines one pod prints: its title line, then its subpod texts.
pub open spec fn pod_lines(p: Pod) -> Seq<Seq<char>> {
    seq!["\n# "@ + p.title@] + subpod_lines(p.subpods@)
}

/// The lines a whole document prints, pod after pod.
pub open spec fn pods_lines(pods: Seq<Pod>) -> Seq<Seq<char>>
    decreases pods.len(),
{
    if pods.len() == 0 {
        Seq::empty()
    } else {
        pod_lines(pods[0]) + pods_lines(pods.drop_first())
    }
}

proof fn lemma_subpod_lines_take(subs: Seq<Subpod>, j: int)
    requires
        0 <= j < subs.len(),
    ensures
        subpod_lines(subs.take(j + 1)) == subpod_lines(subs.take(j)) + (match subs[j].plaintext {
            Some(t) => if !is_blank(t@) {
                seq![t@]
            } else {
                Seq::<Seq<char>>::empty()
            },
            None => Seq::<Seq<char>>::empty(),
        }),
    decreases j,
{
    if j == 0 {
        reveal_with_fuel(subpod_lines, 2);
        assert(subs.take(1)[0] == subs[0]);
        assert(subs.take(1).drop_first() =~= Seq::<Subpod>::empty());
        assert(subpod_lines(subs.take(0)) =~= Seq::<Seq<char>>::empty());
        assert(subpod_lines(subs.take(1)) =~= subpod_lines(subs.take(0)) + (match subs[0].plaintext {
            Some(t) => if !is_blank(t@) {
                seq![t@]
            } else {
                Seq::<Seq<char>>::empty()
            },
            None => Seq::<Seq<char>>::empty(),
        }));
    } else {
        lemma_subpod_lines_take(subs.drop_first(), j - 1);
        assert(subs.take(j + 1)[0] == subs[0]);
        assert(subs.take(j)[0] == subs[0]);
        assert(subs.drop_first()[j - 1] == subs[j]);
        assert(subs.take(j + 1).drop_first() =~= subs.drop_first().take(j));
        assert(subs.take(j).drop_first() =~= subs.drop_first().take(j - 1));
        assert(subpod_lines(subs.take(j + 1)) =~= subpod_lines(subs.take(j)) + (match subs[j].plaintext {
            Some(t) => if !is_blank(t@) {
                seq![t@]
            } else {
                Seq::<Seq<char>>::empty()
            },
            None => Seq::<Seq<char>>::empty(),
        }));
    }
}

proof fn lemma_pods_lines_take(pods: Seq<Pod>, i: int)
    requires
        0 <= i < pods.len(),
    ensures
        pods_lines(pods.take(i + 1)) == pods_lines(pods.take(i)) + pod_lines(pods[i]),
    decreases i,
{
    if i == 0 {
        reveal_with_fuel(pods_lines, 2);
        assert(pods.take(1)[0] == pods[0]);
        assert(pods.take(1).drop_first() =~= Seq::<Pod>::empty());
        assert(pods_lines(pods.take(0)) =~= Seq::<Seq<char>>::empty());
        assert(pods_lines(pods.take(1)) =~= pods_lines(pods.take(0)) + pod_lines(pods[0]));
    } else {
        lemma_pods_lines_take(pods.drop_first(), i - 1);
        assert(pods.take(i + 1)[0] == pods[0]);
        assert(pods.take(i)[0] == pods[0]);
        assert(pods.drop_first()[i - 1] == pods[i]);
        assert(pods.take(i + 1).drop_first() =~= pods.drop_first().take(i));
        assert(pods.take(i).drop_first() =~= pods.drop_first().take(i - 1));
        assert(pods_lines(pods.take(i + 1)) =~= pods_lines(pods.take(i)) + pod_lines(pods[i]));
    }
}

/// Turns a parsed structured document into the lines the full mode prints:
/// for each pod a marked title line, then each non-blank subpod text
/// verbatim; blank subpod texts are omitted entirely.
pub fn render_pods(pods: &Vec<Pod>) -> (r: Vec<String>)
    ensures
        r.deep_view() == pods_lines(pods@),
{
    let mut out: Vec<String> = Vec::new();
    assert(out.deep_view() =~= pods_lines(pods@.take(0)));
    let mut i: usize = 0;
    while i < pods.len()
        invariant
            i <= pods@.len(),
            out.deep_view() == pods_lines(pods@.take(i as int)),
        decreases pods@.len() - i,
    {
        let ghost prev = out.deep_view();
        let pod = &pods[i];
        let mut title_line = String::from_str("\n# ");
        title_line.append(pod.title.as_str());
        out.push(title_line);
        assert(out.deep_view() =~= prev + seq!["\n# "@ + pod.title@]);
        let mut j: usize = 0;
        while j < pod.subpods.len()
            invariant
                j <= pod.subpods@.len(),
                out.deep_view() == prev + seq!["\n# "@ + pod.title@] + subpod_lines(
                    pod.subpods@.take(j as int),
                ),
            decreases pod.subpods@.len() - j,
        {
            let ghost mid = out.deep_view();
            match &pod.subpods[j].plaintext {
                Some(t) => {
                    if !blank(t.as_str()) {
                        out.push(t.clone());
                        assert(out.deep_view() =~= mid + seq![t@]);
                    }
                },
                None => {},
            }
            proof {
                lemma_subpod_lines_take(pod.subpods@, j as int);
                assert(out.deep_view() =~= prev + seq!["\n# "@ + pod.title@] + subpod_lines(
                    pod.subpods@.take(j + 1),
                ));
            }
            j += 1;
        }
        proof {
            assert(pod.subpods@.take(j as int) =~= pod.subpods@);
            lemma_pods_lines_take(pods@, i as int);
            assert(prev + seq!["\n# "@ + pod.title@] + subpod_lines(pod.subpods@) =~= prev
                + pod_lines(pods@[i as int]));
        }
        i += 1;
    }
    proof {
        assert(pods@.take(i as int) =~= pods@);
    }
    out
}

} // verus!
