//! Subscription-video strategy: a CDN-speedtest stage settles the common
//! cases; otherwise two content probes decide by status code, with one more
//! probe reading the region out of a redirect location.

use vstd::prelude::*;

verus! {

use vstd::string::StringExecFns;
use crate::codec::{region_label, region_label_of};
use crate::model::{UnlockItem, get_local_date_string};
use crate::text::{
    chars_to_string, copy_range, find_char_from, find_char_in_range, first_pos,
    lemma_first_pos_absent, lemma_first_pos_is, to_chars,
};

/// What the CDN-stage probe produced: a transport failure, or a response
/// with its HTTP status and its body when that could be read.
#[derive(Debug, Clone)]
pub enum CdnProbe {
    Transport,
    Response { status: u16, body: Option<String> },
}

/// What comes out of reading a CDN-stage body: no JSON document at all, a
/// document without the country field, or the country itself.
#[derive(Debug, Clone)]
pub enum CdnParse {
    Invalid,
    NoCountry,
    Country(String),
}

/// What the JSON read yields on a given body. The read is a function of the
/// body alone, so it carries a name rather than a spelled-out JSON grammar.
pub uninterp spec fn cdn_parse_of(s: Seq<char>) -> CdnParse;

/// Reads the country of the first speed-test target out of the CDN-stage
/// body. Relies on serde_json's `from_str`, `Value::get`, `Value::as_array`
/// and `Value::as_str`: `Invalid` when the body is no JSON document, the
/// first target's country when the document carries one, `NoCountry`
/// otherwise.
#[verifier::external_body]
fn read_cdn_country(body: &str) -> (r: CdnParse)
    ensures
        r == cdn_parse_of(body@),
{
    match serde_json::from_str::<serde_json::Value>(body) {
        Err(_) => CdnParse::Invalid,
        Ok(data) => match data.get("targets")
            .and_then(|t| t.as_array())
            .and_then(|arr| arr.first())
            .and_then(|first| first.get("location"))
            .and_then(|loc| loc.get("country"))
            .and_then(|c| c.as_str())
        {
            Some(c) => CdnParse::Country(c.to_string()),
            None => CdnParse::NoCountry,
        },
    }
}

/// Settles the CDN stage from plain values: a banned address wins over
/// everything, a country means served (with its region), a countryless
/// document stays unknown, and an unreadable document is a parse failure.
/// The flag says whether this outcome settles the whole strategy.
pub open spec fn cdn_outcome_ok(status: u16, parse: CdnParse, item: UnlockItem, settled: bool) -> bool {
    &&& item.name@ == "Netflix"@
    &&& item.check_time is Some
    &&& (status == 403 ==> item.status@ == "No (IP Banned By Netflix)"@ && item.region is None
        && settled)
    &&& (status != 403 ==> match parse {
        CdnParse::Invalid => item.status@ == "Failed (Parse Error)"@ && item.region is None
            && !settled,
        CdnParse::NoCountry => item.status@ == "Unknown"@ && item.region is None && !settled,
        CdnParse::Country(c) => if c@.len() > 0 {
            item.status@ == "Yes"@ && (item.region matches Some(lab) && lab@ == region_label_of(c@)
                && lab@.len() > 0) && settled
        } else {
            item.status@ == "Unknown"@ && item.region is None && !settled
        },
    })
}

/// Settles the CDN stage from plain values, as `cdn_outcome_ok` says: a
/// banned address wins over everything, a non-empty country means served
/// (with its region), an empty or missing country stays unknown, and an
/// unreadable document is a parse failure.
pub fn netflix_cdn_outcome(status: u16, parse: &CdnParse) -> (res: (UnlockItem, bool))
    ensures
        cdn_outcome_ok(status, *parse, res.0, res.1),
{
    if status == 403 {
        (
            UnlockItem {
                name: String::from_str("Netflix"),
                status: String::from_str("No (IP Banned By Netflix)"),
                region: None,
                check_time: Some(get_local_date_string()),
            },
            true,
        )
    } else {
        match parse {
            CdnParse::Invalid => (
                UnlockItem {
                    name: String::from_str("Netflix"),
                    status: String::from_str("Failed (Parse Error)"),
                    region: None,
                    check_time: Some(get_local_date_string()),
                },
                false,
            ),
            CdnParse::NoCountry => (
                UnlockItem {
                    name: String::from_str("Netflix"),
                    status: String::from_str("Unknown"),
                    region: None,
                    check_time: Some(get_local_date_string()),
                },
                false,
            ),
            CdnParse::Country(c) => {
                if c.as_str().is_empty() {
                    (
                        UnlockItem {
                            name: String::from_str("Netflix"),
                            status: String::from_str("Unknown"),
                            region: None,
                            check_time: Some(get_local_date_string()),
                        },
                        false,
                    )
                } else {
                    (
                        UnlockItem {
                            name: String::from_str("Netflix"),
                            status: String::from_str("Yes"),
                            region: Some(region_label(c.as_str())),
                            check_time: Some(get_local_date_string()),
                        },
                        true,
                    )
                }
            }
        }
    }
}

/// Classifies the CDN-stage probe. The flag says whether this outcome
/// settles the whole strategy, so the content stage runs only when it is
/// `false`. For a readable body the record follows the JSON read on that
/// very body, through `cdn_parse_of`.
pub fn check_netflix_cdn(probe: &CdnProbe) -> (res: (UnlockItem, bool))
    ensures
        res.0.name@ == "Netflix"@,
        res.0.check_time is Some,
        match probe {
            CdnProbe::Transport => res.0.status@ == "Failed (CDN API)"@ && res.0.region is None
                && !res.1,
            CdnProbe::Response { status, body } => {
                &&& (status != 403 && body is None ==> res.0.status@ == "Failed (Parse Error)"@
                    && res.0.region is None && !res.1)
                &&& (body matches Some(b) ==> cdn_outcome_ok(*status, cdn_parse_of(b@), res.0, res.1))
                &&& (body is None ==> cdn_outcome_ok(*status, CdnParse::Invalid, res.0, res.1))
            },
        },
{
    match probe {
        CdnProbe::Transport => (
            UnlockItem {
                name: String::from_str("Netflix"),
                status: String::from_str("Failed (CDN API)"),
                region: None,
                check_time: Some(get_local_date_string()),
            },
            false,
        ),
        CdnProbe::Response { status, body } => {
            let parse = match body {
                Some(b) => read_cdn_country(b.as_str()),
                None => CdnParse::Invalid,
            };
            netflix_cdn_outcome(*status, &parse)
        }
    }
}

/// One decimal digit.
pub open spec fn digit_char(d: nat) -> char {
    if d == 0 {
        '0'
    } else if d == 1 {
        '1'
    } else if d == 2 {
        '2'
    } else if d == 3 {
        '3'
    } else if d == 4 {
        '4'
    } else if d == 5 {
        '5'
    } else if d == 6 {
        '6'
    } else if d == 7 {
        '7'
    } else if d == 8 {
        '8'
    } else {
        '9'
    }
}

/// Decimal rendering of a number.
pub open spec fn dec_of(n: nat) -> Seq<char>
    decreases n,
{
    if n < 10 {
        seq![digit_char(n)]
    } else {
        dec_of(n / 10).push(digit_char(n % 10))
    }
}

/// One decimal digit, executable form.
fn digit_exec(d: u16) -> (c: char)
    requires
        d < 10,
    ensures
        c == digit_char(d as nat),
{
    if d == 0 {
        '0'
    } else if d == 1 {
        '1'
    } else if d == 2 {
        '2'
    } else if d == 3 {
        '3'
    } else if d == 4 {
        '4'
    } else if d == 5 {
        '5'
    } else if d == 6 {
        '6'
    } else if d == 7 {
        '7'
    } else if d == 8 {
        '8'
    } else {
        '9'
    }
}

/// Renders a status code in decimal.
fn u16_dec(n: u16) -> (v: Vec<char>)
    ensures
        v@ == dec_of(n as nat),
    decreases n,
{
    if n < 10 {
        let mut v: Vec<char> = Vec::new();
        v.push(digit_exec(n));
        assert(v@ =~= seq![digit_char(n as nat)]);
        v
    } else {
        let mut v = u16_dec(n / 10);
        v.push(digit_exec(n % 10));
        v
    }
}

/// The diagnostic label carrying both raw status codes.
pub open spec fn failed_pair_of(a: nat, b: nat) -> Seq<char> {
    "Failed (Status: "@ + dec_of(a) + seq!['_'] + dec_of(b) + ")"@
}

/// How the content stage ended: either with a final record, or with the
/// service unlocked and one more probe owed for the region.
pub enum ContentOutcome {
    Done(UnlockItem),
    ProbeRegion,
}

/// Settles the content stage from the status codes of the two content
/// probes (`None` is a transport failure): both missing titles mean only
/// originals are served, a forbidden answer means not served, a served or
/// redirected title means unlocked and worth a region probe, and any other
/// pair is a failure carrying both codes.
pub fn check_netflix_content(s1: Option<u16>, s2: Option<u16>) -> (r: ContentOutcome)
    ensures
        match r {
            ContentOutcome::Done(it) => it.name@ == "Netflix"@ && it.check_time is Some
                && it.region is None,
            ContentOutcome::ProbeRegion => true,
        },
        s1 is None ==> (r matches ContentOutcome::Done(it) && it.status@ == "Failed"@),
        s1 is Some && s2 is None ==> (r matches ContentOutcome::Done(it) && it.status@
            == "Failed"@),
        s1 matches Some(a) ==> (s2 matches Some(b) ==> (if a == 404 && b == 404 {
            r matches ContentOutcome::Done(it) && it.status@ == "Originals Only"@
        } else if a == 403 || b == 403 {
            r matches ContentOutcome::Done(it) && it.status@ == "No"@
        } else if a == 200 || a == 301 || b == 200 || b == 301 {
            r is ProbeRegion
        } else {
            r matches ContentOutcome::Done(it) && it.status@ == failed_pair_of(a as nat, b as nat)
        })),
{
    let a = match s1 {
        Some(a) => a,
        None => {
            return ContentOutcome::Done(
                UnlockItem {
                    name: String::from_str("Netflix"),
                    status: String::from_str("Failed"),
                    region: None,
                    check_time: Some(get_local_date_string()),
                },
            );
        }
    };
    let b = match s2 {
        Some(b) => b,
        None => {
            return ContentOutcome::Done(
                UnlockItem {
                    name: String::from_str("Netflix"),
                    status: String::from_str("Failed"),
                    region: None,
                    check_time: Some(get_local_date_string()),
                },
            );
        }
    };
    if a == 404 && b == 404 {
        ContentOutcome::Done(
            UnlockItem {
                name: String::from_str("Netflix"),
                status: String::from_str("Originals Only"),
                region: None,
                check_time: Some(get_local_date_string()),
            },
        )
    } else if a == 403 || b == 403 {
        ContentOutcome::Done(
            UnlockItem {
                name: String::from_str("Netflix"),
                status: String::from_str("No"),
                region: None,
                check_time: Some(get_local_date_string()),
            },
        )
    } else if a == 200 || a == 301 || b == 200 || b == 301 {
        ContentOutcome::ProbeRegion
    } else {
        let da = u16_dec(a);
        let db = u16_dec(b);
        let mut st = String::from_str("Failed (Status: ");
        let das = chars_to_string(&da);
        st.append(das.as_str());
        st.push('_');
        let dbs = chars_to_string(&db);
        st.append(dbs.as_str());
        st.append(")");
        assert(st@ =~= failed_pair_of(a as nat, b as nat));
        ContentOutcome::Done(
            UnlockItem {
                name: String::from_str("Netflix"),
                status: st,
                region: None,
                check_time: Some(get_local_date_string()),
            },
        )
    }
}

/// The suffix after the first occurrence of `c`, if any.
pub open spec fn after_first(s: Seq<char>, c: char) -> Option<Seq<char>> {
    match first_pos(s, c) {
        Some(i) => Some(s.subrange(i + 1, s.len() as int)),
        None => None,
    }
}

/// The prefix up to the first occurrence of `c`, or all of `s`.
pub open spec fn take_until(s: Seq<char>, c: char) -> Seq<char> {
    match first_pos(s, c) {
        Some(i) => s.subrange(0, i),
        None => s,
    }
}

/// The region code inside a redirect location: the path segment after the
/// third separator, cut at its first dash; absent when the path has fewer
/// than four segments.
pub open spec fn netflix_region_code(loc: Seq<char>) -> Option<Seq<char>> {
    match after_first(loc, '/') {
        Some(t1) => match after_first(t1, '/') {
            Some(t2) => match after_first(t2, '/') {
                Some(t3) => Some(take_until(take_until(t3, '/'), '-')),
                None => None,
            },
            None => None,
        },
        None => None,
    }
}

/// The region the redirect stands for: the code in the location when there
/// are enough path segments and the segment is not empty, with everything
/// else falling back to `us`.
pub open spec fn netflix_redirect_region(loc: Option<Seq<char>>) -> Seq<char> {
    match loc {
        Some(l) => match netflix_region_code(l) {
            Some(code) => if code.len() > 0 {
                code
            } else {
                "us"@
            },
            None => "us"@,
        },
        None => "us"@,
    }
}

/// Reads the region code out of a redirect location.
#[verifier::rlimit(30)]
fn netflix_path_region(loc: &Vec<char>) -> (r: Option<Vec<char>>)
    ensures
        match r {
            Some(code) => netflix_region_code(loc@) == Some(code@),
            None => netflix_region_code(loc@) is None,
        },
{
    let n = loc.len();
    let p1 = match find_char_from(loc, '/', 0) {
        Some(p) => p,
        None => {
            proof {
                lemma_first_pos_absent(loc@, '/');
            }
            return None;
        }
    };
    proof {
        lemma_first_pos_is(loc@, '/', p1 as int);
    }
    let ghost t1 = loc@.subrange(p1 + 1, n as int);
    let p2 = match find_char_from(loc, '/', p1 + 1) {
        Some(p) => p,
        None => {
            proof {
                assert(forall|k: int| 0 <= k < t1.len() ==> t1[k] == loc@[p1 + 1 + k]);
                lemma_first_pos_absent(t1, '/');
            }
            return None;
        }
    };
    proof {
        assert(forall|k: int| 0 <= k < t1.len() ==> t1[k] == loc@[p1 + 1 + k]);
        lemma_first_pos_is(t1, '/', p2 - p1 - 1);
        assert(t1.subrange(p2 - p1, t1.len() as int) =~= loc@.subrange(p2 + 1, n as int));
    }
    let ghost t2 = loc@.subrange(p2 + 1, n as int);
    let p3 = match find_char_from(loc, '/', p2 + 1) {
        Some(p) => p,
        None => {
            proof {
                assert(forall|k: int| 0 <= k < t2.len() ==> t2[k] == loc@[p2 + 1 + k]);
                lemma_first_pos_absent(t2, '/');
            }
            return None;
        }
    };
    proof {
        assert(forall|k: int| 0 <= k < t2.len() ==> t2[k] == loc@[p2 + 1 + k]);
        lemma_first_pos_is(t2, '/', p3 - p2 - 1);
        assert(t2.subrange(p3 - p2, t2.len() as int) =~= loc@.subrange(p3 + 1, n as int));
    }
    let ghost t3 = loc@.subrange(p3 + 1, n as int);
    let end4 = match find_char_from(loc, '/', p3 + 1) {
        Some(p4) => {
            proof {
                assert(forall|k: int| 0 <= k < t3.len() ==> t3[k] == loc@[p3 + 1 + k]);
                lemma_first_pos_is(t3, '/', p4 - p3 - 1);
                assert(t3.subrange(0, p4 - p3 - 1) =~= loc@.subrange(p3 + 1, p4 as int));
            }
            p4
        }
        None => {
            proof {
                assert(forall|k: int| 0 <= k < t3.len() ==> t3[k] == loc@[p3 + 1 + k]);
                lemma_first_pos_absent(t3, '/');
            }
            n
        }
    };
    let ghost part3 = loc@.subrange(p3 + 1, end4 as int);
    assert(take_until(t3, '/') == part3);
    let code_end = match find_char_in_range(loc, '-', p3 + 1, end4) {
        Some(d) => {
            proof {
                assert(forall|k: int| 0 <= k < part3.len() ==> part3[k] == loc@[p3 + 1 + k]);
                lemma_first_pos_is(part3, '-', d - p3 - 1);
                assert(part3.subrange(0, d - p3 - 1) =~= loc@.subrange(p3 + 1, d as int));
            }
            d
        }
        None => {
            proof {
                assert(forall|k: int| 0 <= k < part3.len() ==> part3[k] == loc@[p3 + 1 + k]);
                lemma_first_pos_absent(part3, '-');
                assert(part3.subrange(0, part3.len() as int) =~= part3);
            }
            end4
        }
    };
    let code = copy_range(loc, p3 + 1, code_end);
    assert(take_until(part3, '-') == code@);
    Some(code)
}

/// What the redirect probe produced: a transport failure, or a response
/// whose `location` header may or may not be present.
#[derive(Debug, Clone)]
pub enum RegionProbe {
    Transport,
    Redirect(Option<String>),
}

/// Settles the region probe the content stage asked for: the service is
/// already known served, so a transport failure only leaves the region
/// unknown, and otherwise the redirect location (or the fallback) names the
/// region.
pub fn check_netflix_region(probe: &RegionProbe) -> (r: UnlockItem)
    ensures
        r.name@ == "Netflix"@,
        r.check_time is Some,
        match probe {
            RegionProbe::Transport => r.status@ == "Yes (region unknown)"@ && r.region is None,
            RegionProbe::Redirect(opt) => r.status@ == "Yes"@ && (r.region matches Some(lab)
                && lab@ == region_label_of(
                netflix_redirect_region(
                    match opt {
                        Some(l) => Some(l@),
                        None => None,
                    },
                ),
            ) && lab@.len() > 0),
        },
{
    match probe {
        RegionProbe::Transport => UnlockItem {
            name: String::from_str("Netflix"),
            status: String::from_str("Yes (region unknown)"),
            region: None,
            check_time: Some(get_local_date_string()),
        },
        RegionProbe::Redirect(opt) => {
            let lab = match opt {
                Some(l) => {
                    let chars = to_chars(l.as_str());
                    match netflix_path_region(&chars) {
                        Some(code) => {
                            if code.len() == 0 {
                                region_label("us")
                            } else {
                                let code_str = chars_to_string(&code);
                                region_label(code_str.as_str())
                            }
                        }
                        None => region_label("us"),
                    }
                }
                None => region_label("us"),
            };
            proof {
                reveal_strlit("us");
            }
            UnlockItem {
                name: String::from_str("Netflix"),
                status: String::from_str("Yes"),
                region: Some(lab),
                check_time: Some(get_local_date_string()),
            }
        }
    }
}

} // verus!
