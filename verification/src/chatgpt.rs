//! Combined AI-chat strategy: one trace probe that yields the region shared
//! by both records, one mobile-endpoint probe and one compliance-endpoint
//! probe, each classified on its own.

use vstd::prelude::*;

verus! {

use vstd::string::StringExecFns;
use crate::codec::{region_label, region_label_of};
use crate::model::{Fetch, UnlockItem, get_local_date_string};
use crate::text::{
    chars_to_string, contains_chars_ci, contains_ci, copy_range, find_char_from,
    find_char_in_range, first_pos, lemma_first_pos, lemma_first_pos_absent, lemma_first_pos_is,
    to_chars,
};

/// A line with its trailing carriage return removed, as the line splitter
/// of the trace body treats `\r\n` endings.
pub open spec fn strip_cr(l: Seq<char>) -> Seq<char> {
    if l.len() > 0 && l[l.len() - 1] == '\r' {
        l.drop_last()
    } else {
        l
    }
}

/// The value of one `key=value` trace line when its key is `loc`; the key is
/// everything before the first `=`, the value everything after it.
pub open spec fn line_loc_value(l: Seq<char>) -> Option<Seq<char>> {
    match first_pos(l, '=') {
        Some(e) => if l.subrange(0, e) == "loc"@ {
            Some(l.subrange(e + 1, l.len() as int))
        } else {
            None
        },
        None => None,
    }
}

/// The `loc` entry of a `key=value`-per-line trace body. Later lines
/// overwrite earlier ones, so the last `loc` line wins.
pub open spec fn trace_loc(s: Seq<char>) -> Option<Seq<char>>
    decreases s.len(),
{
    if s.len() == 0 {
        None
    } else {
        match first_pos(s, '\n') {
            Some(i) => if 0 <= i < s.len() {
                let rest = trace_loc(s.subrange(i + 1, s.len() as int));
                if rest is Some {
                    rest
                } else {
                    line_loc_value(strip_cr(s.subrange(0, i)))
                }
            } else {
                None
            },
            None => line_loc_value(strip_cr(s)),
        }
    }
}

/// The region label both records share: the `loc` entry of the trace body,
/// rendered as flag plus code; `None` whenever the trace probe failed, had
/// no such entry, or carried an empty one (a present region is never
/// empty).
pub open spec fn chatgpt_region_of(f: Fetch) -> Option<Seq<char>> {
    match f {
        Fetch::Body(b) => match trace_loc(b@) {
            Some(loc) => if loc.len() > 0 {
                Some(region_label_of(loc))
            } else {
                None
            },
            None => None,
        },
        _ => None,
    }
}

/// Classification of the mobile-endpoint probe.
pub open spec fn ios_status_of(f: Fetch) -> Seq<char> {
    match f {
        Fetch::Body(b) => if contains_ci(b@, "you may be connected to a disallowed isp"@) {
            "Disallowed ISP"@
        } else if contains_ci(b@, "request is not allowed. please try again later."@) {
            "Yes"@
        } else if contains_ci(b@, "sorry, you have been blocked"@) {
            "Blocked"@
        } else {
            "Failed"@
        },
        _ => "Failed"@,
    }
}

/// Classification of the compliance-endpoint probe.
pub open spec fn web_status_of(f: Fetch) -> Seq<char> {
    match f {
        Fetch::Body(b) => if contains_ci(b@, "unsupported_country"@) {
            "Unsupported Country"@
        } else {
            "Yes"@
        },
        _ => "Failed"@,
    }
}

/// All that the combined classification promises of its two records: names,
/// each status from its own probe, the one shared region from the trace
/// probe, and a check time on each.
pub open spec fn chatgpt_records_ok(trace: Fetch, ios: Fetch, web: Fetch, r: Seq<
    UnlockItem,
>) -> bool {
    &&& r.len() == 2
    &&& r[0].name@ == "ChatGPT iOS"@
    &&& r[1].name@ == "ChatGPT Web"@
    &&& r[0].status@ == ios_status_of(ios)
    &&& r[1].status@ == web_status_of(web)
    &&& (r[0].region matches Some(s) ==> chatgpt_region_of(trace) == Some(s@) && s@.len() > 0)
    &&& (r[0].region is None <==> chatgpt_region_of(trace) is None)
    &&& (r[1].region matches Some(s) ==> chatgpt_region_of(trace) == Some(s@) && s@.len() > 0)
    &&& (r[1].region is None <==> chatgpt_region_of(trace) is None)
    &&& r[0].check_time is Some
    &&& r[1].check_time is Some
}

/// Law: the trace probe's failure domain is its own. When it fails, both
/// records lose only their region, while each status still classifies its
/// own probe.
pub proof fn lemma_chatgpt_failure_domains(trace: Fetch, ios: Fetch, web: Fetch, r: Seq<
    UnlockItem,
>)
    requires
        trace !is Body,
        chatgpt_records_ok(trace, ios, web, r),
    ensures
        r[0].region is None,
        r[1].region is None,
        r[0].status@ == ios_status_of(ios),
        r[1].status@ == web_status_of(web),
{
}

/// Reads the `loc` value of one line `body[a..b]` (before carriage-return
/// stripping).
fn line_loc_exec(body: &Vec<char>, a: usize, b: usize) -> (r: Option<Vec<char>>)
    requires
        a <= b <= body@.len(),
    ensures
        match r {
            Some(v) => line_loc_value(strip_cr(body@.subrange(a as int, b as int))) == Some(v@),
            None => line_loc_value(strip_cr(body@.subrange(a as int, b as int))) is None,
        },
{
    let end = if b > a && body[b - 1] == '\r' {
        b - 1
    } else {
        b
    };
    let ghost line = strip_cr(body@.subrange(a as int, b as int));
    assert(line =~= body@.subrange(a as int, end as int));
    match find_char_in_range(body, '=', a, end) {
        None => {
            proof {
                assert(forall|k: int| 0 <= k < line.len() ==> line[k] == body@[a + k]);
                lemma_first_pos_absent(line, '=');
            }
            None
        }
        Some(e) => {
            proof {
                assert(forall|k: int| 0 <= k < line.len() ==> line[k] == body@[a + k]);
                lemma_first_pos_is(line, '=', e - a);
            }
            let is_loc = e - a == 3 && body[a] == 'l' && body[a + 1] == 'o' && body[a + 2] == 'c';
            proof {
                reveal_strlit("loc");
            }
            if is_loc {
                let v = copy_range(body, e + 1, end);
                assert(line.subrange(0, 3) =~= "loc"@);
                assert(v@ =~= line.subrange(e - a + 1, line.len() as int));
                Some(v)
            } else {
                assert(line.subrange(0, e - a) != "loc"@) by {
                    reveal_strlit("loc");
                    let key = line.subrange(0, e - a);
                    assert("loc"@.len() == 3);
                    assert("loc"@[0] == 'l' && "loc"@[1] == 'o' && "loc"@[2] == 'c');
                    if e - a == 3 {
                        assert(key[0] == body@[a as int]);
                        assert(key[1] == body@[a + 1]);
                        assert(key[2] == body@[a + 2]);
                    } else {
                        assert(key.len() != "loc"@.len());
                    }
                }
                None
            }
        }
    }
}

/// Scans the whole trace body for its (last) `loc` entry.
pub fn trace_loc_exec(body: &Vec<char>) -> (r: Option<Vec<char>>)
    ensures
        match r {
            Some(v) => trace_loc(body@) == Some(v@),
            None => trace_loc(body@) is None,
        },
{
    assert(body@.subrange(0, body@.len() as int) =~= body@);
    trace_loc_tail(body, 0)
}

/// Scans the suffix of the trace body starting at `from` for its `loc`
/// entry.
fn trace_loc_tail(body: &Vec<char>, from: usize) -> (r: Option<Vec<char>>)
    requires
        from <= body@.len(),
    ensures
        match r {
            Some(v) => trace_loc(body@.subrange(from as int, body@.len() as int)) == Some(v@),
            None => trace_loc(body@.subrange(from as int, body@.len() as int)) is None,
        },
    decreases body@.len() - from,
{
    let n = body.len();
    let ghost suffix = body@.subrange(from as int, n as int);
    if from == n {
        assert(suffix.len() == 0);
        return None;
    }
    match find_char_from(body, '\n', from) {
        Some(nl) => {
            proof {
                assert(forall|k: int| 0 <= k < suffix.len() ==> suffix[k] == body@[from + k]);
                lemma_first_pos_is(suffix, '\n', nl - from);
                assert(suffix.subrange(nl - from + 1, suffix.len() as int) =~= body@.subrange(
                    nl + 1,
                    n as int,
                ));
                assert(suffix.subrange(0, nl - from) =~= body@.subrange(from as int, nl as int));
            }
            let rest = trace_loc_tail(body, nl + 1);
            match rest {
                Some(v) => Some(v),
                None => line_loc_exec(body, from, nl),
            }
        }
        None => {
            proof {
                assert(forall|k: int| 0 <= k < suffix.len() ==> suffix[k] == body@[from + k]);
                lemma_first_pos_absent(suffix, '\n');
                assert(suffix.subrange(0, suffix.len() as int) =~= suffix);
            }
            line_loc_exec(body, from, n)
        }
    }
}

/// Classifies the mobile-endpoint probe.
fn ios_status_exec(f: &Fetch) -> (r: String)
    ensures
        r@ == ios_status_of(*f),
{
    match f {
        Fetch::Body(b) => {
            let chars = to_chars(b.as_str());
            if contains_chars_ci(&chars, &to_chars("you may be connected to a disallowed isp")) {
                String::from_str("Disallowed ISP")
            } else if contains_chars_ci(
                &chars,
                &to_chars("request is not allowed. please try again later."),
            ) {
                String::from_str("Yes")
            } else if contains_chars_ci(&chars, &to_chars("sorry, you have been blocked")) {
                String::from_str("Blocked")
            } else {
                String::from_str("Failed")
            }
        }
        _ => String::from_str("Failed"),
    }
}

/// Classifies the compliance-endpoint probe.
fn web_status_exec(f: &Fetch) -> (r: String)
    ensures
        r@ == web_status_of(*f),
{
    match f {
        Fetch::Body(b) => {
            let chars = to_chars(b.as_str());
            if contains_chars_ci(&chars, &to_chars("unsupported_country")) {
                String::from_str("Unsupported Country")
            } else {
                String::from_str("Yes")
            }
        }
        _ => String::from_str("Failed"),
    }
}

/// The shared region label, when the trace probe yielded one.
fn chatgpt_region_exec(trace: &Fetch) -> (r: Option<String>)
    ensures
        match r {
            Some(s) => chatgpt_region_of(*trace) == Some(s@),
            None => chatgpt_region_of(*trace) is None,
        },
{
    match trace {
        Fetch::Body(b) => {
            let chars = to_chars(b.as_str());
            match trace_loc_exec(&chars) {
                Some(loc) => {
                    if loc.len() == 0 {
                        None
                    } else {
                        let code = chars_to_string(&loc);
                        Some(region_label(code.as_str()))
                    }
                }
                None => None,
            }
        }
        _ => None,
    }
}

/// Runs the combined classification: two records, one per endpoint, sharing
/// the trace region and each stamped with its own check time.
pub fn check_chatgpt_combined(trace: &Fetch, ios: &Fetch, web: &Fetch) -> (r: Vec<UnlockItem>)
    ensures
        chatgpt_records_ok(*trace, *ios, *web, r@),
{
    let region_a = chatgpt_region_exec(trace);
    let region_b = chatgpt_region_exec(trace);
    let mut results: Vec<UnlockItem> = Vec::new();
    results.push(
        UnlockItem {
            name: String::from_str("ChatGPT iOS"),
            status: ios_status_exec(ios),
            region: region_a,
            check_time: Some(get_local_date_string()),
        },
    );
    results.push(
        UnlockItem {
            name: String::from_str("ChatGPT Web"),
            status: web_status_exec(web),
            region: region_b,
            check_time: Some(get_local_date_string()),
        },
    );
    results
}

} // verus!
