//! Recommendation-engine strategy: one probe, classified by a fixed internal
//! marker, with a quoted three-letter region code scanned out of the body.

use vstd::prelude::*;

verus! {

use vstd::string::StringExecFns;
use crate::codec::{region_label, region_label_of};
use crate::model::{Fetch, UnlockItem, get_local_date_string};
use crate::text::{
    chars_to_string, contains_chars, contains_seq, copy_range, match_at_exec, matches_at, to_chars,
};

/// The marker whose presence means the service is served normally.
pub open spec fn gemini_ok_marker() -> Seq<char> {
    "45631641,null,true"@
}

/// The structural marker the region code follows.
pub open spec fn gemini_region_marker() -> Seq<char> {
    ",2,1,200,\""@
}

/// An ASCII capital letter.
pub open spec fn is_upper(c: char) -> bool {
    'A' <= c && c <= 'Z'
}

/// The region pattern holds at `i`: the structural marker, then exactly
/// three capital letters closed by a quote.
pub open spec fn gemini_pattern_at(s: Seq<char>, i: int) -> bool {
    &&& matches_at(s, gemini_region_marker(), i)
    &&& i + 14 <= s.len()
    &&& is_upper(s[i + 10]) && is_upper(s[i + 11]) && is_upper(s[i + 12])
    &&& s[i + 13] == '"'
}

/// Executable form of `is_upper`.
fn is_upper_exec(c: char) -> (r: bool)
    ensures
        r == is_upper(c),
{
    let u = c as u32;
    65 <= u && u <= 90
}

/// Scans for the first position where the region pattern holds and returns
/// the three-letter code found there.
fn gemini_region_scan(body: &Vec<char>) -> (r: Option<Vec<char>>)
    ensures
        match r {
            Some(code) => exists|i: int|
                #[trigger] gemini_pattern_at(body@, i) && (forall|j: int|
                    0 <= j < i ==> !gemini_pattern_at(body@, j)) && code@ == body@.subrange(
                    i + 10,
                    i + 13,
                ),
            None => forall|i: int| !gemini_pattern_at(body@, i),
        },
{
    let marker = to_chars(",2,1,200,\"");
    proof {
        reveal_strlit(",2,1,200,\"");
    }
    assert(marker@.len() == 10);
    if body.len() < 14 {
        assert forall|i: int| !gemini_pattern_at(body@, i) by {}
        return None;
    }
    let last = body.len() - 14;
    let mut i: usize = 0;
    while i <= last
        invariant
            marker@ == gemini_region_marker(),
            marker@.len() == 10,
            14 <= body@.len() <= usize::MAX,
            last == body@.len() - 14,
            i <= last + 1,
            forall|j: int| 0 <= j < i ==> !gemini_pattern_at(body@, j),
        decreases last + 1 - i,
    {
        if match_at_exec(body, &marker, i) && is_upper_exec(body[i + 10]) && is_upper_exec(
            body[i + 11],
        ) && is_upper_exec(body[i + 12]) && body[i + 13] == '"' {
            let code = copy_range(body, i + 10, i + 13);
            assert(gemini_pattern_at(body@, i as int));
            return Some(code);
        }
        assert(!gemini_pattern_at(body@, i as int));
        i += 1;
    }
    assert forall|i0: int| !gemini_pattern_at(body@, i0) by {
        if gemini_pattern_at(body@, i0) {
            assert(0 <= i0 <= last);
        }
    }
    None
}

/// Classifies the probe: marker present means served, absent means not;
/// a failed probe is `Failed`; the region is scanned independently.
pub fn check_gemini(fetch: &Fetch) -> (r: UnlockItem)
    ensures
        r.name@ == "Gemini"@,
        r.check_time is Some,
        match fetch {
            Fetch::Body(b) => {
                &&& r.status@ == (if contains_seq(b@, gemini_ok_marker()) {
                    "Yes"@
                } else {
                    "No"@
                })
                &&& (r.region matches Some(lab) ==> exists|i: int|
                    #[trigger] gemini_pattern_at(b@, i) && (forall|j: int|
                        0 <= j < i ==> !gemini_pattern_at(b@, j)) && lab@ == region_label_of(
                        b@.subrange(i + 10, i + 13),
                    ) && lab@.len() > 0)
                &&& (r.region is None <==> (forall|i: int| !gemini_pattern_at(b@, i)))
            },
            _ => r.status@ == "Failed"@ && r.region is None,
        },
{
    match fetch {
        Fetch::Body(b) => {
            let chars = to_chars(b.as_str());
            let status = if contains_chars(&chars, &to_chars("45631641,null,true")) {
                String::from_str("Yes")
            } else {
                String::from_str("No")
            };
            let region = match gemini_region_scan(&chars) {
                Some(code) => {
                    let code_str = chars_to_string(&code);
                    Some(region_label(code_str.as_str()))
                }
                None => None,
            };
            UnlockItem {
                name: String::from_str("Gemini"),
                status,
                region,
                check_time: Some(get_local_date_string()),
            }
        }
        _ => UnlockItem {
            name: String::from_str("Gemini"),
            status: String::from_str("Failed"),
            region: None,
            check_time: Some(get_local_date_string()),
        },
    }
}

} // verus!
