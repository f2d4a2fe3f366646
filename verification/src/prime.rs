//! Video-on-demand strategy: one probe, classified by a restriction marker,
//! with the region read out of a quoted current-territory field.

use vstd::prelude::*;

verus! {

use vstd::string::StringExecFns;
use crate::codec::{region_label, region_label_of};
use crate::model::{Fetch, UnlockItem, get_local_date_string};
use crate::text::{
    chars_to_string, contains_chars, contains_seq, copy_range, find_char_from, match_at_exec,
    matches_at, to_chars,
};

/// The marker meaning the service is restricted from this vantage point.
pub open spec fn prime_blocked_marker() -> Seq<char> {
    "isServiceRestricted"@
}

/// The quoted field the territory follows.
pub open spec fn prime_territory_marker() -> Seq<char> {
    "\"currentTerritory\":\""@
}

/// The territory pattern holds at `i`: the field marker followed by at
/// least one character that is no quote.
pub open spec fn prime_pattern_at(s: Seq<char>, i: int) -> bool {
    &&& matches_at(s, prime_territory_marker(), i)
    &&& i + 20 < s.len()
    &&& s[i + 20] != '"'
}

/// The captured territory runs from the end of the marker to the next quote
/// or to the end of the body.
pub open spec fn prime_capture_end(s: Seq<char>, i: int, c: int) -> bool {
    &&& i + 20 < c <= s.len()
    &&& (c == s.len() || s[c] == '"')
    &&& (forall|t: int| i + 20 <= t < c ==> s[t] != '"')
}

/// Scans for the first position where the territory pattern holds and
/// returns the territory captured there.
fn prime_region_scan(body: &Vec<char>) -> (r: Option<Vec<char>>)
    ensures
        match r {
            Some(code) => exists|i: int, c: int|
                #[trigger] prime_pattern_at(body@, i) && #[trigger] prime_capture_end(body@, i, c)
                    && (forall|j: int| 0 <= j < i ==> !prime_pattern_at(body@, j)) && code@
                    == body@.subrange(i + 20, c),
            None => forall|i: int| !prime_pattern_at(body@, i),
        },
{
    let marker = to_chars("\"currentTerritory\":\"");
    proof {
        reveal_strlit("\"currentTerritory\":\"");
    }
    assert(marker@.len() == 20);
    if body.len() < 21 {
        assert forall|i0: int| !prime_pattern_at(body@, i0) by {}
        return None;
    }
    let last = body.len() - 21;
    let mut i: usize = 0;
    while i <= last
        invariant
            marker@ == prime_territory_marker(),
            marker@.len() == 20,
            21 <= body@.len() <= usize::MAX,
            last == body@.len() - 21,
            i <= last + 1,
            forall|j: int| 0 <= j < i ==> !prime_pattern_at(body@, j),
        decreases last + 1 - i,
    {
        if match_at_exec(body, &marker, i) && body[i + 20] != '"' {
            assert(prime_pattern_at(body@, i as int));
            let cend = match find_char_from(body, '"', i + 20) {
                Some(c) => c,
                None => body.len(),
            };
            assert(prime_capture_end(body@, i as int, cend as int));
            let code = copy_range(body, i + 20, cend);
            return Some(code);
        }
        assert(!prime_pattern_at(body@, i as int));
        i += 1;
    }
    assert forall|i0: int| !prime_pattern_at(body@, i0) by {
        if prime_pattern_at(body@, i0) {
            assert(0 <= i0 <= last);
        }
    }
    None
}

/// Classifies the probe: a transport failure and an unreadable body carry
/// their own failure labels; the restriction marker wins over everything
/// else; a captured territory means served, with its region; a page with
/// neither marker is a parse failure.
pub fn check_prime_video(fetch: &Fetch) -> (r: UnlockItem)
    ensures
        r.name@ == "Prime Video"@,
        r.check_time is Some,
        match fetch {
            Fetch::Body(b) => {
                if contains_seq(b@, prime_blocked_marker()) {
                    r.status@ == "No (Service Not Available)"@ && r.region is None
                } else {
                    &&& (r.region matches Some(lab) ==> exists|i: int, c: int|
                        #[trigger] prime_pattern_at(b@, i) && #[trigger] prime_capture_end(
                            b@,
                            i,
                            c,
                        ) && (forall|j: int| 0 <= j < i ==> !prime_pattern_at(b@, j)) && lab@
                        == region_label_of(b@.subrange(i + 20, c)) && lab@.len() > 0)
                    &&& (r.region is Some ==> r.status@ == "Yes"@)
                    &&& (r.region is None <==> (forall|i: int| !prime_pattern_at(b@, i)))
                    &&& (r.region is None ==> r.status@ == "Failed (Error: PAGE ERROR)"@)
                }
            },
            Fetch::Transport => r.status@ == "Failed (Network Connection)"@ && r.region is None,
            Fetch::Unreadable => r.status@ == "Failed (Error: Cannot read response)"@
                && r.region is None,
        },
{
    match fetch {
        Fetch::Body(b) => {
            let chars = to_chars(b.as_str());
            if contains_chars(&chars, &to_chars("isServiceRestricted")) {
                UnlockItem {
                    name: String::from_str("Prime Video"),
                    status: String::from_str("No (Service Not Available)"),
                    region: None,
                    check_time: Some(get_local_date_string()),
                }
            } else {
                match prime_region_scan(&chars) {
                    Some(code) => {
                        let code_str = chars_to_string(&code);
                        let lab = region_label(code_str.as_str());
                        proof {
                            let (i, c) = choose|i: int, c: int|
                                #[trigger] prime_pattern_at(chars@, i)
                                    && #[trigger] prime_capture_end(chars@, i, c) && (forall|
                                    j: int,
                                |
                                    0 <= j < i ==> !prime_pattern_at(chars@, j)) && code@
                                    == chars@.subrange(i + 20, c);
                            assert(prime_pattern_at(b@, i) && prime_capture_end(b@, i, c) && (
                            forall|j: int| 0 <= j < i ==> !prime_pattern_at(b@, j)) && lab@
                                == region_label_of(b@.subrange(i + 20, c)) && lab@.len() > 0);
                        }
                        UnlockItem {
                            name: String::from_str("Prime Video"),
                            status: String::from_str("Yes"),
                            region: Some(lab),
                            check_time: Some(get_local_date_string()),
                        }
                    }
                    None => UnlockItem {
                        name: String::from_str("Prime Video"),
                        status: String::from_str("Failed (Error: PAGE ERROR)"),
                        region: None,
                        check_time: Some(get_local_date_string()),
                    },
                }
            }
        }
        Fetch::Transport => UnlockItem {
            name: String::from_str("Prime Video"),
            status: String::from_str("Failed (Network Connection)"),
            region: None,
            check_time: Some(get_local_date_string()),
        },
        Fetch::Unreadable => UnlockItem {
            name: String::from_str("Prime Video"),
            status: String::from_str("Failed (Error: Cannot read response)"),
            region: None,
            check_time: Some(get_local_date_string()),
        },
    }
}

} // verus!
