//! Premium-video strategy: one probe, classified by an unavailability
//! message or an ad-free marker, with the region read out of the HTML
//! element carrying a fixed id attribute.

use vstd::prelude::*;

verus! {

use vstd::string::StringExecFns;
use crate::codec::{region_label, region_label_of};
use crate::model::{Fetch, UnlockItem, get_local_date_string};
use crate::text::{
    chars_to_string, contains_chars_ci, contains_ci, copy_range, find_char_from, match_at_exec,
    matches_at, to_chars, trim_chars, trim_seq,
};

/// The message meaning the service is not offered here.
pub open spec fn yt_no_marker() -> Seq<char> {
    "youtube premium is not available in your country"@
}

/// The marker meaning the ad-free offering is served.
pub open spec fn yt_yes_marker() -> Seq<char> {
    "ad-free"@
}

/// The id attribute that tags the element holding the region code.
pub open spec fn yt_id_marker() -> Seq<char> {
    "id=\"country-code\""@
}

/// The region pattern holds at `i` with element-text bounds `a`, `b`: the id
/// attribute, the rest of the opening tag up to its closing `>` at `a`, then
/// non-empty element text up to the `<` at `b`.
pub open spec fn yt_pattern_at(s: Seq<char>, i: int, a: int, b: int) -> bool {
    &&& matches_at(s, yt_id_marker(), i)
    &&& i + 17 <= a < s.len()
    &&& s[a] == '>'
    &&& (forall|t: int| i + 17 <= t < a ==> s[t] != '>')
    &&& a + 1 < b < s.len()
    &&& s[b] == '<'
    &&& (forall|t: int| a < t < b ==> s[t] != '<')
}

/// The region pattern matches at `i` for some element-text bounds.
pub open spec fn yt_match_at(s: Seq<char>, i: int) -> bool {
    exists|a: int, b: int| yt_pattern_at(s, i, a, b)
}

/// A region is reported: the first match of the region pattern carries
/// element text that is not all white space.
pub open spec fn yt_region_present(s: Seq<char>) -> bool {
    exists|i: int, a: int, b: int|
        #[trigger] yt_pattern_at(s, i, a, b) && (forall|j: int|
            0 <= j < i ==> !yt_match_at(s, j)) && trim_seq(s.subrange(a + 1, b)).len() > 0
}

/// Scans for the first position where the region pattern holds and returns
/// the raw element text found there.
fn yt_region_scan(body: &Vec<char>) -> (r: Option<Vec<char>>)
    ensures
        match r {
            Some(raw) => exists|i: int, a: int, b: int|
                #[trigger] yt_pattern_at(body@, i, a, b) && (forall|j: int|
                    0 <= j < i ==> !yt_match_at(body@, j)) && raw@ == body@.subrange(a + 1, b),
            None => forall|i: int| !yt_match_at(body@, i),
        },
{
    let marker = to_chars("id=\"country-code\"");
    proof {
        reveal_strlit("id=\"country-code\"");
    }
    assert(marker@.len() == 17);
    if body.len() < 17 {
        assert forall|i0: int| !yt_match_at(body@, i0) by {
            if yt_match_at(body@, i0) {
                let (a, b) = choose|a: int, b: int| yt_pattern_at(body@, i0, a, b);
            }
        }
        return None;
    }
    let last = body.len() - 17;
    let mut i: usize = 0;
    while i <= last
        invariant
            marker@ == yt_id_marker(),
            marker@.len() == 17,
            17 <= body@.len() <= usize::MAX,
            last == body@.len() - 17,
            i <= last + 1,
            forall|j: int| 0 <= j < i ==> !yt_match_at(body@, j),
        decreases last + 1 - i,
    {
        if match_at_exec(body, &marker, i) {
            match find_char_from(body, '>', i + 17) {
                None => {
                    // No tag ever closes at or after this id attribute, so no
                    // later occurrence can complete the pattern either.
                    assert forall|i0: int| !yt_match_at(body@, i0) by {
                        if yt_match_at(body@, i0) {
                            let (a, b) = choose|a: int, b: int| yt_pattern_at(body@, i0, a, b);
                            if i0 >= i {
                                assert(body@[a] != '>');
                            }
                        }
                    }
                    return None;
                }
                Some(a) => {
                    match find_char_from(body, '<', a + 1) {
                        None => {
                            // Nothing closes the element text anywhere later,
                            // so no later occurrence can complete either: its
                            // own tag closes no earlier than this one.
                            assert forall|i0: int| !yt_match_at(body@, i0) by {
                                if yt_match_at(body@, i0) {
                                    let (a0, b0) = choose|a0: int, b0: int|
                                        yt_pattern_at(body@, i0, a0, b0);
                                    if i0 >= i {
                                        assert(a0 >= a) by {
                                            if a0 < a {
                                                assert(body@[a0] != '>');
                                            }
                                        }
                                        assert(body@[b0] != '<');
                                    }
                                }
                            }
                            return None;
                        }
                        Some(b) => {
                            if b > a + 1 {
                                let raw = copy_range(body, a + 1, b);
                                assert(yt_pattern_at(body@, i as int, a as int, b as int));
                                return Some(raw);
                            }
                            // The element text would be empty here: the first
                            // closing bracket follows the tag immediately, so
                            // the pattern cannot hold at this position.
                            assert(!yt_match_at(body@, i as int)) by {
                                if yt_match_at(body@, i as int) {
                                    let (a0, b0) = choose|a0: int, b0: int|
                                        yt_pattern_at(body@, i as int, a0, b0);
                                    assert(a0 == a) by {
                                        if a0 < a {
                                            assert(body@[a0] != '>');
                                        }
                                        if a0 > a {
                                            assert(body@[a as int] != '>');
                                        }
                                    }
                                    assert(a0 < b < b0);
                                    assert(body@[b as int] != '<');
                                }
                            }
                        }
                    }
                }
            }
        } else {
            assert(!yt_match_at(body@, i as int)) by {
                if yt_match_at(body@, i as int) {
                    let (a0, b0) = choose|a0: int, b0: int| yt_pattern_at(body@, i as int, a0, b0);
                }
            }
        }
        i += 1;
    }
    assert forall|i0: int| !yt_match_at(body@, i0) by {
        if yt_match_at(body@, i0) {
            let (a, b) = choose|a: int, b: int| yt_pattern_at(body@, i0, a, b);
            assert(0 <= i0 <= last);
        }
    }
    None
}

/// Classifies the probe: the unavailability message wins, then the ad-free
/// marker with the region read from the tagged element (trimmed of white
/// space), anything else is `Failed`.
pub fn check_youtube_premium(fetch: &Fetch) -> (r: UnlockItem)
    ensures
        r.name@ == "Youtube Premium"@,
        r.check_time is Some,
        match fetch {
            Fetch::Body(b) => {
                if contains_ci(b@, yt_no_marker()) {
                    r.status@ == "No"@ && r.region is None
                } else if contains_ci(b@, yt_yes_marker()) {
                    &&& r.status@ == "Yes"@
                    &&& (r.region matches Some(lab) ==> exists|i: int, a: int, bb: int|
                        #[trigger] yt_pattern_at(b@, i, a, bb) && (forall|j: int|
                            0 <= j < i ==> !yt_match_at(b@, j)) && trim_seq(
                            b@.subrange(a + 1, bb),
                        ).len() > 0 && lab@ == region_label_of(trim_seq(b@.subrange(a + 1, bb)))
                            && lab@.len() > 0)
                    &&& (r.region is Some <==> yt_region_present(b@))
                } else {
                    r.status@ == "Failed"@ && r.region is None
                }
            },
            _ => r.status@ == "Failed"@ && r.region is None,
        },
{
    match fetch {
        Fetch::Body(b) => {
            let chars = to_chars(b.as_str());
            if contains_chars_ci(
                &chars,
                &to_chars("youtube premium is not available in your country"),
            ) {
                UnlockItem {
                    name: String::from_str("Youtube Premium"),
                    status: String::from_str("No"),
                    region: None,
                    check_time: Some(get_local_date_string()),
                }
            } else if contains_chars_ci(&chars, &to_chars("ad-free")) {
                let region = match yt_region_scan(&chars) {
                    Some(raw) => {
                        let trimmed = trim_chars(&raw);
                        if trimmed.len() == 0 {
                            // The element text is all white space, and a
                            // present region is never empty.
                            proof {
                                let (i, a, bb) = choose|i: int, a: int, bb: int|
                                    #[trigger] yt_pattern_at(chars@, i, a, bb) && (forall|j: int|
                                        0 <= j < i ==> !yt_match_at(chars@, j)) && raw@
                                    == chars@.subrange(a + 1, bb);
                                assert(yt_match_at(b@, i));
                                assert(!yt_region_present(b@)) by {
                                    if yt_region_present(b@) {
                                        let (i2, a2, b2) = choose|i2: int, a2: int, b2: int|
                                            #[trigger] yt_pattern_at(b@, i2, a2, b2) && (forall|
                                                j: int,
                                            |
                                                0 <= j < i2 ==> !yt_match_at(b@, j)) && trim_seq(
                                                b@.subrange(a2 + 1, b2),
                                            ).len() > 0;
                                        assert(yt_match_at(b@, i2));
                                        assert(i2 == i);
                                        assert(a2 == a) by {
                                            if a2 < a {
                                                assert(b@[a2] != '>');
                                            }
                                            if a2 > a {
                                                assert(b@[a as int] != '>');
                                            }
                                        }
                                        assert(b2 == bb) by {
                                            if b2 < bb {
                                                assert(b@[b2] != '<');
                                            }
                                            if b2 > bb {
                                                assert(b@[bb] != '<');
                                            }
                                        }
                                    }
                                }
                            }
                            None
                        } else {
                            let code = chars_to_string(&trimmed);
                            let lab = region_label(code.as_str());
                            proof {
                                let (i, a, bb) = choose|i: int, a: int, bb: int|
                                    #[trigger] yt_pattern_at(chars@, i, a, bb) && (forall|j: int|
                                        0 <= j < i ==> !yt_match_at(chars@, j)) && raw@
                                    == chars@.subrange(a + 1, bb);
                                assert(yt_pattern_at(b@, i, a, bb) && (forall|j: int|
                                    0 <= j < i ==> !yt_match_at(b@, j)) && trim_seq(
                                    b@.subrange(a + 1, bb),
                                ).len() > 0 && lab@ == region_label_of(
                                    trim_seq(b@.subrange(a + 1, bb)),
                                ) && lab@.len() > 0);
                                assert(yt_match_at(b@, i));
                                assert(yt_region_present(b@));
                            }
                            Some(lab)
                        }
                    }
                    None => {
                        proof {
                            assert(!yt_region_present(b@)) by {
                                if yt_region_present(b@) {
                                    let (i2, a2, b2) = choose|i2: int, a2: int, b2: int|
                                        #[trigger] yt_pattern_at(b@, i2, a2, b2) && (forall|j: int|
                                            0 <= j < i2 ==> !yt_match_at(b@, j)) && trim_seq(
                                            b@.subrange(a2 + 1, b2),
                                        ).len() > 0;
                                    assert(yt_match_at(b@, i2));
                                }
                            }
                        }
                        None
                    }
                };
                UnlockItem {
                    name: String::from_str("Youtube Premium"),
                    status: String::from_str("Yes"),
                    region,
                    check_time: Some(get_local_date_string()),
                }
            } else {
                UnlockItem {
                    name: String::from_str("Youtube Premium"),
                    status: String::from_str("Failed"),
                    region: None,
                    check_time: Some(get_local_date_string()),
                }
            }
        }
        _ => UnlockItem {
            name: String::from_str("Youtube Premium"),
            status: String::from_str("Failed"),
            region: None,
            check_time: Some(get_local_date_string()),
        },
    }
}

} // verus!
