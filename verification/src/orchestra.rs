//! Probe orchestration model: the declared services, the placeholder list,
//! the shared result sink the concurrent units append to, and the fan-in
//! laws saying what the sink holds once every unit has finished.

use vstd::prelude::*;

verus! {

use vstd::seq_lib::lemma_multiset_commutative;
use vstd::string::StringExecFns;
use crate::model::UnlockItem;

/// The declared services, in their presentation order.
pub open spec fn service_names() -> Seq<Seq<char>> {
    seq![
        "ChatGPT iOS"@,
        "ChatGPT Web"@,
        "Gemini"@,
        "Youtube Premium"@,
        "Netflix"@,
        "Prime Video"@,
    ]
}

/// The names of a batch of results.
pub open spec fn names_of(items: Seq<UnlockItem>) -> Seq<Seq<char>> {
    items.map_values(|it: UnlockItem| it.name@)
}

/// The names each concurrent unit contributes: the combined AI-chat unit
/// yields two records, every other unit one.
pub open spec fn unit_names(k: int) -> Seq<Seq<char>> {
    if k == 0 {
        seq!["ChatGPT iOS"@, "ChatGPT Web"@]
    } else if k == 1 {
        seq!["Gemini"@]
    } else if k == 2 {
        seq!["Youtube Premium"@]
    } else if k == 3 {
        seq!["Netflix"@]
    } else {
        seq!["Prime Video"@]
    }
}

/// A unit's output carries exactly its declared names.
pub open spec fn unit_output_ok(k: int, out: Seq<UnlockItem>) -> bool {
    names_of(out) == unit_names(k)
}

/// The sink's contents when the five units finish in the given order.
pub open spec fn fan_in(outs: Seq<Seq<UnlockItem>>, order: Seq<int>) -> Seq<UnlockItem> {
    outs[order[0]] + outs[order[1]] + outs[order[2]] + outs[order[3]] + outs[order[4]]
}

/// Every value of `0..5` occurs in a duplicate-free order of the five
/// units.
proof fn lemma_order_hits(order: Seq<int>, v: int)
    requires
        order.len() == 5,
        forall|j: int| 0 <= j < 5 ==> 0 <= #[trigger] order[j] < 5,
        forall|j1: int, j2: int| 0 <= j1 < j2 < 5 ==> order[j1] != order[j2],
        0 <= v < 5,
    ensures
        exists|j: int| 0 <= j < 5 && order[j] == v,
{
    if order[0] != v && order[1] != v && order[2] != v && order[3] != v && order[4] != v {
        assert(false);
    }
}

/// Law: however completion order interleaves the five units' appends, the
/// sink ends with exactly six records, and their names are exactly the six
/// declared services — each unit appended once, and the completion order
/// changed neither the count nor which services are covered.
pub proof fn lemma_fan_in_complete(outs: Seq<Seq<UnlockItem>>, order: Seq<int>)
    requires
        outs.len() == 5,
        forall|k: int| 0 <= k < 5 ==> unit_output_ok(k, #[trigger] outs[k]),
        order.len() == 5,
        forall|j: int| 0 <= j < 5 ==> 0 <= #[trigger] order[j] < 5,
        forall|j1: int, j2: int| 0 <= j1 < j2 < 5 ==> order[j1] != order[j2],
    ensures
        fan_in(outs, order).len() == 6,
        names_of(fan_in(outs, order)).to_multiset() =~= service_names().to_multiset(),
{
    let s0 = names_of(outs[order[0]]);
    let s1 = names_of(outs[order[1]]);
    let s2 = names_of(outs[order[2]]);
    let s3 = names_of(outs[order[3]]);
    let s4 = names_of(outs[order[4]]);
    assert(s0 == unit_names(order[0]));
    assert(s1 == unit_names(order[1]));
    assert(s2 == unit_names(order[2]));
    assert(s3 == unit_names(order[3]));
    assert(s4 == unit_names(order[4]));
    let f = fan_in(outs, order);
    assert(names_of(f) =~= s0 + s1 + s2 + s3 + s4);
    lemma_order_hits(order, 0);
    assert(f.len() == 6);
    lemma_multiset_commutative(s0 + s1 + s2 + s3, s4);
    lemma_multiset_commutative(s0 + s1 + s2, s3);
    lemma_multiset_commutative(s0 + s1, s2);
    lemma_multiset_commutative(s0, s1);
    let n0 = unit_names(0);
    let n1 = unit_names(1);
    let n2 = unit_names(2);
    let n3 = unit_names(3);
    let n4 = unit_names(4);
    assert(service_names() =~= n0 + n1 + n2 + n3 + n4);
    lemma_multiset_commutative(n0 + n1 + n2 + n3, n4);
    lemma_multiset_commutative(n0 + n1 + n2, n3);
    lemma_multiset_commutative(n0 + n1, n2);
    lemma_multiset_commutative(n0, n1);
    assert(s0.to_multiset().add(s1.to_multiset()).add(s2.to_multiset()).add(
        s3.to_multiset(),
    ).add(s4.to_multiset()) =~= n0.to_multiset().add(n1.to_multiset()).add(n2.to_multiset()).add(
        n3.to_multiset(),
    ).add(n4.to_multiset()));
}

/// The shared result sink the concurrent units append their finished
/// records to, once per unit.
pub struct ResultCollector {
    items: Vec<UnlockItem>,
}

impl View for ResultCollector {
    type V = Seq<UnlockItem>;

    closed spec fn view(&self) -> Seq<UnlockItem> {
        self.items@
    }
}

impl ResultCollector {
    /// An empty sink.
    pub fn new() -> (c: ResultCollector)
        ensures
            c@ == Seq::<UnlockItem>::empty(),
    {
        ResultCollector { items: Vec::new() }
    }

    /// Appends one finished unit's records, in one step.
    pub fn append_unit(&mut self, unit: Vec<UnlockItem>)
        ensures
            final(self)@ == old(self)@ + unit@,
    {
        let mut u = unit;
        self.items.append(&mut u);
    }

    /// Hands the collected records out.
    pub fn into_items(self) -> (v: Vec<UnlockItem>)
        ensures
            v@ == self@,
    {
        self.items
    }
}

/// The fixed placeholder list shown before probing begins: one `Waiting`
/// record per declared service.
pub fn get_unlock_items() -> (r: Result<Vec<UnlockItem>, String>)
    ensures
        r matches Ok(items) && items@.len() == 6 && names_of(items@) == service_names() && (forall|
            k: int,
        |
            0 <= k < 6 ==> (#[trigger] items@[k]).status@ == "Waiting"@ && items@[k].region is None
                && items@[k].check_time is None),
{
    let mut items: Vec<UnlockItem> = Vec::new();
    items.push(
        UnlockItem {
            name: String::from_str("ChatGPT iOS"),
            status: String::from_str("Waiting"),
            region: None,
            check_time: None,
        },
    );
    items.push(
        UnlockItem {
            name: String::from_str("ChatGPT Web"),
            status: String::from_str("Waiting"),
            region: None,
            check_time: None,
        },
    );
    items.push(
        UnlockItem {
            name: String::from_str("Gemini"),
            status: String::from_str("Waiting"),
            region: None,
            check_time: None,
        },
    );
    items.push(
        UnlockItem {
            name: String::from_str("Youtube Premium"),
            status: String::from_str("Waiting"),
            region: None,
            check_time: None,
        },
    );
    items.push(
        UnlockItem {
            name: String::from_str("Netflix"),
            status: String::from_str("Waiting"),
            region: None,
            check_time: None,
        },
    );
    items.push(
        UnlockItem {
            name: String::from_str("Prime Video"),
            status: String::from_str("Waiting"),
            region: None,
            check_time: None,
        },
    );
    assert(names_of(items@) =~= service_names());
    Ok(items)
}

} // verus!
