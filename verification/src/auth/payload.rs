use vstd::prelude::*;

use crate::utils::text::same_text;

verus! {

/// The value of one claim in a token's payload, as far as this library reads
/// it: a text, an integer, or anything else that JSON can hold.
#[derive(Debug, Clone, PartialEq, Eq)]
pub enum ClaimValue {
    Text(String),
    Integer(i128),
    Other,
}

pub enum ClaimValueView {
    Text(Seq<char>),
    Integer(int),
    Other,
}

impl View for ClaimValue {
    type V = ClaimValueView;

    open spec fn view(&self) -> ClaimValueView {
        match self {
            ClaimValue::Text(s) => ClaimValueView::Text(s@),
            ClaimValue::Integer(i) => ClaimValueView::Integer(*i as int),
            ClaimValue::Other => ClaimValueView::Other,
        }
    }
}

/// One named claim of a token's payload.
#[derive(Debug, Clone, PartialEq, Eq)]
pub struct ClaimEntry {
    pub name: String,
    pub value: ClaimValue,
}

pub struct ClaimEntryView {
    pub name: Seq<char>,
    pub value: ClaimValueView,
}

impl View for ClaimEntry {
    type V = ClaimEntryView;

    open spec fn view(&self) -> ClaimEntryView {
        ClaimEntryView { name: self.name@, value: self.value@ }
    }
}

/// A payload as the sequence of the views of its entries.
pub open spec fn payload_view(entries: Seq<ClaimEntry>) -> Seq<ClaimEntryView> {
    entries.map_values(|e: ClaimEntry| e@)
}

/// The value of the first entry called `name`, if there is one.
pub open spec fn lookup(entries: Seq<ClaimEntryView>, name: Seq<char>) -> Option<ClaimValueView>
    decreases entries.len(),
{
    if entries.len() == 0 {
        None
    } else if entries[0].name == name {
        Some(entries[0].value)
    } else {
        lookup(entries.drop_first(), name)
    }
}

/// No two entries share a name.
pub open spec fn distinct_names(entries: Seq<ClaimEntryView>) -> bool {
    forall|i: int, j: int|
        0 <= i < j < entries.len() ==> (#[trigger] entries[i]).name != (#[trigger] entries[j]).name
}

/// `lookup` skips the entries before `from` when none of them is called `name`.
pub proof fn lemma_lookup_skip(entries: Seq<ClaimEntryView>, name: Seq<char>, from: int)
    requires
        0 <= from <= entries.len(),
        forall|k: int| 0 <= k < from ==> (#[trigger] entries[k]).name != name,
    ensures
        lookup(entries, name) == lookup(entries.skip(from), name),
    decreases from,
{
    if from == 0 {
        assert(entries.skip(0) =~= entries);
    } else {
        assert(entries[0].name != name);
        let rest = entries.drop_first();
        assert forall|k: int| 0 <= k < from - 1 implies (#[trigger] rest[k]).name != name by {
            assert(rest[k] == entries[k + 1]);
        }
        lemma_lookup_skip(rest, name, from - 1);
        assert(rest.skip(from - 1) =~= entries.skip(from));
    }
}

/// Finds the value of the first entry called `name`.
pub fn find_claim<'a>(entries: &'a Vec<ClaimEntry>, name: &str) -> (found: Option<&'a ClaimValue>)
    ensures
        match found {
            Some(value) => lookup(payload_view(entries@), name@) == Some(value@),
            None => lookup(payload_view(entries@), name@) is None,
        },
{
    let ghost all = payload_view(entries@);
    let mut i: usize = 0;
    while i < entries.len()
        invariant
            i <= entries.len(),
            all == payload_view(entries@),
            forall|k: int| 0 <= k < i ==> (#[trigger] all[k]).name != name@,
        decreases entries.len() - i,
    {
        if same_text(entries[i].name.as_str(), name) {
            proof {
                lemma_lookup_skip(all, name@, i as int);
                assert(all.skip(i as int)[0] == entries@[i as int]@);
            }
            return Some(&entries[i].value);
        }
        i += 1;
    }
    proof {
        lemma_lookup_skip(all, name@, all.len() as int);
    }
    None
}

} // verus!
