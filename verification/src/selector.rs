//! Selectors: the expressions by which a request names the devices that
//! it is meant for.

use vstd::prelude::*;
use crate::device::BulbInfo;
use crate::text::{
    contains, contains_seq, equals_text, has_prefix, is_text, strip, strip_prefix, utf8,
};

verus! {

/// The grammar of selectors: `all`, or one of the six keywords followed by
/// any text.
pub open spec fn valid_selector(s: Seq<u8>) -> bool {
    is_text(s, "all"@) || has_prefix(s, "id:"@) || has_prefix(s, "group_id:"@) || has_prefix(
        s,
        "location_id:"@,
    ) || has_prefix(s, "label:"@) || has_prefix(s, "group:"@) || has_prefix(s, "location:"@)
}

/// Does the selector follow the grammar?
pub fn is_valid_selector(selector: &str) -> (r: bool)
    ensures
        r == valid_selector(utf8(selector@)),
{
    let s: &[u8] = selector.as_bytes();
    equals_text(s, "all") || strip_prefix(s, "id:").is_some() || strip_prefix(
        s,
        "group_id:",
    ).is_some() || strip_prefix(s, "location_id:").is_some() || strip_prefix(
        s,
        "label:",
    ).is_some() || strip_prefix(s, "group:").is_some() || strip_prefix(s, "location:").is_some()
}

/// Does the text `needle` occur in the optional text `field`?
pub open spec fn occurs_in(field: Option<Seq<char>>, needle: Seq<u8>) -> bool {
    match field {
        Some(t) => contains_seq(utf8(t), needle),
        None => false,
    }
}

/// Does the selector name the device?  `all` names every device; a
/// keyword names the devices whose field of that name holds the text
/// behind the keyword somewhere inside it; anything else names none.
pub open spec fn selector_matches(b: BulbInfo, s: Seq<u8>) -> bool {
    if is_text(s, "all"@) {
        true
    } else if has_prefix(s, "id:"@) {
        contains_seq(utf8(b.id@), strip(s, "id:"@))
    } else if has_prefix(s, "group_id:"@) {
        occurs_in(
            match b.lifx_group {
                Some(g) => Some(g.id@),
                None => None,
            },
            strip(s, "group_id:"@),
        )
    } else if has_prefix(s, "group:"@) {
        occurs_in(
            match b.lifx_group {
                Some(g) => Some(g.name@),
                None => None,
            },
            strip(s, "group:"@),
        )
    } else if has_prefix(s, "location_id:"@) {
        occurs_in(
            match b.lifx_location {
                Some(l) => Some(l.id@),
                None => None,
            },
            strip(s, "location_id:"@),
        )
    } else if has_prefix(s, "location:"@) {
        occurs_in(
            match b.lifx_location {
                Some(l) => Some(l.name@),
                None => None,
            },
            strip(s, "location:"@),
        )
    } else if has_prefix(s, "label:"@) {
        contains_seq(utf8(b.label@), strip(s, "label:"@))
    } else {
        false
    }
}

/// Does the selector name the device?
pub fn matches_selector(bulb: &BulbInfo, selector: &[u8]) -> (r: bool)
    ensures
        r == selector_matches(*bulb, selector@),
{
    if equals_text(selector, "all") {
        true
    } else if let Some(needle) = strip_prefix(selector, "id:") {
        contains(bulb.id.as_str().as_bytes(), needle)
    } else if let Some(needle) = strip_prefix(selector, "group_id:") {
        match &bulb.lifx_group {
            Some(g) => contains(g.id.as_str().as_bytes(), needle),
            None => false,
        }
    } else if let Some(needle) = strip_prefix(selector, "group:") {
        match &bulb.lifx_group {
            Some(g) => contains(g.name.as_str().as_bytes(), needle),
            None => false,
        }
    } else if let Some(needle) = strip_prefix(selector, "location_id:") {
        match &bulb.lifx_location {
            Some(l) => contains(l.id.as_str().as_bytes(), needle),
            None => false,
        }
    } else if let Some(needle) = strip_prefix(selector, "location:") {
        match &bulb.lifx_location {
            Some(l) => contains(l.name.as_str().as_bytes(), needle),
            None => false,
        }
    } else if let Some(needle) = strip_prefix(selector, "label:") {
        contains(bulb.label.as_str().as_bytes(), needle)
    } else {
        false
    }
}

/// The records that a selector names, in the order in which they stand.
pub open spec fn filtered(records: Seq<BulbInfo>, s: Seq<u8>) -> Seq<BulbInfo>
    decreases records.len(),
{
    if records.len() == 0 {
        Seq::empty()
    } else if selector_matches(records.last(), s) {
        filtered(records.drop_last(), s).push(records.last())
    } else {
        filtered(records.drop_last(), s)
    }
}

/// The records behind a sequence of references.
pub open spec fn records_of(refs: Seq<&BulbInfo>) -> Seq<BulbInfo> {
    refs.map_values(|b: &BulbInfo| *b)
}

/// Resolves a selector to the devices that it names.
pub fn filter<'a>(bulbs: &'a Vec<BulbInfo>, selector: &str) -> (r: Vec<&'a BulbInfo>)
    ensures
        records_of(r@) == filtered(bulbs@, utf8(selector@)),
{
    let sel: &[u8] = selector.as_bytes();
    let mut out: Vec<&'a BulbInfo> = Vec::new();
    let mut i: usize = 0;
    assert(bulbs@.subrange(0, 0) =~= Seq::<BulbInfo>::empty());
    assert(records_of(out@) =~= Seq::<BulbInfo>::empty());
    while i < bulbs.len()
        invariant
            i <= bulbs.len(),
            sel@ == utf8(selector@),
            records_of(out@) == filtered(bulbs@.subrange(0, i as int), sel@),
        decreases bulbs.len() - i,
    {
        let ghost before = out@;
        proof {
            let longer = bulbs@.subrange(0, i + 1);
            assert(longer.drop_last() =~= bulbs@.subrange(0, i as int));
            assert(longer.last() == bulbs@[i as int]);
        }
        if matches_selector(&bulbs[i], sel) {
            out.push(&bulbs[i]);
            assert(records_of(out@) =~= records_of(before).push(bulbs@[i as int]));
        }
        i += 1;
    }
    assert(bulbs@.subrange(0, i as int) =~= bulbs@);
    out
}

/// Every record of a selection stands in the registry it was selected
/// from, and the selector names it.
pub proof fn lemma_filter_subset(records: Seq<BulbInfo>, s: Seq<u8>)
    ensures
        filtered(records, s).len() <= records.len(),
        forall|i: int|
            0 <= i < filtered(records, s).len() ==> records.contains(
                #[trigger] filtered(records, s)[i],
            ) && selector_matches(filtered(records, s)[i], s),
    decreases records.len(),
{
    if records.len() > 0 {
        let head = records.drop_last();
        lemma_filter_subset(head, s);
        assert forall|i: int| 0 <= i < filtered(records, s).len() implies records.contains(
            #[trigger] filtered(records, s)[i],
        ) && selector_matches(filtered(records, s)[i], s) by {
            if i < filtered(head, s).len() {
                let x = filtered(head, s)[i];
                assert(head.contains(x));
                let j = choose|j: int| 0 <= j < head.len() && head[j] == x;
                assert(records[j] == x);
            } else {
                assert(filtered(records, s)[i] == records.last());
                assert(records[records.len() - 1] == records.last());
            }
        }
    }
}

/// A selection in which the selector names every record is the whole.
pub proof fn lemma_filter_keeps_matching(records: Seq<BulbInfo>, s: Seq<u8>)
    requires
        forall|i: int| 0 <= i < records.len() ==> selector_matches(#[trigger] records[i], s),
    ensures
        filtered(records, s) == records,
    decreases records.len(),
{
    if records.len() > 0 {
        let head = records.drop_last();
        assert forall|i: int| 0 <= i < head.len() implies selector_matches(
            #[trigger] head[i],
            s,
        ) by {
            assert(head[i] == records[i]);
        }
        lemma_filter_keeps_matching(head, s);
        assert(selector_matches(records[records.len() - 1], s));
        assert(head.push(records.last()) =~= records);
    } else {
        assert(filtered(records, s) =~= records);
    }
}

/// Selecting is idempotent: to select from a selection with the same
/// selector changes nothing.
pub proof fn lemma_filter_idempotent(records: Seq<BulbInfo>, s: Seq<u8>)
    ensures
        filtered(filtered(records, s), s) == filtered(records, s),
{
    lemma_filter_subset(records, s);
    lemma_filter_keeps_matching(filtered(records, s), s);
}

} // verus!
