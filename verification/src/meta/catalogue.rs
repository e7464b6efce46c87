//! The versions of a plugin in the order of the catalogue: by version
//! string, as strings are ordered, and each string once.

use crate::api::models::views;
use crate::meta::output::{VersionEntry, VersionEntryView};
use crate::text::same_string;
use vstd::prelude::*;
use vstd::string::*;
use vstd::utf8::{encode_utf8, encode_utf8_decode_utf8};

verus! {

/// Whether one byte string comes before another in dictionary order.
pub open spec fn bytes_before(a: Seq<u8>, b: Seq<u8>) -> bool
    decreases a.len(),
{
    if b.len() == 0 {
        false
    } else if a.len() == 0 {
        true
    } else if a.first() != b.first() {
        a.first() < b.first()
    } else {
        bytes_before(a.drop_first(), b.drop_first())
    }
}

/// Whether one text comes before another as strings are ordered: in
/// dictionary order of their UTF-8 bytes.
pub open spec fn text_before(a: Seq<char>, b: Seq<char>) -> bool {
    bytes_before(encode_utf8(a), encode_utf8(b))
}

proof fn lemma_bytes_never_before_themselves(a: Seq<u8>)
    ensures
        !bytes_before(a, a),
    decreases a.len(),
{
    if a.len() > 0 {
        lemma_bytes_never_before_themselves(a.drop_first());
    }
}

proof fn lemma_bytes_before_chains(a: Seq<u8>, b: Seq<u8>, c: Seq<u8>)
    requires
        bytes_before(a, b),
        bytes_before(b, c),
    ensures
        bytes_before(a, c),
    decreases a.len(),
{
    if a.len() > 0 && a.first() == b.first() && b.first() == c.first() {
        lemma_bytes_before_chains(a.drop_first(), b.drop_first(), c.drop_first());
    }
}

proof fn lemma_bytes_one_way(a: Seq<u8>, b: Seq<u8>)
    ensures
        a == b || bytes_before(a, b) || bytes_before(b, a),
    decreases a.len(),
{
    if a.len() == 0 || b.len() == 0 {
        if a.len() == 0 && b.len() == 0 {
            assert(a =~= b);
        }
    } else if a.first() == b.first() {
        lemma_bytes_one_way(a.drop_first(), b.drop_first());
        if a.drop_first() == b.drop_first() {
            assert(a =~= seq![a.first()] + a.drop_first());
            assert(b =~= seq![b.first()] + b.drop_first());
        }
    }
}

/// No text comes before itself.
pub proof fn lemma_text_never_before_itself(a: Seq<char>)
    ensures
        !text_before(a, a),
{
    lemma_bytes_never_before_themselves(encode_utf8(a));
}

/// What comes before a text that comes before a third comes before the
/// third.
pub proof fn lemma_text_before_chains(a: Seq<char>, b: Seq<char>, c: Seq<char>)
    requires
        text_before(a, b),
        text_before(b, c),
    ensures
        text_before(a, c),
{
    lemma_bytes_before_chains(encode_utf8(a), encode_utf8(b), encode_utf8(c));
}

/// Of two different texts one comes before the other.
pub proof fn lemma_text_one_way(a: Seq<char>, b: Seq<char>)
    ensures
        a == b || text_before(a, b) || text_before(b, a),
{
    lemma_bytes_one_way(encode_utf8(a), encode_utf8(b));
    encode_utf8_decode_utf8(a);
    encode_utf8_decode_utf8(b);
}

/// Tells whether one string comes before another.
pub fn comes_before(a: &String, b: &String) -> (before: bool)
    ensures
        before == text_before(a@, b@),
{
    let x = a.as_str().as_bytes();
    let y = b.as_str().as_bytes();
    let mut i: usize = 0;
    assert(x@.skip(0) =~= x@ && y@.skip(0) =~= y@);
    while i < x.len() && i < y.len()
        invariant
            i <= x.len(),
            i <= y.len(),
            x@ == encode_utf8(a@),
            y@ == encode_utf8(b@),
            bytes_before(x@, y@) == bytes_before(x@.skip(i as int), y@.skip(i as int)),
        decreases x.len() - i,
    {
        assert(x@.skip(i as int).first() == x@[i as int]);
        assert(y@.skip(i as int).first() == y@[i as int]);
        if x[i] != y[i] {
            assert(bytes_before(x@.skip(i as int), y@.skip(i as int)) == (x@[i as int]
                < y@[i as int]));
            return x[i] < y[i];
        }
        assert(x@.skip(i as int).drop_first() =~= x@.skip(i + 1));
        assert(y@.skip(i as int).drop_first() =~= y@.skip(i + 1));
        i += 1;
    }
    i < y.len()
}

/// Whether entries stand in the order of the catalogue: each version
/// string comes before those of all later entries.
pub open spec fn in_order(entries: Seq<VersionEntryView>) -> bool {
    forall|i: int, j: int|
        0 <= i < j < entries.len() ==> text_before(
            (#[trigger] entries[i]).version,
            (#[trigger] entries[j]).version,
        )
}

/// Whether an entry stands on the given side of a version string: before
/// it, or after it.
pub open spec fn on_side(entry: VersionEntryView, version: Seq<char>, lower: bool) -> bool {
    if lower {
        text_before(entry.version, version)
    } else {
        text_before(version, entry.version)
    }
}

/// The entries on one side of a version string, in their order.
pub open spec fn side_of(entries: Seq<VersionEntryView>, version: Seq<char>, lower: bool) -> Seq<
    VersionEntryView,
>
    decreases entries.len(),
{
    if entries.len() == 0 {
        entries
    } else {
        let front = side_of(entries.drop_last(), version, lower);
        if on_side(entries.last(), version, lower) {
            front.push(entries.last())
        } else {
            front
        }
    }
}

/// A list with an entry put in its place: after the entries whose version
/// strings come before its own, and before those whose strings come after
/// it. An entry with the same version string gives way to it.
pub open spec fn placed(entries: Seq<VersionEntryView>, entry: VersionEntryView) -> Seq<
    VersionEntryView,
> {
    side_of(entries, entry.version, true) + seq![entry] + side_of(entries, entry.version, false)
}

/// Entries put in the order of the catalogue, one after the other: of two
/// with the same version string the later one stays.
pub open spec fn arranged(entries: Seq<VersionEntryView>) -> Seq<VersionEntryView>
    decreases entries.len(),
{
    if entries.len() == 0 {
        entries
    } else {
        placed(arranged(entries.drop_last()), entries.last())
    }
}

proof fn lemma_side_of_both(
    first: Seq<VersionEntryView>,
    second: Seq<VersionEntryView>,
    version: Seq<char>,
    lower: bool,
)
    ensures
        side_of(first + second, version, lower) == side_of(first, version, lower) + side_of(
            second,
            version,
            lower,
        ),
    decreases second.len(),
{
    if second.len() == 0 {
        assert(first + second =~= first);
        assert(side_of(first, version, lower) + side_of(second, version, lower) =~= side_of(
            first,
            version,
            lower,
        ));
    } else {
        lemma_side_of_both(first, second.drop_last(), version, lower);
        assert((first + second).drop_last() =~= first + second.drop_last());
        assert((first + second).last() == second.last());
        assert(side_of(first + second, version, lower) =~= side_of(first, version, lower)
            + side_of(second, version, lower));
    }
}

proof fn lemma_side_of_all(entries: Seq<VersionEntryView>, version: Seq<char>, lower: bool)
    requires
        forall|k: int| 0 <= k < entries.len() ==> on_side(#[trigger] entries[k], version, lower),
    ensures
        side_of(entries, version, lower) == entries,
    decreases entries.len(),
{
    if entries.len() > 0 {
        let front = entries.drop_last();
        assert forall|k: int| 0 <= k < front.len() implies on_side(
            #[trigger] front[k],
            version,
            lower,
        ) by {
            assert(front[k] == entries[k]);
        }
        lemma_side_of_all(front, version, lower);
        assert(on_side(entries[entries.len() - 1], version, lower));
        assert(front.push(entries.last()) =~= entries);
    }
}

proof fn lemma_side_of_none(entries: Seq<VersionEntryView>, version: Seq<char>, lower: bool)
    requires
        forall|k: int| 0 <= k < entries.len() ==> !on_side(#[trigger] entries[k], version, lower),
    ensures
        side_of(entries, version, lower) == Seq::<VersionEntryView>::empty(),
    decreases entries.len(),
{
    if entries.len() > 0 {
        let front = entries.drop_last();
        assert forall|k: int| 0 <= k < front.len() implies !on_side(
            #[trigger] front[k],
            version,
            lower,
        ) by {
            assert(front[k] == entries[k]);
        }
        lemma_side_of_none(front, version, lower);
        assert(!on_side(entries[entries.len() - 1], version, lower));
    } else {
        assert(entries =~= Seq::<VersionEntryView>::empty());
    }
}

/// Where an ordered list is cut at a place so that all before the place
/// come before a version string and none from the place on does, the
/// entries before the string are those before the place.
proof fn lemma_lower_side_is_prefix(entries: Seq<VersionEntryView>, version: Seq<char>, place: int)
    requires
        0 <= place <= entries.len(),
        forall|k: int| 0 <= k < place ==> text_before((#[trigger] entries[k]).version, version),
        forall|k: int|
            place <= k < entries.len() ==> !text_before((#[trigger] entries[k]).version, version),
    ensures
        side_of(entries, version, true) == entries.take(place),
{
    let head = entries.take(place);
    let tail = entries.skip(place);
    assert(entries =~= head + tail);
    lemma_side_of_both(head, tail, version, true);
    lemma_side_of_all(head, version, true);
    lemma_side_of_none(tail, version, true);
    assert(head + Seq::<VersionEntryView>::empty() =~= head);
}

/// The same for the entries after the string, which are those from a place
/// on.
proof fn lemma_upper_side_is_suffix(entries: Seq<VersionEntryView>, version: Seq<char>, place: int)
    requires
        0 <= place <= entries.len(),
        forall|k: int| 0 <= k < place ==> !text_before(version, (#[trigger] entries[k]).version),
        forall|k: int|
            place <= k < entries.len() ==> text_before(version, (#[trigger] entries[k]).version),
    ensures
        side_of(entries, version, false) == entries.skip(place),
{
    let head = entries.take(place);
    let tail = entries.skip(place);
    assert(entries =~= head + tail);
    lemma_side_of_both(head, tail, version, false);
    lemma_side_of_none(head, version, false);
    lemma_side_of_all(tail, version, false);
    assert(Seq::<VersionEntryView>::empty() + tail =~= tail);
}

/// The last of the entries that has a version string.
pub open spec fn last_with(entries: Seq<VersionEntryView>, version: Seq<char>) -> Option<
    VersionEntryView,
>
    decreases entries.len(),
{
    if entries.len() == 0 {
        None
    } else if entries.last().version == version {
        Some(entries.last())
    } else {
        last_with(entries.drop_last(), version)
    }
}

proof fn lemma_side_of_members(
    entries: Seq<VersionEntryView>,
    version: Seq<char>,
    lower: bool,
    entry: VersionEntryView,
)
    ensures
        side_of(entries, version, lower).contains(entry) <==> entries.contains(entry) && on_side(
            entry,
            version,
            lower,
        ),
    decreases entries.len(),
{
    if entries.len() > 0 {
        let front = entries.drop_last();
        let kept = side_of(front, version, lower);
        lemma_side_of_members(front, version, lower, entry);
        if entries.contains(entry) {
            let i = choose|i: int| 0 <= i < entries.len() && entries[i] == entry;
            if i < front.len() {
                assert(front[i] == entry);
            }
        }
        if front.contains(entry) {
            let i = choose|i: int| 0 <= i < front.len() && front[i] == entry;
            assert(entries[i] == entry);
        }
        assert(entries[entries.len() - 1] == entries.last());
        if on_side(entries.last(), version, lower) {
            let more = kept.push(entries.last());
            if kept.contains(entry) {
                let i = choose|i: int| 0 <= i < kept.len() && kept[i] == entry;
                assert(more[i] == entry);
            }
            assert(more[kept.len() as int] == entries.last());
            if more.contains(entry) {
                let i = choose|i: int| 0 <= i < more.len() && more[i] == entry;
                if i < kept.len() {
                    assert(kept[i] == entry);
                }
            }
        }
    }
}

/// What the arranged list holds is, for every version string of the
/// entries, the last entry with that string, and nothing else.
pub proof fn lemma_arranged_keeps_last(entries: Seq<VersionEntryView>, entry: VersionEntryView)
    ensures
        arranged(entries).contains(entry) <==> last_with(entries, entry.version) == Some(entry),
    decreases entries.len(),
{
    if entries.len() > 0 {
        let earlier = arranged(entries.drop_last());
        let added = entries.last();
        let lower = side_of(earlier, added.version, true);
        let upper = side_of(earlier, added.version, false);
        let all = lower + seq![added] + upper;
        lemma_arranged_keeps_last(entries.drop_last(), entry);
        lemma_side_of_members(earlier, added.version, true, entry);
        lemma_side_of_members(earlier, added.version, false, entry);
        lemma_text_one_way(entry.version, added.version);
        lemma_text_never_before_itself(added.version);
        if lower.contains(entry) {
            let i = choose|i: int| 0 <= i < lower.len() && lower[i] == entry;
            assert(all[i] == entry);
        }
        if upper.contains(entry) {
            let i = choose|i: int| 0 <= i < upper.len() && upper[i] == entry;
            assert(all[lower.len() + 1 + i] == entry);
        }
        assert(all[lower.len() as int] == added);
        if all.contains(entry) {
            let i = choose|i: int| 0 <= i < all.len() && all[i] == entry;
            if i < lower.len() {
                assert(lower[i] == entry);
            } else if i > lower.len() {
                assert(upper[i - lower.len() - 1] == entry);
            }
        }
    }
}

/// Puts an entry in its place in an ordered list.
pub fn place_entry(sorted: &mut Vec<VersionEntry>, entry: VersionEntry)
    requires
        in_order(views(old(sorted)@)),
    ensures
        views(final(sorted)@) == placed(views(old(sorted)@), entry@),
        in_order(views(final(sorted)@)),
{
    let ghost before = views(sorted@);
    let ghost version = entry@.version;
    let mut place: usize = 0;
    while place < sorted.len() && comes_before(&sorted[place].version, &entry.version)
        invariant
            place <= sorted.len(),
            before == views(sorted@),
            version == entry@.version,
            forall|k: int| 0 <= k < place ==> text_before((#[trigger] before[k]).version, version),
        decreases sorted.len() - place,
    {
        place += 1;
    }
    let same = place < sorted.len() && same_string(&sorted[place].version, &entry.version);
    let ghost upper: int = if same {
        place + 1
    } else {
        place as int
    };
    proof {
        assert forall|k: int| place <= k < before.len() implies !text_before(
            (#[trigger] before[k]).version,
            version,
        ) by {
            assert(!text_before(before[place as int].version, version));
            if k > place && text_before(before[k].version, version) {
                lemma_text_before_chains(before[place as int].version, before[k].version, version);
            }
        }
        lemma_lower_side_is_prefix(before, version, place as int);
        assert forall|k: int| 0 <= k < upper implies !text_before(
            version,
            (#[trigger] before[k]).version,
        ) by {
            if text_before(version, before[k].version) {
                if k < place {
                    lemma_text_before_chains(version, before[k].version, version);
                }
                lemma_text_never_before_itself(version);
            }
        }
        assert forall|k: int| upper <= k < before.len() implies text_before(
            version,
            (#[trigger] before[k]).version,
        ) by {
            if same {
                assert(before[place as int].version == version);
            } else {
                lemma_text_one_way(before[place as int].version, version);
                if k > place {
                    lemma_text_before_chains(
                        version,
                        before[place as int].version,
                        before[k].version,
                    );
                }
            }
        }
        lemma_upper_side_is_suffix(before, version, upper);
    }
    if same {
        sorted.set(place, entry);
        assert(views(sorted@) =~= before.take(place as int) + seq![entry@] + before.skip(upper));
    } else {
        sorted.insert(place, entry);
        assert(views(sorted@) =~= before.take(place as int) + seq![entry@] + before.skip(upper));
    }
    proof {
        let after = views(sorted@);
        assert forall|i: int, j: int| 0 <= i < j < after.len() implies text_before(
            (#[trigger] after[i]).version,
            (#[trigger] after[j]).version,
        ) by {
            let from = |k: int|
                if k < place {
                    k
                } else {
                    k - place - 1 + upper
                };
            if i != place {
                assert(after[i] == before[from(i)]);
            }
            if j != place {
                assert(after[j] == before[from(j)]);
            }
        }
    }
}

/// Puts entries in the order of the catalogue.
pub fn arrange(entries: Vec<VersionEntry>) -> (sorted: Vec<VersionEntry>)
    ensures
        views(sorted@) == arranged(views(entries@)),
        in_order(views(sorted@)),
{
    let ghost raw = entries@;
    let ghost all = views(entries@);
    let mut sorted: Vec<VersionEntry> = Vec::new();
    assert(all.take(0) =~= Seq::empty());
    assert(views(sorted@) =~= Seq::empty());
    for entry in it: entries.into_iter()
        invariant
            it.seq() == raw,
            all == views(raw),
            views(sorted@) == arranged(all.take(it.index() as int)),
            in_order(views(sorted@)),
    {
        proof {
            let taken = it.index() as int;
            assert(entry@ == all[taken]);
            assert(all.take(taken + 1).drop_last() =~= all.take(taken));
            assert(all.take(taken + 1).last() == all[taken]);
        }
        place_entry(&mut sorted, entry);
    }
    assert(all.take(raw.len() as int) =~= all);
    sorted
}

} // verus!
