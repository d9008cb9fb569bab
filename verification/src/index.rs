//! The listing index: which secrets exist and when each was created. It
//! serves enumeration only; the credential store stays the authority.

use crate::text::{owned, same_text};
use crate::time::{instant_text, Timestamp};
use vstd::string::*;
use vstd::prelude::*;

verus! {

/// One cached secret, as the index lists it.
#[derive(Debug, Clone)]
pub struct IndexEntry {
    pub namespace: String,
    pub secret: String,
    pub created_at: Timestamp,
}

/// The index: entries in the order in which they were first added.
#[derive(Debug, Clone)]
pub struct SecretIndex {
    pub entries: Vec<IndexEntry>,
}

/// What an [`IndexEntry`] holds, as mathematical values.
pub struct EntryView {
    pub namespace: Seq<char>,
    pub secret: Seq<char>,
    pub created_at: int,
}

impl View for IndexEntry {
    type V = EntryView;

    open spec fn view(&self) -> EntryView {
        EntryView {
            namespace: self.namespace@,
            secret: self.secret@,
            created_at: self.created_at@,
        }
    }
}

impl View for SecretIndex {
    type V = Seq<EntryView>;

    open spec fn view(&self) -> Seq<EntryView> {
        self.entries@.map_values(|e: IndexEntry| e@)
    }
}

/// Whether the entry is the one for `(namespace, secret)`.
pub open spec fn keyed(e: EntryView, namespace: Seq<char>, secret: Seq<char>) -> bool {
    e.namespace == namespace && e.secret == secret
}

/// Whether the index lists `(namespace, secret)`.
pub open spec fn lists(s: Seq<EntryView>, namespace: Seq<char>, secret: Seq<char>) -> bool {
    exists|i: int| 0 <= i < s.len() && keyed(#[trigger] s[i], namespace, secret)
}

/// Whether `i` is the position of the first entry for `(namespace, secret)`.
pub open spec fn is_first(
    s: Seq<EntryView>,
    namespace: Seq<char>,
    secret: Seq<char>,
    i: int,
) -> bool {
    &&& 0 <= i < s.len()
    &&& keyed(s[i], namespace, secret)
    &&& forall|j: int| 0 <= j < i ==> !keyed(#[trigger] s[j], namespace, secret)
}

/// The position of the first entry for `(namespace, secret)`, where the index
/// lists it.
pub open spec fn first_position(s: Seq<EntryView>, namespace: Seq<char>, secret: Seq<char>) -> int {
    choose|i: int| is_first(s, namespace, secret, i)
}

/// No pair is listed twice.
pub open spec fn unique_keys(s: Seq<EntryView>) -> bool {
    forall|i: int, j: int|
        #![trigger s[i], s[j]]
        0 <= i < s.len() && 0 <= j < s.len() && keyed(s[i], s[j].namespace, s[j].secret) ==> i == j
}

/// The index after `(namespace, secret)` was recorded as created at
/// `created_at`: its first entry for the pair carries the new time and keeps
/// its place; where there was none, a new entry stands at the end.
pub open spec fn upserted(
    s: Seq<EntryView>,
    namespace: Seq<char>,
    secret: Seq<char>,
    created_at: int,
) -> Seq<EntryView> {
    if lists(s, namespace, secret) {
        let i = first_position(s, namespace, secret);
        s.update(i, EntryView { created_at, ..s[i] })
    } else {
        s.push(EntryView { namespace, secret, created_at })
    }
}

/// The index without the entries for `(namespace, secret)`; the others keep
/// their order.
pub open spec fn removed(s: Seq<EntryView>, namespace: Seq<char>, secret: Seq<char>) -> Seq<
    EntryView,
> {
    s.filter(|e: EntryView| !keyed(e, namespace, secret))
}

/// The entries that a listing shows: those of `namespace` where one is given,
/// all otherwise, in the order of the index.
pub open spec fn filtered(s: Seq<EntryView>, namespace: Option<Seq<char>>) -> Seq<EntryView> {
    match namespace {
        Some(ns) => s.filter(|e: EntryView| e.namespace == ns),
        None => s,
    }
}

/// The first entry for a pair is unique, so every first position is
/// [`first_position`].
pub proof fn lemma_first_position(
    s: Seq<EntryView>,
    namespace: Seq<char>,
    secret: Seq<char>,
    i: int,
)
    requires
        is_first(s, namespace, secret, i),
    ensures
        lists(s, namespace, secret),
        first_position(s, namespace, secret) == i,
{
    let j = first_position(s, namespace, secret);
    assert(is_first(s, namespace, secret, j));
    if j < i {
        assert(!keyed(s[j], namespace, secret));
    } else if i < j {
        assert(!keyed(s[i], namespace, secret));
    }
}

/// A listed pair has a first entry.
pub proof fn lemma_listed_has_first(s: Seq<EntryView>, namespace: Seq<char>, secret: Seq<char>)
    requires
        lists(s, namespace, secret),
    ensures
        is_first(s, namespace, secret, first_position(s, namespace, secret)),
{
    let k = choose|i: int| 0 <= i < s.len() && keyed(#[trigger] s[i], namespace, secret);
    lemma_has_first_before(s, namespace, secret, k);
}

proof fn lemma_has_first_before(s: Seq<EntryView>, namespace: Seq<char>, secret: Seq<char>, k: int)
    requires
        0 <= k < s.len(),
        keyed(s[k], namespace, secret),
    ensures
        exists|i: int| is_first(s, namespace, secret, i),
    decreases k,
{
    if exists|j: int| 0 <= j < k && keyed(#[trigger] s[j], namespace, secret) {
        let j = choose|j: int| 0 <= j < k && keyed(#[trigger] s[j], namespace, secret);
        lemma_has_first_before(s, namespace, secret, j);
    } else {
        assert(is_first(s, namespace, secret, k));
    }
}

impl SecretIndex {
    /// Well-formed: no pair is listed twice.
    pub open spec fn wf(&self) -> bool {
        unique_keys(self@)
    }

    /// An index without entries.
    pub fn new() -> (r: SecretIndex)
        ensures
            r@ == Seq::<EntryView>::empty(),
            r.wf(),
    {
        SecretIndex { entries: Vec::new() }
    }
}

impl Default for SecretIndex {
    fn default() -> (r: SecretIndex)
        ensures
            r@ == Seq::<EntryView>::empty(),
            r.wf(),
    {
        SecretIndex::new()
    }
}

/// Records that `(namespace, secret)` was created at `created_at`: the entry
/// for the pair gets the new time, or a new entry is appended.
pub fn upsert_entry(index: &mut SecretIndex, namespace: &str, secret: &str, created_at: Timestamp)
    ensures
        final(index)@ == upserted(old(index)@, namespace@, secret@, created_at@),
        old(index).wf() ==> final(index).wf(),
{
    let ghost before = index@;
    let mut i: usize = 0;
    while i < index.entries.len()
        invariant
            0 <= i <= index.entries.len(),
            index@ == before,
            index == old(index),
            forall|j: int| 0 <= j < i ==> !keyed(#[trigger] before[j], namespace@, secret@),
        decreases index.entries.len() - i,
    {
        if same_text(index.entries[i].namespace.as_str(), namespace) && same_text(
            index.entries[i].secret.as_str(),
            secret,
        ) {
            proof {
                assert(before[i as int] == index.entries@[i as int]@);
                lemma_first_position(before, namespace@, secret@, i as int);
            }
            let entry = index.entries.remove(i);
            index.entries.insert(
                i,
                IndexEntry { namespace: entry.namespace, secret: entry.secret, created_at },
            );
            proof {
                assert(index@ =~= upserted(before, namespace@, secret@, created_at@));
                if unique_keys(before) {
                    lemma_upsert_keeps_unique(before, namespace@, secret@, created_at@);
                }
            }
            return ;
        }
        proof {
            assert(before[i as int] == index.entries@[i as int]@);
        }
        i += 1;
    }
    proof {
        assert(!lists(before, namespace@, secret@));
    }
    index.entries.push(
        IndexEntry { namespace: owned(namespace), secret: owned(secret), created_at },
    );
    proof {
        assert(index@ =~= upserted(before, namespace@, secret@, created_at@));
        if unique_keys(before) {
            lemma_upsert_keeps_unique(before, namespace@, secret@, created_at@);
        }
    }
}

/// Recording a pair keeps an index free of duplicates.
pub proof fn lemma_upsert_keeps_unique(
    s: Seq<EntryView>,
    namespace: Seq<char>,
    secret: Seq<char>,
    created_at: int,
)
    requires
        unique_keys(s),
    ensures
        unique_keys(upserted(s, namespace, secret, created_at)),
{
    let r = upserted(s, namespace, secret, created_at);
    if lists(s, namespace, secret) {
        lemma_listed_has_first(s, namespace, secret);
        let p = first_position(s, namespace, secret);
        assert forall|i: int, j: int|
            #![trigger r[i], r[j]]
            0 <= i < r.len() && 0 <= j < r.len() && keyed(r[i], r[j].namespace, r[j].secret)
            implies i == j by {
            assert(r[i].namespace == s[i].namespace && r[i].secret == s[i].secret);
            assert(r[j].namespace == s[j].namespace && r[j].secret == s[j].secret);
            assert(keyed(s[i], s[j].namespace, s[j].secret));
        }
    } else {
        assert forall|i: int, j: int|
            #![trigger r[i], r[j]]
            0 <= i < r.len() && 0 <= j < r.len() && keyed(r[i], r[j].namespace, r[j].secret)
            implies i == j by {
            if i < s.len() && j < s.len() {
                assert(keyed(s[i], s[j].namespace, s[j].secret));
            } else if i < s.len() {
                assert(keyed(s[i], namespace, secret));
            } else if j < s.len() {
                assert(keyed(s[j], namespace, secret));
            }
        }
    }
}

/// Removes the entries for `(namespace, secret)`. An index that does not list
/// the pair stays as it is.
pub fn remove_entry(index: &mut SecretIndex, namespace: &str, secret: &str)
    ensures
        final(index)@ == removed(old(index)@, namespace@, secret@),
        !lists(final(index)@, namespace@, secret@),
        !lists(old(index)@, namespace@, secret@) ==> final(index)@ == old(index)@,
        old(index).wf() ==> final(index).wf(),
{
    let ghost before = index@;
    let ghost keep = |e: EntryView| !keyed(e, namespace@, secret@);
    let ghost k: int = 0;
    let mut i: usize = 0;
    proof {
        assert(before.take(0).filter(keep) =~= index@.take(0)) by {
            assert(before.take(0) =~= Seq::<EntryView>::empty());
        }
    }
    while i < index.entries.len()
        invariant
            0 <= i <= index.entries.len(),
            0 <= k <= before.len(),
            index@.len() - i == before.len() - k,
            index@.take(i as int) == before.take(k).filter(keep),
            index@.skip(i as int) == before.skip(k),
            keep == |e: EntryView| !keyed(e, namespace@, secret@),
        decreases index.entries.len() - i,
    {
        let ghost current = index@;
        proof {
            assert(current[i as int] == current.skip(i as int)[0]);
            assert(before[k] == before.skip(k)[0]);
            assert(before.take(k + 1) =~= before.take(k).push(before[k]));
            before.take(k).lemma_filter_push(before[k], keep);
        }
        if same_text(index.entries[i].namespace.as_str(), namespace) && same_text(
            index.entries[i].secret.as_str(),
            secret,
        ) {
            index.entries.remove(i);
            proof {
                assert(index@ =~= current.remove(i as int));
                assert(index@.take(i as int) =~= current.take(i as int));
                assert(index@.skip(i as int) =~= current.skip(i as int).skip(1));
                assert(before.skip(k + 1) =~= before.skip(k).skip(1));
                k = k + 1;
            }
        } else {
            proof {
                assert(current.take(i as int + 1) =~= current.take(i as int).push(
                    current[i as int],
                ));
                assert(current.skip(i as int + 1) =~= current.skip(i as int).skip(1));
                assert(before.skip(k + 1) =~= before.skip(k).skip(1));
                k = k + 1;
            }
            i += 1;
        }
    }
    proof {
        assert(index@.take(i as int) =~= index@);
        assert(before.take(k) =~= before);
        lemma_removed(before, namespace@, secret@);
    }
}

/// What removal leaves: nothing for the pair, every other entry, and no
/// duplicate that was not there before.
pub proof fn lemma_removed(s: Seq<EntryView>, namespace: Seq<char>, secret: Seq<char>)
    ensures
        !lists(removed(s, namespace, secret), namespace, secret),
        !lists(s, namespace, secret) ==> removed(s, namespace, secret) == s,
        unique_keys(s) ==> unique_keys(removed(s, namespace, secret)),
        forall|e: EntryView|
            s.contains(e) && !keyed(e, namespace, secret) ==> #[trigger] removed(
                s,
                namespace,
                secret,
            ).contains(e),
    decreases s.len(),
{
    let keep = |e: EntryView| !keyed(e, namespace, secret);
    let r = s.filter(keep);
    broadcast use vstd::seq_lib::group_filter_ensures;

    if lists(r, namespace, secret) {
        let i = choose|i: int| 0 <= i < r.len() && keyed(#[trigger] r[i], namespace, secret);
        assert(keep(r[i]));
    }
    if !lists(s, namespace, secret) {
        lemma_filter_all(s, keep);
    }
    if unique_keys(s) {
        lemma_filter_keeps_unique(s, keep);
    }
}

/// A filter that every element passes changes nothing.
proof fn lemma_filter_all(s: Seq<EntryView>, pred: spec_fn(EntryView) -> bool)
    requires
        forall|i: int| 0 <= i < s.len() ==> pred(#[trigger] s[i]),
    ensures
        s.filter(pred) == s,
    decreases s.len(),
{
    reveal(Seq::filter);
    if s.len() > 0 {
        lemma_filter_all(s.drop_last(), pred);
        assert(s.drop_last().push(s.last()) =~= s);
    }
}

/// What a filter lets through sits at increasing positions of the unfiltered sequence.
proof fn lemma_filter_positions(s: Seq<EntryView>, pred: spec_fn(EntryView) -> bool) -> (at: Seq<
    int,
>)
    ensures
        at.len() == s.filter(pred).len(),
        forall|i: int|
            0 <= i < at.len() ==> 0 <= #[trigger] at[i] < s.len() && s[at[i]] == s.filter(
                pred,
            )[i],
        forall|i: int, j: int| 0 <= i < j < at.len() ==> #[trigger] at[i] < #[trigger] at[j],
    decreases s.len(),
{
    reveal(Seq::filter);
    if s.len() == 0 {
        Seq::empty()
    } else {
        let rest = lemma_filter_positions(s.drop_last(), pred);
        if pred(s.last()) {
            rest.push(s.len() - 1)
        } else {
            rest
        }
    }
}

/// Filtering keeps an index free of duplicates.
proof fn lemma_filter_keeps_unique(s: Seq<EntryView>, pred: spec_fn(EntryView) -> bool)
    requires
        unique_keys(s),
    ensures
        unique_keys(s.filter(pred)),
{
    let r = s.filter(pred);
    let at = lemma_filter_positions(s, pred);
    assert forall|i: int, j: int|
        #![trigger r[i], r[j]]
        0 <= i < r.len() && 0 <= j < r.len() && keyed(r[i], r[j].namespace, r[j].secret)
        implies i == j by {
        assert(s[at[i]] == r[i] && s[at[j]] == r[j]);
        assert(keyed(s[at[i]], s[at[j]].namespace, s[at[j]].secret));
        assert(at[i] == at[j]);
        if i < j {
            assert(at[i] < at[j]);
        } else if j < i {
            assert(at[j] < at[i]);
        }
    }
}

/// The view of an optional string slice.
pub open spec fn slice_view(s: Option<&str>) -> Option<Seq<char>> {
    match s {
        Some(s) => Some(s@),
        None => None,
    }
}

/// The views of borrowed entries.
pub open spec fn entry_views(entries: Seq<&IndexEntry>) -> Seq<EntryView> {
    entries.map_values(|e: &IndexEntry| e@)
}

/// The entries of `namespace`, or all of them where none is given, in the
/// order of the index.
pub fn filter_entries<'a>(index: &'a SecretIndex, namespace: Option<&str>) -> (r: Vec<
    &'a IndexEntry,
>)
    ensures
        entry_views(r@) == filtered(index@, slice_view(namespace)),
{
    let mut out: Vec<&'a IndexEntry> = Vec::new();
    let ghost pred = |e: EntryView|
        match slice_view(namespace) {
            Some(ns) => e.namespace == ns,
            None => true,
        };
    let mut i: usize = 0;
    proof {
        assert(index@.take(0) =~= Seq::<EntryView>::empty());
        assert(entry_views(out@) =~= index@.take(0).filter(pred));
    }
    while i < index.entries.len()
        invariant
            0 <= i <= index.entries.len(),
            entry_views(out@) == index@.take(i as int).filter(pred),
            pred == |e: EntryView|
                match slice_view(namespace) {
                    Some(ns) => e.namespace == ns,
                    None => true,
                },
        decreases index.entries.len() - i,
    {
        let entry = &index.entries[i];
        let take = match namespace {
            Some(ns) => same_text(entry.namespace.as_str(), ns),
            None => true,
        };
        let ghost shown = entry_views(out@);
        proof {
            assert(index@.take(i as int + 1) =~= index@.take(i as int).push(index@[i as int]));
            index@.take(i as int).lemma_filter_push(index@[i as int], pred);
            assert(take == pred(index@[i as int]));
        }
        if take {
            out.push(entry);
            proof {
                assert(entry_views(out@) =~= shown.push(entry@));
            }
        }
        i += 1;
    }
    proof {
        assert(index@.take(i as int) =~= index@);
        match slice_view(namespace) {
            Some(ns) => {
                assert(pred =~= (|e: EntryView| e.namespace == ns));
            },
            None => {
                lemma_filter_all(index@, pred);
            },
        }
    }
    out
}

/// Recording one pair twice is recording it once with the later time: the
/// second call finds the entry of the first and only moves its time.
pub proof fn lemma_upsert_idempotent(
    s: Seq<EntryView>,
    namespace: Seq<char>,
    secret: Seq<char>,
    first: int,
    second: int,
)
    ensures
        upserted(upserted(s, namespace, secret, first), namespace, secret, second) == upserted(
            s,
            namespace,
            secret,
            second,
        ),
        upserted(s, namespace, secret, second).len() == upserted(s, namespace, secret, first).len(),
{
    let once = upserted(s, namespace, secret, first);
    if lists(s, namespace, secret) {
        lemma_listed_has_first(s, namespace, secret);
        let p = first_position(s, namespace, secret);
        assert(is_first(once, namespace, secret, p)) by {
            assert forall|j: int| 0 <= j < p implies !keyed(
                #[trigger] once[j],
                namespace,
                secret,
            ) by {
                assert(once[j] == s[j]);
            }
        }
        lemma_first_position(once, namespace, secret, p);
        assert(upserted(once, namespace, secret, second) =~= upserted(
            s,
            namespace,
            secret,
            second,
        ));
    } else {
        let p = s.len() as int;
        assert(is_first(once, namespace, secret, p)) by {
            assert forall|j: int| 0 <= j < p implies !keyed(
                #[trigger] once[j],
                namespace,
                secret,
            ) by {
                assert(once[j] == s[j]);
            }
        }
        lemma_first_position(once, namespace, secret, p);
        assert(upserted(once, namespace, secret, second) =~= upserted(
            s,
            namespace,
            secret,
            second,
        ));
    }
}

/// After a pair was recorded, an index without duplicates lists it exactly
/// once, with the time of that call.
pub proof fn lemma_upsert_single_entry(
    s: Seq<EntryView>,
    namespace: Seq<char>,
    secret: Seq<char>,
    created_at: int,
)
    requires
        unique_keys(s),
    ensures
        ({
            let r = upserted(s, namespace, secret, created_at);
            exists|i: int|
                {
                    &&& 0 <= i < r.len()
                    &&& #[trigger] r[i] == (EntryView { namespace, secret, created_at })
                    &&& forall|j: int|
                        0 <= j < r.len() && keyed(#[trigger] r[j], namespace, secret) ==> j == i
                }
        }),
{
    let r = upserted(s, namespace, secret, created_at);
    lemma_upsert_keeps_unique(s, namespace, secret, created_at);
    let i = if lists(s, namespace, secret) {
        lemma_listed_has_first(s, namespace, secret);
        first_position(s, namespace, secret)
    } else {
        s.len() as int
    };
    assert(r[i] == (EntryView { namespace, secret, created_at }));
    assert forall|j: int| 0 <= j < r.len() && keyed(#[trigger] r[j], namespace, secret) implies j
        == i by {
        assert(keyed(r[j], r[i].namespace, r[i].secret));
    }
}

/// Removing a pair twice is removing it once.
pub proof fn lemma_remove_idempotent(s: Seq<EntryView>, namespace: Seq<char>, secret: Seq<char>)
    ensures
        removed(removed(s, namespace, secret), namespace, secret) == removed(s, namespace, secret),
{
    lemma_removed(s, namespace, secret);
    lemma_removed(removed(s, namespace, secret), namespace, secret);
}

/// A pair that was recorded is listed, and one that was removed is not,
/// whatever came before.
pub proof fn lemma_upsert_then_remove(
    s: Seq<EntryView>,
    namespace: Seq<char>,
    secret: Seq<char>,
    created_at: int,
)
    ensures
        lists(upserted(s, namespace, secret, created_at), namespace, secret),
        !lists(
            removed(upserted(s, namespace, secret, created_at), namespace, secret),
            namespace,
            secret,
        ),
{
    let r = upserted(s, namespace, secret, created_at);
    if lists(s, namespace, secret) {
        lemma_listed_has_first(s, namespace, secret);
        let i = first_position(s, namespace, secret);
        assert(keyed(r[i], namespace, secret));
    } else {
        assert(keyed(r[s.len() as int], namespace, secret));
    }
    lemma_removed(r, namespace, secret);
}

/// The line that a listing shows for an entry: namespace, name and creation
/// time, separated by tabs.
pub open spec fn listed_line(e: EntryView) -> Seq<char> {
    e.namespace + "\t"@ + e.secret + "\t"@ + instant_text(e.created_at)
}

/// The line that a listing shows for `entry`.
pub fn list_line(entry: &IndexEntry) -> (r: String)
    ensures
        r@ == listed_line(entry@),
{
    let mut line = entry.namespace.clone();
    line.append("\t");
    line.append(entry.secret.as_str());
    line.append("\t");
    let at = entry.created_at.to_text();
    line.append(at.as_str());
    line
}

} // verus!
