use vstd::prelude::*;

use crate::models::{
    items_view, search_items_view, strings_view, Album, AlbumSearchResponse,
    AlbumSearchResponseItem, AlbumView, ItemView, JellyfinItem, JellyfinItemsResponse,
    SearchItemView,
};
use crate::text::{chars_le, chars_lt};
use crate::text::{lemma_chars_le_transitive, lemma_chars_lt_asymmetric};

verus! {

broadcast use vstd::seq_lib::group_seq_properties;

/// How many results a page holds when the caller names no limit.
pub const DEFAULT_PAGE_LIMIT: u32 = 100;

/// `s` with every value after its first occurrence left out, in the order of
/// first occurrence.
pub open spec fn dedup<A>(s: Seq<A>) -> Seq<A>
    decreases s.len(),
{
    if s.len() == 0 {
        s
    } else {
        let d = dedup(s.drop_last());
        if d.contains(s.last()) {
            d
        } else {
            d.push(s.last())
        }
    }
}

/// `x` put into `s` after every element whose name does not come after `x`'s
/// name: one step of a stable insertion sort.
pub open spec fn insert_by_name(s: Seq<ItemView>, x: ItemView) -> Seq<ItemView>
    decreases s.len(),
{
    if s.len() == 0 {
        seq![x]
    } else if chars_lt(x.name, s.last().name) {
        insert_by_name(s.drop_last(), x).push(s.last())
    } else {
        s.push(x)
    }
}

/// `s` in the order of a stable sort by name, as `sort_by(|a, b| a.name.cmp(&b.name))`
/// leaves it.
pub open spec fn sort_by_name(s: Seq<ItemView>) -> Seq<ItemView>
    decreases s.len(),
{
    if s.len() == 0 {
        s
    } else {
        insert_by_name(sort_by_name(s.drop_last()), s.last())
    }
}

/// Names never decrease along `s`.
pub open spec fn sorted_by_name(s: Seq<ItemView>) -> bool {
    forall|i: int, j: int| 0 <= i < j < s.len() ==> chars_le(#[trigger] s[i].name, #[trigger] s[j].name)
}

/// The window of `s` that `skip(offset).take(limit)` yields.
pub open spec fn page<A>(s: Seq<A>, offset: nat, limit: nat) -> Seq<A> {
    let start = if offset <= s.len() { offset } else { s.len() };
    let end = if start + limit <= s.len() { start + limit } else { s.len() };
    s.subrange(start as int, end as int)
}

/// The value of an optional number, or the default.
pub open spec fn or_default(o: Option<u32>, d: u32) -> u32 {
    match o {
        Some(v) => v,
        None => d,
    }
}

/// The result of an online album search: the unique albums found by title and
/// by artist, sorted by name, cut to the requested page.
pub open spec fn search_result(
    by_title: Seq<ItemView>,
    by_artist: Seq<ItemView>,
    limit: Option<u32>,
    offset: Option<u32>,
) -> (u32, u32, Seq<ItemView>) {
    let combined = dedup(by_title + by_artist);
    (
        combined.len() as u32,
        or_default(offset, 0),
        page(
            sort_by_name(combined),
            or_default(offset, 0) as nat,
            or_default(limit, DEFAULT_PAGE_LIMIT) as nat,
        ),
    )
}

/// The artist shown for an item that names none.
pub open spec fn unknown_artist() -> Seq<char> {
    "Unknown Artist"@
}

/// An item as a search result, marked downloaded when its id is among `downloaded`.
pub open spec fn search_item(item: ItemView, downloaded: Seq<Seq<char>>) -> SearchItemView {
    SearchItemView {
        name: item.name,
        id: item.id,
        album_artist: match item.album_artist {
            Some(a) => a,
            None => unknown_artist(),
        },
        downloaded: downloaded.contains(item.id),
    }
}

/// A local album as a search result; it is downloaded when it has a path.
pub open spec fn local_search_item(album: AlbumView) -> SearchItemView {
    SearchItemView {
        name: album.title,
        id: album.jellyfin_id,
        album_artist: album.artist,
        downloaded: album.path is Some,
    }
}

// ---------------------------------------------------------------------------
// Facts about the specifications
// ---------------------------------------------------------------------------

proof fn lemma_dedup_contains<A>(s: Seq<A>)
    ensures
        forall|x: A| dedup(s).contains(x) <==> s.contains(x),
        dedup(s).no_duplicates(),
    decreases s.len(),
{
    if s.len() > 0 {
        let p = s.drop_last();
        lemma_dedup_contains(p);
        let d = dedup(p);
        assert(s =~= p.push(s.last()));
        assert forall|x: A| dedup(s).contains(x) <==> s.contains(x) by {
            assert(s.contains(x) <==> (p.contains(x) || x == s.last()));
            assert(d.push(s.last()).contains(x) <==> (d.contains(x) || x == s.last()));
        }
        if !d.contains(s.last()) {
            let e = d.push(s.last());
            assert forall|i: int, j: int| 0 <= i < e.len() && 0 <= j < e.len() && i != j implies e[i]
                != e[j] by {
                if i == d.len() {
                    assert(e[j] == d[j]);
                } else if j == d.len() {
                    assert(e[i] == d[i]);
                } else {
                    assert(e[i] == d[i] && e[j] == d[j]);
                }
            }
        }
    }
}

/// The combined results hold every result of either search exactly once.
pub proof fn lemma_combined_results_unique(a: Seq<ItemView>, b: Seq<ItemView>)
    ensures
        dedup(a + b).no_duplicates(),
        forall|x: ItemView| dedup(a + b).contains(x) <==> (a.contains(x) || b.contains(x)),
{
    lemma_dedup_contains(a + b);
    assert forall|x: ItemView| (a + b).contains(x) <==> (a.contains(x) || b.contains(x)) by {
        if a.contains(x) {
            let i = choose|i: int| 0 <= i < a.len() && a[i] == x;
            assert((a + b)[i] == x);
        }
        if b.contains(x) {
            let i = choose|i: int| 0 <= i < b.len() && b[i] == x;
            assert((a + b)[a.len() + i] == x);
        }
    }
}

proof fn lemma_insert_by_name_multiset(s: Seq<ItemView>, x: ItemView)
    ensures
        insert_by_name(s, x).to_multiset() == s.to_multiset().insert(x),
        insert_by_name(s, x).len() == s.len() + 1,
    decreases s.len(),
{
    broadcast use vstd::multiset::group_multiset_axioms;

    if s.len() == 0 {
        assert(seq![x] =~= Seq::<ItemView>::empty().push(x));
        Seq::<ItemView>::empty().to_multiset_ensures();
    } else if chars_lt(x.name, s.last().name) {
        lemma_insert_by_name_multiset(s.drop_last(), x);
        insert_by_name(s.drop_last(), x).to_multiset_ensures();
        s.drop_last().to_multiset_ensures();
        assert(s =~= s.drop_last().push(s.last()));
        assert(s.to_multiset() =~= s.drop_last().to_multiset().insert(s.last()));
        assert(insert_by_name(s, x).to_multiset() =~= s.to_multiset().insert(x));
    } else {
        s.to_multiset_ensures();
    }
}

proof fn lemma_insert_by_name_sorted(s: Seq<ItemView>, x: ItemView)
    requires
        sorted_by_name(s),
    ensures
        sorted_by_name(insert_by_name(s, x)),
    decreases s.len(),
{
    if s.len() == 0 {
    } else if chars_lt(x.name, s.last().name) {
        let d = s.drop_last();
        assert(sorted_by_name(d)) by {
            assert forall|i: int, j: int| 0 <= i < j < d.len() implies chars_le(
                #[trigger] d[i].name,
                #[trigger] d[j].name,
            ) by {
                assert(d[i] == s[i] && d[j] == s[j]);
            }
        }
        lemma_insert_by_name_sorted(d, x);
        lemma_insert_by_name_multiset(d, x);
        let r = insert_by_name(d, x);
        assert forall|i: int| 0 <= i < r.len() implies chars_le(r[i].name, s.last().name) by {
            assert(r.to_multiset().count(r[i]) > 0) by {
                r.to_multiset_ensures();
                assert(r.contains(r[i]));
            }
            if r[i] != x {
                assert(d.to_multiset().count(r[i]) > 0);
                d.to_multiset_ensures();
                let k = choose|k: int| 0 <= k < d.len() && d[k] == r[i];
                assert(s[k] == r[i]);
                assert(chars_le(s[k].name, s[s.len() - 1].name));
            } else {
                lemma_chars_lt_asymmetric(x.name, s.last().name);
            }
        }
        assert forall|i: int, j: int| 0 <= i < j < r.push(s.last()).len() implies chars_le(
            #[trigger] r.push(s.last())[i].name,
            #[trigger] r.push(s.last())[j].name,
        ) by {
            if j == r.len() {
                assert(r.push(s.last())[i] == r[i]);
            } else {
                assert(r.push(s.last())[i] == r[i] && r.push(s.last())[j] == r[j]);
            }
        }
    } else {
        assert forall|i: int, j: int| 0 <= i < j < s.push(x).len() implies chars_le(
            #[trigger] s.push(x)[i].name,
            #[trigger] s.push(x)[j].name,
        ) by {
            if j == s.len() {
                if i < s.len() - 1 {
                    assert(chars_le(s[i].name, s[s.len() - 1].name));
                    lemma_chars_le_transitive(s[i].name, s.last().name, x.name);
                }
            } else {
                assert(s.push(x)[i] == s[i] && s.push(x)[j] == s[j]);
            }
        }
    }
}

/// Sorting keeps every result, as many times as it occurred, and orders the
/// results by name.
pub proof fn lemma_sort_by_name_correct(s: Seq<ItemView>)
    ensures
        sort_by_name(s).to_multiset() == s.to_multiset(),
        sort_by_name(s).len() == s.len(),
        sorted_by_name(sort_by_name(s)),
    decreases s.len(),
{
    broadcast use vstd::multiset::group_multiset_axioms;

    if s.len() == 0 {
    } else {
        lemma_sort_by_name_correct(s.drop_last());
        lemma_insert_by_name_multiset(sort_by_name(s.drop_last()), s.last());
        lemma_insert_by_name_sorted(sort_by_name(s.drop_last()), s.last());
        s.drop_last().to_multiset_ensures();
        assert(s =~= s.drop_last().push(s.last()));
    }
}

/// The results whose name is `n`.
pub open spec fn named(n: Seq<char>) -> spec_fn(ItemView) -> bool {
    |x: ItemView| x.name == n
}

proof fn lemma_insert_by_name_filter(t: Seq<ItemView>, x: ItemView, n: Seq<char>)
    ensures
        insert_by_name(t, x).filter(named(n)) == t.push(x).filter(named(n)),
    decreases t.len(),
{
    let p = named(n);
    if t.len() == 0 {
        assert(seq![x] =~= t.push(x));
    } else if chars_lt(x.name, t.last().name) {
        let d = t.drop_last();
        let last = t.last();
        lemma_insert_by_name_filter(d, x, n);
        assert(t =~= d.push(last));
        insert_by_name(d, x).lemma_filter_push(last, p);
        d.lemma_filter_push(x, p);
        d.lemma_filter_push(last, p);
        t.lemma_filter_push(x, p);
        d.push(x).lemma_filter_push(last, p);
        if x.name == n && last.name == n {
            lemma_chars_lt_asymmetric(x.name, last.name);
        }
        assert(insert_by_name(t, x).filter(p) =~= t.push(x).filter(p));
    }
}

/// The sort is stable: the results that share a name keep the order in which
/// they came.
pub proof fn lemma_sort_by_name_stable(s: Seq<ItemView>, n: Seq<char>)
    ensures
        sort_by_name(s).filter(named(n)) == s.filter(named(n)),
    decreases s.len(),
{
    if s.len() > 0 {
        let d = s.drop_last();
        lemma_sort_by_name_stable(d, n);
        lemma_insert_by_name_filter(sort_by_name(d), s.last(), n);
        assert(s =~= d.push(s.last()));
        sort_by_name(d).lemma_filter_push(s.last(), named(n));
        d.lemma_filter_push(s.last(), named(n));
    }
}

/// A page holds at most `limit` results, all of them consecutive in `s`.
pub proof fn lemma_page_bounds<A>(s: Seq<A>, offset: nat, limit: nat)
    ensures
        page(s, offset, limit).len() <= limit,
        offset <= s.len() ==> forall|i: int|
            0 <= i < page(s, offset, limit).len() ==> page(s, offset, limit)[i] == s[offset + i],
        offset >= s.len() ==> page(s, offset, limit).len() == 0,
{
}

/// Two consecutive pages together are the page that spans both.
pub proof fn lemma_consecutive_pages<A>(s: Seq<A>, offset: nat, first: nat, second: nat)
    ensures
        page(s, offset, first) + page(s, offset + first, second) == page(
            s,
            offset,
            first + second,
        ),
{
    assert(page(s, offset, first) + page(s, offset + first, second) =~= page(
        s,
        offset,
        first + second,
    ));
}

/// The results of a search are distinct and ordered by name; the total counts
/// the distinct albums that either search found.
pub proof fn lemma_search_result_ordered(
    by_title: Seq<ItemView>,
    by_artist: Seq<ItemView>,
    limit: Option<u32>,
    offset: Option<u32>,
)
    ensures
        sorted_by_name(search_result(by_title, by_artist, limit, offset).2),
        search_result(by_title, by_artist, limit, offset).2.no_duplicates(),
        search_result(by_title, by_artist, limit, offset).2.len() <= or_default(
            limit,
            DEFAULT_PAGE_LIMIT,
        ),
        forall|x: ItemView| #[trigger]
            search_result(by_title, by_artist, limit, offset).2.contains(x) ==> (by_title.contains(
                x,
            ) || by_artist.contains(x)),
{
    broadcast use vstd::multiset::group_multiset_axioms;

    let combined = dedup(by_title + by_artist);
    lemma_combined_results_unique(by_title, by_artist);
    lemma_sort_by_name_correct(combined);
    let sorted = sort_by_name(combined);
    let off = or_default(offset, 0) as nat;
    let lim = or_default(limit, DEFAULT_PAGE_LIMIT) as nat;
    let p = page(sorted, off, lim);
    lemma_page_bounds(sorted, off, lim);
    combined.to_multiset_ensures();
    sorted.to_multiset_ensures();
    combined.lemma_multiset_has_no_duplicates();
    sorted.lemma_multiset_has_no_duplicates_conv();
    let start = if off <= sorted.len() { off } else { sorted.len() };
    assert forall|i: int, j: int| 0 <= i < j < p.len() implies chars_le(
        #[trigger] p[i].name,
        #[trigger] p[j].name,
    ) by {
        assert(p[i] == sorted[start + i] && p[j] == sorted[start + j]);
    }
    assert forall|i: int, j: int| 0 <= i < p.len() && 0 <= j < p.len() && i != j implies p[i]
        != p[j] by {
        assert(p[i] == sorted[start + i] && p[j] == sorted[start + j]);
    }
    assert forall|x: ItemView| #[trigger] p.contains(x) implies (by_title.contains(x)
        || by_artist.contains(x)) by {
        let i = choose|i: int| 0 <= i < p.len() && p[i] == x;
        assert(p[i] == sorted[start + i]);
        assert(sorted.contains(x));
        assert(sorted.to_multiset().count(x) > 0);
        assert(combined.to_multiset().count(x) > 0);
        assert(combined.contains(x));
    }
}

// ---------------------------------------------------------------------------
// Executable functions
// ---------------------------------------------------------------------------

fn push_unique(out: &mut Vec<JellyfinItem>, item: &JellyfinItem)
    ensures
        items_view(final(out)@) == (if items_view(old(out)@).contains(item@) {
            items_view(old(out)@)
        } else {
            items_view(old(out)@).push(item@)
        }),
{
    let n = out.len();
    let mut i: usize = 0;
    while i < n
        invariant
            n == out@.len(),
            i <= n,
            forall|j: int| 0 <= j < i ==> items_view(out@)[j] != item@,
        decreases n - i,
    {
        if out[i].same_as(item) {
            assert(items_view(out@)[i as int] == item@);
            return;
        }
        i = i + 1;
    }
    let ghost before = out@;
    out.push(item.duplicate());
    assert(items_view(out@) =~= items_view(before).push(item@));
}

/// The albums of both searches, each distinct album once, in the order in which
/// they first occur in `list1` followed by `list2`.
pub fn combine_jellyfin_items(list1: Vec<JellyfinItem>, list2: Vec<JellyfinItem>) -> (r: Vec<
    JellyfinItem,
>)
    ensures
        items_view(r@) == dedup(items_view(list1@) + items_view(list2@)),
{
    let mut out: Vec<JellyfinItem> = Vec::new();
    let ghost all = items_view(list1@) + items_view(list2@);
    let n1 = list1.len();
    let n2 = list2.len();
    assert(all.take(0) =~= Seq::<ItemView>::empty());
    let mut i: usize = 0;
    while i < n1
        invariant
            n1 == list1@.len(),
            n2 == list2@.len(),
            i <= n1,
            all == items_view(list1@) + items_view(list2@),
            items_view(out@) == dedup(all.take(i as int)),
        decreases n1 - i,
    {
        push_unique(&mut out, &list1[i]);
        assert(all.take(i + 1).drop_last() =~= all.take(i as int));
        assert(all.take(i + 1).last() == list1@[i as int]@);
        i = i + 1;
    }
    let mut k: usize = 0;
    while k < n2
        invariant
            n1 == list1@.len(),
            n2 == list2@.len(),
            k <= n2,
            all == items_view(list1@) + items_view(list2@),
            items_view(out@) == dedup(all.take(n1 + k)),
        decreases n2 - k,
    {
        push_unique(&mut out, &list2[k]);
        assert(all.take(n1 + k + 1).drop_last() =~= all.take(n1 + k));
        assert(all.take(n1 + k + 1).last() == list2@[k as int]@);
        k = k + 1;
    }
    assert(all.take(n1 + n2) =~= all);
    out
}

proof fn lemma_insert_by_name_at(s: Seq<ItemView>, x: ItemView, p: int)
    requires
        0 <= p <= s.len(),
        forall|j: int| p <= j < s.len() ==> chars_lt(x.name, #[trigger] s[j].name),
        p > 0 ==> !chars_lt(x.name, s[p - 1].name),
    ensures
        insert_by_name(s, x) == s.insert(p, x),
    decreases s.len(),
{
    if s.len() == 0 {
        assert(s.insert(p, x) =~= seq![x]);
    } else if p == s.len() {
        assert(s.insert(p, x) =~= s.push(x));
    } else {
        assert(chars_lt(x.name, s[s.len() - 1].name));
        let d = s.drop_last();
        lemma_insert_by_name_at(d, x, p);
        assert(d.insert(p, x).push(s.last()) =~= s.insert(p, x));
    }
}

/// The items in the order of a stable sort by name.
pub fn sort_items_by_name(items: Vec<JellyfinItem>) -> (r: Vec<JellyfinItem>)
    ensures
        items_view(r@) == sort_by_name(items_view(items@)),
{
    let mut out: Vec<JellyfinItem> = Vec::new();
    let n = items.len();
    let ghost all = items_view(items@);
    assert(all.take(0) =~= Seq::<ItemView>::empty());
    let mut i: usize = 0;
    while i < n
        invariant
            n == items@.len(),
            i <= n,
            all == items_view(items@),
            items_view(out@) == sort_by_name(all.take(i as int)),
        decreases n - i,
    {
        let x = &items[i];
        let mut p: usize = out.len();
        while p > 0 && crate::text::str_lt(x.name.as_str(), out[p - 1].name.as_str())
            invariant
                p <= out@.len(),
                forall|j: int|
                    p <= j < out@.len() ==> chars_lt(x@.name, #[trigger] items_view(out@)[j].name),
            decreases p,
        {
            p = p - 1;
        }
        proof {
            lemma_insert_by_name_at(items_view(out@), x@, p as int);
            assert(all.take(i + 1).drop_last() =~= all.take(i as int));
            assert(all.take(i + 1).last() == x@);
        }
        let ghost before = out@;
        out.insert(p, x.duplicate());
        assert(items_view(out@) =~= items_view(before).insert(p as int, x@));
        i = i + 1;
    }
    assert(all.take(n as int) =~= all);
    out
}

/// The window `skip(offset).take(limit)` of the items.
pub fn page_of_items(items: &Vec<JellyfinItem>, offset: u32, limit: u32) -> (r: Vec<JellyfinItem>)
    ensures
        items_view(r@) == page(items_view(items@), offset as nat, limit as nat),
{
    let n = items.len();
    let start: usize = if (offset as usize) <= n {
        offset as usize
    } else {
        n
    };
    let end: usize = if (limit as usize) <= n - start {
        start + limit as usize
    } else {
        n
    };
    let mut out: Vec<JellyfinItem> = Vec::new();
    let mut i = start;
    while i < end
        invariant
            n == items@.len(),
            start <= i <= end <= n,
            items_view(out@) =~= items_view(items@).subrange(start as int, i as int),
        decreases end - i,
    {
        let ghost before = out@;
        out.push(items[i].duplicate());
        assert(items_view(out@) =~= items_view(before).push(items_view(items@)[i as int]));
        i = i + 1;
    }
    out
}

/// The online search result from the albums found by title and by artist: the
/// distinct albums of both, their number, sorted by name and cut to the page
/// that `offset` (default 0) and `limit` (default 100) select.
pub fn assemble_search_results(
    by_title: Vec<JellyfinItem>,
    by_artist: Vec<JellyfinItem>,
    limit: Option<u32>,
    offset: Option<u32>,
) -> (r: JellyfinItemsResponse)
    ensures
        (r.total_record_count, r.start_index, items_view(r.items@)) == search_result(
            items_view(by_title@),
            items_view(by_artist@),
            limit,
            offset,
        ),
{
    let combined = combine_jellyfin_items(by_title, by_artist);
    let total_record_count = combined.len() as u32;
    let sorted = sort_items_by_name(combined);
    let start = match offset {
        Some(o) => o,
        None => 0,
    };
    let lim = match limit {
        Some(l) => l,
        None => DEFAULT_PAGE_LIMIT,
    };
    let items = page_of_items(&sorted, start, lim);
    JellyfinItemsResponse { total_record_count, start_index: start, items }
}

/// The ids of the items, in order.
pub fn item_ids(res: &JellyfinItemsResponse) -> (r: Vec<String>)
    ensures
        strings_view(r@) == items_view(res.items@).map_values(|i: ItemView| i.id),
{
    let mut out: Vec<String> = Vec::new();
    let n = res.items.len();
    let mut i: usize = 0;
    while i < n
        invariant
            n == res.items@.len(),
            i <= n,
            strings_view(out@) =~= items_view(res.items@).map_values(|i: ItemView| i.id).take(
                i as int,
            ),
        decreases n - i,
    {
        let ghost before = out@;
        out.push(res.items[i].id.clone());
        assert(strings_view(out@) =~= strings_view(before).push(res.items@[i as int].id@));
        i = i + 1;
    }
    assert(items_view(res.items@).map_values(|i: ItemView| i.id).take(n as int) =~= items_view(
        res.items@,
    ).map_values(|i: ItemView| i.id));
    out
}

/// The result that an artist search which found no artist gives: nothing.
pub fn empty_items_response() -> (r: JellyfinItemsResponse)
    ensures
        r.total_record_count == 0,
        r.start_index == 0,
        r.items@.len() == 0,
{
    JellyfinItemsResponse { total_record_count: 0, start_index: 0, items: Vec::new() }
}

fn contains_string(list: &Vec<String>, s: &String) -> (r: bool)
    ensures
        r == strings_view(list@).contains(s@),
{
    let n = list.len();
    let mut i: usize = 0;
    while i < n
        invariant
            n == list@.len(),
            i <= n,
            forall|j: int| 0 <= j < i ==> strings_view(list@)[j] != s@,
        decreases n - i,
    {
        if list[i] == *s {
            assert(strings_view(list@)[i as int] == s@);
            return true;
        }
        i = i + 1;
    }
    false
}

/// The search result as the user interface shows it: every item with its
/// artist ("Unknown Artist" where it names none) and whether its id is among
/// the `downloaded` album ids; total and start index stay.
pub fn add_downloaded_state(res: &JellyfinItemsResponse, downloaded: &Vec<String>) -> (r:
    AlbumSearchResponse)
    ensures
        r.total_record_count == res.total_record_count,
        r.start_index == res.start_index,
        search_items_view(r.items@) == items_view(res.items@).map_values(
            |i: ItemView| search_item(i, strings_view(downloaded@)),
        ),
        r.items@.len() == res.items@.len(),
        forall|k: int|
            0 <= k < r.items@.len() ==> (#[trigger] r.items@[k]).id@ == res.items@[k].id@ && (
            r.items@[k].downloaded <==> exists|j: int|
                0 <= j < downloaded@.len() && downloaded@[j]@ == res.items@[k].id@),
{
    let mut out: Vec<AlbumSearchResponseItem> = Vec::new();
    let n = res.items.len();
    let mut i: usize = 0;
    while i < n
        invariant
            n == res.items@.len(),
            i <= n,
            search_items_view(out@) =~= items_view(res.items@).map_values(
                |i: ItemView| search_item(i, strings_view(downloaded@)),
            ).take(i as int),
        decreases n - i,
    {
        let item = &res.items[i];
        let album_artist = match &item.album_artist {
            Some(a) => a.clone(),
            None => {
                proof {
                    reveal_strlit("Unknown Artist");
                }
                String::from_str("Unknown Artist")
            },
        };
        let downloaded_here = contains_string(downloaded, &item.id);
        let ghost before = out@;
        out.push(
            AlbumSearchResponseItem {
                name: item.name.clone(),
                id: item.id.clone(),
                album_artist,
                downloaded: downloaded_here,
            },
        );
        assert(search_items_view(out@) =~= search_items_view(before).push(
            search_item(item@, strings_view(downloaded@)),
        ));
        i = i + 1;
    }
    assert(items_view(res.items@).map_values(
        |i: ItemView| search_item(i, strings_view(downloaded@)),
    ).take(n as int) =~= items_view(res.items@).map_values(
        |i: ItemView| search_item(i, strings_view(downloaded@)),
    ));
    proof {
        assert(search_items_view(out@).len() == out@.len());
        assert forall|k: int| 0 <= k < out@.len() implies (#[trigger] out@[k]).id@
            == res.items@[k].id@ && (out@[k].downloaded <==> exists|j: int|
            0 <= j < downloaded@.len() && downloaded@[j]@ == res.items@[k].id@) by {
            assert(search_items_view(out@)[k] == out@[k]@);
            assert(items_view(res.items@)[k] == res.items@[k]@);
            lemma_downloaded_exactly_when_listed(res.items@[k]@, strings_view(downloaded@));
            if out@[k].downloaded {
                let j = choose|j: int|
                    0 <= j < strings_view(downloaded@).len() && strings_view(downloaded@)[j]
                        == res.items@[k]@.id;
                assert(downloaded@[j]@ == res.items@[k].id@);
            } else {
                assert forall|j: int| 0 <= j < downloaded@.len() implies downloaded@[j]@
                    != res.items@[k].id@ by {
                    assert(strings_view(downloaded@)[j] == downloaded@[j]@);
                }
            }
        }
    }
    AlbumSearchResponse {
        total_record_count: res.total_record_count,
        start_index: res.start_index,
        items: out,
    }
}

/// A search result is marked downloaded exactly when its id occurs anywhere in
/// the list of downloaded album ids, and it keeps the item's id and name.
pub proof fn lemma_downloaded_exactly_when_listed(item: ItemView, downloaded: Seq<Seq<char>>)
    ensures
        search_item(item, downloaded).id == item.id,
        search_item(item, downloaded).name == item.name,
        search_item(item, downloaded).downloaded <==> exists|j: int|
            0 <= j < downloaded.len() && downloaded[j] == item.id,
{
    if exists|j: int| 0 <= j < downloaded.len() && downloaded[j] == item.id {
        let j = choose|j: int| 0 <= j < downloaded.len() && downloaded[j] == item.id;
        assert(downloaded.contains(downloaded[j]));
    }
}

/// The offline search result from the local albums the database returned:
/// every album as a result (downloaded when it has a path), their number as the
/// total and `offset` (default 0) as the start index.
pub fn local_albums_response(albums: Vec<Album>, offset: Option<u32>) -> (r: AlbumSearchResponse)
    ensures
        r.total_record_count == albums@.len() as u32,
        r.start_index == or_default(offset, 0),
        search_items_view(r.items@) == albums@.map_values(|a: Album| local_search_item(a@)),
{
    let mut out: Vec<AlbumSearchResponseItem> = Vec::new();
    let n = albums.len();
    let mut i: usize = 0;
    while i < n
        invariant
            n == albums@.len(),
            i <= n,
            search_items_view(out@) =~= albums@.map_values(|a: Album| local_search_item(a@)).take(
                i as int,
            ),
        decreases n - i,
    {
        let a = &albums[i];
        let ghost before = out@;
        out.push(
            AlbumSearchResponseItem {
                name: a.title.clone(),
                id: a.jellyfin_id.clone(),
                album_artist: a.artist.clone(),
                downloaded: a.path.is_some(),
            },
        );
        assert(search_items_view(out@) =~= search_items_view(before).push(local_search_item(a@)));
        i = i + 1;
    }
    assert(albums@.map_values(|a: Album| local_search_item(a@)).take(n as int) =~= albums@.map_values(
        |a: Album| local_search_item(a@),
    ));
    let start_index = match offset {
        Some(o) => o,
        None => 0,
    };
    AlbumSearchResponse { total_record_count: n as u32, start_index, items: out }
}

/// Whether a search term asks for the most recent albums instead of a search:
/// it does when it is empty.
pub fn is_recents_query(search: &str) -> (r: bool)
    ensures
        r == (search@.len() == 0),
{
    search.is_empty()
}

/// The artist ids to look albums up by, or `None` when the artist search found
/// no artist, in which case the albums by artist are an empty response.
pub fn artist_ids_to_search(artists: &JellyfinItemsResponse) -> (r: Option<Vec<String>>)
    ensures
        r is None <==> artists.items@.len() == 0,
        r matches Some(ids) ==> strings_view(ids@) == items_view(artists.items@).map_values(
            |i: ItemView| i.id,
        ),
{
    let ids = item_ids(artists);
    assert(strings_view(ids@).len() == ids@.len());
    assert(items_view(artists.items@).map_values(|i: ItemView| i.id).len() == artists.items@.len());
    if ids.len() == 0 {
        None
    } else {
        Some(ids)
    }
}

/// The row limit and offset of a database page: the limit (default 100) and
/// the offset (default 0) as 64-bit numbers.
pub fn page_window(limit: Option<u32>, offset: Option<u32>) -> (r: (i64, i64))
    ensures
        r.0 == or_default(limit, DEFAULT_PAGE_LIMIT) as int,
        r.1 == or_default(offset, 0) as int,
{
    let l = match limit {
        Some(l) => l,
        None => DEFAULT_PAGE_LIMIT,
    };
    let o = match offset {
        Some(o) => o,
        None => 0,
    };
    (l as i64, o as i64)
}

/// The SQL `LIKE` pattern that matches any text containing `search`.
pub fn like_pattern(search: &str) -> (r: String)
    ensures
        r@ == seq!['%'] + search@ + seq!['%'],
{
    proof {
        reveal_strlit("%");
    }
    let r = String::from_str("%").concat(search).concat("%");
    assert(r@ =~= seq!['%'] + search@ + seq!['%']);
    r
}

} // verus!
