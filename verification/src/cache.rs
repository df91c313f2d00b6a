//! The cache of remote servers: how many of them are kept, and which.

use crate::os_path;
use crate::text;
use vstd::prelude::*;
use vstd::relations::*;
use vstd::seq_lib::*;
use vstd::string::*;
use vstd::utf8::*;

verus! {

/// How many remote servers are kept for a platform.
pub const REMOTE_SERVER_CACHE_LIMIT: usize = 5;

/// A file in the cache. Times are in nanoseconds after the beginning of 1970.
#[derive(Debug)]
pub struct CacheEntry {
    pub name: Vec<u8>,
    /// When the file was modified, if that is known.
    pub modified: Option<i128>,
}

/// The contents of a [`CacheEntry`].
#[verifier::ext_equal]
pub struct CacheEntryView {
    pub name: Seq<u8>,
    pub modified: Option<i128>,
}

impl View for CacheEntry {
    type V = CacheEntryView;

    open spec fn view(&self) -> CacheEntryView {
        CacheEntryView { name: self.name@, modified: self.modified }
    }
}

/// A remote server in the cache, and the time that it is kept by.
#[verifier::ext_equal]
pub struct Archive {
    pub name: Seq<u8>,
    pub time: int,
}

/// Whether `left` stands before `right`, byte by byte.
pub open spec fn bytes_less(left: Seq<u8>, right: Seq<u8>) -> bool
    decreases left.len(),
{
    if right.len() == 0 {
        false
    } else if left.len() == 0 {
        true
    } else {
        left[0] < right[0] || left[0] == right[0] && bytes_less(left.skip(1), right.skip(1))
    }
}

/// Whether the name of a file is that of a remote server.
pub open spec fn is_archive(name: Seq<u8>) -> bool {
    let suffix = encode_utf8(".gz"@);
    suffix.is_suffix_of(name) && name.len() > suffix.len()
}

/// The newer one comes first; of two that are equally old the one whose name comes first.
pub open spec fn newer_first(left: Archive, right: Archive) -> bool {
    left.time > right.time || left.time == right.time && (left.name == right.name || bytes_less(
        left.name,
        right.name,
    ))
}

/// What a cleanup of a directory of the cache goes by.
#[verifier::ext_equal]
pub struct CacheView {
    /// The name of the file that must not be removed, if it is in the directory.
    pub keep_name: Option<Seq<u8>>,
    pub now: int,
}

impl CacheView {
    /// Whether a file is the one that must not be removed.
    pub open spec fn keeps(self, name: Seq<u8>) -> bool {
        self.keep_name == Some(name)
    }

    /// The time that a file is kept by: the file that must not be removed counts as new, one
    /// whose time is not known as old.
    pub open spec fn archive(self, entry: CacheEntryView) -> Archive {
        Archive {
            name: entry.name,
            time: if self.keeps(entry.name) {
                self.now
            } else {
                match entry.modified {
                    Some(modified) => modified as int,
                    None => 0,
                }
            },
        }
    }

    /// The remote servers among some files.
    pub open spec fn archives(self, entries: Seq<CacheEntryView>) -> Seq<Archive>
        decreases entries.len(),
    {
        if entries.len() == 0 {
            seq![]
        } else if is_archive(entries.last().name) {
            self.archives(entries.drop_last()).push(self.archive(entries.last()))
        } else {
            self.archives(entries.drop_last())
        }
    }

    /// The remote servers in the order in which they are kept.
    pub open spec fn ranked(self, entries: Seq<CacheEntryView>) -> Seq<Archive> {
        self.archives(entries).sort_by(|left: Archive, right: Archive| newer_first(left, right))
    }

    /// The names of those that may be removed.
    pub open spec fn removable(self, archives: Seq<Archive>) -> Seq<Seq<u8>>
        decreases archives.len(),
    {
        if archives.len() == 0 {
            seq![]
        } else if self.keeps(archives.last().name) {
            self.removable(archives.drop_last())
        } else {
            self.removable(archives.drop_last()).push(archives.last().name)
        }
    }

    /// The files that are removed so that `limit` remote servers remain: those behind the first
    /// ones, but for the one that must not be removed. With no limit at all nothing is removed.
    pub open spec fn removed(self, entries: Seq<CacheEntryView>, limit: nat) -> Seq<Seq<u8>> {
        let ranked = self.ranked(entries);
        if limit == 0 || ranked.len() <= limit {
            seq![]
        } else {
            self.removable(ranked.skip(limit as int))
        }
    }
}

/// A remote server that is ranked.
struct RankedArchive {
    name: Vec<u8>,
    time: i128,
    kept: bool,
}

impl View for RankedArchive {
    type V = Archive;

    closed spec fn view(&self) -> Archive {
        Archive { name: self.name@, time: self.time as int }
    }
}

/// Whether `left` stands before `right`, byte by byte.
fn is_bytes_less(left: &[u8], right: &[u8]) -> (less: bool)
    ensures
        less == bytes_less(left@, right@),
{
    let mut i: usize = 0;
    assert(left@.skip(0) =~= left@);
    assert(right@.skip(0) =~= right@);
    while i < left.len() && i < right.len() && left[i] == right[i]
        invariant
            i <= left@.len(),
            i <= right@.len(),
            bytes_less(left@, right@) == bytes_less(left@.skip(i as int), right@.skip(i as int)),
        decreases left@.len() - i,
    {
        assert(left@.skip(i as int).skip(1) =~= left@.skip(i + 1));
        assert(right@.skip(i as int).skip(1) =~= right@.skip(i + 1));
        i += 1;
    }
    if i >= right.len() {
        false
    } else if i >= left.len() {
        true
    } else {
        left[i] < right[i]
    }
}

/// No name stands before itself.
proof fn lemma_bytes_less_irreflexive(bytes: Seq<u8>)
    ensures
        !bytes_less(bytes, bytes),
    decreases bytes.len(),
{
    if bytes.len() > 0 {
        lemma_bytes_less_irreflexive(bytes.skip(1));
    }
}

/// The order of names is transitive.
proof fn lemma_bytes_less_transitive(first: Seq<u8>, second: Seq<u8>, third: Seq<u8>)
    requires
        bytes_less(first, second),
        bytes_less(second, third),
    ensures
        bytes_less(first, third),
    decreases first.len(),
{
    if first.len() > 0 && first[0] == second[0] && second[0] == third[0] {
        lemma_bytes_less_transitive(first.skip(1), second.skip(1), third.skip(1));
    }
}

/// Of two names one stands before the other, unless they are the same.
proof fn lemma_bytes_less_total(left: Seq<u8>, right: Seq<u8>)
    ensures
        bytes_less(left, right) || bytes_less(right, left) || left == right,
    decreases left.len(),
{
    if left.len() == 0 || right.len() == 0 {
        assert(left.len() == right.len() ==> left =~= right);
    } else if left[0] == right[0] {
        lemma_bytes_less_total(left.skip(1), right.skip(1));
        if left.skip(1) == right.skip(1) {
            assert(left =~= seq![left[0]] + left.skip(1));
            assert(right =~= seq![right[0]] + right.skip(1));
        }
    }
}

/// The order in which remote servers are kept is total.
proof fn lemma_newer_first_is_total()
    ensures
        total_ordering(|left: Archive, right: Archive| newer_first(left, right)),
{
    let leq = |left: Archive, right: Archive| newer_first(left, right);
    assert forall|x: Archive, y: Archive| #[trigger] leq(x, y) && #[trigger] leq(y, x) implies x
        == y by {
        if x.name != y.name {
            lemma_bytes_less_transitive(x.name, y.name, x.name);
            lemma_bytes_less_irreflexive(x.name);
        }
    }
    assert forall|x: Archive, y: Archive, z: Archive| #[trigger]
        leq(x, y) && #[trigger] leq(y, z) implies leq(x, z) by {
        if x.time == z.time && x.name != y.name && y.name != z.name {
            lemma_bytes_less_transitive(x.name, y.name, z.name);
        }
    }
    assert forall|x: Archive, y: Archive| #[trigger] leq(x, y) || #[trigger] leq(y, x) by {
        lemma_bytes_less_total(x.name, y.name);
    }
}

/// Whether `left` comes before `right`, or they are the same.
fn comes_first(left: &RankedArchive, right: &RankedArchive) -> (first: bool)
    ensures
        first == newer_first(left@, right@),
{
    if left.time != right.time {
        left.time > right.time
    } else {
        proof {
            lemma_bytes_less_total(left.name@, right.name@);
            lemma_bytes_less_irreflexive(left.name@);
            if bytes_less(left.name@, right.name@) && bytes_less(right.name@, left.name@) {
                lemma_bytes_less_transitive(left.name@, right.name@, left.name@);
            }
        }
        !is_bytes_less(right.name.as_slice(), left.name.as_slice())
    }
}

/// Puts a remote server where it belongs among others.
fn insert_ranked(ranked: &mut Vec<RankedArchive>, archive: RankedArchive)
    requires
        sorted_by(
            old(ranked)@.map_values(|one: RankedArchive| one@),
            |left: Archive, right: Archive| newer_first(left, right),
        ),
    ensures
        sorted_by(
            final(ranked)@.map_values(|one: RankedArchive| one@),
            |left: Archive, right: Archive| newer_first(left, right),
        ),
        final(ranked)@.map_values(|one: RankedArchive| one@).to_multiset() == old(
            ranked,
        )@.map_values(|one: RankedArchive| one@).to_multiset().insert(archive@),
        forall|i: int|
            0 <= i < final(ranked)@.len() ==> #[trigger] final(ranked)@[i] == archive || old(
                ranked,
            )@.contains(final(ranked)@[i]),
{
    let ghost leq = |left: Archive, right: Archive| newer_first(left, right);
    let ghost before = ranked@.map_values(|one: RankedArchive| one@);
    let mut position: usize = 0;
    while position < ranked.len() && comes_first(&ranked[position], &archive)
        invariant
            position <= ranked@.len(),
            ranked@ == old(ranked)@,
            before == ranked@.map_values(|one: RankedArchive| one@),
            forall|k: int| 0 <= k < position ==> newer_first(#[trigger] before[k], archive@),
        decreases ranked@.len() - position,
    {
        assert(before[position as int] == ranked@[position as int]@);
        position += 1;
    }
    proof {
        lemma_newer_first_is_total();
        if position < ranked@.len() {
            let next = before[position as int];
            assert(next == ranked@[position as int]@);
            assert(leq(archive@, next) || leq(next, archive@));
            assert forall|k: int| position <= k < before.len() implies newer_first(
                archive@,
                #[trigger] before[k],
            ) by {
                if k > position {
                    assert(leq(before[position as int], before[k]));
                    assert(leq(archive@, next) && leq(next, before[k]) ==> leq(archive@, before[k]));
                }
            }
        }
    }
    ranked.insert(position, archive);
    proof {
        let after = ranked@.map_values(|one: RankedArchive| one@);
        assert(after =~= before.insert(position as int, archive@));
        to_multiset_insert(before, position as int, archive@);
        assert forall|i: int, j: int| 0 <= i < j < after.len() implies #[trigger] leq(
            after[i],
            after[j],
        ) by {
            let k: int = if i < position {
                i
            } else {
                i - 1
            };
            let l: int = if j < position {
                j
            } else {
                j - 1
            };
            if i != position && j != position {
                assert(after[i] == before[k]);
                assert(after[j] == before[l]);
                assert(leq(before[k], before[l]));
            } else if i == position {
                assert(after[j] == before[l]);
            } else {
                assert(after[i] == before[k]);
            }
        }
        assert forall|i: int| 0 <= i < ranked@.len() implies #[trigger] ranked@[i] == archive
            || old(ranked)@.contains(ranked@[i]) by {
            if i < position {
                assert(ranked@[i] == old(ranked)@[i]);
            } else if i > position {
                assert(ranked@[i] == old(ranked)@[i - 1]);
            }
        }
    }
}

/// The name of a file, if there is one.
pub open spec fn optional_name(name: Option<&[u8]>) -> Option<Seq<u8>> {
    match name {
        Some(name) => Some(name@),
        None => None,
    }
}

/// The names of the files to remove from a directory of the cache, in the order in which they are
/// removed, so that no more than `limit` remote servers remain, and the one called `keep_name`,
/// where it is there.
pub fn cleanup_remote_server_cache(
    keep_name: Option<&[u8]>,
    entries: &[CacheEntry],
    now: i128,
    limit: usize,
) -> (names: Vec<Vec<u8>>)
    ensures
        names@.map_values(|name: Vec<u8>| name@) == (CacheView {
            keep_name: optional_name(keep_name),
            now: now as int,
        }).removed(entries@.map_values(|entry: CacheEntry| entry@), limit as nat),
{
    let ghost leq = |left: Archive, right: Archive| newer_first(left, right);
    let ghost cache = CacheView { keep_name: optional_name(keep_name), now: now as int };
    let ghost files = entries@.map_values(|entry: CacheEntry| entry@);
    let mut names: Vec<Vec<u8>> = Vec::new();
    assert(names@.map_values(|name: Vec<u8>| name@) =~= seq![]);
    if limit == 0 {
        return names;
    }
    let mut ranked: Vec<RankedArchive> = Vec::new();
    let mut i: usize = 0;
    proof {
        assert(files.take(0) =~= seq![]);
        assert(ranked@.map_values(|one: RankedArchive| one@) =~= cache.archives(files.take(0)));
    }
    while i < entries.len()
        invariant
            i <= entries@.len(),
            files == entries@.map_values(|entry: CacheEntry| entry@),
            cache == (CacheView { keep_name: optional_name(keep_name), now: now as int }),
            leq == (|left: Archive, right: Archive| newer_first(left, right)),
            sorted_by(ranked@.map_values(|one: RankedArchive| one@), leq),
            ranked@.map_values(|one: RankedArchive| one@).to_multiset() == cache.archives(
                files.take(i as int),
            ).to_multiset(),
            forall|k: int|
                0 <= k < ranked@.len() ==> (#[trigger] ranked@[k]).kept == cache.keeps(
                    ranked@[k].name@,
                ),
        decreases entries@.len() - i,
    {
        let entry = &entries[i];
        let ghost earlier = ranked@;
        assert(files.take(i + 1).drop_last() =~= files.take(i as int));
        assert(files.take(i + 1).last() == entry@);
        if entry.name.len() > ".gz".as_bytes().len() && os_path::ends_with(
            entry.name.as_slice(),
            ".gz".as_bytes(),
        ) {
            let kept = match keep_name {
                Some(keep_name) => text::same_bytes(entry.name.as_slice(), keep_name),
                None => false,
            };
            let time: i128 = if kept {
                now
            } else {
                match entry.modified {
                    Some(modified) => modified,
                    None => 0,
                }
            };
            let name = vstd::slice::slice_to_vec(entry.name.as_slice());
            let archive = RankedArchive { name, time, kept };
            assert(archive@ == cache.archive(entry@));
            proof {
                to_multiset_build(cache.archives(files.take(i as int)), archive@);
            }
            insert_ranked(&mut ranked, archive);
            assert forall|k: int| 0 <= k < ranked@.len() implies (#[trigger] ranked@[k]).kept
                == cache.keeps(ranked@[k].name@) by {
                if ranked@[k] != archive {
                    assert(earlier.contains(ranked@[k]));
                }
            }
        }
        i += 1;
    }
    let ghost order = ranked@.map_values(|one: RankedArchive| one@);
    proof {
        assert(files.take(i as int) =~= files);
        lemma_newer_first_is_total();
        cache.archives(files).lemma_sort_by_ensures(leq);
        lemma_sorted_unique(order, cache.ranked(files), leq);
    }
    if ranked.len() <= limit {
        return names;
    }
    let mut j: usize = limit;
    proof {
        assert(order.subrange(limit as int, j as int) =~= seq![]);
    }
    while j < ranked.len()
        invariant
            limit <= j <= ranked@.len(),
            cache == (CacheView { keep_name: optional_name(keep_name), now: now as int }),
            order == ranked@.map_values(|one: RankedArchive| one@),
            forall|k: int|
                0 <= k < ranked@.len() ==> (#[trigger] ranked@[k]).kept == cache.keeps(
                    ranked@[k].name@,
                ),
            names@.map_values(|name: Vec<u8>| name@) == cache.removable(
                order.subrange(limit as int, j as int),
            ),
        decreases ranked@.len() - j,
    {
        let ghost earlier = names@.map_values(|name: Vec<u8>| name@);
        proof {
            assert(order.subrange(limit as int, j + 1).drop_last() =~= order.subrange(
                limit as int,
                j as int,
            ));
            assert(order.subrange(limit as int, j + 1).last() == ranked@[j as int]@);
        }
        if !ranked[j].kept {
            let name = vstd::slice::slice_to_vec(ranked[j].name.as_slice());
            names.push(name);
            assert(names@.map_values(|name: Vec<u8>| name@) =~= earlier.push(name@));
        }
        j += 1;
    }
    assert(order.subrange(limit as int, j as int) =~= order.skip(limit as int));
    names
}

impl CacheView {
    /// Those of some remote servers that must not be removed.
    pub open spec fn kept(self, archives: Seq<Archive>) -> Seq<Archive>
        decreases archives.len(),
    {
        if archives.len() == 0 {
            seq![]
        } else if self.keeps(archives.last().name) {
            self.kept(archives.drop_last()).push(archives.last())
        } else {
            self.kept(archives.drop_last())
        }
    }

    /// The remote servers that remain after a cleanup, in the order in which they are kept.
    pub open spec fn remaining(self, entries: Seq<CacheEntryView>, limit: nat) -> Seq<Archive> {
        let ranked = self.ranked(entries);
        if limit == 0 || ranked.len() <= limit {
            ranked
        } else {
            ranked.take(limit as int) + self.kept(ranked.skip(limit as int))
        }
    }
}

/// Remote servers are ranked as a whole, the newer ones first.
pub proof fn law_newer_ones_come_first(cache: CacheView, entries: Seq<CacheEntryView>)
    ensures
        cache.ranked(entries).to_multiset() == cache.archives(entries).to_multiset(),
        cache.ranked(entries).len() == cache.archives(entries).len(),
        forall|i: int, j: int|
            0 <= i < j < cache.ranked(entries).len() ==> newer_first(
                #[trigger] cache.ranked(entries)[i],
                #[trigger] cache.ranked(entries)[j],
            ),
{
    let leq = |left: Archive, right: Archive| newer_first(left, right);
    let ranked = cache.ranked(entries);
    lemma_newer_first_is_total();
    cache.archives(entries).lemma_sort_by_ensures(leq);
    to_multiset_len(cache.archives(entries));
    to_multiset_len(ranked);
    assert forall|i: int, j: int| 0 <= i < j < ranked.len() implies newer_first(
        #[trigger] ranked[i],
        #[trigger] ranked[j],
    ) by {
        assert(leq(ranked[i], ranked[j]));
    }
}

/// The remote server that must not be removed is not.
pub proof fn law_kept_one_is_not_removed(
    cache: CacheView,
    entries: Seq<CacheEntryView>,
    limit: nat,
)
    ensures
        forall|i: int|
            0 <= i < cache.removed(entries, limit).len() ==> !cache.keeps(
                #[trigger] cache.removed(entries, limit)[i],
            ),
{
    lemma_removable_are_not_kept(cache, cache.ranked(entries).skip(limit as int));
}

/// Nothing that must not be removed is among what may be.
proof fn lemma_removable_are_not_kept(cache: CacheView, archives: Seq<Archive>)
    ensures
        forall|i: int|
            0 <= i < cache.removable(archives).len() ==> !cache.keeps(
                #[trigger] cache.removable(archives)[i],
            ),
    decreases archives.len(),
{
    if archives.len() > 0 {
        lemma_removable_are_not_kept(cache, archives.drop_last());
        let before = cache.removable(archives.drop_last());
        let after = cache.removable(archives);
        assert forall|i: int| 0 <= i < after.len() implies !cache.keeps(
            #[trigger] after[i],
        ) by {
            if i < before.len() {
                assert(after[i] == before[i]);
            }
        }
    }
}

/// Every remote server is kept or may be removed.
proof fn lemma_kept_or_removable(cache: CacheView, archives: Seq<Archive>)
    ensures
        cache.kept(archives).len() + cache.removable(archives).len() == archives.len(),
    decreases archives.len(),
{
    if archives.len() > 0 {
        lemma_kept_or_removable(cache, archives.drop_last());
    }
}

/// No more remote servers remain than the limit allows, but for the one that must not be removed,
/// and no fewer where there are as many. Those that remain and those that are removed are all.
pub proof fn law_limit_is_kept(cache: CacheView, entries: Seq<CacheEntryView>, limit: nat)
    requires
        limit > 0,
    ensures
        cache.remaining(entries, limit).len() + cache.removed(entries, limit).len()
            == cache.archives(entries).len(),
        cache.archives(entries).len() >= limit ==> cache.remaining(entries, limit).len() >= limit,
        cache.remaining(entries, limit).len() <= limit + cache.kept(
            cache.ranked(entries).skip(limit as int),
        ).len(),
        cache.archives(entries).len() <= limit ==> cache.removed(entries, limit).len() == 0,
{
    law_newer_ones_come_first(cache, entries);
    lemma_kept_or_removable(cache, cache.ranked(entries).skip(limit as int));
}

/// What is kept of some remote servers stands among them, in the same order, and is kept as a
/// whole.
proof fn lemma_kept_are_sorted(cache: CacheView, front: Seq<Archive>, archives: Seq<Archive>)
    requires
        sorted_by(
            front + archives,
            |left: Archive, right: Archive| newer_first(left, right),
        ),
    ensures
        sorted_by(
            front + cache.kept(archives),
            |left: Archive, right: Archive| newer_first(left, right),
        ),
        forall|i: int|
            0 <= i < cache.kept(archives).len() ==> archives.contains(
                #[trigger] cache.kept(archives)[i],
            ) && cache.keeps(cache.kept(archives)[i].name),
    decreases archives.len(),
{
    let leq = |left: Archive, right: Archive| newer_first(left, right);
    if archives.len() > 0 {
        let all = front + archives;
        let shorter = archives.drop_last();
        let kept = cache.kept(shorter);
        assert(front + shorter =~= all.drop_last());
        assert forall|i: int, j: int| 0 <= i < j < (front + shorter).len() implies #[trigger] leq(
            (front + shorter)[i],
            (front + shorter)[j],
        ) by {
            assert(leq(all[i], all[j]));
        }
        lemma_kept_are_sorted(cache, front, shorter);
        let now_kept = cache.kept(archives);
        assert forall|i: int, j: int| 0 <= i < j < (front + now_kept).len() implies #[trigger] leq(
            (front + now_kept)[i],
            (front + now_kept)[j],
        ) by {
            if j < (front + kept).len() {
                assert(leq((front + kept)[i], (front + kept)[j]));
            } else if i < front.len() {
                assert(leq(all[i], all[all.len() - 1]));
            } else {
                assert(shorter.contains(kept[i - front.len()]));
                let k = choose|k: int| 0 <= k < shorter.len() && shorter[k] == kept[i - front.len()];
                assert(leq(all[front.len() + k], all[all.len() - 1]));
            }
        }
        assert forall|i: int| 0 <= i < now_kept.len() implies archives.contains(
            #[trigger] now_kept[i],
        ) && cache.keeps(now_kept[i].name) by {
            if i < kept.len() {
                assert(shorter.contains(kept[i]));
                let k = choose|k: int| 0 <= k < shorter.len() && shorter[k] == kept[i];
                assert(archives[k] == now_kept[i]);
            } else {
                assert(archives[archives.len() - 1] == now_kept[i]);
            }
        }
    }
}

/// Where all must be kept, nothing may be removed.
proof fn lemma_all_kept(cache: CacheView, archives: Seq<Archive>)
    requires
        forall|i: int| 0 <= i < archives.len() ==> cache.keeps((#[trigger] archives[i]).name),
    ensures
        cache.removable(archives).len() == 0,
    decreases archives.len(),
{
    if archives.len() > 0 {
        assert(cache.keeps(archives[archives.len() - 1].name));
        assert forall|i: int| 0 <= i < archives.drop_last().len() implies cache.keeps(
            (#[trigger] archives.drop_last()[i]).name,
        ) by {
            assert(archives.drop_last()[i] == archives[i]);
        }
        lemma_all_kept(cache, archives.drop_last());
    }
}

/// A second cleanup of what remains after the first one removes nothing more.
pub proof fn law_second_cleanup_removes_nothing(
    cache: CacheView,
    entries: Seq<CacheEntryView>,
    rest: Seq<CacheEntryView>,
    limit: nat,
)
    requires
        cache.archives(rest).to_multiset() == cache.remaining(entries, limit).to_multiset(),
    ensures
        cache.removed(rest, limit).len() == 0,
{
    let leq = |left: Archive, right: Archive| newer_first(left, right);
    let ranked = cache.ranked(entries);
    let remaining = cache.remaining(entries, limit);
    if limit > 0 {
        lemma_newer_first_is_total();
        cache.archives(entries).lemma_sort_by_ensures(leq);
        cache.archives(rest).lemma_sort_by_ensures(leq);
        if ranked.len() > limit {
            let front = ranked.take(limit as int);
            let back = ranked.skip(limit as int);
            assert(front + back =~= ranked);
            lemma_kept_are_sorted(cache, front, back);
            lemma_sorted_unique(cache.ranked(rest), remaining, leq);
            assert(remaining.skip(limit as int) =~= cache.kept(back));
            lemma_all_kept(cache, cache.kept(back));
        } else {
            lemma_sorted_unique(cache.ranked(rest), remaining, leq);
        }
    }
}

/// The remote servers among files with different names have different names.
proof fn lemma_archives_have_different_names(cache: CacheView, entries: Seq<CacheEntryView>)
    requires
        forall|i: int, j: int|
            0 <= i < j < entries.len() ==> (#[trigger] entries[i]).name != (
            #[trigger] entries[j]).name,
    ensures
        forall|i: int|
            0 <= i < cache.archives(entries).len() ==> exists|k: int|
                0 <= k < entries.len() && (#[trigger] entries[k]).name == (
                #[trigger] cache.archives(entries)[i]).name,
        forall|i: int, j: int|
            0 <= i < j < cache.archives(entries).len() ==> (#[trigger] cache.archives(
                entries,
            )[i]).name != (#[trigger] cache.archives(entries)[j]).name,
    decreases entries.len(),
{
    if entries.len() > 0 {
        let shorter = entries.drop_last();
        assert forall|i: int, j: int| 0 <= i < j < shorter.len() implies (
        #[trigger] shorter[i]).name != (#[trigger] shorter[j]).name by {
            assert(shorter[i] == entries[i] && shorter[j] == entries[j]);
        }
        lemma_archives_have_different_names(cache, shorter);
        let before = cache.archives(shorter);
        let after = cache.archives(entries);
        assert forall|i: int| 0 <= i < after.len() implies exists|k: int|
            0 <= k < entries.len() && (#[trigger] entries[k]).name == (
            #[trigger] after[i]).name by {
            if i < before.len() {
                assert(after[i] == before[i]);
                let k = choose|k: int|
                    0 <= k < shorter.len() && (#[trigger] shorter[k]).name == before[i].name;
                assert(entries[k].name == after[i].name);
            } else {
                assert(entries[entries.len() - 1].name == after[i].name);
            }
        }
        assert forall|i: int, j: int| 0 <= i < j < after.len() implies (#[trigger] after[i]).name
            != (#[trigger] after[j]).name by {
            assert(after[i] == before[i]);
            if j < before.len() {
                assert(after[j] == before[j]);
            } else {
                let k = choose|k: int|
                    0 <= k < shorter.len() && (#[trigger] shorter[k]).name == before[i].name;
                assert(entries[k].name != entries[entries.len() - 1].name);
            }
        }
    }
}

/// What is kept of remote servers of which none occurs twice does not occur twice.
proof fn lemma_kept_once(cache: CacheView, archives: Seq<Archive>)
    requires
        archives.no_duplicates(),
    ensures
        cache.kept(archives).no_duplicates(),
        forall|i: int|
            0 <= i < cache.kept(archives).len() ==> archives.contains(
                #[trigger] cache.kept(archives)[i],
            ) && cache.keeps(cache.kept(archives)[i].name),
    decreases archives.len(),
{
    if archives.len() > 0 {
        let shorter = archives.drop_last();
        lemma_kept_once(cache, shorter);
        let before = cache.kept(shorter);
        let after = cache.kept(archives);
        assert forall|i: int| 0 <= i < after.len() implies archives.contains(#[trigger] after[i])
            && cache.keeps(after[i].name) && (i < before.len() ==> after[i] != archives.last()) by {
            if i < before.len() {
                assert(shorter.contains(before[i]));
                let k = choose|k: int| 0 <= k < shorter.len() && shorter[k] == before[i];
                assert(archives[k] == after[i]);
            } else {
                assert(archives[archives.len() - 1] == after[i]);
            }
        }
    }
}

/// Among files with different names, as those in a directory have, no more than one remote server
/// remains beyond the limit.
pub proof fn law_at_most_one_more_remains(
    cache: CacheView,
    entries: Seq<CacheEntryView>,
    limit: nat,
)
    requires
        limit > 0,
        forall|i: int, j: int|
            0 <= i < j < entries.len() ==> (#[trigger] entries[i]).name != (
            #[trigger] entries[j]).name,
    ensures
        cache.remaining(entries, limit).len() <= limit + 1,
{
    broadcast use group_to_multiset_ensures;

    let archives = cache.archives(entries);
    let ranked = cache.ranked(entries);
    law_newer_ones_come_first(cache, entries);
    law_limit_is_kept(cache, entries, limit);
    lemma_archives_have_different_names(cache, entries);
    if ranked.len() > limit {
        let back = ranked.skip(limit as int);
        let kept = cache.kept(back);
        archives.lemma_multiset_has_no_duplicates();
        ranked.lemma_multiset_has_no_duplicates_conv();
        assert(back.no_duplicates());
        lemma_kept_once(cache, back);
        if kept.len() > 1 {
            let first = kept[0];
            let second = kept[1];
            assert(back.contains(first) && back.contains(second));
            assert(ranked.contains(first) && ranked.contains(second));
            assert(archives.to_multiset().count(first) > 0);
            assert(archives.to_multiset().count(second) > 0);
            assert(archives.contains(first) && archives.contains(second));
            assert(first != second);
        }
    }
}

/// Whether a name ends with `.gz`, with something in front of it.
pub open spec fn ends_with_gz(name: Seq<u8>) -> bool {
    name.len() > 3 && name.skip(name.len() - 3) == seq![46u8, 103u8, 122u8]
}

/// The remote servers are the files whose names end with `.gz`, with something in front of it.
pub proof fn law_archives_end_with_gz(name: Seq<u8>)
    ensures
        is_archive(name) == ends_with_gz(name),
{
    reveal_strlit(".gz");
    reveal_with_fuel(encode_utf8, 4);
    let suffix = ".gz"@;
    assert(suffix.drop_first() =~= seq!['g', 'z']);
    assert(suffix.drop_first().drop_first() =~= seq!['z']);
    assert(suffix.drop_first().drop_first().drop_first() =~= seq![]);
    assert((46u32 & 0x7F) as u8 == 46u8) by (bit_vector);
    assert((103u32 & 0x7F) as u8 == 103u8) by (bit_vector);
    assert((122u32 & 0x7F) as u8 == 122u8) by (bit_vector);
    assert(encode_utf8(suffix) =~= seq![46u8, 103u8, 122u8]);
    if name.len() > 3 {
        assert(name.skip(name.len() - 3) =~= name.subrange(name.len() - 3, name.len() as int));
    }
}

/// Whether the files in a directory all have different names.
pub open spec fn different_names(entries: Seq<CacheEntryView>) -> bool {
    forall|i: int, j: int|
        0 <= i < j < entries.len() ==> (#[trigger] entries[i]).name != (#[trigger] entries[j]).name
}

/// Every remote server is one of the files.
proof fn lemma_archive_has_entry(cache: CacheView, entries: Seq<CacheEntryView>, archive: Archive)
    ensures
        cache.archives(entries).contains(archive) <==> exists|k: int|
            0 <= k < entries.len() && is_archive((#[trigger] entries[k]).name) && cache.archive(
                entries[k],
            ) == archive,
    decreases entries.len(),
{
    if entries.len() > 0 {
        let shorter = entries.drop_last();
        let before = cache.archives(shorter);
        let after = cache.archives(entries);
        let last = entries.len() - 1;
        lemma_archive_has_entry(cache, shorter, archive);
        if after.contains(archive) {
            let i = choose|i: int| 0 <= i < after.len() && after[i] == archive;
            if i < before.len() {
                assert(before[i] == archive);
                assert(before.contains(archive));
                let k = choose|k: int|
                    0 <= k < shorter.len() && is_archive((#[trigger] shorter[k]).name)
                        && cache.archive(shorter[k]) == archive;
                assert(entries[k] == shorter[k]);
            } else {
                assert(is_archive(entries[last].name));
            }
        }
        if exists|k: int|
            0 <= k < entries.len() && is_archive((#[trigger] entries[k]).name) && cache.archive(
                entries[k],
            ) == archive {
            let k = choose|k: int|
                0 <= k < entries.len() && is_archive((#[trigger] entries[k]).name)
                    && cache.archive(entries[k]) == archive;
            if k < last {
                assert(shorter[k] == entries[k]);
                let i = choose|i: int| 0 <= i < before.len() && before[i] == archive;
                assert(after[i] == archive);
            } else {
                assert(after[after.len() - 1] == archive);
            }
        }
    } else {
        assert(cache.archives(entries) =~= seq![]);
    }
}

/// A name is among those that may be removed if and only if it is that of a remote server that
/// need not be kept.
proof fn lemma_removable_contains(cache: CacheView, archives: Seq<Archive>, name: Seq<u8>)
    ensures
        cache.removable(archives).contains(name) <==> !cache.keeps(name) && exists|i: int|
            0 <= i < archives.len() && (#[trigger] archives[i]).name == name,
    decreases archives.len(),
{
    let removable = cache.removable(archives);
    if archives.len() > 0 {
        let shorter = archives.drop_last();
        let before = cache.removable(shorter);
        lemma_removable_contains(cache, shorter, name);
        if removable.contains(name) {
            let i = choose|i: int| 0 <= i < removable.len() && removable[i] == name;
            if i < before.len() {
                assert(before[i] == name);
                assert(before.contains(name));
                let k = choose|k: int|
                    0 <= k < shorter.len() && (#[trigger] shorter[k]).name == name;
                assert(archives[k].name == name);
            } else {
                assert(archives[archives.len() - 1].name == name);
            }
        }
        if !cache.keeps(name) && exists|i: int|
            0 <= i < archives.len() && (#[trigger] archives[i]).name == name {
            let k = choose|k: int| 0 <= k < archives.len() && (#[trigger] archives[k]).name == name;
            if k < shorter.len() {
                assert(shorter[k].name == name);
                let i = choose|i: int| 0 <= i < before.len() && before[i] == name;
                assert(removable[i] == name);
            } else {
                assert(removable[removable.len() - 1] == name);
            }
        }
    } else {
        assert(removable =~= seq![]);
    }
}

/// What is removed and what remains are in the order in which remote servers are kept.
proof fn lemma_remaining_comes_first(
    cache: CacheView,
    entries: Seq<CacheEntryView>,
    limit: nat,
    removed: int,
    other: int,
)
    requires
        different_names(entries),
        0 <= removed < entries.len(),
        0 <= other < entries.len(),
        cache.removed(entries, limit).contains(entries[removed].name),
        !cache.removed(entries, limit).contains(entries[other].name),
        is_archive(entries[other].name),
        !cache.keeps(entries[other].name),
    ensures
        is_archive(entries[removed].name),
        !cache.keeps(entries[removed].name),
        newer_first(cache.archive(entries[other]), cache.archive(entries[removed])),
{
    broadcast use group_to_multiset_ensures;

    let ranked = cache.ranked(entries);
    let archives = cache.archives(entries);
    law_newer_ones_come_first(cache, entries);
    let back = ranked.skip(limit as int);
    lemma_removable_contains(cache, back, entries[removed].name);
    lemma_removable_contains(cache, back, entries[other].name);
    let i = choose|i: int|
        0 <= i < back.len() && (#[trigger] back[i]).name == entries[removed].name;
    let rank = limit + i;
    assert(ranked[rank] == back[i]);
    assert(ranked.contains(ranked[rank]));
    assert(archives.to_multiset().count(ranked[rank]) > 0);
    lemma_archive_has_entry(cache, entries, ranked[rank]);
    let k = choose|k: int|
        0 <= k < entries.len() && is_archive((#[trigger] entries[k]).name) && cache.archive(
            entries[k],
        ) == ranked[rank];
    assert(entries[k].name == entries[removed].name);
    assert(k == removed) by {
        if k < removed {
            assert(entries[k].name != entries[removed].name);
        } else if removed < k {
            assert(entries[removed].name != entries[k].name);
        }
    }
    let kept = cache.archive(entries[other]);
    lemma_archive_has_entry(cache, entries, kept);
    assert(archives.contains(kept));
    assert(ranked.to_multiset().count(kept) > 0);
    assert(ranked.contains(kept));
    let other_rank = choose|r: int| 0 <= r < ranked.len() && ranked[r] == kept;
    if other_rank >= limit {
        assert(back[other_rank - limit].name == entries[other].name);
    }
    assert(newer_first(ranked[other_rank], ranked[rank]));
}

/// No remote server is removed that was modified later than one that remains. Of two that were
/// modified at the same time the one remains whose name comes first.
pub proof fn law_newer_one_is_not_removed(
    cache: CacheView,
    entries: Seq<CacheEntryView>,
    limit: nat,
    removed: int,
    other: int,
)
    requires
        different_names(entries),
        0 <= removed < entries.len(),
        0 <= other < entries.len(),
        cache.removed(entries, limit).contains(entries[removed].name),
        !cache.removed(entries, limit).contains(entries[other].name),
        ends_with_gz(entries[other].name),
        cache.keep_name != Some(entries[other].name),
    ensures
        entries[removed].modified is Some && entries[other].modified is Some
            ==> entries[removed].modified->0 <= entries[other].modified->0,
        entries[removed].modified is Some && entries[other].modified is None
            ==> entries[removed].modified->0 <= 0,
        entries[removed].modified is None && entries[other].modified is Some
            ==> entries[other].modified->0 >= 0,
        entries[removed].modified == entries[other].modified ==> bytes_less(
            entries[other].name,
            entries[removed].name,
        ),
{
    law_archives_end_with_gz(entries[other].name);
    lemma_remaining_comes_first(cache, entries, limit, removed, other);
}

/// Whatever is removed is one of the files, is a remote server, and is not the one that must not
/// be removed.
pub proof fn law_only_archives_are_removed(
    cache: CacheView,
    entries: Seq<CacheEntryView>,
    limit: nat,
    name: Seq<u8>,
)
    requires
        cache.removed(entries, limit).contains(name),
    ensures
        ends_with_gz(name),
        cache.keep_name != Some(name),
        exists|k: int| 0 <= k < entries.len() && (#[trigger] entries[k]).name == name,
{
    broadcast use group_to_multiset_ensures;

    let ranked = cache.ranked(entries);
    law_newer_ones_come_first(cache, entries);
    let back = ranked.skip(limit as int);
    lemma_removable_contains(cache, back, name);
    let i = choose|i: int| 0 <= i < back.len() && (#[trigger] back[i]).name == name;
    let archive = back[i];
    assert(ranked[limit + i] == archive);
    assert(ranked.contains(archive));
    assert(cache.archives(entries).to_multiset().count(archive) > 0);
    lemma_archive_has_entry(cache, entries, archive);
    let k = choose|k: int|
        0 <= k < entries.len() && is_archive((#[trigger] entries[k]).name) && cache.archive(
            entries[k],
        ) == archive;
    law_archives_end_with_gz(entries[k].name);
    assert(entries[k].name == name);
}

/// There are as many remote servers as files whose names end with `.gz`.
proof fn lemma_archives_are_counted(cache: CacheView, entries: Seq<CacheEntryView>)
    ensures
        cache.archives(entries).len() == entries.filter(
            |entry: CacheEntryView| ends_with_gz(entry.name),
        ).len(),
    decreases entries.len(),
{
    reveal(Seq::filter);
    if entries.len() > 0 {
        lemma_archives_are_counted(cache, entries.drop_last());
        law_archives_end_with_gz(entries.last().name);
    }
}

/// Of the files whose names end with `.gz` as many remain as the limit says, or one more, which is
/// the one that must not be removed; all of them where there are no more. Without a limit all
/// remain.
pub proof fn law_as_many_remain_as_the_limit_says(
    cache: CacheView,
    entries: Seq<CacheEntryView>,
    limit: nat,
)
    requires
        different_names(entries),
    ensures
        ({
            let all = entries.filter(|entry: CacheEntryView| ends_with_gz(entry.name)).len();
            let removed = cache.removed(entries, limit).len();
            &&& limit == 0 || all <= limit ==> removed == 0
            &&& limit > 0 && all > limit ==> all - removed == limit || all - removed == limit + 1
            &&& limit > 0 && all > limit && cache.keep_name is None ==> all - removed == limit
        }),
{
    lemma_archives_are_counted(cache, entries);
    if limit > 0 {
        law_limit_is_kept(cache, entries, limit);
        law_at_most_one_more_remains(cache, entries, limit);
        if cache.keep_name is None {
            lemma_nothing_kept(cache, cache.ranked(entries).skip(limit as int));
        }
    }
}

/// Where no file must be kept, none is.
proof fn lemma_nothing_kept(cache: CacheView, archives: Seq<Archive>)
    requires
        cache.keep_name is None,
    ensures
        cache.kept(archives).len() == 0,
    decreases archives.len(),
{
    if archives.len() > 0 {
        lemma_nothing_kept(cache, archives.drop_last());
    }
}

/// The remote servers of some files are the same if those of each file are.
proof fn lemma_archives_agree(
    left: CacheView,
    right: CacheView,
    left_entries: Seq<CacheEntryView>,
    right_entries: Seq<CacheEntryView>,
)
    requires
        left_entries.len() == right_entries.len(),
        forall|i: int|
            0 <= i < left_entries.len() ==> left.archive(#[trigger] left_entries[i])
                == right.archive(right_entries[i]),
    ensures
        left.archives(left_entries) == right.archives(right_entries),
    decreases left_entries.len(),
{
    if left_entries.len() > 0 {
        let last = left_entries.len() - 1;
        assert(left.archive(left_entries[last]) == right.archive(right_entries[last]));
        assert(left_entries[last].name == left.archive(left_entries[last]).name);
        assert(right_entries[last].name == right.archive(right_entries[last]).name);
        assert forall|i: int| 0 <= i < left_entries.drop_last().len() implies left.archive(
            #[trigger] left_entries.drop_last()[i],
        ) == right.archive(right_entries.drop_last()[i]) by {
            assert(left_entries.drop_last()[i] == left_entries[i]);
            assert(right_entries.drop_last()[i] == right_entries[i]);
        }
        lemma_archives_agree(left, right, left_entries.drop_last(), right_entries.drop_last());
    }
}

/// A file whose time is not known counts as one that was modified at the beginning of 1970.
pub proof fn law_unknown_time_counts_as_the_beginning(
    cache: CacheView,
    entries: Seq<CacheEntryView>,
    limit: nat,
    index: int,
)
    requires
        0 <= index < entries.len(),
        entries[index].modified is None,
    ensures
        cache.removed(entries, limit) == cache.removed(
            entries.update(
                index,
                CacheEntryView { name: entries[index].name, modified: Some(0i128) },
            ),
            limit,
        ),
{
    let known = entries.update(
        index,
        CacheEntryView { name: entries[index].name, modified: Some(0i128) },
    );
    lemma_archives_agree(cache, cache, entries, known);
}

/// The file that must not be removed counts as modified now, whenever it was: the others are
/// removed as if it had been, and could be removed.
pub proof fn law_kept_one_counts_as_new(
    cache: CacheView,
    entries: Seq<CacheEntryView>,
    limit: nat,
    index: int,
    now: i128,
    name: Seq<u8>,
)
    requires
        0 <= index < entries.len(),
        cache.keep_name == Some(entries[index].name),
        different_names(entries),
        cache.now == now,
        name != entries[index].name,
    ensures
        cache.removed(entries, limit).contains(name) == (CacheView {
            keep_name: None,
            ..cache
        }).removed(
            entries.update(
                index,
                CacheEntryView { name: entries[index].name, modified: Some(now) },
            ),
            limit,
        ).contains(name),
{
    let free = CacheView { keep_name: None, ..cache };
    let fresh = entries.update(
        index,
        CacheEntryView { name: entries[index].name, modified: Some(now) },
    );
    assert forall|i: int| 0 <= i < entries.len() implies cache.archive(#[trigger] entries[i])
        == free.archive(fresh[i]) by {
        if i < index {
            assert(entries[i].name != entries[index].name);
        } else if index < i {
            assert(entries[index].name != entries[i].name);
        }
    }
    lemma_archives_agree(cache, free, entries, fresh);
    let back = cache.ranked(entries).skip(limit as int);
    lemma_removable_contains(cache, back, name);
    lemma_removable_contains(free, back, name);
}

/// Remote servers are removed in the order in which they are kept, the newest of them first.
pub proof fn law_newer_ones_are_removed_first(
    cache: CacheView,
    entries: Seq<CacheEntryView>,
    limit: nat,
    first: int,
    second: int,
    first_removed: int,
    second_removed: int,
)
    requires
        different_names(entries),
        0 <= first < entries.len(),
        0 <= second < entries.len(),
        0 <= first_removed < second_removed < cache.removed(entries, limit).len(),
        cache.removed(entries, limit)[first_removed] == entries[first].name,
        cache.removed(entries, limit)[second_removed] == entries[second].name,
        entries[first].modified is Some,
        entries[second].modified is Some,
    ensures
        entries[first].modified->0 >= entries[second].modified->0,
{
    broadcast use group_to_multiset_ensures;

    let ranked = cache.ranked(entries);
    let archives = cache.archives(entries);
    let back = ranked.skip(limit as int);
    law_newer_ones_come_first(cache, entries);
    lemma_removed_in_order(cache, back, first_removed, second_removed);
    let (i, j) = choose|i: int, j: int|
        0 <= i < j < back.len() && #[trigger] back[i].name == cache.removable(back)[first_removed]
            && #[trigger] back[j].name == cache.removable(back)[second_removed];
    assert(ranked[limit + i] == back[i]);
    assert(ranked[limit + j] == back[j]);
    assert(newer_first(ranked[limit + i], ranked[limit + j]));
    assert(ranked.contains(back[i]) && ranked.contains(back[j]));
    assert(archives.to_multiset().count(back[i]) > 0);
    assert(archives.to_multiset().count(back[j]) > 0);
    lemma_archive_has_entry(cache, entries, back[i]);
    lemma_archive_has_entry(cache, entries, back[j]);
    let k = choose|k: int|
        0 <= k < entries.len() && is_archive((#[trigger] entries[k]).name) && cache.archive(
            entries[k],
        ) == back[i];
    let l = choose|l: int|
        0 <= l < entries.len() && is_archive((#[trigger] entries[l]).name) && cache.archive(
            entries[l],
        ) == back[j];
    assert(entries[k].name == entries[first].name);
    assert(entries[l].name == entries[second].name);
    assert(k == first) by {
        if k < first {
            assert(entries[k].name != entries[first].name);
        } else if first < k {
            assert(entries[first].name != entries[k].name);
        }
    }
    assert(l == second) by {
        if l < second {
            assert(entries[l].name != entries[second].name);
        } else if second < l {
            assert(entries[second].name != entries[l].name);
        }
    }
    lemma_removable_are_not_kept(cache, back);
    assert(!cache.keeps(cache.removable(back)[first_removed]));
    assert(!cache.keeps(cache.removable(back)[second_removed]));
}

/// What may be removed is in the order of the remote servers that it is taken from.
proof fn lemma_removed_in_order(
    cache: CacheView,
    archives: Seq<Archive>,
    first: int,
    second: int,
)
    requires
        0 <= first < second < cache.removable(archives).len(),
    ensures
        exists|i: int, j: int|
            0 <= i < j < archives.len() && #[trigger] archives[i].name == cache.removable(
                archives,
            )[first] && #[trigger] archives[j].name == cache.removable(archives)[second],
    decreases archives.len(),
{
    let shorter = archives.drop_last();
    let before = cache.removable(shorter);
    let after = cache.removable(archives);
    let last = archives.len() - 1;
    if second < before.len() {
        lemma_removed_in_order(cache, shorter, first, second);
        let (i, j) = choose|i: int, j: int|
            0 <= i < j < shorter.len() && #[trigger] shorter[i].name == before[first]
                && #[trigger] shorter[j].name == before[second];
        assert(archives[i].name == after[first] && archives[j].name == after[second]);
    } else {
        assert(before[first] == after[first]);
        lemma_removable_contains(cache, shorter, before[first]);
        assert(before.contains(before[first]));
        let i = choose|i: int|
            0 <= i < shorter.len() && (#[trigger] shorter[i]).name == before[first];
        assert(archives[i].name == after[first] && archives[last].name == after[second]);
    }
}

/// A name comes before another if and only if it is the beginning of it, or has a lower byte where
/// they first differ.
pub proof fn law_first_byte_that_differs_decides(left: Seq<u8>, right: Seq<u8>, same: int)
    requires
        0 <= same <= left.len(),
        same <= right.len(),
        left.take(same) == right.take(same),
        same < left.len() && same < right.len() ==> left[same] != right[same],
    ensures
        bytes_less(left, right) <==> same < right.len() && (same == left.len() || left[same]
            < right[same]),
    decreases same,
{
    if same > 0 {
        assert(left[0] == left.take(same)[0]);
        assert(right[0] == right.take(same)[0]);
        assert(left.skip(1).take(same - 1) =~= left.take(same).skip(1));
        assert(right.skip(1).take(same - 1) =~= right.take(same).skip(1));
        law_first_byte_that_differs_decides(left.skip(1), right.skip(1), same - 1);
    }
}

/// A cleanup goes by the files as they are, and by the name that it is given.
pub proof fn law_files_count_as_they_are(entry: CacheEntry, name: &[u8])
    ensures
        entry@.name == entry.name@,
        entry@.modified == entry.modified,
        optional_name(Some(name)) == Some(name@),
        optional_name(None) is None,
{
}

} // verus!
