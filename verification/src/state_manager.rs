//! The single-flight media cache: at most one fetch under way per media key,
//! and two long-lived buckets for what was fetched.

use crate::errors::MediaError;
use crate::media_pipeline::Raster;
use crate::model::SlideKind;
use crate::text::{same_text, starts_with, starts_with_text};
use vstd::hash_map::StringHashMap;
use vstd::prelude::*;

verus! {

/// The state of one fetch.
#[derive(Debug)]
pub enum CacheEntry {
    /// The fetch is under way; the field is the number that `request` gave
    /// it, which its result must name.
    Pending(u64),
    /// The fetch brought this picture.
    Ready(Raster),
    /// The fetch failed.
    Failed(MediaError),
}

/// Whether a media key has the shape of a web address.
pub open spec fn website_key(key: Seq<char>) -> bool {
    starts_with_text(key, "http://"@) || starts_with_text(key, "https://"@)
}

/// True exactly when the key begins with `http://` or `https://`.
pub fn is_website_key(key: &str) -> (r: bool)
    ensures
        r == website_key(key@),
{
    starts_with(key, "http://") || starts_with(key, "https://")
}

/// The fetches that are still under way among `pending`.
pub open spec fn still_pending(pending: Map<Seq<char>, CacheEntry>) -> Map<Seq<char>, CacheEntry> {
    Map::new(
        |key: Seq<char>| pending.contains_key(key) && pending[key] is Pending,
        |key: Seq<char>| pending[key],
    )
}

/// Whether polling moves the entry of `key` into the website bucket
/// (`website`) or the image bucket (`!website`).
pub open spec fn promoted(pending: Map<Seq<char>, CacheEntry>, key: Seq<char>, website: bool) -> bool {
    pending.contains_key(key) && pending[key] is Ready && website_key(key) == website
}

/// A bucket after polling: what it held, and over it the pictures of the
/// fetches that succeeded and belong to it.
pub open spec fn bucket_after_poll(
    bucket: Map<Seq<char>, Raster>,
    pending: Map<Seq<char>, CacheEntry>,
    website: bool,
) -> Map<Seq<char>, Raster> {
    Map::new(
        |key: Seq<char>| bucket.contains_key(key) || promoted(pending, key, website),
        |key: Seq<char>|
            if promoted(pending, key, website) {
                match pending[key] {
                    CacheEntry::Ready(picture) => picture,
                    _ => bucket[key],
                }
            } else {
                bucket[key]
            },
    )
}

/// The cache as plain values.
pub struct CacheState {
    /// The image bucket: pictures of image slides, by attachment name.
    pub images: Map<Seq<char>, Raster>,
    /// The website bucket: screenshots of website slides, by address.
    pub websites: Map<Seq<char>, Raster>,
    /// The fetches that were started and not yet polled away, by media key.
    pub pending: Map<Seq<char>, CacheEntry>,
    /// The number that the next fetch will get.
    pub next_fetch: u64,
}

impl CacheState {
    /// The cache that holds nothing.
    pub open spec fn empty() -> CacheState {
        CacheState {
            images: Map::empty(),
            websites: Map::empty(),
            pending: Map::empty(),
            next_fetch: 0,
        }
    }

    /// Whether a request starts a fetch for `key`: only for an image or a
    /// website, and only while the key has no entry at all, neither a fetch
    /// under way or ended, nor a picture in the bucket of its kind.
    pub open spec fn wants_fetch(self, key: Seq<char>, kind: SlideKind) -> bool {
        &&& !self.pending.contains_key(key)
        &&& match kind {
            SlideKind::Image => !self.images.contains_key(key),
            SlideKind::Website => !self.websites.contains_key(key),
            _ => false,
        }
    }

    /// The number after `n`, the first after the last.
    pub open spec fn number_after(n: u64) -> u64 {
        if n < u64::MAX {
            (n + 1) as u64
        } else {
            0
        }
    }

    /// The cache after a request for `key`: where a fetch is wanted, the
    /// key gets a placeholder that holds the fetch's number.
    pub open spec fn requested(self, key: Seq<char>, kind: SlideKind) -> CacheState {
        if self.wants_fetch(key, kind) {
            CacheState {
                pending: self.pending.insert(key, CacheEntry::Pending(self.next_fetch)),
                next_fetch: Self::number_after(self.next_fetch),
                ..self
            }
        } else {
            self
        }
    }

    /// Whether the placeholder of fetch number `fetch` stands for `key`.
    pub open spec fn awaits(self, key: Seq<char>, fetch: u64) -> bool {
        self.pending.contains_key(key) && self.pending[key] == CacheEntry::Pending(fetch)
    }

    /// The cache after fetch number `fetch` of `key` ended with `entry`:
    /// the entry replaces the placeholder of that fetch; where that
    /// placeholder no longer stands, nothing changes.
    pub open spec fn resolved(self, key: Seq<char>, fetch: u64, entry: CacheEntry) -> CacheState {
        if self.awaits(key, fetch) {
            CacheState { pending: self.pending.insert(key, entry), ..self }
        } else {
            self
        }
    }

    /// The cache after the ended fetches were drained.
    pub open spec fn polled(self) -> CacheState {
        CacheState {
            images: bucket_after_poll(self.images, self.pending, false),
            websites: bucket_after_poll(self.websites, self.pending, true),
            pending: still_pending(self.pending),
            ..self
        }
    }

    /// The cache after every fetch was forgotten.
    pub open spec fn pending_cleared(self) -> CacheState {
        CacheState { pending: Map::empty(), ..self }
    }

    /// The cache after both buckets were emptied.
    pub open spec fn caches_cleared(self) -> CacheState {
        CacheState { images: Map::empty(), websites: Map::empty(), ..self }
    }
}

/// One operation on the cache.
pub enum CacheOp {
    /// A request for the media of `key`.
    Request { key: Seq<char>, kind: SlideKind },
    /// The end of fetch number `fetch` of `key`.
    Resolve { key: Seq<char>, fetch: u64, entry: CacheEntry },
    /// A poll.
    Poll,
    /// Forgetting every fetch.
    ClearPending,
    /// Emptying both buckets.
    ClearCaches,
}

impl CacheOp {
    /// The cache after the operation.
    pub open spec fn apply(self, state: CacheState) -> CacheState {
        match self {
            CacheOp::Request { key, kind } => state.requested(key, kind),
            CacheOp::Resolve { key, fetch, entry } => state.resolved(key, fetch, entry),
            CacheOp::Poll => state.polled(),
            CacheOp::ClearPending => state.pending_cleared(),
            CacheOp::ClearCaches => state.caches_cleared(),
        }
    }

    /// Whether the operation, applied to `state`, starts a fetch for `key`.
    pub open spec fn starts_fetch(self, state: CacheState, key: Seq<char>) -> bool {
        match self {
            CacheOp::Request { key: asked, kind } => asked == key && state.wants_fetch(key, kind),
            _ => false,
        }
    }

    /// Whether the operation leaves a fetch of `key` that is under way
    /// alone: it neither ends that fetch nor forgets the fetches.
    pub open spec fn keeps_in_flight(self, key: Seq<char>) -> bool {
        match self {
            CacheOp::Resolve { key: ended, fetch, entry } => ended != key,
            CacheOp::ClearPending => false,
            _ => true,
        }
    }
}

/// How many fetches for `key` the operations start, applied in order from
/// `state`.
pub open spec fn fetches_started(state: CacheState, ops: Seq<CacheOp>, key: Seq<char>) -> nat
    decreases ops.len(),
{
    if ops.len() == 0 {
        0
    } else {
        let first: nat = if ops[0].starts_fetch(state, key) {
            1
        } else {
            0
        };
        first + fetches_started(ops[0].apply(state), ops.drop_first(), key)
    }
}

/// While the fetch of a key is under way, nothing starts another one.
pub proof fn lemma_no_second_fetch(state: CacheState, ops: Seq<CacheOp>, key: Seq<char>)
    requires
        state.pending.contains_key(key),
        state.pending[key] is Pending,
        forall|i: int| 0 <= i < ops.len() ==> (#[trigger] ops[i]).keeps_in_flight(key),
    ensures
        fetches_started(state, ops, key) == 0,
    decreases ops.len(),
{
    if ops.len() > 0 {
        let next = ops[0].apply(state);
        assert(ops[0].keeps_in_flight(key));
        assert(next.pending.contains_key(key) && next.pending[key] is Pending);
        assert forall|i: int| 0 <= i < ops.drop_first().len() implies (#[trigger] ops.drop_first()[i]).keeps_in_flight(
            key,
        ) by {
            assert(ops.drop_first()[i] == ops[i + 1]);
        }
        lemma_no_second_fetch(next, ops.drop_first(), key);
    }
}

/// Single flight: from a cache in which no fetch of `key` has ended, any
/// operations that neither end the fetch of `key` nor forget the fetches
/// start at most one fetch for it, however often it is requested; and
/// exactly one where the first of them is a request that finds no entry.
pub proof fn lemma_single_flight(state: CacheState, ops: Seq<CacheOp>, key: Seq<char>)
    requires
        state.pending.contains_key(key) ==> state.pending[key] is Pending,
        forall|i: int| 0 <= i < ops.len() ==> (#[trigger] ops[i]).keeps_in_flight(key),
    ensures
        fetches_started(state, ops, key) <= 1,
        ops.len() > 0 && ops[0].starts_fetch(state, key) ==> fetches_started(state, ops, key) == 1,
    decreases ops.len(),
{
    if ops.len() > 0 {
        let next = ops[0].apply(state);
        let rest = ops.drop_first();
        assert(ops[0].keeps_in_flight(key));
        assert forall|i: int| 0 <= i < rest.len() implies (#[trigger] rest[i]).keeps_in_flight(
            key,
        ) by {
            assert(rest[i] == ops[i + 1]);
        }
        if ops[0].starts_fetch(state, key) {
            lemma_no_second_fetch(next, rest, key);
        } else {
            assert(next.pending.contains_key(key) ==> next.pending[key] is Pending);
            lemma_single_flight(next, rest, key);
        }
    }
}

/// A fetch that failed leaves no trace: polling removes its entry and
/// writes nothing under its key into either bucket, and a request for the
/// key then starts a new fetch unless the bucket of its kind held the key
/// all along.
pub proof fn lemma_failed_fetch_is_retried(state: CacheState, key: Seq<char>, kind: SlideKind)
    requires
        state.pending.contains_key(key),
        state.pending[key] is Failed,
    ensures
        !state.polled().pending.contains_key(key),
        state.polled().images.contains_key(key) == state.images.contains_key(key),
        state.polled().websites.contains_key(key) == state.websites.contains_key(key),
        state.images.contains_key(key) ==> state.polled().images[key] == state.images[key],
        state.websites.contains_key(key) ==> state.polled().websites[key] == state.websites[key],
        kind == SlideKind::Image && !state.images.contains_key(key) ==> state.polled().wants_fetch(
            key,
            kind,
        ),
        kind == SlideKind::Website && !state.websites.contains_key(key)
            ==> state.polled().wants_fetch(key, kind),
{
}

/// A result that comes late is dropped. After a fetch of `key` was started
/// and the fetches were then forgotten, its result changes nothing: neither
/// while the key has no entry, nor after the key was asked for anew, whose
/// fetch has another number. A poll then moves nothing of it into a bucket.
pub proof fn lemma_late_result_is_dropped(
    state: CacheState,
    key: Seq<char>,
    kind: SlideKind,
    later_kind: SlideKind,
    entry: CacheEntry,
)
    requires
        state.wants_fetch(key, kind),
    ensures
        ({
            let fetch = state.next_fetch;
            let forgotten = state.requested(key, kind).caches_cleared().pending_cleared();
            let asked_anew = forgotten.requested(key, later_kind);
            &&& forgotten.resolved(key, fetch, entry) == forgotten
            &&& asked_anew.resolved(key, fetch, entry) == asked_anew
            &&& !forgotten.resolved(key, fetch, entry).polled().images.contains_key(key)
            &&& !forgotten.resolved(key, fetch, entry).polled().websites.contains_key(key)
            &&& !asked_anew.resolved(key, fetch, entry).polled().images.contains_key(key)
            &&& !asked_anew.resolved(key, fetch, entry).polled().websites.contains_key(key)
        }),
{
}

/// The cache after the operations, applied in order.
pub open spec fn apply_all(state: CacheState, ops: Seq<CacheOp>) -> CacheState
    decreases ops.len(),
{
    if ops.len() == 0 {
        state
    } else {
        apply_all(ops[0].apply(state), ops.drop_first())
    }
}

/// How many fetches the operations start, for whatever key, applied in
/// order from `state`.
pub open spec fn starts_total(state: CacheState, ops: Seq<CacheOp>) -> nat
    decreases ops.len(),
{
    if ops.len() == 0 {
        0
    } else {
        let first: nat = match ops[0] {
            CacheOp::Request { key, kind } => if state.wants_fetch(key, kind) {
                1
            } else {
                0
            },
            _ => 0,
        };
        first + starts_total(ops[0].apply(state), ops.drop_first())
    }
}

/// Whether the operation hands a result over, as `resolve` does: never a
/// placeholder.
pub open spec fn hands_a_result(op: CacheOp) -> bool {
    match op {
        CacheOp::Resolve { key, fetch, entry } => !(entry is Pending),
        _ => true,
    }
}

/// How many numbers there are before they repeat.
pub open spec fn numbers() -> int {
    0x1_0000_0000_0000_0000
}

/// Whether every placeholder of the cache holds one of the `count` numbers
/// that follow `fetch`, and the next number is the one after those.
pub open spec fn numbered_since(state: CacheState, fetch: u64, count: nat) -> bool {
    &&& state.next_fetch == (fetch + 1 + count) % numbers()
    &&& forall|key: Seq<char>| #[trigger]
        state.pending.contains_key(key) ==> match state.pending[key] {
            CacheEntry::Pending(number) => exists|j: int|
                1 <= j <= count && number == #[trigger] ((fetch + j) % numbers()),
            _ => true,
        }
}

proof fn lemma_number_differs(fetch: u64, j: int)
    requires
        1 <= j < numbers(),
    ensures
        (fetch + j) % numbers() != fetch,
{
    if fetch + j < numbers() {
        vstd::arithmetic::div_mod::lemma_small_mod((fetch + j) as nat, numbers() as nat);
    } else {
        vstd::arithmetic::div_mod::lemma_fundamental_div_mod_converse(
            fetch + j,
            numbers(),
            1,
            fetch + j - numbers(),
        );
    }
}

proof fn lemma_number_after(fetch: u64, count: nat)
    ensures
        CacheState::number_after(((fetch + 1 + count) % numbers()) as u64) == (fetch + 1 + count + 1)
            % numbers(),
{
    let n = fetch + 1 + count;
    let q = n / numbers();
    let r = n % numbers();
    vstd::arithmetic::div_mod::lemma_fundamental_div_mod(n, numbers());
    vstd::arithmetic::div_mod::lemma_mod_bound(n, numbers());
    if r < numbers() - 1 {
        assert(n + 1 == numbers() * q + (r + 1));
        assert(numbers() * q == q * numbers()) by (nonlinear_arith);
        vstd::arithmetic::div_mod::lemma_fundamental_div_mod_converse(n + 1, numbers(), q, r + 1);
    } else {
        assert(n + 1 == numbers() * q + numbers());
        assert(numbers() * q + numbers() == (q + 1) * numbers() + 0) by (nonlinear_arith);
        vstd::arithmetic::div_mod::lemma_fundamental_div_mod_converse(n + 1, numbers(), q + 1, 0);
    }
}

proof fn lemma_numbers_stay_since(state: CacheState, ops: Seq<CacheOp>, fetch: u64, count: nat)
    requires
        numbered_since(state, fetch, count),
        forall|i: int| 0 <= i < ops.len() ==> hands_a_result(#[trigger] ops[i]),
    ensures
        numbered_since(apply_all(state, ops), fetch, count + starts_total(state, ops)),
    decreases ops.len(),
{
    if ops.len() > 0 {
        let next = ops[0].apply(state);
        let rest = ops.drop_first();
        assert(hands_a_result(ops[0]));
        assert forall|i: int| 0 <= i < rest.len() implies hands_a_result(#[trigger] rest[i]) by {
            assert(rest[i] == ops[i + 1]);
        }
        let started: nat = match ops[0] {
            CacheOp::Request { key, kind } => if state.wants_fetch(key, kind) {
                1
            } else {
                0
            },
            _ => 0,
        };
        assert(numbered_since(next, fetch, count + started)) by {
            if started == 1 {
                lemma_number_after(fetch, count);
                assert(state.next_fetch == (fetch + (count + 1)) % numbers());
            }
            assert forall|key: Seq<char>| #[trigger] next.pending.contains_key(key) implies match next.pending[key] {
                CacheEntry::Pending(number) => exists|j: int|
                    1 <= j <= count + started && number == #[trigger] ((fetch + j) % numbers()),
                _ => true,
            } by {
                match next.pending[key] {
                    CacheEntry::Pending(number) => {
                        if state.pending.contains_key(key) && state.pending[key] == next.pending[key] {
                            let j = choose|j: int|
                                1 <= j <= count && number == #[trigger] ((fetch + j) % numbers());
                            assert(1 <= j <= count + started && number == (fetch + j) % numbers());
                        } else {
                            assert(started == 1);
                            assert(number == (fetch + (count + 1)) % numbers());
                        }
                    },
                    _ => {},
                }
            }
        }
        lemma_numbers_stay_since(next, rest, fetch, count + started);
    }
}

/// A fetch that was forgotten stays forgotten. From a cache whose fetches
/// were all forgotten after `fetch` and `handed` later numbers had been
/// handed out, whatever is requested, handed over, polled or cleared
/// since, no placeholder holds the number `fetch` again, as long as fewer
/// numbers were handed out than there are; so the late result of `fetch`
/// changes nothing, whatever key it names.
pub proof fn lemma_forgotten_fetch_stays_dropped(
    state: CacheState,
    ops: Seq<CacheOp>,
    fetch: u64,
    handed: nat,
    key: Seq<char>,
    entry: CacheEntry,
)
    requires
        state.pending == Map::<Seq<char>, CacheEntry>::empty(),
        state.next_fetch == (fetch + 1 + handed) % numbers(),
        forall|i: int| 0 <= i < ops.len() ==> hands_a_result(#[trigger] ops[i]),
        handed + starts_total(state, ops) < numbers() - 1,
    ensures
        !apply_all(state, ops).awaits(key, fetch),
        apply_all(state, ops).resolved(key, fetch, entry) == apply_all(state, ops),
{
    assert(numbered_since(state, fetch, handed));
    lemma_numbers_stay_since(state, ops, fetch, handed);
    let last = apply_all(state, ops);
    let count = handed + starts_total(state, ops);
    if last.awaits(key, fetch) {
        assert(last.pending.contains_key(key));
        let j = choose|j: int| 1 <= j <= count && fetch == #[trigger] ((fetch + j) % numbers());
        lemma_number_differs(fetch, j);
    }
}

/// A result changes the cache only where the placeholder of its own fetch
/// stands: never a key without entry, never an entry that has ended, never
/// the placeholder of another fetch.
pub proof fn lemma_result_needs_its_placeholder(
    state: CacheState,
    key: Seq<char>,
    fetch: u64,
    entry: CacheEntry,
)
    ensures
        !state.awaits(key, fetch) ==> state.resolved(key, fetch, entry) == state,
        state.awaits(key, fetch) ==> state.resolved(key, fetch, entry).pending
            == state.pending.insert(key, entry),
        state.resolved(key, fetch, entry).images == state.images,
        state.resolved(key, fetch, entry).websites == state.websites,
        state.resolved(key, fetch, entry).pending.dom() == state.pending.dom(),
{
    if state.awaits(key, fetch) {
        assert(state.pending.insert(key, entry).dom() =~= state.pending.dom());
    }
}

struct Slot {
    key: String,
    entry: CacheEntry,
}

spec fn keys_distinct(slots: Seq<Slot>) -> bool {
    forall|i: int, j: int| 0 <= i < j < slots.len() ==> slots[i].key@ != slots[j].key@
}

spec fn has_key(slots: Seq<Slot>, key: Seq<char>) -> bool {
    exists|i: int| 0 <= i < slots.len() && #[trigger] slots[i].key@ == key
}

spec fn slot_index(slots: Seq<Slot>, key: Seq<char>) -> int {
    choose|i: int| 0 <= i < slots.len() && #[trigger] slots[i].key@ == key
}

spec fn slots_map(slots: Seq<Slot>) -> Map<Seq<char>, CacheEntry> {
    Map::new(
        |key: Seq<char>| has_key(slots, key),
        |key: Seq<char>| slots[slot_index(slots, key)].entry,
    )
}

proof fn lemma_slot_at(slots: Seq<Slot>, i: int)
    requires
        keys_distinct(slots),
        0 <= i < slots.len(),
    ensures
        has_key(slots, slots[i].key@),
        slot_index(slots, slots[i].key@) == i,
        slots_map(slots)[slots[i].key@] == slots[i].entry,
{
    assert(slots[i].key@ == slots[i].key@);
    let j = slot_index(slots, slots[i].key@);
    assert(0 <= j < slots.len() && slots[j].key@ == slots[i].key@);
}

proof fn lemma_slots_push(slots: Seq<Slot>, slot: Slot)
    requires
        keys_distinct(slots),
        !has_key(slots, slot.key@),
    ensures
        keys_distinct(slots.push(slot)),
        slots_map(slots.push(slot)) =~= slots_map(slots).insert(slot.key@, slot.entry),
{
    let after = slots.push(slot);
    assert(keys_distinct(after)) by {
        assert forall|i: int, j: int| 0 <= i < j < after.len() implies after[i].key@
            != after[j].key@ by {
            if j == slots.len() {
                assert(slots[i].key@ == after[i].key@);
            }
        }
    }
    assert forall|key: Seq<char>| has_key(after, key) <==> (has_key(slots, key) || key
        == slot.key@) by {
        if has_key(after, key) {
            let i = slot_index(after, key);
            if i < slots.len() {
                assert(slots[i].key@ == key);
            }
        }
        if has_key(slots, key) {
            let i = slot_index(slots, key);
            assert(after[i].key@ == key);
        }
        if key == slot.key@ {
            assert(after[slots.len() as int].key@ == key);
        }
    }
    assert forall|key: Seq<char>| has_key(after, key) implies slots_map(after)[key] == slots_map(
        slots,
    ).insert(slot.key@, slot.entry)[key] by {
        let i = slot_index(after, key);
        lemma_slot_at(after, i);
        if i < slots.len() {
            lemma_slot_at(slots, i);
        }
    }
}

proof fn lemma_slots_update(slots: Seq<Slot>, i: int, slot: Slot)
    requires
        keys_distinct(slots),
        0 <= i < slots.len(),
        slot.key@ == slots[i].key@,
    ensures
        keys_distinct(slots.update(i, slot)),
        slots_map(slots.update(i, slot)) =~= slots_map(slots).insert(slot.key@, slot.entry),
{
    let after = slots.update(i, slot);
    assert forall|key: Seq<char>| has_key(after, key) <==> has_key(slots, key) by {
        if has_key(after, key) {
            let j = slot_index(after, key);
            assert(slots[j].key@ == key);
        }
        if has_key(slots, key) {
            let j = slot_index(slots, key);
            assert(after[j].key@ == key);
        }
    }
    lemma_slot_at(slots, i);
    assert forall|key: Seq<char>| has_key(after, key) implies slots_map(after)[key] == slots_map(
        slots,
    ).insert(slot.key@, slot.entry)[key] by {
        let j = slot_index(after, key);
        lemma_slot_at(after, j);
        lemma_slot_at(slots, j);
    }
}

proof fn lemma_slots_drop_last(slots: Seq<Slot>)
    requires
        keys_distinct(slots),
        slots.len() > 0,
    ensures
        keys_distinct(slots.drop_last()),
        !has_key(slots.drop_last(), slots.last().key@),
        slots_map(slots) =~= slots_map(slots.drop_last()).insert(
            slots.last().key@,
            slots.last().entry,
        ),
{
    let head = slots.drop_last();
    if has_key(head, slots.last().key@) {
        let i = slot_index(head, slots.last().key@);
        assert(slots[i].key@ == slots[slots.len() - 1].key@);
    }
    assert(keys_distinct(head)) by {
        assert forall|i: int, j: int| 0 <= i < j < head.len() implies head[i].key@
            != head[j].key@ by {
            assert(head[i] == slots[i] && head[j] == slots[j]);
        }
    }
    lemma_slots_push(head, slots.last());
    assert(head.push(slots.last()) =~= slots);
}

spec fn seen(all: Map<Seq<char>, CacheEntry>, rest: Seq<Slot>) -> Map<Seq<char>, CacheEntry> {
    Map::new(
        |key: Seq<char>| all.contains_key(key) && !has_key(rest, key),
        |key: Seq<char>| all[key],
    )
}

fn find_slot(slots: &Vec<Slot>, key: &str) -> (found: Option<usize>)
    ensures
        match found {
            Some(i) => i < slots@.len() && slots@[i as int].key@ == key@,
            None => !has_key(slots@, key@),
        },
{
    let mut i: usize = 0;
    while i < slots.len()
        invariant
            i <= slots@.len(),
            forall|k: int| 0 <= k < i ==> slots@[k].key@ != key@,
        decreases slots@.len() - i,
    {
        if same_text(slots[i].key.as_str(), key) {
            return Some(i);
        }
        i = i + 1;
    }
    None
}

/// Pictures that were fetched, by media key, and the fetches under way.
pub struct MediaCacheManager {
    image_cache: StringHashMap<Raster>,
    website_image_cache: StringHashMap<Raster>,
    pending_media: Vec<Slot>,
    next_fetch: u64,
}

impl View for MediaCacheManager {
    type V = CacheState;

    closed spec fn view(&self) -> CacheState {
        CacheState {
            images: self.image_cache@,
            websites: self.website_image_cache@,
            pending: slots_map(self.pending_media@),
            next_fetch: self.next_fetch,
        }
    }
}

impl MediaCacheManager {
    #[verifier::type_invariant]
    spec fn inv(self) -> bool {
        keys_distinct(self.pending_media@)
    }


    fn take_slots(&mut self) -> (slots: Vec<Slot>)
        ensures
            slots == old(self).pending_media,
            final(self).pending_media@ == Seq::<Slot>::empty(),
            final(self).image_cache == old(self).image_cache,
            final(self).website_image_cache == old(self).website_image_cache,
            final(self).next_fetch == old(self).next_fetch,
    {
        let mut slots: Vec<Slot> = Vec::new();
        core::mem::swap(&mut self.pending_media, &mut slots);
        slots
    }

    /// An empty cache.
    pub fn new() -> (cache: MediaCacheManager)
        ensures
            cache@ == CacheState::empty(),
    {
        let cache = MediaCacheManager {
            image_cache: StringHashMap::new(),
            website_image_cache: StringHashMap::new(),
            pending_media: Vec::new(),
            next_fetch: 0,
        };
        assert(cache@.pending =~= Map::<Seq<char>, CacheEntry>::empty());
        cache
    }

    /// Asks for the media of `key`. Returns the number of the fetch that
    /// the caller is to start; its result is handed to `resolve` under that
    /// number. The key then has a placeholder, so that asking again starts
    /// nothing. Returns nothing, and changes nothing, when the key already
    /// has an entry or the kind is not fetched through the cache.
    pub fn request(&mut self, key: &str, kind: SlideKind) -> (fetch: Option<u64>)
        ensures
            fetch == if old(self)@.wants_fetch(key@, kind) {
                Some(old(self)@.next_fetch)
            } else {
                None
            },
            final(self)@ == old(self)@.requested(key@, kind),
    {
        proof {
            use_type_invariant(&*self);
        }
        let cached = match kind {
            SlideKind::Image => self.image_cache.contains_key(key),
            SlideKind::Website => self.website_image_cache.contains_key(key),
            _ => true,
        };
        if cached {
            return None;
        }
        match find_slot(&self.pending_media, key) {
            Some(i) => {
                proof {
                    lemma_slot_at(self.pending_media@, i as int);
                }
                None
            },
            None => {
                let number = self.next_fetch;
                let slot = Slot { key: key.to_owned(), entry: CacheEntry::Pending(number) };
                proof {
                    lemma_slots_push(self.pending_media@, slot);
                }
                let mut slots = self.take_slots();
                slots.push(slot);
                self.pending_media = slots;
                self.next_fetch = if number < u64::MAX {
                    number + 1
                } else {
                    0
                };
                Some(number)
            },
        }
    }

    /// Records how fetch number `fetch` of `key` ended: the placeholder of
    /// that fetch becomes `Ready` with the picture or `Failed` with the
    /// error, in one step. A result whose placeholder no longer stands,
    /// because the fetches were forgotten since or the key was asked for
    /// anew, is dropped.
    pub fn resolve(&mut self, key: &str, fetch: u64, outcome: Result<Raster, MediaError>)
        ensures
            final(self)@ == old(self)@.resolved(
                key@,
                fetch,
                match outcome {
                    Ok(picture) => CacheEntry::Ready(picture),
                    Err(error) => CacheEntry::Failed(error),
                },
            ),
    {
        proof {
            use_type_invariant(&*self);
        }
        let entry = match outcome {
            Ok(picture) => CacheEntry::Ready(picture),
            Err(error) => CacheEntry::Failed(error),
        };
        let found = find_slot(&self.pending_media, key);
        proof {
            assert(slots_map(self.pending_media@).contains_key(key@) == has_key(
                self.pending_media@,
                key@,
            ));
        }
        match found {
            Some(i) => {
                proof {
                    lemma_slot_at(self.pending_media@, i as int);
                }
                let awaited = match &self.pending_media[i].entry {
                    CacheEntry::Pending(number) => *number == fetch,
                    _ => false,
                };
                if awaited {
                    let slot = Slot { key: key.to_owned(), entry };
                    proof {
                        lemma_slots_update(self.pending_media@, i as int, slot);
                    }
                    let mut slots = self.take_slots();
                    slots.set(i, slot);
                    self.pending_media = slots;
                }
            },
            None => {},
        }
    }

    /// True exactly when `key` has an entry among the fetches, under way or
    /// ended and not yet polled.
    pub fn is_pending(&self, key: &str) -> (r: bool)
        ensures
            r == self@.pending.contains_key(key@),
    {
        find_slot(&self.pending_media, key).is_some()
    }

    /// The picture of an image slide, if it was fetched.
    pub fn get_image(&self, key: &str) -> (picture: Option<&Raster>)
        ensures
            match picture {
                Some(p) => self@.images.contains_key(key@) && *p == self@.images[key@],
                None => !self@.images.contains_key(key@),
            },
    {
        self.image_cache.get(key)
    }

    /// The screenshot of a website slide, if it was captured.
    pub fn get_website_image(&self, key: &str) -> (picture: Option<&Raster>)
        ensures
            match picture {
                Some(p) => self@.websites.contains_key(key@) && *p == self@.websites[key@],
                None => !self@.websites.contains_key(key@),
            },
    {
        self.website_image_cache.get(key)
    }

    /// The fetched media of `key` for a slide of `kind`: from the image
    /// bucket for an image, from the website bucket for a website, nothing
    /// for other kinds.
    pub fn get_ready(&self, key: &str, kind: SlideKind) -> (picture: Option<&Raster>)
        ensures
            match kind {
                SlideKind::Image => match picture {
                    Some(p) => self@.images.contains_key(key@) && *p == self@.images[key@],
                    None => !self@.images.contains_key(key@),
                },
                SlideKind::Website => match picture {
                    Some(p) => self@.websites.contains_key(key@) && *p == self@.websites[key@],
                    None => !self@.websites.contains_key(key@),
                },
                _ => picture is None,
            },
    {
        match kind {
            SlideKind::Image => self.get_image(key),
            SlideKind::Website => self.get_website_image(key),
            _ => None,
        }
    }

    /// Drains the fetches that have ended, without waiting for any: a picture
    /// that was fetched moves into the website bucket when its key has the
    /// shape of a web address and into the image bucket otherwise, replacing
    /// what the bucket held under that key; a failure is dropped and leaves
    /// no trace, so that the key can be asked for again. Fetches still under
    /// way stay as they are.
    pub fn poll(&mut self)
        ensures
            final(self)@ == old(self)@.polled(),
    {
        proof {
            use_type_invariant(&*self);
        }
        let ghost all = slots_map(self.pending_media@);
        let ghost old_images = self.image_cache@;
        let ghost old_websites = self.website_image_cache@;
        let mut rest = self.take_slots();
        let mut images: StringHashMap<Raster> = StringHashMap::new();
        let mut websites: StringHashMap<Raster> = StringHashMap::new();
        core::mem::swap(&mut self.image_cache, &mut images);
        core::mem::swap(&mut self.website_image_cache, &mut websites);
        let mut kept: Vec<Slot> = Vec::new();
        proof {
            assert(slots_map(kept@) =~= still_pending(seen(all, rest@)));
            assert(images@ =~= bucket_after_poll(old_images, seen(all, rest@), false));
            assert(websites@ =~= bucket_after_poll(old_websites, seen(all, rest@), true));
        }
        while rest.len() > 0
            invariant
                keys_distinct(rest@),
                keys_distinct(kept@),
                forall|key: Seq<char>| #[trigger]
                    has_key(rest@, key) ==> all.contains_key(key) && slots_map(rest@)[key]
                        == all[key],
                slots_map(kept@) == still_pending(seen(all, rest@)),
                images@ == bucket_after_poll(old_images, seen(all, rest@), false),
                websites@ == bucket_after_poll(old_websites, seen(all, rest@), true),
            decreases rest@.len(),
        {
            let ghost before = rest@;
            let ghost seen_before = seen(all, before);
            proof {
                lemma_slots_drop_last(before);
                lemma_slot_at(before, before.len() - 1);
            }
            let slot = rest.pop().unwrap();
            let Slot { key, entry } = slot;
            proof {
                assert(rest@ =~= before.drop_last());
                let grown = slots_map(rest@).insert(key@, entry);
                assert(slots_map(before) == grown);
                assert forall|k: Seq<char>| has_key(before, k) <==> has_key(rest@, k) || k
                    == key@ by {
                    assert(slots_map(before).contains_key(k) == has_key(before, k));
                    assert(slots_map(rest@).contains_key(k) == has_key(rest@, k));
                    assert(grown.contains_key(k) == (slots_map(rest@).contains_key(k) || k
                        == key@));
                }
                assert(has_key(before, key@));
                assert(all[key@] == entry);
                assert forall|k: Seq<char>| #[trigger] has_key(rest@, k) implies all.contains_key(k)
                    && slots_map(rest@)[k] == all[k] by {
                    assert(has_key(before, k));
                    assert(k != key@);
                    assert(grown[k] == slots_map(rest@)[k]);
                }
                assert(seen(all, rest@) =~= seen_before.insert(key@, entry));
                assert(!seen_before.contains_key(key@));
            }
            match entry {
                CacheEntry::Pending(number) => {
                    let again = Slot { key, entry: CacheEntry::Pending(number) };
                    proof {
                        assert(slots_map(kept@).contains_key(key@) == has_key(kept@, key@));
                        lemma_slots_push(kept@, again);
                    }
                    kept.push(again);
                },
                CacheEntry::Ready(picture) => {
                    if is_website_key(key.as_str()) {
                        websites.insert(key, picture);
                    } else {
                        images.insert(key, picture);
                    }
                },
                CacheEntry::Failed(_) => {},
            }
            assert(slots_map(kept@) =~= still_pending(seen(all, rest@)));
            assert(images@ =~= bucket_after_poll(old_images, seen(all, rest@), false));
            assert(websites@ =~= bucket_after_poll(old_websites, seen(all, rest@), true));
        }
        proof {
            assert(seen(all, rest@) =~= all);
        }
        self.pending_media = kept;
        self.image_cache = images;
        self.website_image_cache = websites;
    }

    /// Forgets every fetch, under way or ended.
    pub fn clear_all_pending(&mut self)
        ensures
            final(self)@ == old(self)@.pending_cleared(),
    {
        self.pending_media = Vec::new();
        assert(self@.pending =~= Map::<Seq<char>, CacheEntry>::empty());
    }

    /// Empties both buckets.
    pub fn clear_caches(&mut self)
        ensures
            final(self)@ == old(self)@.caches_cleared(),
    {
        proof {
            use_type_invariant(&*self);
        }
        self.image_cache = StringHashMap::new();
        self.website_image_cache = StringHashMap::new();
    }

    /// Empties both buckets and forgets every fetch: after a forced
    /// resynchronization the same key may stand for other content.
    pub fn invalidate_all(&mut self)
        ensures
            final(self)@ == old(self)@.caches_cleared().pending_cleared(),
    {
        self.clear_caches();
        self.clear_all_pending();
    }
}

} // verus!
