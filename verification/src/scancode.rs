//! The registry value "Scancode Map" (all fields little endian):
//!   header    : 8 bytes, zero
//!   count     : u32, number of entries + 1 (the terminator)
//!   entries   : 4 bytes each = (new scan code: u16, original scan code: u16)
//!   terminator: 4 bytes, zero
use vstd::prelude::*;

verus! {

/// Scan code of the CapsLock key.
pub const SC_CAPSLOCK: u16 = 0x3A;

/// Scan code of the left Ctrl key.
pub const SC_LCTRL: u16 = 0x1D;

/// A remapping: (new scan code, original scan code).
pub type ScancodeEntry = (u16, u16);

/// The entry that turns CapsLock into left Ctrl.
pub open spec fn caps_to_ctrl() -> ScancodeEntry {
    (SC_LCTRL, SC_CAPSLOCK)
}

// ---------------------------------------------------------------------------
// Decoding
// ---------------------------------------------------------------------------

/// The little-endian u16 made of two bytes.
pub open spec fn le16(lo: u8, hi: u8) -> u16 {
    (lo as int + 256 * hi as int) as u16
}

/// The little-endian u32 stored at `at..at + 4`.
pub open spec fn le32_at(data: Seq<u8>, at: int) -> int {
    data[at] as int + 256 * data[at + 1] as int + 65536 * data[at + 2] as int + 16777216
        * data[at + 3] as int
}

/// The `i`-th entry of a value, read at offset `12 + 4 * i`.
pub open spec fn entry_at(data: Seq<u8>, i: int) -> ScancodeEntry {
    let off = 12 + 4 * i;
    (le16(data[off], data[off + 1]), le16(data[off + 2], data[off + 3]))
}

/// The number of entries that the count field announces (the terminator excluded).
pub open spec fn announced_entries(data: Seq<u8>) -> int {
    let count = le32_at(data, 8);
    if count > 0 {
        count - 1
    } else {
        0
    }
}

/// The number of whole entries that fit in the bytes after the count field.
pub open spec fn whole_entries(data: Seq<u8>) -> int {
    (data.len() - 12) / 4
}

/// The entries of a value: none when it is shorter than header and count,
/// else as many as the count announces, cut off where the data ends.
pub open spec fn scancode_entries(data: Seq<u8>) -> Seq<ScancodeEntry> {
    if data.len() < 12 {
        Seq::empty()
    } else {
        let n = if announced_entries(data) <= whole_entries(data) {
            announced_entries(data)
        } else {
            whole_entries(data)
        };
        Seq::new(n as nat, |i: int| entry_at(data, i))
    }
}

fn read_u16_le(data: &[u8], at: usize) -> (v: u16)
    requires
        at + 2 <= data.len(),
    ensures
        v == le16(data@[at as int], data@[at + 1]),
{
    data[at] as u16 + (data[at + 1] as u16) * 256
}

fn read_u32_le(data: &[u8], at: usize) -> (v: u32)
    requires
        at + 4 <= data.len(),
    ensures
        v as int == le32_at(data@, at as int),
{
    data[at] as u32 + (data[at + 1] as u32) * 256 + (data[at + 2] as u32) * 65536 + (data[at
        + 3] as u32) * 16777216
}

/// Parse a Scancode Map value into (new, original) scan code pairs.
pub fn parse_scancode_map(data: &[u8]) -> (entries: Vec<ScancodeEntry>)
    ensures
        entries@ == scancode_entries(data@),
{
    if data.len() < 12 {
        return Vec::new();
    }
    let count = read_u32_le(data, 8);
    let limit: usize = count.saturating_sub(1) as usize;
    let mut entries: Vec<ScancodeEntry> = Vec::new();
    let mut i: usize = 0;
    while i < limit && 4 <= data.len() - 12 - 4 * i
        invariant
            12 <= data.len(),
            limit == announced_entries(data@),
            i <= limit,
            4 * i <= data.len() - 12,
            entries@ =~= Seq::new(i as nat, |j: int| entry_at(data@, j)),
        decreases limit - i,
    {
        let off = 12 + 4 * i;
        let new_sc = read_u16_le(data, off);
        let old_sc = read_u16_le(data, off + 2);
        entries.push((new_sc, old_sc));
        i = i + 1;
    }
    assert(i == if announced_entries(data@) <= whole_entries(data@) {
        announced_entries(data@)
    } else {
        whole_entries(data@)
    });
    entries
}

// ---------------------------------------------------------------------------
// Encoding
// ---------------------------------------------------------------------------

/// The two little-endian bytes of a u16.
pub open spec fn u16_le_bytes(x: u16) -> Seq<u8> {
    seq![(x % 256) as u8, (x / 256) as u8]
}

/// The four little-endian bytes of a u32.
pub open spec fn u32_le_bytes(x: u32) -> Seq<u8> {
    seq![(x % 256) as u8, ((x / 256) % 256) as u8, ((x / 65536) % 256) as u8, (x / 16777216) as u8]
}

/// The four bytes of one entry.
pub open spec fn entry_bytes(e: ScancodeEntry) -> Seq<u8> {
    u16_le_bytes(e.0) + u16_le_bytes(e.1)
}

/// The bytes of a run of entries, one after the other.
pub open spec fn entries_bytes(es: Seq<ScancodeEntry>) -> Seq<u8>
    decreases es.len(),
{
    if es.len() == 0 {
        Seq::empty()
    } else {
        entries_bytes(es.drop_last()) + entry_bytes(es.last())
    }
}

/// `n` zero bytes.
pub open spec fn zeros(n: nat) -> Seq<u8> {
    Seq::new(n, |_i: int| 0u8)
}

/// The Scancode Map value holding `es`.
pub open spec fn scancode_map_bytes(es: Seq<ScancodeEntry>) -> Seq<u8> {
    zeros(8) + u32_le_bytes((es.len() + 1) as u32) + entries_bytes(es) + zeros(4)
}

fn push_u16_le(data: &mut Vec<u8>, x: u16)
    ensures
        final(data)@ == old(data)@ + u16_le_bytes(x),
{
    data.push((x % 256) as u8);
    data.push((x / 256) as u8);
}

fn push_u32_le(data: &mut Vec<u8>, x: u32)
    ensures
        final(data)@ == old(data)@ + u32_le_bytes(x),
{
    data.push((x % 256) as u8);
    data.push(((x / 256) % 256) as u8);
    data.push(((x / 65536) % 256) as u8);
    data.push((x / 16777216) as u8);
}

fn push_zeros(data: &mut Vec<u8>, n: usize)
    ensures
        final(data)@ == old(data)@ + zeros(n as nat),
{
    let ghost start = data@;
    let mut i: usize = 0;
    while i < n
        invariant
            i <= n,
            data@ =~= start + zeros(i as nat),
        decreases n - i,
    {
        data.push(0u8);
        i = i + 1;
    }
}

/// Build a Scancode Map value from (new, original) scan code pairs.
pub fn build_scancode_map(entries: &[ScancodeEntry]) -> (data: Vec<u8>)
    requires
        entries@.len() < u32::MAX,
    ensures
        data@ == scancode_map_bytes(entries@),
{
    let mut data: Vec<u8> = Vec::new();
    push_zeros(&mut data, 8);
    push_u32_le(&mut data, entries.len() as u32 + 1);
    let ghost header = data@;
    let mut i: usize = 0;
    while i < entries.len()
        invariant
            i <= entries@.len(),
            data@ == header + entries_bytes(entries@.take(i as int)),
        decreases entries@.len() - i,
    {
        let (new_sc, old_sc) = entries[i];
        push_u16_le(&mut data, new_sc);
        push_u16_le(&mut data, old_sc);
        proof {
            assert(entries@.take(i + 1).drop_last() =~= entries@.take(i as int));
            assert(data@ =~= header + entries_bytes(entries@.take(i + 1)));
        }
        i = i + 1;
    }
    assert(entries@.take(entries@.len() as int) =~= entries@);
    push_zeros(&mut data, 4);
    data
}

// ---------------------------------------------------------------------------
// Round trip
// ---------------------------------------------------------------------------

proof fn lemma_u16_round_trip(x: u16)
    ensures
        le16((x % 256) as u8, (x / 256) as u8) == x,
{
}

proof fn lemma_u32_round_trip(x: u32)
    ensures
        (x % 256) as u8 as int + 256 * ((x / 256) % 256) as u8 as int + 65536 * ((x / 65536)
            % 256) as u8 as int + 16777216 * (x / 16777216) as u8 as int == x as int,
{
}

proof fn lemma_entries_bytes_index(es: Seq<ScancodeEntry>)
    ensures
        entries_bytes(es).len() == 4 * es.len(),
        forall|i: int, k: int|
            0 <= i < es.len() && 0 <= k < 4 ==> #[trigger] entries_bytes(es)[4 * i + k]
                == entry_bytes(es[i])[k],
    decreases es.len(),
{
    if es.len() > 0 {
        lemma_entries_bytes_index(es.drop_last());
        assert forall|i: int, k: int| 0 <= i < es.len() && 0 <= k < 4 implies #[trigger]
            entries_bytes(es)[4 * i + k] == entry_bytes(es[i])[k] by {
            if i < es.len() - 1 {
                assert(entries_bytes(es.drop_last())[4 * i + k] == entry_bytes(
                    es.drop_last()[i],
                )[k]);
            }
        }
    }
}

/// Reading back what was built gives the same entries.
pub proof fn lemma_parse_build_round_trip(es: Seq<ScancodeEntry>)
    requires
        es.len() < u32::MAX,
    ensures
        scancode_entries(scancode_map_bytes(es)) == es,
{
    let data = scancode_map_bytes(es);
    let n = es.len();
    lemma_entries_bytes_index(es);
    assert(data.len() == 16 + 4 * n);
    let c = (n + 1) as u32;
    lemma_u32_round_trip(c);
    assert(data[8] == (c % 256) as u8);
    assert(data[9] == ((c / 256) % 256) as u8);
    assert(data[10] == ((c / 65536) % 256) as u8);
    assert(data[11] == (c / 16777216) as u8);
    assert(le32_at(data, 8) == n + 1);
    assert(whole_entries(data) == n + 1);
    assert forall|i: int| 0 <= i < n implies entry_at(data, i) == es[i] by {
        let off = 12 + 4 * i;
        assert(data[off] == entries_bytes(es)[4 * i + 0]);
        assert(data[off + 1] == entries_bytes(es)[4 * i + 1]);
        assert(data[off + 2] == entries_bytes(es)[4 * i + 2]);
        assert(data[off + 3] == entries_bytes(es)[4 * i + 3]);
        lemma_u16_round_trip(es[i].0);
        lemma_u16_round_trip(es[i].1);
    }
    assert(scancode_entries(data) =~= es);
}

// ---------------------------------------------------------------------------
// Registration of CapsLock -> Ctrl
// ---------------------------------------------------------------------------

/// What is kept when CapsLock -> Ctrl is turned on: every mapping of another key.
pub open spec fn kept_when_enabling() -> spec_fn(ScancodeEntry) -> bool {
    |e: ScancodeEntry| e.1 != SC_CAPSLOCK
}

/// What is kept when CapsLock -> Ctrl is turned off: every entry but that one.
pub open spec fn kept_when_disabling() -> spec_fn(ScancodeEntry) -> bool {
    |e: ScancodeEntry| e != caps_to_ctrl()
}

/// The entries after turning CapsLock -> Ctrl on or off: on replaces any mapping
/// of CapsLock by the Ctrl one at the end, off drops the Ctrl one; all other
/// mappings stay, in their order.
pub open spec fn updated_entries(es: Seq<ScancodeEntry>, enable: bool) -> Seq<ScancodeEntry> {
    if enable {
        es.filter(kept_when_enabling()).push(caps_to_ctrl())
    } else {
        es.filter(kept_when_disabling())
    }
}

/// Whether a value (`None`: no value) maps CapsLock to left Ctrl.
pub open spec fn registers_caps_ctrl(value: Option<Seq<u8>>) -> bool {
    match value {
        Some(data) => scancode_entries(data).contains(caps_to_ctrl()),
        None => false,
    }
}

/// The view of a value read from the registry.
pub open spec fn stored_view(value: Option<Vec<u8>>) -> Option<Seq<u8>> {
    match value {
        Some(data) => Some(data@),
        None => None,
    }
}

/// The entries of a stored value (`None`: no value, no entries).
pub open spec fn stored_entries(value: Option<Seq<u8>>) -> Seq<ScancodeEntry> {
    match value {
        Some(data) => scancode_entries(data),
        None => Seq::empty(),
    }
}

/// The value to store after turning CapsLock -> Ctrl on or off; `None` means
/// that the value is removed, as no mapping is left.
pub open spec fn planned_value(value: Option<Seq<u8>>, enable: bool) -> Option<Seq<u8>> {
    let es = updated_entries(stored_entries(value), enable);
    if es.len() == 0 {
        None
    } else {
        Some(scancode_map_bytes(es))
    }
}

/// A value as the registry can hold it: its size fits a u32.
pub open spec fn storable(value: Option<Seq<u8>>) -> bool {
    value matches Some(data) ==> data.len() <= u32::MAX
}

fn contains_entry(entries: &Vec<ScancodeEntry>, wanted: ScancodeEntry) -> (found: bool)
    ensures
        found == entries@.contains(wanted),
{
    let mut i: usize = 0;
    while i < entries.len()
        invariant
            i <= entries@.len(),
            forall|j: int| 0 <= j < i ==> entries@[j] != wanted,
        decreases entries@.len() - i,
    {
        let e = entries[i];
        if e.0 == wanted.0 && e.1 == wanted.1 {
            assert(entries@[i as int] == wanted);
            return true;
        }
        i = i + 1;
    }
    false
}

/// True if the stored value (as read from the registry) maps CapsLock to left Ctrl.
/// A read that failed, or found no value, counts as not registered.
pub fn is_caps_ctrl_registered(stored: &Result<Option<Vec<u8>>, u32>) -> (registered: bool)
    ensures
        registered == (*stored matches Ok(value) && registers_caps_ctrl(stored_view(value))),
        registered == (*stored matches Ok(Some(data)) && exists|i: int|
            0 <= i < scancode_entries(data@).len() && #[trigger] scancode_entries(data@)[i] == (
                0x1Du16,
                0x3Au16,
            )),
{
    match stored {
        Ok(Some(data)) => {
            let entries = parse_scancode_map(data.as_slice());
            contains_entry(&entries, (SC_LCTRL, SC_CAPSLOCK))
        },
        _ => false,
    }
}

/// Turn CapsLock -> Ctrl on or off in a list of entries, keeping all the other mappings.
pub fn update_entries(entries: &Vec<ScancodeEntry>, enable: bool) -> (updated: Vec<ScancodeEntry>)
    ensures
        updated@ == updated_entries(entries@, enable),
{
    let ghost keep = if enable {
        kept_when_enabling()
    } else {
        kept_when_disabling()
    };
    let mut kept: Vec<ScancodeEntry> = Vec::new();
    let mut i: usize = 0;
    while i < entries.len()
        invariant
            i <= entries@.len(),
            keep == (if enable {
                kept_when_enabling()
            } else {
                kept_when_disabling()
            }),
            kept@ == entries@.take(i as int).filter(keep),
        decreases entries@.len() - i,
    {
        let e = entries[i];
        let stays = if enable {
            e.1 != SC_CAPSLOCK
        } else {
            !(e.0 == SC_LCTRL && e.1 == SC_CAPSLOCK)
        };
        proof {
            assert(entries@.take(i + 1) =~= entries@.take(i as int).push(e));
            entries@.take(i as int).lemma_filter_push(e, keep);
            assert(stays == keep(e));
        }
        if stays {
            kept.push(e);
        }
        i = i + 1;
    }
    assert(entries@.take(entries@.len() as int) =~= entries@);
    if enable {
        kept.push((SC_LCTRL, SC_CAPSLOCK));
    }
    kept
}

/// What to do with the registry value.
pub enum ScancodeWrite {
    /// No mapping is left: remove the value.
    Remove,
    /// Store these bytes as the value.
    Store(Vec<u8>),
}

impl View for ScancodeWrite {
    type V = Option<Seq<u8>>;

    open spec fn view(&self) -> Option<Seq<u8>> {
        match self {
            ScancodeWrite::Remove => None,
            ScancodeWrite::Store(data) => Some(data@),
        }
    }
}

proof fn lemma_updated_len(es: Seq<ScancodeEntry>, enable: bool)
    ensures
        updated_entries(es, enable).len() <= es.len() + 1,
{
    es.lemma_filter_len(kept_when_enabling());
    es.lemma_filter_len(kept_when_disabling());
}

proof fn lemma_stored_entries_len(value: Option<Seq<u8>>)
    requires
        storable(value),
    ensures
        stored_entries(value).len() < u32::MAX - 1,
{
}

/// Decide how the registry value changes when CapsLock -> Ctrl is turned on
/// or off, given what reading it gave: the error of a failed read is passed
/// on; otherwise the value is rewritten with the updated entries, or removed
/// when none are left.
pub fn plan_scancode_write(stored: Result<Option<Vec<u8>>, u32>, enable: bool) -> (plan: Result<
    ScancodeWrite,
    u32,
>)
    requires
        stored matches Ok(value) ==> storable(stored_view(value)),
    ensures
        match stored {
            Err(e) => plan == Err::<ScancodeWrite, u32>(e),
            Ok(value) => plan matches Ok(w) && w@ == planned_value(stored_view(value), enable),
        },
{
    let value = match stored {
        Err(e) => {
            return Err(e);
        },
        Ok(value) => value,
    };
    let ghost v = stored_view(value);
    let entries = match &value {
        Some(data) => parse_scancode_map(data.as_slice()),
        None => Vec::new(),
    };
    assert(entries@ == stored_entries(v));
    let updated = update_entries(&entries, enable);
    proof {
        lemma_stored_entries_len(v);
        lemma_updated_len(entries@, enable);
    }
    if updated.len() == 0 {
        Ok(ScancodeWrite::Remove)
    } else {
        Ok(ScancodeWrite::Store(build_scancode_map(updated.as_slice())))
    }
}

// ---------------------------------------------------------------------------
// Laws
// ---------------------------------------------------------------------------

proof fn lemma_planned_entries(value: Option<Seq<u8>>, enable: bool)
    requires
        stored_entries(value).len() < u32::MAX - 1,
    ensures
        stored_entries(planned_value(value, enable)) == updated_entries(
            stored_entries(value),
            enable,
        ),
{
    let es = updated_entries(stored_entries(value), enable);
    lemma_updated_len(stored_entries(value), enable);
    if es.len() > 0 {
        lemma_parse_build_round_trip(es);
    }
}

/// After CapsLock -> Ctrl is turned on, the stored value registers it; after
/// it is turned off, it does not (whether the value is rewritten or removed).
pub proof fn lemma_registered_after_write(value: Option<Seq<u8>>, enable: bool)
    requires
        storable(value),
    ensures
        registers_caps_ctrl(planned_value(value, enable)) == enable,
{
    let old_es = stored_entries(value);
    let es = updated_entries(old_es, enable);
    lemma_planned_entries(value, enable);
    if enable {
        assert(es[es.len() - 1] == caps_to_ctrl());
    } else if es.len() > 0 {
        broadcast use Seq::lemma_filter_pred;

        if es.contains(caps_to_ctrl()) {
            let i = choose|i: int| 0 <= i < es.len() && es[i] == caps_to_ctrl();
            assert(kept_when_disabling()(es[i]));
        }
    }
}

/// Every mapping of another key survives both turning CapsLock -> Ctrl on and
/// turning it off; turning it off also keeps mappings of CapsLock to other keys.
pub proof fn lemma_other_mappings_kept(value: Option<Seq<u8>>, enable: bool, e: ScancodeEntry)
    requires
        storable(value),
        stored_entries(value).contains(e),
        e.1 != SC_CAPSLOCK || (!enable && e != caps_to_ctrl()),
    ensures
        stored_entries(planned_value(value, enable)).contains(e),
{
    let old_es = stored_entries(value);
    lemma_planned_entries(value, enable);
    let i = choose|i: int| 0 <= i < old_es.len() && old_es[i] == e;
    if enable {
        old_es.lemma_filter_contains(kept_when_enabling(), i);
        let f = old_es.filter(kept_when_enabling());
        let j = choose|j: int| 0 <= j < f.len() && f[j] == e;
        assert(f.push(caps_to_ctrl())[j] == e);
    } else {
        old_es.lemma_filter_contains(kept_when_disabling(), i);
    }
}

/// Nothing but the CapsLock -> Ctrl entry is ever added.
pub proof fn lemma_no_foreign_mappings(value: Option<Seq<u8>>, enable: bool, e: ScancodeEntry)
    requires
        storable(value),
        stored_entries(planned_value(value, enable)).contains(e),
    ensures
        stored_entries(value).contains(e) || e == caps_to_ctrl(),
{
    let old_es = stored_entries(value);
    lemma_planned_entries(value, enable);
    broadcast use Seq::lemma_filter_contains_rev;

    if enable {
        let f = old_es.filter(kept_when_enabling());
        let j = choose|j: int|
            0 <= j < f.push(caps_to_ctrl()).len() && f.push(caps_to_ctrl())[j] == e;
        if j < f.len() {
            assert(f.contains(e));
        }
    }
}

/// With CapsLock -> Ctrl turned on, CapsLock is mapped exactly once, to left Ctrl,
/// by the last entry.
pub proof fn lemma_caps_mapped_once(value: Option<Seq<u8>>)
    requires
        storable(value),
    ensures
        ({
            let es = stored_entries(planned_value(value, true));
            &&& es.len() > 0
            &&& es.last() == caps_to_ctrl()
            &&& forall|i: int| 0 <= i < es.len() - 1 ==> es[i].1 != SC_CAPSLOCK
        }),
{
    let old_es = stored_entries(value);
    lemma_planned_entries(value, true);
    let f = old_es.filter(kept_when_enabling());
    assert forall|i: int| 0 <= i < f.len() implies f.push(caps_to_ctrl())[i].1 != SC_CAPSLOCK by {
        old_es.lemma_filter_pred(kept_when_enabling(), i);
    }
}

proof fn lemma_filter_idempotent(es: Seq<ScancodeEntry>, p: spec_fn(ScancodeEntry) -> bool)
    ensures
        es.filter(p).filter(p) == es.filter(p),
    decreases es.len(),
{
    reveal(Seq::filter);
    if es.len() > 0 {
        lemma_filter_idempotent(es.drop_last(), p);
        es.drop_last().filter(p).lemma_filter_push(es.last(), p);
    }
}

proof fn lemma_filter_implied(
    es: Seq<ScancodeEntry>,
    p: spec_fn(ScancodeEntry) -> bool,
    q: spec_fn(ScancodeEntry) -> bool,
)
    requires
        forall|e: ScancodeEntry| #[trigger] p(e) ==> q(e),
    ensures
        es.filter(p).filter(q) == es.filter(p),
        es.filter(q).filter(p) == es.filter(p),
    decreases es.len(),
{
    reveal(Seq::filter);
    if es.len() > 0 {
        lemma_filter_implied(es.drop_last(), p, q);
        es.drop_last().filter(p).lemma_filter_push(es.last(), q);
        es.drop_last().filter(q).lemma_filter_push(es.last(), p);
    }
}

/// Turning CapsLock -> Ctrl on and then off leaves the mappings of the other
/// keys, in their order; a mapping of CapsLock to another key is gone.
pub proof fn lemma_enable_then_disable(value: Option<Seq<u8>>)
    requires
        storable(value),
    ensures
        stored_entries(planned_value(planned_value(value, true), false)) == stored_entries(
            value,
        ).filter(kept_when_enabling()),
{
    let old_es = stored_entries(value);
    let once = planned_value(value, true);
    lemma_planned_entries(value, true);
    lemma_updated_len(old_es, true);
    lemma_planned_entries(once, false);
    let f = old_es.filter(kept_when_enabling());
    f.lemma_filter_push(caps_to_ctrl(), kept_when_disabling());
    lemma_filter_implied(old_es, kept_when_enabling(), kept_when_disabling());
}

/// Turning CapsLock -> Ctrl off and then on gives what turning it on gives.
pub proof fn lemma_disable_then_enable(value: Option<Seq<u8>>)
    requires
        storable(value),
    ensures
        planned_value(planned_value(value, false), true) == planned_value(value, true),
{
    let old_es = stored_entries(value);
    let once = planned_value(value, false);
    lemma_planned_entries(value, false);
    lemma_updated_len(old_es, false);
    lemma_filter_implied(old_es, kept_when_enabling(), kept_when_disabling());
    assert(stored_entries(once) == old_es.filter(kept_when_disabling()));
    assert(updated_entries(stored_entries(once), true) == updated_entries(old_es, true));
}

/// Turning CapsLock -> Ctrl on (or off) a second time leaves the value as the
/// first time left it.
pub proof fn lemma_write_idempotent(value: Option<Seq<u8>>, enable: bool)
    requires
        storable(value),
    ensures
        planned_value(planned_value(value, enable), enable) == planned_value(value, enable),
{
    let old_es = stored_entries(value);
    lemma_planned_entries(value, enable);
    let once = planned_value(value, enable);
    let es = updated_entries(old_es, enable);
    lemma_updated_len(old_es, enable);
    if enable {
        let f = old_es.filter(kept_when_enabling());
        lemma_filter_idempotent(old_es, kept_when_enabling());
        f.lemma_filter_push(caps_to_ctrl(), kept_when_enabling());
        assert(updated_entries(es, true) == es);
    } else {
        lemma_filter_idempotent(old_es, kept_when_disabling());
        assert(updated_entries(es, false) == es);
    }
    assert(stored_entries(once) == es);
}

// ---------------------------------------------------------------------------
// The value in terms of its bytes
// ---------------------------------------------------------------------------

/// A value maps CapsLock to left Ctrl exactly when one of its entries, at any
/// position, is (0x1D, 0x3A); no value maps nothing.
pub proof fn lemma_registered_means(data: Seq<u8>)
    ensures
        registers_caps_ctrl(Some(data)) <==> exists|i: int|
            0 <= i < scancode_entries(data).len() && #[trigger] scancode_entries(data)[i] == (
                0x1Du16,
                0x3Au16,
            ),
        !registers_caps_ctrl(None),
{
}

/// How many entries a value holds: none below 12 bytes; else the count field
/// (bytes 8 to 11, little endian) less one, but no more than the whole 4-byte
/// entries after byte 12.
pub proof fn lemma_entry_count(data: Seq<u8>)
    ensures
        data.len() < 12 ==> scancode_entries(data).len() == 0,
        data.len() >= 12 ==> ({
            let count = data[8] as int + data[9] as int * 0x100 + data[10] as int * 0x10000
                + data[11] as int * 0x1000000;
            let room = (data.len() - 12) / 4;
            let announced = if count >= 1 {
                count - 1
            } else {
                0
            };
            scancode_entries(data).len() == if announced <= room {
                announced
            } else {
                room
            }
        }),
{
}

/// Entry `i` is read at byte 12 + 4i: the new scan code from the first two
/// bytes, the original scan code from the next two, low byte first.
pub proof fn lemma_entry_bytes(data: Seq<u8>, i: int)
    requires
        0 <= i < scancode_entries(data).len(),
    ensures
        16 + 4 * i <= data.len(),
        scancode_entries(data)[i].0 as int == data[12 + 4 * i] as int + 0x100 * data[13 + 4 * i] as int,
        scancode_entries(data)[i].1 as int == data[14 + 4 * i] as int + 0x100 * data[15 + 4 * i] as int,
{
}

proof fn lemma_byte_split(x: u16)
    ensures
        (x % 256) as u8 as int + 0x100 * (x / 256) as u8 as int == x as int,
{
}

/// The bytes of a built value: 8 zero bytes, the number of entries plus one
/// as a little-endian u32, each entry as its two scan codes low byte first,
/// and 4 zero bytes.
pub proof fn lemma_built_bytes(es: Seq<ScancodeEntry>)
    requires
        es.len() < u32::MAX,
    ensures
        ({
            let data = scancode_map_bytes(es);
            &&& data.len() == 16 + 4 * es.len()
            &&& forall|j: int| 0 <= j < 8 ==> #[trigger] data[j] == 0
            &&& data[8] as int + data[9] as int * 0x100 + data[10] as int * 0x10000 + data[11] as int
                * 0x1000000 == es.len() + 1
            &&& forall|i: int|
                0 <= i < es.len() ==> data[12 + 4 * i] as int + 0x100 * data[13 + 4 * i] as int
                    == (#[trigger] es[i]).0 as int && data[14 + 4 * i] as int + 0x100 * data[15
                    + 4 * i] as int == es[i].1 as int
            &&& forall|j: int| 12 + 4 * es.len() <= j < data.len() ==> #[trigger] data[j] == 0
        }),
{
    let data = scancode_map_bytes(es);
    lemma_entries_bytes_index(es);
    lemma_u32_round_trip((es.len() + 1) as u32);
    assert forall|i: int| 0 <= i < es.len() implies data[12 + 4 * i] as int + 0x100 * data[13
        + 4 * i] as int == (#[trigger] es[i]).0 as int && data[14 + 4 * i] as int + 0x100
        * data[15 + 4 * i] as int == es[i].1 as int by {
        assert(data[12 + 4 * i] == entries_bytes(es)[4 * i + 0]);
        assert(data[13 + 4 * i] == entries_bytes(es)[4 * i + 1]);
        assert(data[14 + 4 * i] == entries_bytes(es)[4 * i + 2]);
        assert(data[15 + 4 * i] == entries_bytes(es)[4 * i + 3]);
        lemma_byte_split(es[i].0);
        lemma_byte_split(es[i].1);
    }
}

/// Turning CapsLock -> Ctrl off keeps exactly the entries other than
/// (0x1D, 0x3A), in their order; turning it on keeps exactly the entries whose
/// original scan code is not CapsLock (0x3A), in their order, and adds
/// (0x1D, 0x3A) at the end.
pub proof fn lemma_update_keeps_order(es: Seq<ScancodeEntry>)
    ensures
        updated_entries(es, false) == es.filter(|e: ScancodeEntry| !(e.0 == 0x1D && e.1 == 0x3A)),
        updated_entries(es, true) == es.filter(|e: ScancodeEntry| e.1 != 0x3A).push((0x1Du16, 0x3Au16)),
{
    let p1 = |e: ScancodeEntry| !(e.0 == 0x1D && e.1 == 0x3A);
    let p2 = |e: ScancodeEntry| e.1 != 0x3A;
    assert(kept_when_disabling() =~= p1);
    assert(kept_when_enabling() =~= p2);
}

/// The value is removed only when CapsLock -> Ctrl is turned off and every
/// entry it held was (0x1D, 0x3A); turning it on always stores a value.
pub proof fn lemma_removed_only_when_empty(value: Option<Seq<u8>>, enable: bool)
    requires
        storable(value),
    ensures
        planned_value(value, enable) is None <==> (!enable && forall|i: int|
            0 <= i < stored_entries(value).len() ==> #[trigger] stored_entries(value)[i] == (
                0x1Du16,
                0x3Au16,
            )),
{
    let es = stored_entries(value);
    let f = es.filter(kept_when_disabling());
    if !enable {
        if f.len() == 0 {
            assert forall|i: int| 0 <= i < es.len() implies #[trigger] es[i] == (0x1Du16, 0x3Au16) by {
                if es[i] != caps_to_ctrl() {
                    es.lemma_filter_contains(kept_when_disabling(), i);
                }
            }
        } else {
            es.lemma_filter_pred(kept_when_disabling(), 0);
            let x = f[0];
            es.lemma_filter_contains_rev(kept_when_disabling(), x);
            assert(f.contains(x));
        }
    }
}

} // verus!
