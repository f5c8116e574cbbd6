//! The parts of the OpenVR protocols that are decided on plain values: the list of
//! Vulkan device extensions that the compositor requires, the search for the Hmd
//! among the tracked devices, and the names of a new overlay.

use vstd::prelude::*;

verus! {

/// The byte of an extension list after separation: spaces become NUL bytes.
pub open spec fn separated_byte(b: u8) -> u8 {
    if b == 0x20 { 0u8 } else { b }
}

/// Turn the space separated list of extension names that OpenVR writes into a
/// sequence of NUL terminated names, in place: each space becomes a NUL byte.
pub fn separate_extension_names(buf: &mut Vec<u8>)
    ensures
        final(buf)@ == old(buf)@.map_values(|b: u8| separated_byte(b)),
        final(buf)@.len() == old(buf)@.len(),
        forall|j: int|
            0 <= j < old(buf)@.len() ==> #[trigger] final(buf)@[j] == (if old(buf)@[j] == 0x20 {
                0u8
            } else {
                old(buf)@[j]
            }),
{
    let n = buf.len();
    let mut i: usize = 0;
    while i < n
        invariant
            n == old(buf)@.len(),
            buf@.len() == n,
            i <= n,
            forall|j: int| 0 <= j < i ==> buf@[j] == separated_byte(old(buf)@[j]),
            forall|j: int| i <= j < n ==> buf@[j] == old(buf)@[j],
        decreases n - i,
    {
        if buf[i] == 0x20 {
            buf.set(i, 0u8);
        }
        i = i + 1;
    }
    assert(buf@ =~= old(buf)@.map_values(|b: u8| separated_byte(b)));
}

/// Separating a list turns each space into a NUL byte and keeps every other byte,
/// at its place: the separated list has the length of the list, a NUL byte where
/// the list has a space, and the list's byte everywhere else.
pub proof fn lemma_separation_changes_only_spaces(list: Seq<u8>, separated: Seq<u8>)
    requires
        separated == list.map_values(|b: u8| separated_byte(b)),
    ensures
        separated.len() == list.len(),
        forall|j: int| 0 <= j < list.len() && list[j] == 0x20 ==> #[trigger] separated[j] == 0,
        forall|j: int| 0 <= j < list.len() && list[j] != 0x20 ==> #[trigger] separated[j] == list[j],
        forall|j: int| 0 <= j < list.len() ==> (#[trigger] separated[j] == 0 <==> (list[j] == 0x20
            || list[j] == 0)),
{
}

/// `pieces` split `bytes` after each NUL byte, as `split_inclusive` does: the pieces
/// are non-empty, follow each other and cover `bytes`; each ends with its first
/// NUL byte, but the last, which has none if `bytes` does not end with NUL.
pub open spec fn is_nul_split(bytes: Seq<u8>, pieces: Seq<(usize, usize)>) -> bool {
    &&& (bytes.len() == 0 <==> pieces.len() == 0)
    &&& pieces.len() > 0 ==> pieces[0].0 == 0 && pieces.last().1 == bytes.len()
    &&& forall|k: int|
        0 <= k < pieces.len() ==> #[trigger] pieces[k].0 < pieces[k].1 <= bytes.len()
    &&& forall|k: int| 0 <= k < pieces.len() - 1 ==> #[trigger] pieces[k].1 == pieces[k + 1].0
    &&& forall|k: int, j: int|
        #![trigger pieces[k], bytes[j]]
        0 <= k < pieces.len() && pieces[k].0 <= j < pieces[k].1 - 1 ==> bytes[j] != 0
    &&& forall|k: int| 0 <= k < pieces.len() - 1 ==> bytes[#[trigger] pieces[k].1 - 1] == 0
}

/// A buffer has one split after its NUL bytes: two splits of the same bytes are
/// the same ranges.
pub proof fn lemma_nul_split_unique(bytes: Seq<u8>, a: Seq<(usize, usize)>, b: Seq<(usize, usize)>)
    requires
        is_nul_split(bytes, a),
        is_nul_split(bytes, b),
    ensures
        a == b,
{
    let m = if a.len() < b.len() { a.len() } else { b.len() };
    assert forall|k: int| 0 <= k < m implies a[k] == b[k] by {
        lemma_nul_split_prefix_agrees(bytes, a, b, k);
    }
    if a.len() < b.len() {
        lemma_nul_split_prefix_agrees(bytes, a, b, a.len() - 1);
        assert(b[a.len() - 1].1 == bytes.len());
        assert(b[a.len() as int].0 == bytes.len());
        assert(false);
    } else if b.len() < a.len() {
        lemma_nul_split_prefix_agrees(bytes, a, b, b.len() - 1);
        assert(a[b.len() - 1].1 == bytes.len());
        assert(a[b.len() as int].0 == bytes.len());
        assert(false);
    }
    assert(a =~= b);
}

proof fn lemma_nul_split_prefix_agrees(
    bytes: Seq<u8>,
    a: Seq<(usize, usize)>,
    b: Seq<(usize, usize)>,
    k: int,
)
    requires
        is_nul_split(bytes, a),
        is_nul_split(bytes, b),
        0 <= k < a.len(),
        k < b.len(),
    ensures
        a[k] == b[k],
    decreases k,
{
    if k > 0 {
        lemma_nul_split_prefix_agrees(bytes, a, b, k - 1);
        assert(a[k].0 == a[k - 1].1);
        assert(b[k].0 == b[k - 1].1);
    }
    let s = a[k].0;
    assert(s == b[k].0);
    let ea = a[k].1;
    let eb = b[k].1;
    if ea < eb {
        if k < a.len() - 1 {
            assert(bytes[ea - 1] == 0);
            assert(b[k].0 <= ea - 1 < b[k].1 - 1);
            assert(bytes[ea - 1] != 0);
        } else {
            assert(ea == bytes.len());
        }
    } else if eb < ea {
        if k < b.len() - 1 {
            assert(bytes[eb - 1] == 0);
            assert(a[k].0 <= eb - 1 < a[k].1 - 1);
            assert(bytes[eb - 1] != 0);
        } else {
            assert(eb == bytes.len());
        }
    }
}

/// The byte ranges of the NUL terminated names in `bytes`: a range ends after each
/// NUL byte, and a last one holds what follows the last NUL byte, if anything does.
pub fn nul_terminated_pieces(bytes: &[u8]) -> (pieces: Vec<(usize, usize)>)
    ensures
        is_nul_split(bytes@, pieces@),
        bytes@.len() == 0 <==> pieces@.len() == 0,
        pieces@.len() > 0 ==> pieces@[0].0 == 0 && pieces@.last().1 == bytes@.len(),
        forall|k: int|
            0 <= k < pieces@.len() ==> #[trigger] pieces@[k].0 < pieces@[k].1 <= bytes@.len(),
        forall|k: int|
            0 <= k < pieces@.len() - 1 ==> #[trigger] pieces@[k].1 == pieces@[k + 1].0,
        forall|k: int, j: int|
            #![trigger pieces@[k], bytes@[j]]
            0 <= k < pieces@.len() && pieces@[k].0 <= j < pieces@[k].1 - 1 ==> bytes@[j] != 0,
        forall|k: int| 0 <= k < pieces@.len() - 1 ==> bytes@[#[trigger] pieces@[k].1 - 1] == 0,
{
    let n = bytes.len();
    let mut pieces: Vec<(usize, usize)> = Vec::new();
    let mut start: usize = 0;
    let mut i: usize = 0;
    while i < n
        invariant
            n == bytes@.len(),
            start <= i <= n,
            pieces@.len() == 0 ==> start == 0,
            pieces@.len() > 0 ==> pieces@[0].0 == 0 && pieces@.last().1 == start,
            forall|k: int|
                0 <= k < pieces@.len() ==> #[trigger] pieces@[k].0 < pieces@[k].1 <= start,
            forall|k: int|
                0 <= k < pieces@.len() - 1 ==> #[trigger] pieces@[k].1 == pieces@[k + 1].0,
            forall|k: int, j: int|
                #![trigger pieces@[k], bytes@[j]]
                0 <= k < pieces@.len() && pieces@[k].0 <= j < pieces@[k].1 - 1 ==> bytes@[j] != 0,
            forall|k: int| 0 <= k < pieces@.len() ==> bytes@[#[trigger] pieces@[k].1 - 1] == 0,
            forall|j: int| start <= j < i ==> bytes@[j] != 0,
        decreases n - i,
    {
        if bytes[i] == 0 {
            pieces.push((start, i + 1));
            start = i + 1;
        }
        i = i + 1;
    }
    if start < n {
        pieces.push((start, n));
    }
    pieces
}

/// Number of tracked devices that OpenVR can report, indexed from 0.
pub const MAX_TRACKED_DEVICES: u32 = 64;

/// State of the search for the Hmd among the tracked devices.
#[derive(Debug, Clone, Copy, PartialEq, Eq, Structural)]
pub enum HmdSearch {
    /// Ask OpenVR for the class of this device, and hand the answer to
    /// [`hmd_search_next`].
    Query(u32),
    /// This device is the Hmd.
    Found(u32),
    /// No tracked device is the Hmd.
    NotFound,
}

/// The step of the search after learning whether `device` is the Hmd.
pub open spec fn hmd_search_step(device: u32, is_hmd: bool) -> HmdSearch {
    if is_hmd {
        HmdSearch::Found(device)
    } else if device + 1 < MAX_TRACKED_DEVICES {
        HmdSearch::Query((device + 1) as u32)
    } else {
        HmdSearch::NotFound
    }
}

/// Where the search ends from `state`, when `is_hmd` tells the class of each device.
pub open spec fn hmd_search_outcome(state: HmdSearch, is_hmd: spec_fn(u32) -> bool) -> HmdSearch
    decreases
            (match state {
                HmdSearch::Query(d) => MAX_TRACKED_DEVICES - d,
                _ => 0,
            }),
{
    match state {
        HmdSearch::Query(d) => if d < MAX_TRACKED_DEVICES {
            hmd_search_outcome(hmd_search_step(d, is_hmd(d)), is_hmd)
        } else {
            HmdSearch::NotFound
        },
        _ => state,
    }
}

/// The search starts with the first device.
pub fn hmd_search_start() -> (s: HmdSearch)
    ensures
        s == HmdSearch::Query(0),
{
    HmdSearch::Query(0)
}

/// Next step of the search for the Hmd, once OpenVR has told whether `device` is it:
/// done when it is, else query the following device, if there is one.
pub fn hmd_search_next(device: u32, is_hmd: bool) -> (s: HmdSearch)
    requires
        device < MAX_TRACKED_DEVICES,
    ensures
        s == hmd_search_step(device, is_hmd),
        is_hmd ==> s == HmdSearch::Found(device),
        !is_hmd && device + 1 < 64 ==> s == HmdSearch::Query((device + 1) as u32),
        !is_hmd && device + 1 == 64 ==> s == HmdSearch::NotFound,
{
    if is_hmd {
        HmdSearch::Found(device)
    } else if device + 1 < MAX_TRACKED_DEVICES {
        HmdSearch::Query(device + 1)
    } else {
        HmdSearch::NotFound
    }
}

/// The search finds the first tracked device that is the Hmd, and ends without one
/// only when no tracked device is the Hmd.
pub proof fn lemma_hmd_search_finds_first(is_hmd: spec_fn(u32) -> bool)
    ensures
        match hmd_search_outcome(HmdSearch::Query(0), is_hmd) {
            HmdSearch::Found(d) => d < MAX_TRACKED_DEVICES && is_hmd(d) && forall|e: u32|
                e < d ==> !#[trigger] is_hmd(e),
            HmdSearch::NotFound => forall|e: u32| e < MAX_TRACKED_DEVICES ==> !#[trigger] is_hmd(e),
            HmdSearch::Query(_) => false,
        },
{
    lemma_hmd_search_from(0, is_hmd);
}

proof fn lemma_hmd_search_from(d: u32, is_hmd: spec_fn(u32) -> bool)
    requires
        d < MAX_TRACKED_DEVICES,
    ensures
        match hmd_search_outcome(HmdSearch::Query(d), is_hmd) {
            HmdSearch::Found(f) => d <= f < MAX_TRACKED_DEVICES && is_hmd(f) && forall|e: u32|
                d <= e < f ==> !#[trigger] is_hmd(e),
            HmdSearch::NotFound => forall|e: u32| d <= e < MAX_TRACKED_DEVICES ==> !#[trigger] is_hmd(e),
            HmdSearch::Query(_) => false,
        },
    decreases MAX_TRACKED_DEVICES - d,
{
    let next = hmd_search_step(d, is_hmd(d));
    assert(hmd_search_outcome(HmdSearch::Query(d), is_hmd) == hmd_search_outcome(next, is_hmd));
    if is_hmd(d) {
        assert(hmd_search_outcome(next, is_hmd) == HmdSearch::Found(d));
    } else if d + 1 < MAX_TRACKED_DEVICES {
        lemma_hmd_search_from((d + 1) as u32, is_hmd);
    } else {
        assert(hmd_search_outcome(next, is_hmd) == HmdSearch::NotFound);
    }
}

/// A character sequence holds a NUL character.
pub open spec fn has_nul(s: Seq<char>) -> bool {
    s.contains('\0')
}

/// A sequence holds a NUL character exactly when it has one at some index, wherever
/// that index is in the sequence.
pub proof fn lemma_nul_anywhere_counts(s: Seq<char>)
    ensures
        has_nul(s) <==> exists|j: int| 0 <= j < s.len() && s[j] == '\0',
        forall|j: int| 0 <= j < s.len() && s[j] == '\0' ==> has_nul(s),
        forall|p: Seq<char>, q: Seq<char>| #![trigger p + q] has_nul(q) ==> has_nul(p + q),
{
    assert forall|p: Seq<char>, q: Seq<char>| #![trigger p + q] has_nul(q) implies has_nul(p + q) by {
        let j = choose|j: int| 0 <= j < q.len() && q[j] == '\0';
        assert((p + q)[p.len() + j] == '\0');
    }
}

/// Whether `s` holds a NUL character.
pub fn contains_nul(s: &str) -> (r: bool)
    ensures
        r == has_nul(s@),
        r == s@.contains('\0'),
        r <==> exists|j: int| 0 <= j < s@.len() && s@[j] == '\0',
{
    let n = s.unicode_len();
    let mut i: usize = 0;
    while i < n
        invariant
            n == s@.len(),
            i <= n,
            forall|j: int| 0 <= j < i ==> s@[j] != '\0',
        decreases n - i,
    {
        if s.get_char(i) == '\0' {
            return true;
        }
        i = i + 1;
    }
    false
}

/// OpenVR reads the key and the name of a new overlay as C strings: both must hold
/// a NUL character, else the overlay is refused with an invalid parameter error.
pub fn overlay_names_valid(key: &str, name: &str) -> (r: bool)
    ensures
        r == (has_nul(key@) && has_nul(name@)),
        r == (key@.contains('\0') && name@.contains('\0')),
        r <==> (exists|j: int| 0 <= j < key@.len() && key@[j] == '\0') && (exists|j: int|
            0 <= j < name@.len() && name@[j] == '\0'),
{
    contains_nul(key) && contains_nul(name)
}

} // verus!
