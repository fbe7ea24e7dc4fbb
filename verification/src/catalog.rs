//! The device catalog: immutable snapshot records, vendor/product filtering
//! with wildcard semantics, and resolution of an ordinal index within the
//! filtered sequence to a concrete record.

use vstd::prelude::*;

use crate::error::HidDeviceError;

verus! {

/// One entry of a device enumeration snapshot. Optional strings may be absent;
/// absence is legal and renders as a fixed fallback, never as an error. An
/// absent `path` means the raw device path was not valid text.
#[derive(Debug)]
pub struct DeviceRecord {
    pub vendor_id: u16,
    pub product_id: u16,
    pub release_number: u16,
    pub path: Option<String>,
    pub product_string: Option<String>,
    pub serial_number: Option<String>,
    pub manufacturer_string: Option<String>,
}

/// Whether a record matches a vendor/product filter. A zero vendor or product
/// id in the filter is a wildcard matching any device on that field.
pub open spec fn matches_filter(r: DeviceRecord, vid: u16, pid: u16) -> bool {
    (vid == 0 || r.vendor_id == vid) && (pid == 0 || r.product_id == pid)
}

/// The subsequence of records matching a filter, in snapshot order.
pub open spec fn matching_seq(s: Seq<DeviceRecord>, vid: u16, pid: u16) -> Seq<DeviceRecord>
    decreases s.len(),
{
    if s.len() == 0 {
        Seq::empty()
    } else if matches_filter(s.last(), vid, pid) {
        matching_seq(s.drop_last(), vid, pid).push(s.last())
    } else {
        matching_seq(s.drop_last(), vid, pid)
    }
}

/// How many records of a snapshot match a filter.
pub open spec fn match_count(s: Seq<DeviceRecord>, vid: u16, pid: u16) -> nat {
    matching_seq(s, vid, pid).len()
}

/// The record an ordinal index under a filter resolves to: the index-th
/// matching record, in snapshot order.
pub open spec fn resolved_record(
    s: Seq<DeviceRecord>,
    index: u32,
    vid: u16,
    pid: u16,
) -> DeviceRecord {
    matching_seq(s, vid, pid)[index as int]
}

/// Extending a prefix of a snapshot by one record extends its matching
/// subsequence by that record exactly when the record matches.
proof fn lemma_matching_snoc(s: Seq<DeviceRecord>, vid: u16, pid: u16, i: int)
    requires
        0 <= i < s.len(),
    ensures
        matching_seq(s.subrange(0, i + 1), vid, pid) == if matches_filter(s[i], vid, pid) {
            matching_seq(s.subrange(0, i), vid, pid).push(s[i])
        } else {
            matching_seq(s.subrange(0, i), vid, pid)
        },
{
    let t = s.subrange(0, i + 1);
    assert(t.last() == s[i]);
    assert(t.drop_last() =~= s.subrange(0, i));
}

/// At most every record of a snapshot matches.
pub proof fn lemma_match_count_le_len(s: Seq<DeviceRecord>, vid: u16, pid: u16)
    ensures
        match_count(s, vid, pid) <= s.len(),
    decreases s.len(),
{
    if s.len() > 0 {
        lemma_match_count_le_len(s.drop_last(), vid, pid);
    }
}

/// The matching subsequence of a snapshot prefix is the corresponding prefix
/// of the whole snapshot's matching subsequence.
pub proof fn lemma_matching_prefix(s: Seq<DeviceRecord>, vid: u16, pid: u16, i: int)
    requires
        0 <= i <= s.len(),
    ensures
        match_count(s.subrange(0, i), vid, pid) <= match_count(s, vid, pid),
        matching_seq(s, vid, pid).subrange(
            0,
            match_count(s.subrange(0, i), vid, pid) as int,
        ) == matching_seq(s.subrange(0, i), vid, pid),
    decreases s.len() - i,
{
    let m = matching_seq(s, vid, pid);
    if i == s.len() {
        assert(s.subrange(0, i) =~= s);
        assert(m.subrange(0, m.len() as int) =~= m);
    } else {
        lemma_matching_prefix(s, vid, pid, i + 1);
        lemma_matching_snoc(s, vid, pid, i);
        let p = matching_seq(s.subrange(0, i), vid, pid);
        let q = matching_seq(s.subrange(0, i + 1), vid, pid);
        if matches_filter(s[i], vid, pid) {
            assert(q == p.push(s[i]));
            assert(p =~= q.subrange(0, q.len() - 1));
            assert(m.subrange(0, q.len() as int).subrange(0, q.len() - 1) =~= m.subrange(
                0,
                p.len() as int,
            ));
            assert(m.subrange(0, p.len() as int) =~= p);
        } else {
            assert(q == p);
        }
    }
}

/// Wildcard semantics: a filter with vendor id zero and product id zero
/// matches every record, so the matching subsequence is the whole snapshot.
pub proof fn lemma_wildcard_matches_all(s: Seq<DeviceRecord>)
    ensures
        matching_seq(s, 0, 0) == s,
        match_count(s, 0, 0) == s.len(),
    decreases s.len(),
{
    if s.len() == 0 {
        assert(matching_seq(s, 0, 0) =~= s);
    } else {
        lemma_wildcard_matches_all(s.drop_last());
        assert(matching_seq(s, 0, 0) =~= s);
    }
}

/// The count a filter yields is a function of the snapshot alone: counting
/// twice over an unchanged snapshot gives the same number both times.
pub proof fn lemma_count_deterministic(
    s1: Seq<DeviceRecord>,
    s2: Seq<DeviceRecord>,
    vid: u16,
    pid: u16,
)
    requires
        s1 == s2,
    ensures
        match_count(s1, vid, pid) == match_count(s2, vid, pid),
{
}

/// Whether a record matches a vendor/product filter, with zero as a wildcard.
pub fn record_matches(r: &DeviceRecord, vid: u16, pid: u16) -> (b: bool)
    ensures
        b == matches_filter(*r, vid, pid),
{
    (vid == 0 || r.vendor_id == vid) && (pid == 0 || r.product_id == pid)
}

/// Counts the records of a snapshot that match the filter. Zero is a valid,
/// non-error result.
pub fn count_matching(devices: &Vec<DeviceRecord>, vid: u16, pid: u16) -> (n: u32)
    requires
        devices@.len() <= u32::MAX,
    ensures
        n as nat == match_count(devices@, vid, pid),
{
    let mut n: u32 = 0;
    let mut i: usize = 0;
    while i < devices.len()
        invariant
            0 <= i <= devices@.len(),
            devices@.len() <= u32::MAX,
            n as nat == match_count(devices@.subrange(0, i as int), vid, pid),
        decreases devices@.len() - i,
    {
        proof {
            lemma_matching_snoc(devices@, vid, pid, i as int);
            lemma_match_count_le_len(devices@.subrange(0, i as int), vid, pid);
        }
        if record_matches(&devices[i], vid, pid) {
            n = n + 1;
        }
        i = i + 1;
    }
    proof {
        assert(devices@.subrange(0, devices@.len() as int) =~= devices@);
    }
    n
}

/// Resolves an ordinal index under a filter to the position, in the unfiltered
/// snapshot, of the index-th matching record. Walks the snapshot left to
/// right, counting only matching entries. Succeeds exactly when the index is
/// strictly below the matching count; otherwise the device is not found.
pub fn resolve_position(devices: &Vec<DeviceRecord>, index: u32, vid: u16, pid: u16) -> (r: Result<
    usize,
    HidDeviceError,
>)
    requires
        devices@.len() <= u32::MAX,
    ensures
        r is Ok <==> (index as nat) < match_count(devices@, vid, pid),
        r is Ok ==> {
            &&& (r->Ok_0 as int) < devices@.len()
            &&& matches_filter(devices@[r->Ok_0 as int], vid, pid)
            &&& match_count(devices@.subrange(0, r->Ok_0 as int), vid, pid) == index as nat
            &&& devices@[r->Ok_0 as int] == matching_seq(devices@, vid, pid)[index as int]
        },
        r is Err ==> r->Err_0 == HidDeviceError::DeviceNotFound,
{
    let mut n: u32 = 0;
    let mut i: usize = 0;
    while i < devices.len()
        invariant
            0 <= i <= devices@.len(),
            devices@.len() <= u32::MAX,
            n as nat == match_count(devices@.subrange(0, i as int), vid, pid),
            n <= index,
        decreases devices@.len() - i,
    {
        proof {
            lemma_matching_snoc(devices@, vid, pid, i as int);
        }
        if record_matches(&devices[i], vid, pid) {
            if n == index {
                proof {
                    lemma_matching_prefix(devices@, vid, pid, i as int + 1);
                    assert(matching_seq(devices@, vid, pid).subrange(0, (n + 1) as int)[n as int]
                        == devices@[i as int]);
                }
                return Ok(i);
            }
            n = n + 1;
        }
        i = i + 1;
    }
    proof {
        assert(devices@.subrange(0, devices@.len() as int) =~= devices@);
    }
    Err(HidDeviceError::DeviceNotFound)
}

/// Resolves an ordinal index under a filter to the matching record itself.
/// Succeeds exactly when the index is strictly below the matching count.
pub fn resolve<'a>(devices: &'a Vec<DeviceRecord>, index: u32, vid: u16, pid: u16) -> (r: Result<
    &'a DeviceRecord,
    HidDeviceError,
>)
    requires
        devices@.len() <= u32::MAX,
    ensures
        r is Ok <==> (index as nat) < match_count(devices@, vid, pid),
        r is Ok ==> *r->Ok_0 == matching_seq(devices@, vid, pid)[index as int],
        r is Err ==> r->Err_0 == HidDeviceError::DeviceNotFound,
{
    match resolve_position(devices, index, vid, pid) {
        Ok(pos) => Ok(&devices[pos]),
        Err(e) => Err(e),
    }
}

/// The attribute triple of a record: vendor id, product id, release number.
pub fn attributes_of(record: &DeviceRecord) -> (t: (u16, u16, u16))
    ensures
        t == (record.vendor_id, record.product_id, record.release_number),
{
    (record.vendor_id, record.product_id, record.release_number)
}

} // verus!

