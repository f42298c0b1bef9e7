//! Discovery of the block device of an addon and of its partitions.

use vstd::prelude::*;
use crate::error::{AddonError, AddonErrorView};
use crate::host::{DirEntry, DirEntryView};
use crate::text::{opt, same, trim, trimmed};

verus! {

/// Whether the attribute of an entry can be read and, trimmed, is `value`.
pub open spec fn reads(entry: DirEntryView, value: Seq<char>) -> bool {
    entry.content is Some && trimmed(entry.content->0) == value
}

/// The first device that carries `serial`.
pub open spec fn device_with_serial(devices: Seq<DirEntryView>, serial: Seq<char>) -> Option<
    Seq<char>,
>
    decreases devices.len(),
{
    if devices.len() == 0 {
        None
    } else if reads(devices[0], serial) {
        Some(devices[0].name)
    } else {
        device_with_serial(devices.skip(1), serial)
    }
}

/// The path of the partition with the number `number`; the last one listed, if
/// there are several.
pub open spec fn partition(entries: Seq<DirEntryView>, number: Seq<char>) -> Option<Seq<char>>
    decreases entries.len(),
{
    if entries.len() == 0 {
        None
    } else if reads(entries.last(), number) {
        Some("/dev/"@ + entries.last().name)
    } else {
        partition(entries.drop_last(), number)
    }
}

/// The paths of the data and the hash partition of the device `dev`.
pub open spec fn partitions(entries: Seq<DirEntryView>, dev: Seq<char>) -> Result<
    (Seq<char>, Seq<char>),
    AddonErrorView,
> {
    match partition(entries, "1"@) {
        Some(data) => match partition(entries, "2"@) {
            Some(hash) => Ok((data, hash)),
            None => Err(AddonErrorView::MissingHashPartition { dev }),
        },
        None => Err(AddonErrorView::MissingDataPartition { dev }),
    }
}

/// Whether the attribute of an entry can be read and, trimmed, is `value`.
fn entry_reads(entry: &DirEntry, value: &str) -> (res: bool)
    ensures
        res == reads(entry@, value@),
{
    match &entry.content {
        Some(content) => same(trim(content.as_str()), value),
        None => false,
    }
}

/// Find the block device with the given `serial` (e.g. `vdb`) in a listing of the
/// block devices with their serials; there is none where there is no listing.
/// Serial-based discovery is order-independent and needs no udev in the minimal
/// guest.
pub fn find_device_by_serial(sys_block: Option<&Vec<DirEntry>>, serial: &str) -> (res: Option<
    String,
>)
    ensures
        opt(res) == (match sys_block {
            Some(devices) => device_with_serial(devices.deep_view(), serial@),
            None => None,
        }),
{
    let devices: &Vec<DirEntry> = match sys_block {
        Some(devices) => devices,
        None => {
            return None;
        },
    };
    let ghost all = devices.deep_view();
    let mut i: usize = 0;
    assert(all.skip(0) =~= all);
    while i < devices.len()
        invariant
            i <= devices.len(),
            sys_block == Some(devices),
            all == devices.deep_view(),
            device_with_serial(all.skip(i as int), serial@) == device_with_serial(all, serial@),
        decreases devices.len() - i,
    {
        assert(all.skip(i as int)[0] == devices@[i as int]@);
        if entry_reads(&devices[i], serial) {
            return Some(devices[i].name.clone());
        }
        assert(all.skip(i as int).skip(1) =~= all.skip(i + 1));
        i = i + 1;
    }
    None
}

/// Resolve the data (partition 1) and hash (partition 2) paths of the device
/// `dev`, given the listing of its directory with the partition numbers, so that
/// the device naming convention doesn't matter.
pub fn try_find_partitions(entries: &Vec<DirEntry>, dev: &str) -> (res: Result<
    (String, String),
    AddonError,
>)
    ensures
        match res {
            Ok(pair) => partitions(entries.deep_view(), dev@) == Ok::<
                (Seq<char>, Seq<char>),
                AddonErrorView,
            >((pair.0@, pair.1@)),
            Err(e) => partitions(entries.deep_view(), dev@) == Err::<
                (Seq<char>, Seq<char>),
                AddonErrorView,
            >(e@),
        },
{
    let mut data: Option<String> = None;
    let mut hash: Option<String> = None;
    let ghost all = entries.deep_view();
    let mut i: usize = 0;
    proof {
        reveal_strlit("1");
        reveal_strlit("2");
        assert("1"@[0] != "2"@[0]);
    }
    while i < entries.len()
        invariant
            i <= entries.len(),
            all == entries.deep_view(),
            "1"@ != "2"@,
            opt(data) == partition(all.take(i as int), "1"@),
            opt(hash) == partition(all.take(i as int), "2"@),
        decreases entries.len() - i,
    {
        let entry: &DirEntry = &entries[i];
        assert(all.take(i + 1).drop_last() =~= all.take(i as int));
        assert(all.take(i + 1).last() == entry@);
        if entry_reads(entry, "1") {
            data = Some("/dev/".to_owned().concat(entry.name.as_str()));
        } else if entry_reads(entry, "2") {
            hash = Some("/dev/".to_owned().concat(entry.name.as_str()));
        }
        i = i + 1;
    }
    assert(all.take(i as int) =~= all);
    match data {
        Some(data) => match hash {
            Some(hash) => Ok((data, hash)),
            None => Err(AddonError::MissingHashPartition { dev: dev.to_owned() }),
        },
        None => Err(AddonError::MissingDataPartition { dev: dev.to_owned() }),
    }
}

/// Resolve the data (partition 1) and hash (partition 2) paths of the device
/// `dev`, where it has both.
pub fn find_partitions(entries: &Vec<DirEntry>, dev: &str) -> (res: (String, String))
    requires
        partitions(entries.deep_view(), dev@) is Ok,
    ensures
        partitions(entries.deep_view(), dev@) == Ok::<(Seq<char>, Seq<char>), AddonErrorView>(
            (res.0@, res.1@),
        ),
{
    try_find_partitions(entries, dev).unwrap()
}

} // verus!
