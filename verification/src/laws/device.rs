//! Laws of device discovery.

use vstd::prelude::*;
use crate::device::{device_with_serial, partition, partitions, reads};
use crate::error::AddonErrorView;
use crate::host::DirEntryView;
use crate::laws::text::{law_trimmed, law_trimmed_of_padded, padded, tight};

verus! {

/// A device is found exactly if some device carries the serial, and what is found
/// carries it.
pub proof fn law_found_device_carries_serial(devices: Seq<DirEntryView>, serial: Seq<char>)
    ensures
        match device_with_serial(devices, serial) {
            Some(name) => exists|i: int|
                0 <= i < devices.len() && (#[trigger] devices[i]).name == name && reads(
                    devices[i],
                    serial,
                ),
            None => forall|i: int|
                0 <= i < devices.len() ==> !reads(#[trigger] devices[i], serial),
        },
    decreases devices.len(),
{
    if devices.len() > 0 && !reads(devices[0], serial) {
        let rest = devices.skip(1);
        law_found_device_carries_serial(rest, serial);
        match device_with_serial(rest, serial) {
            Some(name) => {
                let i = choose|i: int|
                    0 <= i < rest.len() && (#[trigger] rest[i]).name == name && reads(
                        rest[i],
                        serial,
                    );
                assert(devices[i + 1] == rest[i]);
            },
            None => {
                assert forall|i: int| 0 <= i < devices.len() implies !reads(
                    #[trigger] devices[i],
                    serial,
                ) by {
                    if i > 0 {
                        assert(devices[i] == rest[i - 1]);
                    }
                }
            },
        }
    } else if devices.len() > 0 {
        assert(devices[0].name == devices[0].name);
    }
}

/// Serial-based discovery is order-independent: two listings of the same devices
/// give the same device, where only one device carries the serial.
pub proof fn law_discovery_order_independent(
    a: Seq<DirEntryView>,
    b: Seq<DirEntryView>,
    serial: Seq<char>,
)
    requires
        forall|e: DirEntryView| #[trigger] a.contains(e) <==> b.contains(e),
        forall|i: int, j: int|
            0 <= i < a.len() && 0 <= j < a.len() && reads(#[trigger] a[i], serial) && reads(
                #[trigger] a[j],
                serial,
            ) ==> a[i].name == a[j].name,
    ensures
        device_with_serial(a, serial) == device_with_serial(b, serial),
{
    law_found_device_carries_serial(a, serial);
    law_found_device_carries_serial(b, serial);
    match device_with_serial(b, serial) {
        Some(name) => {
            let j = choose|j: int|
                0 <= j < b.len() && (#[trigger] b[j]).name == name && reads(b[j], serial);
            assert(b.contains(b[j]));
            assert(a.contains(b[j]));
            let i = choose|i: int| 0 <= i < a.len() && a[i] == b[j];
            assert(reads(a[i], serial));
        },
        None => {
            if device_with_serial(a, serial) is Some {
                let i = choose|i: int|
                    0 <= i < a.len() && (#[trigger] a[i]).name == device_with_serial(a, serial)->0
                        && reads(a[i], serial);
                assert(a.contains(a[i]));
                assert(b.contains(a[i]));
                let j = choose|j: int| 0 <= j < b.len() && b[j] == a[i];
                assert(reads(b[j], serial));
            }
        },
    }
}

/// A device whose serial cannot be read, or is another one, is skipped.
pub proof fn law_other_device_skipped(
    a: Seq<DirEntryView>,
    e: DirEntryView,
    b: Seq<DirEntryView>,
    serial: Seq<char>,
)
    requires
        !reads(e, serial),
    ensures
        device_with_serial(a + seq![e] + b, serial) == device_with_serial(a + b, serial),
    decreases a.len(),
{
    let whole = a + seq![e] + b;
    if a.len() == 0 {
        assert(whole.skip(1) =~= a + b);
    } else {
        assert(whole[0] == a[0]);
        assert((a + b)[0] == a[0]);
        assert(whole.skip(1) =~= a.skip(1) + seq![e] + b);
        assert((a + b).skip(1) =~= a.skip(1) + b);
        law_other_device_skipped(a.skip(1), e, b, serial);
    }
}

/// A partition is found exactly if some entry has its number, whatever the entries
/// are called, and its path is made of the name of such an entry.
pub proof fn law_found_partition_has_number(entries: Seq<DirEntryView>, number: Seq<char>)
    ensures
        match partition(entries, number) {
            Some(path) => exists|i: int|
                0 <= i < entries.len() && reads(#[trigger] entries[i], number) && path == "/dev/"@
                    + entries[i].name,
            None => forall|i: int|
                0 <= i < entries.len() ==> !reads(#[trigger] entries[i], number),
        },
    decreases entries.len(),
{
    if entries.len() > 0 {
        let k = entries.len() - 1;
        if reads(entries[k], number) {
            assert(partition(entries, number) == Some("/dev/"@ + entries[k].name));
        } else {
            let before = entries.drop_last();
            law_found_partition_has_number(before, number);
            match partition(before, number) {
                Some(path) => {
                    let i = choose|i: int|
                        0 <= i < before.len() && reads(#[trigger] before[i], number) && path
                            == "/dev/"@ + before[i].name;
                    assert(entries[i] == before[i]);
                },
                None => {
                    assert forall|i: int| 0 <= i < entries.len() implies !reads(
                        #[trigger] entries[i],
                        number,
                    ) by {
                        if i < k {
                            assert(entries[i] == before[i]);
                        }
                    }
                },
            }
        }
    }
}

/// The order in which the partitions are listed does not matter, where only one
/// entry has the number.
pub proof fn law_partition_order_independent(
    a: Seq<DirEntryView>,
    b: Seq<DirEntryView>,
    number: Seq<char>,
)
    requires
        forall|e: DirEntryView| #[trigger] a.contains(e) <==> b.contains(e),
        forall|i: int, j: int|
            0 <= i < a.len() && 0 <= j < a.len() && reads(#[trigger] a[i], number) && reads(
                #[trigger] a[j],
                number,
            ) ==> a[i].name == a[j].name,
    ensures
        partition(a, number) == partition(b, number),
{
    law_found_partition_has_number(a, number);
    law_found_partition_has_number(b, number);
    match partition(b, number) {
        Some(path) => {
            let j = choose|j: int|
                0 <= j < b.len() && reads(#[trigger] b[j], number) && path == "/dev/"@ + b[j].name;
            assert(b.contains(b[j]));
            assert(a.contains(b[j]));
            let i = choose|i: int| 0 <= i < a.len() && a[i] == b[j];
            assert(reads(a[i], number));
        },
        None => {
            if partition(a, number) is Some {
                let i = choose|i: int|
                    0 <= i < a.len() && reads(#[trigger] a[i], number) && partition(a, number)->0
                        == "/dev/"@ + a[i].name;
                assert(a.contains(a[i]));
                assert(b.contains(a[i]));
                let j = choose|j: int| 0 <= j < b.len() && b[j] == a[i];
                assert(reads(b[j], number));
            }
        },
    }
}

/// An entry that is no partition, or another one, is ignored.
pub proof fn law_other_entry_ignored(
    a: Seq<DirEntryView>,
    e: DirEntryView,
    b: Seq<DirEntryView>,
    number: Seq<char>,
)
    requires
        !reads(e, number),
    ensures
        partition(a + seq![e] + b, number) == partition(a + b, number),
    decreases b.len(),
{
    let whole = a + seq![e] + b;
    if b.len() == 0 {
        assert(whole.last() == e);
        assert(whole.drop_last() =~= a + b);
    } else {
        assert(whole.last() == b.last());
        assert((a + b).last() == b.last());
        assert(whole.drop_last() =~= a + seq![e] + b.drop_last());
        assert((a + b).drop_last() =~= a + b.drop_last());
        law_other_entry_ignored(a, e, b.drop_last(), number);
    }
}

/// Whether the attribute of an entry can be read and is `value`, whitespace around
/// it aside.
pub open spec fn carries(entry: DirEntryView, value: Seq<char>) -> bool {
    &&& entry.content is Some
    &&& padded(entry.content->0, value)
    &&& tight(value)
}

/// An attribute counts as `value` exactly if it can be read and is `value` with
/// nothing but whitespace around it.
pub proof fn law_reads_exactly(entry: DirEntryView, value: Seq<char>)
    ensures
        reads(entry, value) <==> carries(entry, value),
{
    if entry.content is Some {
        let content = entry.content->0;
        law_trimmed(content);
        if carries(entry, value) {
            law_trimmed_of_padded(content, value);
        }
    }
}

/// The device that is found is the first one whose serial, whitespace around it
/// aside, is the one that is looked for; there is none exactly if there is no such
/// device.
pub proof fn law_first_device_with_serial(
    devices: Seq<DirEntryView>,
    serial: Seq<char>,
    name: Seq<char>,
)
    ensures
        device_with_serial(devices, serial) == Some(name) <==> exists|i: int|
            {
                &&& 0 <= i < devices.len()
                &&& carries(#[trigger] devices[i], serial)
                &&& devices[i].name == name
                &&& forall|j: int| 0 <= j < i ==> !carries(#[trigger] devices[j], serial)
            },
        device_with_serial(devices, serial) is None <==> forall|i: int|
            0 <= i < devices.len() ==> !carries(#[trigger] devices[i], serial),
    decreases devices.len(),
{
    if devices.len() > 0 {
        law_reads_exactly(devices[0], serial);
        let rest = devices.skip(1);
        law_first_device_with_serial(rest, serial, name);
        assert forall|i: int| 0 < i < devices.len() implies #[trigger] devices[i] == rest[i
            - 1] by {}
        if !carries(devices[0], serial) {
            if device_with_serial(rest, serial) == Some(name) {
                let i = choose|i: int|
                    {
                        &&& 0 <= i < rest.len()
                        &&& carries(#[trigger] rest[i], serial)
                        &&& rest[i].name == name
                        &&& forall|j: int| 0 <= j < i ==> !carries(#[trigger] rest[j], serial)
                    };
                assert(devices[i + 1] == rest[i]);
                assert forall|j: int| 0 <= j < i + 1 implies !carries(
                    #[trigger] devices[j],
                    serial,
                ) by {
                    if j > 0 {
                        assert(devices[j] == rest[j - 1]);
                    }
                }
            }
            if exists|i: int|
                {
                    &&& 0 <= i < devices.len()
                    &&& carries(#[trigger] devices[i], serial)
                    &&& devices[i].name == name
                    &&& forall|j: int| 0 <= j < i ==> !carries(#[trigger] devices[j], serial)
                } {
                let i = choose|i: int|
                    {
                        &&& 0 <= i < devices.len()
                        &&& carries(#[trigger] devices[i], serial)
                        &&& devices[i].name == name
                        &&& forall|j: int| 0 <= j < i ==> !carries(#[trigger] devices[j], serial)
                    };
                assert(carries(rest[i - 1], serial));
                assert forall|j: int| 0 <= j < i - 1 implies !carries(
                    #[trigger] rest[j],
                    serial,
                ) by {
                    assert(rest[j] == devices[j + 1]);
                }
            }
            if forall|i: int| 0 <= i < devices.len() ==> !carries(#[trigger] devices[i], serial) {
                assert forall|i: int| 0 <= i < rest.len() implies !carries(
                    #[trigger] rest[i],
                    serial,
                ) by {
                    assert(rest[i] == devices[i + 1]);
                }
            }
        }
    }
}

/// The path of a partition is made of the name of the last entry with its number,
/// whitespace around it aside; there is none exactly if there is no such entry.
pub proof fn law_last_partition_with_number(
    entries: Seq<DirEntryView>,
    number: Seq<char>,
    path: Seq<char>,
)
    ensures
        partition(entries, number) == Some(path) <==> exists|i: int|
            {
                &&& 0 <= i < entries.len()
                &&& carries(#[trigger] entries[i], number)
                &&& path == "/dev/"@ + entries[i].name
                &&& forall|j: int| i < j < entries.len() ==> !carries(#[trigger] entries[j], number)
            },
        partition(entries, number) is None <==> forall|i: int|
            0 <= i < entries.len() ==> !carries(#[trigger] entries[i], number),
    decreases entries.len(),
{
    if entries.len() > 0 {
        let k = entries.len() - 1;
        law_reads_exactly(entries[k], number);
        let before = entries.drop_last();
        law_last_partition_with_number(before, number, path);
        if carries(entries[k], number) {
            if exists|i: int|
                {
                    &&& 0 <= i < entries.len()
                    &&& carries(#[trigger] entries[i], number)
                    &&& path == "/dev/"@ + entries[i].name
                    &&& forall|j: int|
                        i < j < entries.len() ==> !carries(#[trigger] entries[j], number)
                } {
                let i = choose|i: int|
                    {
                        &&& 0 <= i < entries.len()
                        &&& carries(#[trigger] entries[i], number)
                        &&& path == "/dev/"@ + entries[i].name
                        &&& forall|j: int|
                            i < j < entries.len() ==> !carries(#[trigger] entries[j], number)
                    };
                assert(i == k);
            }
        } else {
            if partition(before, number) == Some(path) {
                let i = choose|i: int|
                    {
                        &&& 0 <= i < before.len()
                        &&& carries(#[trigger] before[i], number)
                        &&& path == "/dev/"@ + before[i].name
                        &&& forall|j: int|
                            i < j < before.len() ==> !carries(#[trigger] before[j], number)
                    };
                assert(entries[i] == before[i]);
                assert forall|j: int| i < j < entries.len() implies !carries(
                    #[trigger] entries[j],
                    number,
                ) by {
                    if j < k {
                        assert(entries[j] == before[j]);
                    }
                }
            }
            if exists|i: int|
                {
                    &&& 0 <= i < entries.len()
                    &&& carries(#[trigger] entries[i], number)
                    &&& path == "/dev/"@ + entries[i].name
                    &&& forall|j: int|
                        i < j < entries.len() ==> !carries(#[trigger] entries[j], number)
                } {
                let i = choose|i: int|
                    {
                        &&& 0 <= i < entries.len()
                        &&& carries(#[trigger] entries[i], number)
                        &&& path == "/dev/"@ + entries[i].name
                        &&& forall|j: int|
                            i < j < entries.len() ==> !carries(#[trigger] entries[j], number)
                    };
                assert(carries(before[i], number));
                assert forall|j: int| i < j < before.len() implies !carries(
                    #[trigger] before[j],
                    number,
                ) by {
                    assert(before[j] == entries[j]);
                }
            }
            if forall|i: int| 0 <= i < entries.len() ==> !carries(#[trigger] entries[i], number) {
                assert forall|i: int| 0 <= i < before.len() implies !carries(
                    #[trigger] before[i],
                    number,
                ) by {
                    assert(before[i] == entries[i]);
                }
            }
            if forall|i: int| 0 <= i < before.len() ==> !carries(#[trigger] before[i], number) {
                assert forall|i: int| 0 <= i < entries.len() implies !carries(
                    #[trigger] entries[i],
                    number,
                ) by {
                    if i < k {
                        assert(entries[i] == before[i]);
                    }
                }
            }
        }
    }
}

/// Partition 1 holds the data and partition 2 the hashes. A device is refused
/// exactly if it lacks one of them; the data partition is missed first.
pub proof fn law_partitions(entries: Seq<DirEntryView>, dev: Seq<char>)
    ensures
        partitions(entries, dev) is Ok ==> {
            &&& partition(entries, "1"@) == Some(partitions(entries, dev)->Ok_0.0)
            &&& partition(entries, "2"@) == Some(partitions(entries, dev)->Ok_0.1)
        },
        partitions(entries, dev) is Ok <==> {
            &&& exists|i: int| 0 <= i < entries.len() && carries(#[trigger] entries[i], "1"@)
            &&& exists|i: int| 0 <= i < entries.len() && carries(#[trigger] entries[i], "2"@)
        },
        partition(entries, "1"@) is None ==> partitions(entries, dev) == Err::<
            (Seq<char>, Seq<char>),
            AddonErrorView,
        >(AddonErrorView::MissingDataPartition { dev }),
        partition(entries, "1"@) is Some && partition(entries, "2"@) is None ==> partitions(
            entries,
            dev,
        ) == Err::<(Seq<char>, Seq<char>), AddonErrorView>(
            AddonErrorView::MissingHashPartition { dev },
        ),
{
    law_last_partition_with_number(entries, "1"@, Seq::empty());
    law_last_partition_with_number(entries, "2"@, Seq::empty());
}

} // verus!
