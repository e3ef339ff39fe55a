use vstd::prelude::*;
use vstd::utf8::encode_utf8;

verus! {

/// A capture device as the inventory describes it.
pub struct CameraDevice {
    pub name: String,
    pub path: String,
}

/// An inventory entry: a device under its stable bus key.
pub struct KeyedDevice {
    pub bus: String,
    pub device: CameraDevice,
}

/// Byte-wise lexicographic order, the order of `str`: `a` is greater than
/// `b` when it is larger at their first difference, or when `b` is a proper
/// prefix of `a`.
pub open spec fn bytes_greater(a: Seq<u8>, b: Seq<u8>) -> bool {
    exists|k: int|
        0 <= k <= a.len() && k <= b.len() && a.take(k) == b.take(k) && ((k < a.len() && k
            < b.len() && a[k] > b[k]) || (k == b.len() && k < a.len()))
}

/// Whether path `a` sorts after path `b`.
pub open spec fn path_greater(a: Seq<char>, b: Seq<char>) -> bool {
    bytes_greater(encode_utf8(a), encode_utf8(b))
}

/// Whether some entry of `s` has bus key `bus`.
pub open spec fn has_bus(s: Seq<KeyedDevice>, bus: Seq<char>) -> bool {
    exists|i: int| 0 <= i < s.len() && s[i].bus@ == bus
}

/// No two entries of `s` share a bus key.
pub open spec fn unique_buses(s: Seq<KeyedDevice>) -> bool {
    forall|i: int, j: int| 0 <= i < j < s.len() ==> s[i].bus@ != s[j].bus@
}

/// Entry `e` after a device with path `path` was seen under the same key:
/// the greater of the two paths stays.
pub open spec fn merged(e: KeyedDevice, path: String) -> KeyedDevice {
    if path_greater(path@, e.device.path@) {
        KeyedDevice { bus: e.bus, device: CameraDevice { name: e.device.name, path: path } }
    } else {
        e
    }
}

fn str_greater(a: &str, b: &str) -> (r: bool)
    ensures
        r == path_greater(a@, b@),
{
    let x = a.as_bytes();
    let y = b.as_bytes();
    let ghost xs = x@;
    let ghost ys = y@;
    let mut i: usize = 0;
    while i < x.len() && i < y.len()
        invariant
            x@ == xs,
            y@ == ys,
            xs == encode_utf8(a@),
            ys == encode_utf8(b@),
            0 <= i <= xs.len(),
            i <= ys.len(),
            xs.take(i as int) == ys.take(i as int),
        decreases xs.len() - i,
    {
        if x[i] != y[i] {
            let r = x[i] > y[i];
            proof {
                if r {
                    assert(bytes_greater(xs, ys));
                } else {
                    assert forall|k: int|
                        0 <= k <= xs.len() && k <= ys.len() && xs.take(k) == ys.take(k) implies !((
                        k < xs.len() && k < ys.len() && xs[k] > ys[k]) || (k == ys.len() && k
                        < xs.len())) by {
                        if k > i {
                            assert(xs.take(k)[i as int] == xs[i as int]);
                            assert(ys.take(k)[i as int] == ys[i as int]);
                        }
                        if k < i {
                            assert(xs.take(i as int)[k] == xs[k]);
                            assert(ys.take(i as int)[k] == ys[k]);
                        }
                    }
                }
            }
            return r;
        }
        assert(xs.take(i + 1) =~= xs.take(i as int).push(xs[i as int]));
        assert(ys.take(i + 1) =~= ys.take(i as int).push(ys[i as int]));
        i = i + 1;
    }
    let r = x.len() > y.len();
    proof {
        if r {
            assert(bytes_greater(xs, ys));
        } else {
            assert forall|k: int|
                0 <= k <= xs.len() && k <= ys.len() && xs.take(k) == ys.take(k) implies !((k
                < xs.len() && k < ys.len() && xs[k] > ys[k]) || (k == ys.len() && k
                < xs.len())) by {
                if k < xs.len() && k < ys.len() {
                    assert(xs.take(i as int)[k] == xs[k]);
                    assert(ys.take(i as int)[k] == ys[k]);
                }
            }
        }
    }
    r
}

/// The devices found in one scan, at most one per bus key.
pub struct UniqueCameraDeviceList {
    entries: Vec<KeyedDevice>,
}

impl View for UniqueCameraDeviceList {
    type V = Seq<KeyedDevice>;

    closed spec fn view(&self) -> Seq<KeyedDevice> {
        self.entries@
    }
}

impl UniqueCameraDeviceList {
    /// Well-formed: no two entries share a bus key.
    pub open spec fn wf(&self) -> bool {
        unique_buses(self@)
    }

    /// An empty list.
    pub fn new() -> (r: Self)
        ensures
            r@ == Seq::<KeyedDevice>::empty(),
            r.wf(),
    {
        UniqueCameraDeviceList { entries: Vec::new() }
    }

    /// The entries, in the order their keys were first seen.
    pub fn entries(&self) -> (r: &Vec<KeyedDevice>)
        ensures
            r@ == self@,
    {
        &self.entries
    }

    pub fn len(&self) -> (r: usize)
        ensures
            r == self@.len(),
    {
        self.entries.len()
    }

    /// Whether some entry has bus key `bus`.
    pub fn contains_key(&self, bus: &String) -> (r: bool)
        ensures
            r == has_bus(self@, bus@),
    {
        let mut i: usize = 0;
        while i < self.entries.len()
            invariant
                0 <= i <= self.entries@.len(),
                forall|j: int| 0 <= j < i ==> self.entries@[j].bus@ != bus@,
            decreases self.entries@.len() - i,
        {
            if self.entries[i].bus == *bus {
                return true;
            }
            i = i + 1;
        }
        false
    }
}

impl CameraDevice {
    /// Records a device found under bus key `bus`. A new key is appended;
    /// for a key already listed the lexicographically greater path wins and
    /// the listed name stays.
    pub fn assign_device(
        device_list: &mut UniqueCameraDeviceList,
        bus: String,
        name: String,
        path: String,
    )
        requires
            old(device_list).wf(),
        ensures
            final(device_list).wf(),
            !has_bus(old(device_list)@, bus@) ==> final(device_list)@ == old(device_list)@.push(
                (KeyedDevice { bus: bus, device: CameraDevice { name: name, path: path } }),
            ),
            forall|i: int|
                0 <= i < old(device_list)@.len() && old(device_list)@[i].bus@ == bus@
                    ==> final(device_list)@ == old(device_list)@.update(
                    i,
                    merged(old(device_list)@[i], path),
                ),
    {
        let ghost old_entries = device_list.entries@;
        let mut i: usize = 0;
        while i < device_list.entries.len()
            invariant
                device_list.entries@ == old_entries,
                old(device_list)@ == old_entries,
                unique_buses(old_entries),
                0 <= i <= old_entries.len(),
                forall|j: int| 0 <= j < i ==> old_entries[j].bus@ != bus@,
            decreases old_entries.len() - i,
        {
            if device_list.entries[i].bus == bus {
                if str_greater(path.as_str(), device_list.entries[i].device.path.as_str()) {
                    let mut entries = Vec::new();
                    core::mem::swap(&mut entries, &mut device_list.entries);
                    let mut e = entries.remove(i);
                    e.device.path = path;
                    entries.insert(i, e);
                    proof {
                        assert(entries@ =~= old_entries.update(i as int, merged(old_entries[i as int], path)));
                        assert(unique_buses(entries@)) by {
                            assert forall|a: int, b: int| 0 <= a < b < entries@.len() implies entries@[a].bus@ != entries@[b].bus@ by {
                                assert(entries@[a].bus@ == old_entries[a].bus@);
                                assert(entries@[b].bus@ == old_entries[b].bus@);
                            }
                        }
                    }
                    device_list.entries = entries;
                } else {
                    assert(old_entries.update(i as int, merged(old_entries[i as int], path)) =~= old_entries);
                }
                proof {
                    assert(old(device_list)@[i as int].bus@ == bus@);
                    assert forall|k: int| 0 <= k < old(device_list)@.len() && old(device_list)@[k].bus@ == bus@ implies k == i by {
                        if k > i {
                            assert(old_entries[i as int].bus@ != old_entries[k].bus@);
                        }
                    }
                }
                return ;
            }
            i = i + 1;
        }
        device_list.entries.push(KeyedDevice { bus: bus, device: CameraDevice { name: name, path: path } });
        proof {
            assert(device_list.entries@[old_entries.len() as int].bus@ == bus@);
        }
    }
}

} // verus!
