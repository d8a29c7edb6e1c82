//! The CAN tracer: the bus speeds a user can pick, the table of the latest frame seen on
//! each identifier (shown in identifier order), and which bytes of a frame changed since
//! it was last shown.

use vstd::prelude::*;
use vstd::string::*;
use std::collections::HashMap;
use crate::iface::InterfacePayload;
use crate::text::{push_hex2, hex2};

verus! {

/// A CAN bus speed and its label.
#[derive(Debug, Copy, Clone)]
pub struct CanSpeed {
    pub baud: u32,
    pub text: &'static str,
}

/// The bus speeds offered, slowest first, as (baud, label).
pub open spec fn can_speed_table() -> Seq<(u32, Seq<char>)> {
    seq![
        (5000u32, "5 kbit/s"@), (10000u32, "10 kbit/s"@), (20000u32, "20 kbit/s"@),
        (25000u32, "25 kbit/s"@), (33333u32, "33.3 kbit/s"@), (50000u32, "50 kbit/s"@),
        (80000u32, "80 kbit/s"@), (83333u32, "83.3 kbit/s"@), (100000u32, "100 kbit/s"@),
        (125000u32, "125 kbit/s"@), (200000u32, "200 kbit/s"@), (250000u32, "250 kbit/s"@),
        (500000u32, "500 kbit/s"@), (1000000u32, "1 mbit/s"@),
    ]
}

impl CanSpeed {
    /// The label of the speed.
    pub fn to_string(&self) -> (r: String)
        ensures
            r@ == self.text@,
    {
        String::from_str(self.text)
    }
}

/// The bus speeds a user can pick, slowest first.
pub fn can_speeds() -> (r: Vec<CanSpeed>)
    ensures
        r@.len() == can_speed_table().len(),
        forall|i: int| 0 <= i < r@.len() ==> (#[trigger] r@[i]).baud == can_speed_table()[i].0
            && r@[i].text@ == can_speed_table()[i].1,
{
    let mut r: Vec<CanSpeed> = Vec::new();
    r.push(CanSpeed { baud: 5000, text: "5 kbit/s" });
    r.push(CanSpeed { baud: 10000, text: "10 kbit/s" });
    r.push(CanSpeed { baud: 20000, text: "20 kbit/s" });
    r.push(CanSpeed { baud: 25000, text: "25 kbit/s" });
    r.push(CanSpeed { baud: 33333, text: "33.3 kbit/s" });
    r.push(CanSpeed { baud: 50000, text: "50 kbit/s" });
    r.push(CanSpeed { baud: 80000, text: "80 kbit/s" });
    r.push(CanSpeed { baud: 83333, text: "83.3 kbit/s" });
    r.push(CanSpeed { baud: 100000, text: "100 kbit/s" });
    r.push(CanSpeed { baud: 125000, text: "125 kbit/s" });
    r.push(CanSpeed { baud: 200000, text: "200 kbit/s" });
    r.push(CanSpeed { baud: 250000, text: "250 kbit/s" });
    r.push(CanSpeed { baud: 500000, text: "500 kbit/s" });
    r.push(CanSpeed { baud: 1000000, text: "1 mbit/s" });
    r
}

/// The speed a tracer starts with: 500 kbit/s.
pub fn default_can_speed() -> (r: CanSpeed)
    ensures
        r.baud == 500000,
        r.text@ == "500 kbit/s"@,
{
    CanSpeed { baud: 500000, text: "500 kbit/s" }
}

/// The latest frame received on each identifier, keyed by identifier, with the
/// identifiers seen kept in rising order for display.
#[derive(Debug, Clone)]
pub struct CanTrace {
    frames: HashMap<u32, InterfacePayload>,
    ids: Vec<u32>,
}

/// The identifiers of a list of frames rise strictly.
pub open spec fn ids_ascending(frames: Seq<InterfacePayload>) -> bool {
    forall|a: int, b: int| 0 <= a < b < frames.len() ==> frames[a].id < frames[b].id
}

/// A list of identifiers rises strictly.
pub open spec fn keys_ascending(ids: Seq<u32>) -> bool {
    forall|a: int, b: int| 0 <= a < b < ids.len() ==> ids[a] < ids[b]
}

impl View for CanTrace {
    type V = Map<u32, InterfacePayload>;

    closed spec fn view(&self) -> Map<u32, InterfacePayload> {
        self.frames@
    }
}

impl CanTrace {
    /// The identifiers are listed in rising order, exactly the keys of the table, and
    /// each frame sits under its own identifier.
    pub closed spec fn wf(&self) -> bool {
        &&& keys_ascending(self.ids@)
        &&& forall|k: u32| #[trigger] self.frames@.contains_key(k) <==> self.ids@.contains(k)
        &&& forall|k: u32| #[trigger] self.frames@.contains_key(k) ==> self.frames@[k].id == k
    }

    /// The frames in identifier order.
    pub closed spec fn rows(&self) -> Seq<InterfacePayload> {
        Seq::new(self.ids@.len(), |i: int| self.frames@[self.ids@[i]])
    }

    /// The rows are the table's frames, in rising identifier order, one per identifier.
    pub proof fn lemma_rows(&self)
        requires
            self.wf(),
        ensures
            ids_ascending(self.rows()),
            forall|i: int| 0 <= i < self.rows().len() ==> self@.contains_key(#[trigger] self.rows()[i].id)
                && self@[self.rows()[i].id] == self.rows()[i],
            forall|id: u32| self@.contains_key(id) ==> exists|i: int| 0 <= i < self.rows().len() && #[trigger] self.rows()[i].id == id,
    {
        assert forall|i: int| 0 <= i < self.rows().len() implies self.rows()[i].id == self.ids@[i]
            && self@.contains_key(self.ids@[i]) by {
            let k = self.ids@[i];
            assert(self.ids@.contains(k));
            assert(self.frames@.contains_key(k));
            assert(self.frames@[k].id == k);
            assert(self.rows()[i] == self.frames@[k]);
        }
        assert forall|id: u32| self@.contains_key(id) implies exists|i: int| 0 <= i < self.rows().len() && #[trigger] self.rows()[i].id == id by {
            assert(self.ids@.contains(id));
            let j = choose|j: int| 0 <= j < self.ids@.len() && self.ids@[j] == id;
            assert(self.rows()[j].id == id);
        }
    }

    /// An empty table.
    pub fn new() -> (r: Self)
        ensures
            r.wf(),
            r@ == Map::<u32, InterfacePayload>::empty(),
    {
        broadcast use vstd::std_specs::hash::group_hash_axioms;
        CanTrace { frames: HashMap::new(), ids: Vec::new() }
    }

    /// Forgets every frame.
    pub fn clear(&mut self)
        ensures
            final(self).wf(),
            final(self)@ == Map::<u32, InterfacePayload>::empty(),
    {
        broadcast use vstd::std_specs::hash::group_hash_axioms;
        self.frames = HashMap::new();
        self.ids = Vec::new();
    }

    /// The number of identifiers seen.
    pub fn len(&self) -> (r: usize)
        requires
            self.wf(),
        ensures
            r == self.rows().len(),
    {
        self.ids.len()
    }

    /// The row at position `i` (identifier order).
    pub fn row(&self, i: usize) -> (r: &InterfacePayload)
        requires
            self.wf(),
            i < self.rows().len(),
        ensures
            *r == self.rows()[i as int],
    {
        broadcast use vstd::std_specs::hash::group_hash_axioms;
        let k = self.ids[i];
        assert(self.ids@.contains(k));
        match self.frames.get(&k) {
            Some(f) => f,
            None => {
                proof { assert(false); }
                self.frames.get(&k).unwrap()
            },
        }
    }

    /// Records a received frame: it replaces the frame seen before on its identifier.
    pub fn insert(&mut self, f: InterfacePayload)
        requires
            old(self).wf(),
        ensures
            final(self).wf(),
            final(self)@ == old(self)@.insert(f.id, f),
    {
        broadcast use vstd::std_specs::hash::group_hash_axioms;
        let ghost ks = self.ids@;
        let id = f.id;
        let mut i: usize = 0;
        while i < self.ids.len() && self.ids[i] < id
            invariant
                i <= self.ids@.len(),
                self.ids@ == ks,
                keys_ascending(ks),
                forall|j: int| 0 <= j < i ==> ks[j] < id,
            decreases self.ids@.len() - i,
        {
            i = i + 1;
        }
        if !(i < self.ids.len() && self.ids[i] == id) {
            self.ids.insert(i, id);
            proof {
                let nk = self.ids@;
                assert(nk.len() == ks.len() + 1);
                assert forall|j: int| 0 <= j < i implies nk[j] == ks[j] by {}
                assert forall|j: int| i < j < nk.len() implies nk[j] == ks[j - 1] by {}
                assert(nk[i as int] == id);
                assert(i < ks.len() ==> ks[i as int] > id);
                assert forall|a: int, b: int| 0 <= a < b < nk.len() implies nk[a] < nk[b] by {
                    if b == i {
                    } else if a == i {
                        if b - 1 > i {
                            assert(ks[i as int] < ks[b - 1]);
                        }
                    } else if a < i && b > i {
                        assert(ks[a] < id);
                        if b - 1 > i {
                            assert(ks[i as int] < ks[b - 1]);
                        }
                    }
                }
                assert forall|k: u32| nk.contains(k) <==> (ks.contains(k) || k == id) by {
                    if nk.contains(k) {
                        let j = choose|j: int| 0 <= j < nk.len() && nk[j] == k;
                        if j < i { assert(ks[j] == k); } else if j > i { assert(ks[j - 1] == k); }
                    }
                    if ks.contains(k) {
                        let j = choose|j: int| 0 <= j < ks.len() && ks[j] == k;
                        if j < i { assert(nk[j] == k); } else { assert(nk[j + 1] == k); }
                    }
                    if k == id { assert(nk[i as int] == k); }
                }
            }
        } else {
            proof {
                assert(ks.contains(id));
            }
        }
        self.frames.insert(id, f);
    }

    /// Records a batch of received frames in order; a later frame on an identifier
    /// replaces an earlier one.
    pub fn insert_frames_to_map(&mut self, frames: Vec<InterfacePayload>)
        requires
            old(self).wf(),
        ensures
            final(self).wf(),
            final(self)@ == inserted_all(old(self)@, frames@),
    {
        let ghost start = self@;
        let ghost all = frames@;
        let n = frames.len();
        let mut rest = frames;
        let mut i: usize = 0;
        while rest.len() > 0
            invariant
                self.wf(),
                all.len() == n,
                i <= all.len(),
                rest@ == all.subrange(i as int, all.len() as int),
                self@ == inserted_all(start, all.subrange(0, i as int)),
            decreases rest@.len(),
        {
            let f = rest.remove(0);
            proof {
                assert(all.subrange(0, i + 1).drop_last() =~= all.subrange(0, i as int));
                assert(f == all[i as int]);
            }
            self.insert(f);
            assert(rest@ =~= all.subrange(i + 1, all.len() as int));
            i = i + 1;
        }
        assert(all.subrange(0, all.len() as int) =~= all);
    }
}

/// A table after a batch of frames was recorded, one after the other.
pub open spec fn inserted_all(m: Map<u32, InterfacePayload>, frames: Seq<InterfacePayload>) -> Map<u32, InterfacePayload>
    decreases frames.len(),
{
    if frames.len() == 0 {
        m
    } else {
        inserted_all(m, frames.drop_last()).insert(frames.last().id, frames.last())
    }
}

/// The frame recorded last on an identifier is the one the table shows for it.
pub proof fn lemma_latest_frame_wins(m: Map<u32, InterfacePayload>, frames: Seq<InterfacePayload>, f: InterfacePayload)
    ensures
        inserted_all(m, frames.push(f)).contains_key(f.id),
        inserted_all(m, frames.push(f))[f.id] == f,
{
    assert(frames.push(f).drop_last() =~= frames);
}

/// Which bytes of a frame differ from the frame shown before on the same identifier.
pub fn changed_bytes(new: &[u8], old: &[u8]) -> (r: Vec<bool>)
    requires
        new@.len() <= old@.len(),
    ensures
        r@.len() == new@.len(),
        forall|i: int| 0 <= i < new@.len() ==> #[trigger] r@[i] == (new@[i] != old@[i]),
{
    let mut r: Vec<bool> = Vec::new();
    let mut i: usize = 0;
    while i < new.len()
        invariant
            new@.len() <= old@.len(),
            i <= new@.len(),
            r@.len() == i,
            forall|j: int| 0 <= j < i ==> #[trigger] r@[j] == (new@[j] != old@[j]),
        decreases new@.len() - i,
    {
        r.push(new[i] != old[i]);
        i = i + 1;
    }
    r
}

/// A byte as eight binary digits, most significant first (`{:08b}`).
pub open spec fn bin8(b: u8) -> Seq<char> {
    Seq::new(8, |i: int| if (b >> (7 - i) as u8) & 1 == 1 { '1' } else { '0' })
}

/// A byte as the tracer shows it: eight binary digits, or two hex digits.
pub fn byte_text(b: u8, binary: bool) -> (r: String)
    ensures
        r@ == if binary { bin8(b) } else { hex2(b) },
{
    let mut s = String::new();
    if binary {
        let mut i: u8 = 0;
        while i < 8
            invariant
                i <= 8,
                s@.len() == i,
                forall|j: int| 0 <= j < i ==> s@[j] == (if (b >> (7 - j) as u8) & 1 == 1 { '1' } else { '0' }),
            decreases 8 - i,
        {
            let ghost before = s@;
            if (b >> (7 - i)) & 1 == 1 {
                proof { reveal_strlit("1"); }
                s.append("1");
            } else {
                proof { reveal_strlit("0"); }
                s.append("0");
            }
            assert(forall|j: int| 0 <= j < i ==> s@[j] == before[j]);
            i = i + 1;
        }
        assert(s@ =~= bin8(b));
    } else {
        push_hex2(&mut s, b);
    }
    s
}

} // verus!
