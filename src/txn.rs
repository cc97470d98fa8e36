use vstd::prelude::*;

verus! {

/// Buffered writes as (key, value) byte sequences, in the order in which
/// their keys were first written.
pub type WritesView = Seq<(Seq<u8>, Seq<u8>)>;

/// Each key appears at most once.
pub open spec fn keys_unique(w: WritesView) -> bool {
    forall|i: int, j: int| 0 <= i < w.len() && 0 <= j < w.len() && i != j ==> w[i].0 != w[j].0
}

/// `key` has a buffered write.
pub open spec fn has_key(w: WritesView, key: Seq<u8>) -> bool {
    exists|i: int| 0 <= i < w.len() && #[trigger] w[i].0 == key
}

/// Byte-wise equality of two byte vectors.
pub fn bytes_eq(a: &Vec<u8>, b: &Vec<u8>) -> (r: bool)
    ensures
        r == (a@ == b@),
{
    if a.len() != b.len() {
        return false;
    }
    let mut i: usize = 0;
    while i < a.len()
        invariant
            a.len() == b.len(),
            i <= a.len(),
            forall|j: int| 0 <= j < i ==> a@[j] == b@[j],
        decreases a.len() - i,
    {
        if a[i] != b[i] {
            return false;
        }
        i = i + 1;
    }
    assert(a@ =~= b@);
    true
}

/// A copy of a byte vector.
pub fn copy_bytes(v: &Vec<u8>) -> (r: Vec<u8>)
    ensures
        r@ == v@,
{
    let r = v.clone();
    assert(r@ =~= v@);
    r
}

/// A transaction's local state: its start timestamp, which fixes the
/// snapshot it reads, and the writes buffered until commit. The first key
/// written is the primary key.
pub struct Transaction {
    start_ts: u64,
    writes: Vec<(Vec<u8>, Vec<u8>)>,
}

impl Transaction {
    /// Start timestamp of the transaction.
    pub closed spec fn start_ts_spec(&self) -> u64 {
        self.start_ts
    }

    /// The buffered writes, as byte sequences.
    pub closed spec fn writes_view(&self) -> WritesView {
        self.writes@.map_values(|p: (Vec<u8>, Vec<u8>)| (p.0@, p.1@))
    }

    /// The buffered keys are unique.
    pub open spec fn wf(&self) -> bool {
        keys_unique(self.writes_view())
    }

    /// A transaction reading at `start_ts`, with nothing buffered.
    pub fn new(start_ts: u64) -> (r: Transaction)
        ensures
            r.wf(),
            r.start_ts_spec() == start_ts,
            r.writes_view() == Seq::<(Seq<u8>, Seq<u8>)>::empty(),
    {
        let r = Transaction { start_ts, writes: Vec::new() };
        assert(r.writes_view() =~= Seq::<(Seq<u8>, Seq<u8>)>::empty());
        r
    }

    /// Start timestamp of the transaction.
    pub fn start_ts(&self) -> (r: u64)
        ensures
            r == self.start_ts_spec(),
    {
        self.start_ts
    }

    /// Number of buffered writes.
    pub fn len(&self) -> (r: usize)
        ensures
            r == self.writes_view().len(),
    {
        self.writes.len()
    }

    /// Index of the buffered write of `key`, if any.
    fn find(&self, key: &Vec<u8>) -> (r: Option<usize>)
        requires
            self.wf(),
        ensures
            r is Some ==> r->0 < self.writes_view().len() && self.writes_view()[r->0 as int].0
                == key@,
            r is None ==> !has_key(self.writes_view(), key@),
    {
        let mut i: usize = 0;
        while i < self.writes.len()
            invariant
                i <= self.writes.len(),
                self.writes_view().len() == self.writes.len(),
                forall|j: int| 0 <= j < i ==> self.writes_view()[j].0 != key@,
            decreases self.writes.len() - i,
        {
            if bytes_eq(&self.writes[i].0, key) {
                return Some(i);
            }
            i = i + 1;
        }
        None
    }

    /// The buffered value of `key`, if the transaction has written it.
    pub fn get_buffered(&self, key: &Vec<u8>) -> (r: Option<Vec<u8>>)
        requires
            self.wf(),
        ensures
            r is Some <==> has_key(self.writes_view(), key@),
            r is Some ==> exists|i: int|
                0 <= i < self.writes_view().len() && #[trigger] self.writes_view()[i].0 == key@
                    && self.writes_view()[i].1 == r->0@,
    {
        match self.find(key) {
            Some(i) => {
                let v = copy_bytes(&self.writes[i].1);
                assert(self.writes_view()[i as int].0 == key@);
                Some(v)
            },
            None => None,
        }
    }

    /// Key and value of the buffered write at `index`.
    pub fn write_at(&self, index: usize) -> (r: (&Vec<u8>, &Vec<u8>))
        requires
            index < self.writes_view().len(),
        ensures
            r.0@ == self.writes_view()[index as int].0,
            r.1@ == self.writes_view()[index as int].1,
    {
        (&self.writes[index].0, &self.writes[index].1)
    }

    /// Buffers `value` for `key`: a write of a key already buffered replaces
    /// its value in place, a write of a new key is added at the end.
    pub fn set(&mut self, key: Vec<u8>, value: Vec<u8>)
        requires
            old(self).wf(),
        ensures
            final(self).wf(),
            final(self).start_ts_spec() == old(self).start_ts_spec(),
            has_key(old(self).writes_view(), key@) ==> exists|i: int|
                0 <= i < old(self).writes_view().len() && #[trigger] old(self).writes_view()[i].0
                    == key@ && final(self).writes_view() == old(self).writes_view().update(
                    i,
                    (key@, value@),
                ),
            !has_key(old(self).writes_view(), key@) ==> final(self).writes_view() == old(
                self,
            ).writes_view().push((key@, value@)),
    {
        let ghost w = self.writes_view();
        match self.find(&key) {
            Some(i) => {
                let ghost k = key@;
                let ghost v = value@;
                self.writes.set(i, (key, value));
                assert(self.writes_view() =~= w.update(i as int, (k, v)));
                assert(w[i as int].0 == k);
            },
            None => {
                let ghost k = key@;
                let ghost v = value@;
                self.writes.push((key, value));
                assert(self.writes_view() =~= w.push((k, v)));
            },
        }
    }
}

} // verus!
