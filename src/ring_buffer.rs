//! The ring buffer's index protocol. A ring of `capacity` cells is read by
//! one reader at the read index and written by many writers at the write
//! index. Equal indices mean empty; a write index one cell behind the read
//! index means full, and a write into a full ring first evicts the oldest
//! cell. Both indices only step forward, by compare-exchange.
//!
//! Each cell's value is moved only while its own lock is held; the steps
//! below take that value as `&mut` from the holder of the lock.
use crate::wait_wake::SyncError;
use std::sync::atomic::{AtomicUsize, Ordering};
use vstd::prelude::*;

verus! {

/// The content of one cell.
#[derive(Debug)]
pub enum CellValue<T> {
    Vacant,
    Occupied(T),
    Cancelled,
}

impl<T> CellValue<T> {
    /// Takes an occupied cell's value and leaves it vacant; any other cell
    /// is left as it is.
    pub fn take(&mut self) -> (r: Option<T>)
        ensures
            (*old(self)) is Occupied ==> r == Some((*old(self))->Occupied_0) && (*final(self)) is Vacant,
            !((*old(self)) is Occupied) ==> r is None && *final(self) == *old(self),
    {
        let mut taken = CellValue::Vacant;
        core::mem::swap(self, &mut taken);
        match taken {
            CellValue::Occupied(v) => Some(v),
            other => {
                *self = other;
                None
            },
        }
    }

    pub fn is_vacant(&self) -> (r: bool)
        ensures
            r == (self is Vacant),
    {
        match self {
            CellValue::Vacant => true,
            _ => false,
        }
    }
}

/// How far `dst` lies ahead of `src` on a ring of `n` cells.
pub open spec fn forward_distance(src: int, dst: int, n: int) -> int {
    if src <= dst {
        dst - src
    } else {
        n - (src - dst)
    }
}

/// The cell after `i` on a ring of `n` cells.
pub open spec fn next_of(i: int, n: int) -> int {
    if i + 1 == n {
        0
    } else {
        i + 1
    }
}

/// The cells written and not yet read: from the read index up to the write
/// index.
pub open spec fn unread(read: int, write: int, n: int) -> int {
    forward_distance(read, write, n)
}

/// A failure that names an index word value outside a ring of `n` cells.
pub open spec fn index_out_of_ring(e: SyncError, n: int) -> bool {
    e matches SyncError::CorruptIndex(i) && i >= n
}

/// Where a writer goes next.
#[derive(Debug, Clone, Copy, PartialEq, Eq)]
pub enum WriteTarget {
    /// The ring is full: evict the cell at this read index first.
    Evict(usize),
    /// Write into the cell at this write index.
    Write(usize),
}

/// The ring is full when the write index stands one cell behind the read
/// index; then the oldest cell is evicted, else the writer writes.
pub open spec fn plan_for(write: usize, read: usize, n: usize) -> WriteTarget {
    if forward_distance(write as int, read as int, n as int) == 1 {
        WriteTarget::Evict(read)
    } else {
        WriteTarget::Write(write)
    }
}

/// What a read step found in the cell at the read index.
#[derive(Debug)]
pub enum ReadStep<T> {
    /// The value read; the read index moved past its cell.
    Value(T),
    /// Nothing has been written to the cell yet: wait on its condition
    /// variable and look again.
    Wait,
    /// The cell was evicted, or an index moved: start the read again.
    Retry,
}

/// What a reader does at the cell `read`.
#[derive(Debug, Clone, Copy, PartialEq, Eq)]
pub enum ReadPlan {
    /// Take the value and move the read index on.
    Take,
    /// Wait on the cell's condition variable and look again.
    Wait,
    /// Start the read again.
    Retry,
}

/// The reader's plan at the cell `read`, with the read index now at
/// `read_now` and the write index at `write_now`. An index that moved gives
/// a retry. A vacant cell gives a wait. A cancelled cell gives a wait while
/// no writer has reached it again, a retry once one has. An occupied cell is
/// taken once the write index has moved past it, and retried before.
pub open spec fn read_plan<T>(read: usize, read_now: usize, write_now: usize, cell: CellValue<T>) -> ReadPlan {
    if read_now != read {
        ReadPlan::Retry
    } else {
        match cell {
            CellValue::Vacant => ReadPlan::Wait,
            CellValue::Cancelled => if write_now != read {
                ReadPlan::Retry
            } else {
                ReadPlan::Wait
            },
            CellValue::Occupied(_) => if write_now != read {
                ReadPlan::Take
            } else {
                ReadPlan::Retry
            },
        }
    }
}

pub fn plan_read<T>(read: usize, read_now: usize, write_now: usize, cell: &CellValue<T>) -> (k: ReadPlan)
    ensures
        k == read_plan(read, read_now, write_now, *cell),
{
    if read_now != read {
        return ReadPlan::Retry;
    }
    let written_past = write_now != read;
    match cell {
        CellValue::Vacant => ReadPlan::Wait,
        CellValue::Cancelled => if written_past {
            ReadPlan::Retry
        } else {
            ReadPlan::Wait
        },
        CellValue::Occupied(_) => if written_past {
            ReadPlan::Take
        } else {
            ReadPlan::Retry
        },
    }
}

/// The indices of a multi-writer, single-reader ring buffer. The cells'
/// values are kept by the caller, one `CellValue` per cell, each behind a lock
/// of its own that every step below expects to be held.
#[derive(Debug)]
pub struct RingBuffer {
    capacity: usize,
    /// The next cell to read. It moves forward only, and only past a cell
    /// whose value was taken or evicted.
    read_ptr: AtomicUsize,
    /// The next cell to write. It moves forward only, and only past a cell
    /// that holds a new value.
    write_ptr: AtomicUsize,
}

impl RingBuffer {
    #[verifier::type_invariant]
    closed spec fn well_formed(self) -> bool {
        3 <= self.capacity < usize::MAX
    }

    /// The number of cells.
    pub closed spec fn size(self) -> int {
        self.capacity as int
    }

    /// An empty ring of `capacity` cells. Three cells at least: one always
    /// stays free, so that equal indices can mean empty, and a full ring still
    /// has an oldest cell to evict.
    pub fn new(capacity: usize) -> (r: RingBuffer)
        requires
            3 <= capacity < usize::MAX,
        ensures
            r.size() == capacity,
    {
        RingBuffer { capacity, read_ptr: AtomicUsize::new(0), write_ptr: AtomicUsize::new(0) }
    }

    pub fn capacity(&self) -> (r: usize)
        ensures
            r == self.size(),
            3 <= r < usize::MAX,
    {
        proof {
            use_type_invariant(self);
        }
        self.capacity
    }

    /// How far `dst` lies ahead of `src`.
    pub fn positive_distance(&self, src: usize, dst: usize) -> (r: usize)
        requires
            src < self.size(),
            dst < self.size(),
        ensures
            r == forward_distance(src as int, dst as int, self.size()),
            r < self.size(),
    {
        let n = self.capacity();
        if src <= dst {
            return dst - src;
        }
        n - (src - dst)
    }

    /// The cell after `i`.
    pub fn next_index(&self, i: usize) -> (r: usize)
        requires
            i < self.size(),
        ensures
            r == next_of(i as int, self.size()),
            r < self.size(),
    {
        let n = self.capacity();
        if i + 1 == n {
            0
        } else {
            i + 1
        }
    }

    /// Reads an index word; a value outside the ring is corruption.
    fn load_index(&self, word: &AtomicUsize) -> (r: Result<usize, SyncError>)
        ensures
            r is Ok ==> r->Ok_0 < self.size(),
            r is Err ==> index_out_of_ring(r->Err_0, self.size()),
    {
        let n = self.capacity();
        let i = word.load(Ordering::SeqCst);
        if i < n {
            Ok(i)
        } else {
            Err(SyncError::CorruptIndex(i))
        }
    }

    /// Where a writer that saw these two indices goes next.
    pub fn plan_write(&self, write: usize, read: usize) -> (t: WriteTarget)
        requires
            write < self.size(),
            read < self.size(),
        ensures
            t == plan_for(write, read, self.size() as usize),
    {
        if self.positive_distance(write, read) == 1 {
            WriteTarget::Evict(read)
        } else {
            WriteTarget::Write(write)
        }
    }

    /// Reads both indices and plans the next step of a write.
    pub fn write_target(&self) -> (r: Result<WriteTarget, SyncError>)
        ensures
            r matches Ok(WriteTarget::Evict(i)) ==> i < self.size(),
            r matches Ok(WriteTarget::Write(i)) ==> i < self.size(),
            r is Err ==> index_out_of_ring(r->Err_0, self.size()),
    {
        let write = match self.load_index(&self.write_ptr) {
            Ok(i) => i,
            Err(e) => {
                return Err(e);
            },
        };
        let read = match self.load_index(&self.read_ptr) {
            Ok(i) => i,
            Err(e) => {
                return Err(e);
            },
        };
        Ok(self.plan_write(write, read))
    }

    /// Evicts the oldest cell, `read`, whose lock the caller holds: moves the
    /// read index past it and marks it cancelled, so that a reader asleep on
    /// it starts again. Returns `false`, with the cell untouched, when the
    /// read index has already left `read`.
    pub fn evict<T>(&self, read: usize, cell: &mut CellValue<T>) -> (done: bool)
        requires
            read < self.size(),
        ensures
            done ==> (*final(cell)) is Cancelled,
            !done ==> *final(cell) == *old(cell),
    {
        let next = self.next_index(read);
        match self.read_ptr.compare_exchange(read, next, Ordering::SeqCst, Ordering::SeqCst) {
            Ok(_) => {
                *cell = CellValue::Cancelled;
                true
            },
            Err(_) => false,
        }
    }

    /// Writes `value` into the cell `write`, whose lock the caller holds, and
    /// moves the write index past it. When the write index has already left
    /// `write`, the cell is untouched and the value is handed back.
    pub fn publish<T>(&self, write: usize, cell: &mut CellValue<T>, value: T) -> (r: Result<(), T>)
        requires
            write < self.size(),
        ensures
            r is Ok ==> *final(cell) == CellValue::Occupied(value),
            r is Err ==> r->Err_0 == value && *final(cell) == *old(cell),
    {
        let next = self.next_index(write);
        match self.write_ptr.compare_exchange(write, next, Ordering::SeqCst, Ordering::SeqCst) {
            Ok(_) => {
                *cell = CellValue::Occupied(value);
                Ok(())
            },
            Err(_) => Err(value),
        }
    }

    /// Reads the read index: the cell a read starts at.
    pub fn read_target(&self) -> (r: Result<usize, SyncError>)
        ensures
            r is Ok ==> r->Ok_0 < self.size(),
            r is Err ==> index_out_of_ring(r->Err_0, self.size()),
    {
        self.load_index(&self.read_ptr)
    }

    /// One look at the cell `read`, whose lock the caller holds. If the read
    /// index still stands there, the cell is occupied and the write index
    /// has moved past it, the value is taken and the read index moves on. A
    /// vacant cell, or a cancelled one that no writer has reached again, asks
    /// the reader to wait on the cell; a cell evicted under the reader, or an
    /// index that moved, asks it to start again.
    pub fn take_ready<T>(&self, read: usize, cell: &mut CellValue<T>) -> (step: ReadStep<T>)
        requires
            read < self.size(),
        ensures
            step is Value ==> (*old(cell)) is Occupied && step->Value_0 == (*old(cell))->Occupied_0
                && (*final(cell)) is Vacant,
            step is Wait ==> !((*old(cell)) is Occupied) && *final(cell) == *old(cell),
            step is Retry ==> *final(cell) == *old(cell),
            (*old(cell)) is Vacant ==> !(step is Value),
            (*old(cell)) is Cancelled ==> !(step is Value),
    {
        let read_now = self.read_ptr.load(Ordering::SeqCst);
        let write_now = self.write_ptr.load(Ordering::SeqCst);
        match plan_read(read, read_now, write_now, cell) {
            ReadPlan::Wait => {
                return ReadStep::Wait;
            },
            ReadPlan::Retry => {
                return ReadStep::Retry;
            },
            ReadPlan::Take => {},
        }
        let next = self.next_index(read);
        if self.read_ptr.compare_exchange(read, next, Ordering::SeqCst, Ordering::SeqCst).is_err() {
            return ReadStep::Retry;
        }
        match cell.take() {
            Some(v) => ReadStep::Value(v),
            None => ReadStep::Retry,
        }
    }
}

/// The two indices never cross. With both indices on a ring of `n` cells:
/// at most `n - 1` cells are unread; the ring is planned as full exactly when
/// `n - 1` are; a write into a ring not full adds one unread cell and stays
/// within `n - 1`; an eviction or a read (which happens only while the
/// indices differ) removes one, so the read index never passes the write
/// index.
pub proof fn lemma_index_separation(read: usize, write: usize, n: usize)
    requires
        3 <= n,
        read < n,
        write < n,
    ensures
        0 <= unread(read as int, write as int, n as int) < n,
        (plan_for(write, read, n) is Evict) <==> unread(read as int, write as int, n as int) == n - 1,
        plan_for(write, read, n) is Write ==> unread(read as int, next_of(write as int, n as int), n as int)
            == unread(read as int, write as int, n as int) + 1 <= n - 1,
        plan_for(write, read, n) is Evict ==> read != write && unread(
            next_of(read as int, n as int),
            write as int,
            n as int,
        ) == n - 2,
        read != write ==> unread(next_of(read as int, n as int), write as int, n as int) == unread(
            read as int,
            write as int,
            n as int,
        ) - 1,
{
}

/// The slot `k` cells after `i` on a ring of `n` cells.
pub open spec fn slot(i: int, k: int, n: int) -> int {
    if i + k < n {
        i + k
    } else {
        i + k - n
    }
}

/// A ring as one writer and one reader that take turns see it: both
/// indices and the content of every cell.
pub struct RingModel<T> {
    pub read: int,
    pub write: int,
    pub n: int,
    pub cells: Seq<CellValue<T>>,
}

impl<T> RingModel<T> {
    /// An empty ring of `n` vacant cells.
    pub open spec fn empty(n: int) -> RingModel<T> {
        RingModel { read: 0, write: 0, n, cells: Seq::new(n as nat, |i: int| CellValue::Vacant) }
    }

    /// Both indices lie on the ring, and every unread cell is occupied.
    pub open spec fn wf(self) -> bool {
        &&& 3 <= self.n < usize::MAX
        &&& 0 <= self.read < self.n
        &&& 0 <= self.write < self.n
        &&& self.cells.len() == self.n
        &&& forall|k: int|
            0 <= k < unread(self.read, self.write, self.n) ==> (#[trigger] self.cells[slot(
                self.read,
                k,
                self.n,
            )]) is Occupied
    }

    /// The unread values, oldest first.
    pub open spec fn contents(self) -> Seq<T> {
        Seq::new(
            unread(self.read, self.write, self.n) as nat,
            |k: int| self.cells[slot(self.read, k, self.n)]->Occupied_0,
        )
    }

    /// The ring after one write of `v`, as `plan_write` plans it: when full,
    /// the oldest cell is evicted first (`evict`); then `v` goes to the write
    /// index (`publish`).
    pub open spec fn write_value(self, v: T) -> RingModel<T> {
        let m = if plan_for(self.write as usize, self.read as usize, self.n as usize) is Evict {
            RingModel {
                read: next_of(self.read, self.n),
                cells: self.cells.update(self.read, CellValue::Cancelled),
                ..self
            }
        } else {
            self
        };
        RingModel {
            write: next_of(m.write, m.n),
            cells: m.cells.update(m.write, CellValue::Occupied(v)),
            ..m
        }
    }

    /// The value one read returns, if there is one, and the ring after it,
    /// as `plan_read` plans it for a reader alone at the read index
    /// (`take_ready`).
    pub open spec fn read_value(self) -> (Option<T>, RingModel<T>) {
        if !(read_plan(self.read as usize, self.read as usize, self.write as usize, self.cells[self.read])
            is Take) {
            (None, self)
        } else {
            (
                Some(self.cells[self.read]->Occupied_0),
                RingModel {
                    read: next_of(self.read, self.n),
                    cells: self.cells.update(self.read, CellValue::Vacant),
                    ..self
                },
            )
        }
    }

    /// The ring after writing each value of `s` in turn.
    pub open spec fn write_all(self, s: Seq<T>) -> RingModel<T>
        decreases s.len(),
    {
        if s.len() == 0 {
            self
        } else {
            self.write_all(s.drop_last()).write_value(s.last())
        }
    }
}

proof fn lemma_unread_steps(read: int, write: int, n: int)
    requires
        3 <= n,
        0 <= read < n,
        0 <= write < n,
    ensures
        0 <= unread(read, write, n) < n,
        forward_distance(write, read, n) == 1 <==> unread(read, write, n) == n - 1,
        forward_distance(write, read, n) != 1 ==> unread(read, next_of(write, n), n) == unread(
            read,
            write,
            n,
        ) + 1,
        read != write ==> unread(next_of(read, n), write, n) == unread(read, write, n) - 1,
        slot(read, unread(read, write, n), n) == write,
{
}

/// A write into a ring that is not full appends its value; a write into a
/// full ring, of `n - 1` unread values, drops the oldest and appends.
pub proof fn lemma_write_keeps_latest<T>(m: RingModel<T>, v: T)
    requires
        m.wf(),
    ensures
        m.write_value(v).wf(),
        m.write_value(v).n == m.n,
        m.contents().len() < m.n - 1 ==> m.write_value(v).contents() == m.contents().push(v),
        m.contents().len() == m.n - 1 ==> m.write_value(v).contents() == m.contents().drop_first().push(
            v,
        ),
{
    lemma_unread_steps(m.read, m.write, m.n);
    let c = unread(m.read, m.write, m.n);
    let e = if forward_distance(m.write, m.read, m.n) == 1 {
        RingModel {
            read: next_of(m.read, m.n),
            cells: m.cells.update(m.read, CellValue::Cancelled),
            ..m
        }
    } else {
        m
    };
    if forward_distance(m.write, m.read, m.n) == 1 {
        assert forall|k: int| 0 <= k < unread(e.read, e.write, e.n) implies #[trigger] e.cells[slot(
            e.read,
            k,
            e.n,
        )] is Occupied by {
            assert(slot(e.read, k, e.n) == slot(m.read, k + 1, m.n));
            assert(m.cells[slot(m.read, k + 1, m.n)] is Occupied);
        }
        assert(e.contents() =~= m.contents().drop_first()) by {
            assert forall|k: int| 0 <= k < e.contents().len() implies e.contents()[k] == m.contents(
            ).drop_first()[k] by {
                assert(slot(e.read, k, e.n) == slot(m.read, k + 1, m.n));
            }
        }
    }
    lemma_unread_steps(e.read, e.write, e.n);
    let w = e.write_value(v);
    assert(forward_distance(e.write, e.read, e.n) != 1);
    assert(w == RingModel {
        write: next_of(e.write, e.n),
        cells: e.cells.update(e.write, CellValue::Occupied(v)),
        ..e
    });
    let ce = unread(e.read, e.write, e.n);
    assert(slot(e.read, ce, e.n) == e.write);
    assert forall|k: int| 0 <= k < unread(w.read, w.write, w.n) implies #[trigger] w.cells[slot(
        w.read,
        k,
        w.n,
    )] is Occupied by {
        if k < ce {
            assert(slot(e.read, k, e.n) != e.write);
        }
    }
    assert(w.contents() =~= e.contents().push(v)) by {
        assert forall|k: int| 0 <= k < w.contents().len() implies w.contents()[k] == e.contents().push(
            v,
        )[k] by {
            if k < ce {
                assert(slot(e.read, k, e.n) != e.write);
            }
        }
    }
    assert(m.write_value(v) == w);
}

/// A read of a ring with unread values returns the oldest and removes it; a
/// read of an empty ring returns nothing and changes nothing.
pub proof fn lemma_read_takes_oldest<T>(m: RingModel<T>)
    requires
        m.wf(),
    ensures
        m.read_value().1.wf(),
        m.read_value().1.n == m.n,
        m.contents().len() == 0 ==> m.read_value().0 is None && m.read_value().1 == m,
        m.contents().len() > 0 ==> m.read_value().0 == Some(m.contents()[0])
            && m.read_value().1.contents() == m.contents().drop_first(),
{
    lemma_unread_steps(m.read, m.write, m.n);
    if m.read != m.write {
        let r = m.read_value().1;
        assert(slot(m.read, 0, m.n) == m.read);
        assert(m.cells[slot(m.read, 0, m.n)] is Occupied);
        assert forall|k: int| 0 <= k < unread(r.read, r.write, r.n) implies #[trigger] r.cells[slot(
            r.read,
            k,
            r.n,
        )] is Occupied by {
            assert(slot(r.read, k, r.n) == slot(m.read, k + 1, m.n));
            assert(m.cells[slot(m.read, k + 1, m.n)] is Occupied);
        }
        assert(r.contents() =~= m.contents().drop_first()) by {
            assert forall|k: int| 0 <= k < r.contents().len() implies r.contents()[k] == m.contents(
            ).drop_first()[k] by {
                assert(slot(r.read, k, r.n) == slot(m.read, k + 1, m.n));
            }
        }
    }
}

/// A reader that keeps pace with the writer, reading after every write, gets
/// each value just written, and leaves the ring empty for the next one: over
/// any run of values it sees all of them, in order, none twice.
pub proof fn lemma_reader_in_pace<T>(m: RingModel<T>, v: T)
    requires
        m.wf(),
        m.contents().len() == 0,
    ensures
        m.write_value(v).read_value().0 == Some(v),
        m.write_value(v).read_value().1.wf(),
        m.write_value(v).read_value().1.contents().len() == 0,
{
    lemma_write_keeps_latest(m, v);
    lemma_read_takes_oldest(m.write_value(v));
    assert(m.write_value(v).contents() =~= seq![v]);
}

/// From an empty ring of `n` cells, writing the values of `s` in turn with no
/// read in between leaves the latest `n - 1` of them unread, oldest first
/// (all of them, when there are fewer): older values are discarded.
pub proof fn lemma_writes_keep_latest<T>(n: int, s: Seq<T>)
    requires
        3 <= n < usize::MAX,
    ensures
        RingModel::<T>::empty(n).write_all(s).wf(),
        RingModel::<T>::empty(n).write_all(s).n == n,
        RingModel::<T>::empty(n).write_all(s).contents() == s.subrange(
            if s.len() < n - 1 {
                0
            } else {
                s.len() - (n - 1)
            },
            s.len() as int,
        ),
    decreases s.len(),
{
    let e = RingModel::<T>::empty(n);
    if s.len() == 0 {
        assert(e.contents() =~= s.subrange(0, 0));
    } else {
        let p = s.drop_last();
        lemma_writes_keep_latest(n, p);
        let m = e.write_all(p);
        lemma_write_keeps_latest(m, s.last());
        assert(e.write_all(s) == m.write_value(s.last()));
        if p.len() < n - 1 {
            assert(e.write_all(s).contents() =~= s.subrange(0, s.len() as int));
        } else {
            assert(e.write_all(s).contents() =~= s.subrange(s.len() - (n - 1), s.len() as int));
        }
    }
}

} // verus!
