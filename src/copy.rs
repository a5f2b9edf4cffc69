//! A single-direction byte pump.
//!
//! `CopyBuffer` decides what the driver must do next (read from the source,
//! write to the sink, flush the sink, park) and is told the outcome of each
//! such action. It never performs I/O itself.

use vstd::prelude::*;
use vstd::slice::slice_subrange;

verus! {

/// Which way a pump moves bytes: client towards origin, or origin towards client.
#[derive(Debug, Clone, Copy, PartialEq, Eq, Structural)]
pub enum Direction {
    Request,
    Response,
}

/// Why a pump stopped without finishing.
#[derive(Debug, Clone, Copy, PartialEq, Eq, Structural)]
pub enum CopyFault {
    /// The source reported an error.
    Source,
    /// The sink reported an error on a write or a flush.
    Sink,
    /// The sink accepted zero bytes of a non-empty write.
    WriteZero,
    /// The source claimed more bytes than there was free space for.
    ReadOverrun,
    /// The sink claimed to accept more bytes than were offered.
    WriteOverrun,
}

/// What the pump waits for.
#[derive(Debug, Clone, Copy, PartialEq, Eq, Structural)]
pub enum Phase {
    /// Read from the source into the free space.
    Read,
    /// The sink is blocked: read more into the free space while waiting.
    TopUp,
    /// Write the unwritten bytes to the sink.
    Write,
    /// The source is blocked and the buffer is empty: flush the sink before parking.
    IdleFlush,
    /// The source is exhausted and every byte is written: flush the sink.
    FinalFlush,
    /// Parked on the source with everything flushed; call `resume` when woken.
    Idle,
    /// Parked on the sink or on a pending read; call `resume` when woken.
    Waiting,
    /// The source is exhausted and every byte has been written and flushed.
    Complete,
    /// Stopped by a fault.
    Failed(CopyFault),
}

/// The outcome of one I/O action performed by the driver.
pub enum Progress<T> {
    Ready(T),
    Pending,
    Failed,
}

/// The abstract state of a pump.
pub struct CopyView {
    pub direction: Direction,
    pub phase: Phase,
    pub read_done: bool,
    pub need_flush: bool,
    pub pos: nat,
    pub cap: nat,
    pub capacity: nat,
    /// Bytes read but not yet accepted by the sink (`buf[pos..cap]`).
    pub unwritten: Seq<u8>,
    /// Every byte the sink has accepted, in order.
    pub written: Seq<u8>,
    /// Every byte the source has delivered, in order.
    pub received: Seq<u8>,
    /// The cumulative count of bytes written.
    pub amt: nat,
}

impl CopyView {
    pub open spec fn inv(self) -> bool {
        &&& self.capacity > 0
        &&& self.pos <= self.cap <= self.capacity
        &&& self.unwritten.len() == self.cap - self.pos
        &&& self.written + self.unwritten == self.received
        &&& self.amt == self.written.len()
        &&& (self.phase == Phase::Read ==> self.cap < self.capacity && !self.read_done)
        &&& (self.phase == Phase::TopUp ==> self.cap < self.capacity && !self.read_done
            && self.pos < self.cap)
        &&& (self.phase == Phase::Write ==> self.pos < self.cap)
        &&& (self.phase == Phase::IdleFlush ==> self.pos == self.cap && self.need_flush)
        &&& (self.phase == Phase::Idle ==> self.pos == self.cap && !self.need_flush)
        &&& (self.phase == Phase::FinalFlush ==> self.read_done && self.pos == 0 && self.cap == 0)
        &&& (self.phase == Phase::Complete ==> self.read_done && self.pos == 0 && self.cap == 0)
    }

    pub open spec fn with_phase(self, phase: Phase) -> CopyView {
        CopyView { phase, ..self }
    }

    /// After a fill: write what is buffered; with nothing buffered, recycle the
    /// buffer and either finish (source exhausted) or read again.
    pub open spec fn drain_or_recycle(self) -> CopyView {
        if self.pos < self.cap {
            self.with_phase(Phase::Write)
        } else if self.read_done {
            CopyView { pos: 0, cap: 0, phase: Phase::FinalFlush, ..self }
        } else {
            CopyView { pos: 0, cap: 0, phase: Phase::Read, ..self }
        }
    }

    /// The top of the pump's loop: read if there is room and the source is live.
    pub open spec fn restart(self) -> CopyView {
        if self.cap < self.capacity && !self.read_done {
            self.with_phase(Phase::Read)
        } else {
            self.drain_or_recycle()
        }
    }

    /// `data` appended behind the unwritten bytes; an empty read marks the source exhausted.
    pub open spec fn stored(self, data: Seq<u8>) -> CopyView {
        CopyView {
            cap: self.cap + data.len(),
            unwritten: self.unwritten + data,
            received: self.received + data,
            read_done: data.len() == 0,
            ..self
        }
    }

    pub open spec fn read_ready(self, data: Seq<u8>) -> CopyView {
        match self.phase {
            Phase::Read => if self.cap + data.len() > self.capacity {
                self.with_phase(Phase::Failed(CopyFault::ReadOverrun))
            } else {
                self.stored(data).drain_or_recycle()
            },
            Phase::TopUp => if self.cap + data.len() > self.capacity {
                self.with_phase(Phase::Failed(CopyFault::ReadOverrun))
            } else {
                self.stored(data).with_phase(Phase::Waiting)
            },
            _ => self,
        }
    }

    pub open spec fn read_pending(self) -> CopyView {
        match self.phase {
            Phase::Read => if self.pos < self.cap {
                self.with_phase(Phase::Write)
            } else if self.need_flush {
                self.with_phase(Phase::IdleFlush)
            } else {
                self.with_phase(Phase::Idle)
            },
            Phase::TopUp => self.with_phase(Phase::Waiting),
            _ => self,
        }
    }

    pub open spec fn read_failed(self) -> CopyView {
        match self.phase {
            Phase::Read | Phase::TopUp => self.with_phase(Phase::Failed(CopyFault::Source)),
            _ => self,
        }
    }

    pub open spec fn write_ready(self, n: nat) -> CopyView {
        match self.phase {
            Phase::Write => if n == 0 {
                self.with_phase(Phase::Failed(CopyFault::WriteZero))
            } else if self.pos + n > self.cap {
                self.with_phase(Phase::Failed(CopyFault::WriteOverrun))
            } else {
                CopyView {
                    pos: self.pos + n,
                    written: self.written + self.unwritten.take(n as int),
                    unwritten: self.unwritten.skip(n as int),
                    amt: self.amt + n,
                    need_flush: true,
                    ..self
                }.drain_or_recycle()
            },
            _ => self,
        }
    }

    pub open spec fn write_pending(self) -> CopyView {
        match self.phase {
            Phase::Write => if !self.read_done && self.cap < self.capacity {
                self.with_phase(Phase::TopUp)
            } else {
                self.with_phase(Phase::Waiting)
            },
            _ => self,
        }
    }

    pub open spec fn write_failed(self) -> CopyView {
        match self.phase {
            Phase::Write => self.with_phase(Phase::Failed(CopyFault::Sink)),
            _ => self,
        }
    }

    pub open spec fn flush_ready(self) -> CopyView {
        match self.phase {
            Phase::IdleFlush => CopyView { need_flush: false, phase: Phase::Idle, ..self },
            Phase::FinalFlush => CopyView { need_flush: false, phase: Phase::Complete, ..self },
            _ => self,
        }
    }

    pub open spec fn flush_pending(self) -> CopyView {
        match self.phase {
            Phase::IdleFlush | Phase::FinalFlush => self.with_phase(Phase::Waiting),
            _ => self,
        }
    }

    pub open spec fn flush_failed(self) -> CopyView {
        match self.phase {
            Phase::IdleFlush | Phase::FinalFlush => self.with_phase(
                Phase::Failed(CopyFault::Sink),
            ),
            _ => self,
        }
    }

    pub open spec fn resumed(self) -> CopyView {
        match self.phase {
            Phase::Idle | Phase::Waiting => self.restart(),
            _ => self,
        }
    }
}

/// A fixed-capacity buffer pumping bytes from one source to one sink.
pub struct CopyBuffer {
    read_done: bool,
    need_flush: bool,
    pos: usize,
    cap: usize,
    amt: u64,
    buf: Vec<u8>,
    direction: Direction,
    captured: Vec<u8>,
    phase: Phase,
    received: Ghost<Seq<u8>>,
}

impl View for CopyBuffer {
    type V = CopyView;

    closed spec fn view(&self) -> CopyView {
        CopyView {
            direction: self.direction,
            phase: self.phase,
            read_done: self.read_done,
            need_flush: self.need_flush,
            pos: self.pos as nat,
            cap: self.cap as nat,
            capacity: self.buf@.len(),
            unwritten: self.buf@.subrange(self.pos as int, self.cap as int),
            written: self.captured@,
            received: self.received@,
            amt: self.amt as nat,
        }
    }
}

impl CopyBuffer {
    pub open spec fn wf(&self) -> bool {
        self@.inv()
    }

    closed spec fn fields_ok(&self) -> bool {
        &&& self.pos <= self.cap <= self.buf@.len()
        &&& self.buf@.len() > 0
        &&& self.captured@.len() == self.amt
    }

    proof fn lemma_fields(&self)
        requires
            self.wf(),
        ensures
            self.fields_ok(),
    {
    }

    /// A pump with an empty buffer of `buf_size` bytes, ready to read.
    pub fn new(buf_size: usize, direction: Direction) -> (r: Self)
        requires
            buf_size > 0,
        ensures
            r.wf(),
            r@.direction == direction,
            r@.phase == Phase::Read,
            r@.capacity == buf_size,
            !r@.read_done,
            !r@.need_flush,
            r@.pos == 0,
            r@.cap == 0,
            r@.written == Seq::<u8>::empty(),
            r@.received == Seq::<u8>::empty(),
    {
        let r = CopyBuffer {
            read_done: false,
            need_flush: false,
            pos: 0,
            cap: 0,
            amt: 0,
            buf: vec![0u8; buf_size],
            direction,
            captured: Vec::new(),
            phase: Phase::Read,
            received: Ghost(Seq::empty()),
        };
        assert(r@.unwritten =~= Seq::<u8>::empty());
        assert(r@.written + r@.unwritten =~= r@.received);
        r
    }
}


impl CopyBuffer {
    fn set_phase(&mut self, phase: Phase)
        requires
            old(self).fields_ok(),
        ensures
            final(self).fields_ok(),
            final(self)@ == old(self)@.with_phase(phase),
    {
        self.phase = phase;
    }

    fn drain_or_recycle(&mut self)
        requires
            old(self).fields_ok(),
        ensures
            final(self).fields_ok(),
            final(self)@ == old(self)@.drain_or_recycle(),
    {
        if self.pos < self.cap {
            self.phase = Phase::Write;
        } else {
            self.pos = 0;
            self.cap = 0;
            if self.read_done {
                self.phase = Phase::FinalFlush;
            } else {
                self.phase = Phase::Read;
            }
            assert(self@.unwritten =~= Seq::<u8>::empty());
            assert(old(self)@.unwritten =~= Seq::<u8>::empty());
        }
    }

    fn restart(&mut self)
        requires
            old(self).fields_ok(),
        ensures
            final(self).fields_ok(),
            final(self)@ == old(self)@.restart(),
    {
        if self.cap < self.buf.len() && !self.read_done {
            self.phase = Phase::Read;
        } else {
            self.drain_or_recycle();
        }
    }

    fn store(&mut self, data: &Vec<u8>)
        requires
            old(self).fields_ok(),
            old(self).cap + data@.len() <= old(self).buf@.len(),
        ensures
            final(self).fields_ok(),
            final(self)@ == old(self)@.stored(data@),
    {
        let n = data.len();
        let start = self.cap;
        let len = self.buf.len();
        let mut j: usize = 0;
        while j < n
            invariant
                j <= n == data@.len(),
                start + n <= self.buf@.len() == len,
                self.pos <= start,
                self.buf@.len() == old(self).buf@.len(),
                self.buf@.subrange(self.pos as int, start + j) =~= old(self).buf@.subrange(
                    self.pos as int,
                    start as int,
                ) + data@.subrange(0, j as int),
                self.pos == old(self).pos,
                self.cap == start == old(self).cap,
                self.captured == old(self).captured,
                self.amt == old(self).amt,
                self.received == old(self).received,
                self.read_done == old(self).read_done,
                self.need_flush == old(self).need_flush,
                self.phase == old(self).phase,
                self.direction == old(self).direction,
            decreases n - j,
        {
            let ghost before = self.buf@;
            self.buf.set(start + j, data[j]);
            assert(self.buf@.subrange(self.pos as int, start + j + 1) =~= before.subrange(
                self.pos as int,
                start + j,
            ).push(data@[j as int]));
            assert(data@.subrange(0, j + 1) =~= data@.subrange(0, j as int).push(data@[j as int]));
            j = j + 1;
        }
        self.cap = start + n;
        self.read_done = n == 0;
        self.received = Ghost(self.received@ + data@);
        assert(data@.subrange(0, n as int) =~= data@);
    }

    fn capture_written(&mut self, n: usize)
        requires
            old(self).fields_ok(),
            old(self).pos + n <= old(self).cap,
        ensures
            final(self).fields_ok(),
            final(self)@ == (CopyView {
                pos: (old(self)@.pos + n) as nat,
                written: old(self)@.written + old(self)@.unwritten.take(n as int),
                unwritten: old(self)@.unwritten.skip(n as int),
                amt: (old(self)@.amt + n) as nat,
                need_flush: true,
                ..old(self)@
            }),
    {
        let start = self.pos;
        let mut j: usize = start;
        while j < start + n
            invariant
                start <= j <= start + n <= self.cap <= self.buf@.len(),
                self.pos == start,
                self.buf == old(self).buf,
                self.cap == old(self).cap,
                self.captured@ =~= old(self).captured@ + self.buf@.subrange(start as int, j as int),
                self.amt == old(self).amt,
                self.received == old(self).received,
                self.read_done == old(self).read_done,
                self.need_flush == old(self).need_flush,
                self.phase == old(self).phase,
                self.direction == old(self).direction,
            decreases start + n - j,
        {
            self.captured.push(self.buf[j]);
            assert(self.buf@.subrange(start as int, j + 1) =~= self.buf@.subrange(
                start as int,
                j as int,
            ).push(self.buf@[j as int]));
            j = j + 1;
        }
        self.pos = start + n;
        self.amt = self.captured.len() as u64;
        self.need_flush = true;
        assert(old(self)@.unwritten.take(n as int) =~= self.buf@.subrange(
            start as int,
            start + n,
        ));
        assert(old(self)@.unwritten.skip(n as int) =~= self@.unwritten);
    }
}

impl CopyBuffer {
    /// Reports the outcome of a read that the driver made in phase `Read` or `TopUp`.
    /// A ready read carries the bytes delivered; an empty one means the source is exhausted.
    pub fn on_read(&mut self, outcome: Progress<Vec<u8>>)
        requires
            old(self).wf(),
        ensures
            final(self).wf(),
            match outcome {
                Progress::Ready(data) => final(self)@ == old(self)@.read_ready(data@),
                Progress::Pending => final(self)@ == old(self)@.read_pending(),
                Progress::Failed => final(self)@ == old(self)@.read_failed(),
            },
    {
        proof {
            self.lemma_fields();
            let d = match outcome {
                Progress::Ready(ref d) => d@,
                _ => Seq::empty(),
            };
            lemma_transitions_keep_inv(self@, d, 0);
        }
        match self.phase {
            Phase::Read => match outcome {
                Progress::Ready(data) => {
                    if data.len() > self.buf.len() - self.cap {
                        self.set_phase(Phase::Failed(CopyFault::ReadOverrun));
                    } else {
                        self.store(&data);
                        self.drain_or_recycle();
                    }
                },
                Progress::Pending => {
                    if self.pos < self.cap {
                        self.set_phase(Phase::Write);
                    } else if self.need_flush {
                        self.set_phase(Phase::IdleFlush);
                    } else {
                        self.set_phase(Phase::Idle);
                    }
                },
                Progress::Failed => self.set_phase(Phase::Failed(CopyFault::Source)),
            },
            Phase::TopUp => match outcome {
                Progress::Ready(data) => {
                    if data.len() > self.buf.len() - self.cap {
                        self.set_phase(Phase::Failed(CopyFault::ReadOverrun));
                    } else {
                        self.store(&data);
                        self.set_phase(Phase::Waiting);
                    }
                },
                Progress::Pending => self.set_phase(Phase::Waiting),
                Progress::Failed => self.set_phase(Phase::Failed(CopyFault::Source)),
            },
            _ => {},
        }
    }

    /// Reports the outcome of a write of `pending()` that the driver made in phase `Write`.
    /// A ready write carries the number of bytes the sink accepted.
    pub fn on_write(&mut self, outcome: Progress<usize>)
        requires
            old(self).wf(),
        ensures
            final(self).wf(),
            match outcome {
                Progress::Ready(n) => final(self)@ == old(self)@.write_ready(n as nat),
                Progress::Pending => final(self)@ == old(self)@.write_pending(),
                Progress::Failed => final(self)@ == old(self)@.write_failed(),
            },
    {
        proof {
            self.lemma_fields();
            let k: nat = match outcome {
                Progress::Ready(k) => k as nat,
                _ => 0,
            };
            lemma_transitions_keep_inv(self@, Seq::empty(), k);
        }
        if self.phase == Phase::Write {
            match outcome {
                Progress::Ready(n) => {
                    if n == 0 {
                        self.set_phase(Phase::Failed(CopyFault::WriteZero));
                    } else if n > self.cap - self.pos {
                        self.set_phase(Phase::Failed(CopyFault::WriteOverrun));
                    } else {
                        self.capture_written(n);
                        self.drain_or_recycle();
                    }
                },
                Progress::Pending => {
                    if !self.read_done && self.cap < self.buf.len() {
                        self.set_phase(Phase::TopUp);
                    } else {
                        self.set_phase(Phase::Waiting);
                    }
                },
                Progress::Failed => self.set_phase(Phase::Failed(CopyFault::Sink)),
            }
        }
    }

    /// Reports the outcome of a flush that the driver made in phase `IdleFlush` or `FinalFlush`.
    pub fn on_flush(&mut self, outcome: Progress<()>)
        requires
            old(self).wf(),
        ensures
            final(self).wf(),
            match outcome {
                Progress::Ready(_) => final(self)@ == old(self)@.flush_ready(),
                Progress::Pending => final(self)@ == old(self)@.flush_pending(),
                Progress::Failed => final(self)@ == old(self)@.flush_failed(),
            },
    {
        proof { self.lemma_fields(); }
        match self.phase {
            Phase::IdleFlush => match outcome {
                Progress::Ready(_) => {
                    self.need_flush = false;
                    self.phase = Phase::Idle;
                },
                Progress::Pending => self.set_phase(Phase::Waiting),
                Progress::Failed => self.set_phase(Phase::Failed(CopyFault::Sink)),
            },
            Phase::FinalFlush => match outcome {
                Progress::Ready(_) => {
                    self.need_flush = false;
                    self.phase = Phase::Complete;
                },
                Progress::Pending => self.set_phase(Phase::Waiting),
                Progress::Failed => self.set_phase(Phase::Failed(CopyFault::Sink)),
            },
            _ => {},
        }
    }

    /// Wakes a parked pump (`Idle` or `Waiting`): it starts over from the top of its loop.
    pub fn resume(&mut self)
        requires
            old(self).wf(),
        ensures
            final(self).wf(),
            final(self)@ == old(self)@.resumed(),
    {
        proof { self.lemma_fields(); }
        match self.phase {
            Phase::Idle | Phase::Waiting => self.restart(),
            _ => {},
        }
    }

    pub fn phase(&self) -> (r: Phase)
        ensures
            r == self@.phase,
    {
        self.phase
    }

    pub fn direction(&self) -> (r: Direction)
        ensures
            r == self@.direction,
    {
        self.direction
    }

    /// The cumulative number of bytes the sink has accepted.
    pub fn amt(&self) -> (r: u64)
        ensures
            r == self@.amt,
    {
        self.amt
    }

    /// Every byte the sink has accepted, in order.
    pub fn captured(&self) -> (r: &Vec<u8>)
        ensures
            r@ == self@.written,
    {
        &self.captured
    }

    /// The bytes to offer the sink in phase `Write`.
    pub fn pending(&self) -> (r: &[u8])
        requires
            self.wf(),
        ensures
            r@ == self@.unwritten,
    {
        proof { self.lemma_fields(); }
        slice_subrange(self.buf.as_slice(), self.pos, self.cap)
    }

    /// How many bytes a read may deliver now.
    pub fn free_space(&self) -> (r: usize)
        requires
            self.wf(),
        ensures
            r == self@.capacity - self@.cap,
    {
        proof { self.lemma_fields(); }
        self.buf.len() - self.cap
    }
}

/// Conservation: a pump that has completed has handed the sink exactly the
/// bytes its source delivered, in order, and its byte count is their number.
pub proof fn lemma_copy_conserves(v: CopyView)
    requires
        v.inv(),
        v.phase == Phase::Complete,
    ensures
        v.written == v.received,
        v.amt == v.received.len(),
        v.pos == 0 && v.cap == 0,
{
    assert(v.unwritten =~= Seq::<u8>::empty());
    assert(v.written + v.unwritten =~= v.written);
}

/// Flush before blocking: when the source blocks and the buffer is empty, the
/// pump parks only after everything it wrote has been flushed; if a flush is
/// owed it asks for one first, and a completed flush leaves nothing owed.
pub proof fn lemma_flush_before_block(v: CopyView)
    requires
        v.inv(),
        v.phase == Phase::Read,
        v.pos == v.cap,
    ensures
        v.need_flush ==> v.read_pending().phase == Phase::IdleFlush,
        v.need_flush ==> v.read_pending().flush_ready().phase == Phase::Idle
            && !v.read_pending().flush_ready().need_flush,
        !v.need_flush ==> v.read_pending().phase == Phase::Idle,
        v.read_pending().phase == Phase::Idle ==> !v.read_pending().need_flush,
{
}

/// Every transition keeps the pump's invariant.
pub proof fn lemma_transitions_keep_inv(v: CopyView, data: Seq<u8>, n: nat)
    requires
        v.inv(),
    ensures
        v.read_ready(data).inv(),
        v.read_pending().inv(),
        v.read_failed().inv(),
        v.write_ready(n).inv(),
        v.write_pending().inv(),
        v.write_failed().inv(),
        v.flush_ready().inv(),
        v.flush_pending().inv(),
        v.flush_failed().inv(),
        v.resumed().inv(),
{
    assert((v.written + v.unwritten) + data =~= v.written + (v.unwritten + data));
    if v.phase == Phase::Write && 0 < n && v.pos + n <= v.cap {
        assert((v.written + v.unwritten.take(n as int)) + v.unwritten.skip(n as int) =~= v.written
            + v.unwritten);
    }
}

} // verus!
