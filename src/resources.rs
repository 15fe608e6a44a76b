use crate::error::HostError;
use std::collections::HashMap;
use vstd::prelude::*;
use vstd::std_specs::hash::group_hash_axioms;

verus! {

broadcast use group_hash_axioms;

/// The bookkeeping of a bound TCP listener: its cancellation signal and the
/// number of accepts in flight on it.
#[derive(Debug, Clone, Copy)]
pub struct TcpListener {
    pub cancelled: bool,
    pub pending: u32,
}

/// One half of a stream, borrowed exclusively: whether an operation holds it
/// and how many more are queued behind that one.
#[derive(Debug, Clone, Copy)]
pub struct HalfLock {
    pub held: bool,
    pub waiting: u32,
}

/// The bookkeeping of a connected TCP stream: a read half and a write half
/// that are borrowed independently, and one cancellation signal for both.
#[derive(Debug, Clone, Copy)]
pub struct TcpStream {
    pub rd: HalfLock,
    pub wr: HalfLock,
    pub cancelled: bool,
}

/// A resource that a handle names.
#[derive(Debug, Clone, Copy)]
pub enum Resource {
    Listener(TcpListener),
    Stream(TcpStream),
}

/// What `listen` hands back to script code.
#[derive(Debug, Clone, Copy)]
pub struct ListenResult {
    pub resource_id: u32,
    pub port: u64,
}

/// The state of a table: the next handle to hand out, and the resources that
/// are open or still have operations in flight.
pub struct TableView {
    pub next_rid: u32,
    pub entries: Map<u32, Resource>,
}

/// Maps integer handles to live resources. Handles are handed out in
/// increasing order and never reused. A closed resource stays in the table,
/// cancelled, only until its last operation in flight has finished.
pub struct ResourceTable {
    next_rid: u32,
    entries: HashMap<u32, Resource>,
}

impl View for ResourceTable {
    type V = TableView;

    closed spec fn view(&self) -> TableView {
        TableView { next_rid: self.next_rid, entries: self.entries@ }
    }
}

pub open spec fn fresh_listener() -> TcpListener {
    TcpListener { cancelled: false, pending: 0 }
}

pub open spec fn fresh_half() -> HalfLock {
    HalfLock { held: false, waiting: 0 }
}

pub open spec fn fresh_stream() -> TcpStream {
    TcpStream { rd: fresh_half(), wr: fresh_half(), cancelled: false }
}

/// Whether a resource has no operation in flight.
pub open spec fn is_idle(r: Resource) -> bool {
    match r {
        Resource::Listener(l) => l.pending == 0,
        Resource::Stream(s) => !s.rd.held && !s.wr.held,
    }
}

pub open spec fn is_cancelled(r: Resource) -> bool {
    match r {
        Resource::Listener(l) => l.cancelled,
        Resource::Stream(s) => s.cancelled,
    }
}

pub open spec fn half_wf(h: HalfLock) -> bool {
    h.waiting > 0 ==> h.held
}

/// The invariant of a table: every handle in it was handed out, a queue
/// forms only behind a held half, and a cancelled resource is kept only
/// while something is in flight on it.
pub open spec fn table_wf(t: TableView) -> bool {
    forall|rid: u32| #[trigger] t.entries.contains_key(rid) ==> {
        &&& rid < t.next_rid
        &&& (is_cancelled(t.entries[rid]) ==> !is_idle(t.entries[rid]))
        &&& (t.entries[rid] matches Resource::Stream(s) ==> half_wf(s.rd) && half_wf(s.wr))
    }
}

/// Whether `rid` names a resource that has not been closed.
pub open spec fn is_open(t: TableView, rid: u32) -> bool {
    t.entries.contains_key(rid) && !is_cancelled(t.entries[rid])
}

/// Adds a resource under the next handle.
pub open spec fn add_spec(t: TableView, r: Resource) -> (TableView, Result<u32, HostError>) {
    if t.next_rid == u32::MAX {
        (t, Err(HostError::Exhausted))
    } else {
        (
            TableView { next_rid: (t.next_rid + 1) as u32, entries: t.entries.insert(t.next_rid, r) },
            Ok(t.next_rid),
        )
    }
}

/// Puts a resource back under `rid`, or drops it once it is cancelled and
/// idle.
pub open spec fn store(t: TableView, rid: u32, r: Resource) -> TableView {
    if is_cancelled(r) && is_idle(r) {
        TableView { next_rid: t.next_rid, entries: t.entries.remove(rid) }
    } else {
        TableView { next_rid: t.next_rid, entries: t.entries.insert(rid, r) }
    }
}

/// Starting an accept: the listener must be open.
pub open spec fn begin_accept_spec(t: TableView, rid: u32) -> (TableView, Result<(), HostError>) {
    if is_open(t, rid) && t.entries[rid] is Listener {
        let l = t.entries[rid]->Listener_0;
        if l.pending == u32::MAX {
            (t, Err(HostError::Exhausted))
        } else {
            (
                store(t, rid, Resource::Listener(TcpListener { pending: (l.pending + 1) as u32, ..l })),
                Ok(()),
            )
        }
    } else {
        (t, Err(HostError::BadResource))
    }
}

/// Finishing an accept with what the transport gave: a closed listener
/// yields `Cancelled` whatever it gave; otherwise an I/O failure is passed
/// on, and a connection becomes a new stream under a new handle.
pub open spec fn finish_accept_spec(t: TableView, rid: u32, outcome: Result<(), String>) -> (
    TableView,
    Result<u32, HostError>,
) {
    if t.entries.contains_key(rid) && t.entries[rid] is Listener
        && t.entries[rid]->Listener_0.pending > 0 {
        let l = t.entries[rid]->Listener_0;
        let t1 = store(t, rid, Resource::Listener(TcpListener { pending: (l.pending - 1) as u32, ..l }));
        if l.cancelled {
            (t1, Err(HostError::Cancelled))
        } else {
            match outcome {
                Err(e) => (t1, Err(HostError::Io(e))),
                Ok(()) => add_spec(t1, Resource::Stream(fresh_stream())),
            }
        }
    } else {
        (t, Err(HostError::BadResource))
    }
}

pub open spec fn half_of(s: TcpStream, reading: bool) -> HalfLock {
    if reading { s.rd } else { s.wr }
}

pub open spec fn with_half(s: TcpStream, reading: bool, h: HalfLock) -> TcpStream {
    if reading { TcpStream { rd: h, ..s } } else { TcpStream { wr: h, ..s } }
}

/// Starting a read (`reading`) or a write on a stream: the stream must be
/// open. `Ok(true)` means the half was free and is now held; `Ok(false)`
/// means the operation queues behind the one that holds it.
pub open spec fn begin_io_spec(t: TableView, rid: u32, reading: bool) -> (
    TableView,
    Result<bool, HostError>,
) {
    if is_open(t, rid) && t.entries[rid] is Stream {
        let s = t.entries[rid]->Stream_0;
        let h = half_of(s, reading);
        if !h.held {
            (
                store(t, rid, Resource::Stream(with_half(s, reading, HalfLock { held: true, waiting: 0 }))),
                Ok(true),
            )
        } else if h.waiting == u32::MAX {
            (t, Err(HostError::Exhausted))
        } else {
            (
                store(t, rid, Resource::Stream(with_half(s, reading, HalfLock { waiting: (h.waiting + 1) as u32, ..h }))),
                Ok(false),
            )
        }
    } else {
        (t, Err(HostError::BadResource))
    }
}

/// The half after the operation that held it finished: handed to the first
/// queued operation, if any, else free.
pub open spec fn release(h: HalfLock) -> HalfLock {
    if h.waiting > 0 {
        HalfLock { held: true, waiting: (h.waiting - 1) as u32 }
    } else {
        fresh_half()
    }
}

/// Finishing the read or write that holds a half, with what the transport
/// gave. A read on a closed stream yields `Cancelled`; a write does not
/// observe the signal. The flag says whether the half passed to a queued
/// operation.
pub open spec fn finish_io_spec(t: TableView, rid: u32, reading: bool, outcome: Result<usize, String>) -> (
    TableView,
    Result<usize, HostError>,
    bool,
) {
    if t.entries.contains_key(rid) && t.entries[rid] is Stream
        && half_of(t.entries[rid]->Stream_0, reading).held {
        let s = t.entries[rid]->Stream_0;
        let h = half_of(s, reading);
        let t1 = store(t, rid, Resource::Stream(with_half(s, reading, release(h))));
        let r = if reading && s.cancelled {
            Err(HostError::Cancelled)
        } else {
            match outcome {
                Ok(n) => Ok(n),
                Err(e) => Err(HostError::Io(e)),
            }
        };
        (t1, r, h.waiting > 0)
    } else {
        (t, Err(HostError::BadResource), false)
    }
}

/// The resource after its cancellation signal fired.
pub open spec fn cancel(r: Resource) -> Resource {
    match r {
        Resource::Listener(l) => Resource::Listener(TcpListener { cancelled: true, ..l }),
        Resource::Stream(s) => Resource::Stream(TcpStream { cancelled: true, ..s }),
    }
}

/// Closing a handle: the resource must be open; its signal fires and the
/// handle is invalid from then on.
pub open spec fn close_spec(t: TableView, rid: u32) -> (TableView, Result<(), HostError>) {
    if is_open(t, rid) {
        (store(t, rid, cancel(t.entries[rid])), Ok(()))
    } else {
        (t, Err(HostError::BadResource))
    }
}


impl Resource {
    pub fn is_cancelled(&self) -> (b: bool)
        ensures
            b == is_cancelled(*self),
    {
        match self {
            Resource::Listener(l) => l.cancelled,
            Resource::Stream(s) => s.cancelled,
        }
    }

    pub fn is_idle(&self) -> (b: bool)
        ensures
            b == is_idle(*self),
    {
        match self {
            Resource::Listener(l) => l.pending == 0,
            Resource::Stream(s) => !s.rd.held && !s.wr.held,
        }
    }
}

impl ResourceTable {
    /// An empty table whose first handle is 0.
    pub fn new() -> (t: Self)
        ensures
            t@.next_rid == 0,
            t@.entries == Map::<u32, Resource>::empty(),
            table_wf(t@),
    {
        ResourceTable { next_rid: 0, entries: HashMap::new() }
    }

    /// The resource under `rid`, if the table holds one.
    pub fn get(&self, rid: u32) -> (r: Option<Resource>)
        ensures
            match r {
                Some(x) => self@.entries.contains_key(rid) && x == self@.entries[rid],
                None => !self@.entries.contains_key(rid),
            },
    {
        match self.entries.get(&rid) {
            Some(x) => Some(*x),
            None => None,
        }
    }

    fn put(&mut self, rid: u32, r: Resource)
        ensures
            final(self)@ == store(old(self)@, rid, r),
    {
        if r.is_cancelled() && r.is_idle() {
            self.entries.remove(&rid);
        } else {
            self.entries.insert(rid, r);
        }
    }

    fn add(&mut self, r: Resource) -> (res: Result<u32, HostError>)
        ensures
            (final(self)@, res) == add_spec(old(self)@, r),
    {
        if self.next_rid == u32::MAX {
            Err(HostError::Exhausted)
        } else {
            let rid = self.next_rid;
            self.entries.insert(rid, r);
            self.next_rid = rid + 1;
            Ok(rid)
        }
    }

    /// Registers a listener that was bound to `port` under a new handle.
    pub fn listen(&mut self, port: u16) -> (res: Result<ListenResult, HostError>)
        ensures
            final(self)@ == add_spec(old(self)@, Resource::Listener(fresh_listener())).0,
            match res {
                Ok(l) => add_spec(old(self)@, Resource::Listener(fresh_listener())).1 == Ok::<
                    u32,
                    HostError,
                >(l.resource_id) && l.port == port,
                Err(e) => add_spec(old(self)@, Resource::Listener(fresh_listener())).1 == Err::<
                    u32,
                    HostError,
                >(e),
            },
    {
        match self.add(Resource::Listener(TcpListener { cancelled: false, pending: 0 })) {
            Ok(rid) => Ok(ListenResult { resource_id: rid, port: port as u64 }),
            Err(e) => Err(e),
        }
    }

    /// Starts an accept on the listener under `rid`.
    pub fn begin_accept(&mut self, rid: u32) -> (res: Result<(), HostError>)
        ensures
            (final(self)@, res) == begin_accept_spec(old(self)@, rid),
    {
        match self.get(rid) {
            Some(Resource::Listener(l)) => {
                if l.cancelled {
                    Err(HostError::BadResource)
                } else if l.pending == u32::MAX {
                    Err(HostError::Exhausted)
                } else {
                    self.put(rid, Resource::Listener(TcpListener { pending: l.pending + 1, ..l }));
                    Ok(())
                }
            },
            _ => Err(HostError::BadResource),
        }
    }

    /// Finishes an accept on the listener under `rid` with what the transport
    /// gave, and on a connection returns the new stream's handle.
    pub fn finish_accept(&mut self, rid: u32, outcome: Result<(), String>) -> (res: Result<u32, HostError>)
        ensures
            (final(self)@, res) == finish_accept_spec(old(self)@, rid, outcome),
    {
        match self.get(rid) {
            Some(Resource::Listener(l)) => {
                if l.pending == 0 {
                    return Err(HostError::BadResource);
                }
                self.put(rid, Resource::Listener(TcpListener { pending: l.pending - 1, ..l }));
                if l.cancelled {
                    Err(HostError::Cancelled)
                } else {
                    match outcome {
                        Err(e) => Err(HostError::Io(e)),
                        Ok(()) => {
                            let fresh = HalfLock { held: false, waiting: 0 };
                            self.add(Resource::Stream(TcpStream { rd: fresh, wr: fresh, cancelled: false }))
                        },
                    }
                }
            },
            _ => Err(HostError::BadResource),
        }
    }

    fn begin_io(&mut self, rid: u32, reading: bool) -> (res: Result<bool, HostError>)
        ensures
            (final(self)@, res) == begin_io_spec(old(self)@, rid, reading),
    {
        match self.get(rid) {
            Some(Resource::Stream(s)) => {
                if s.cancelled {
                    return Err(HostError::BadResource);
                }
                let h = if reading { s.rd } else { s.wr };
                let (h2, granted) = if !h.held {
                    (HalfLock { held: true, waiting: 0 }, true)
                } else if h.waiting == u32::MAX {
                    return Err(HostError::Exhausted);
                } else {
                    (HalfLock { waiting: h.waiting + 1, ..h }, false)
                };
                let s2 = if reading { TcpStream { rd: h2, ..s } } else { TcpStream { wr: h2, ..s } };
                self.put(rid, Resource::Stream(s2));
                Ok(granted)
            },
            _ => Err(HostError::BadResource),
        }
    }

    fn finish_io(&mut self, rid: u32, reading: bool, outcome: Result<usize, String>) -> (res: (
        Result<usize, HostError>,
        bool,
    ))
        ensures
            (final(self)@, res.0, res.1) == finish_io_spec(old(self)@, rid, reading, outcome),
    {
        match self.get(rid) {
            Some(Resource::Stream(s)) => {
                let h = if reading { s.rd } else { s.wr };
                if !h.held {
                    return (Err(HostError::BadResource), false);
                }
                let h2 = if h.waiting > 0 {
                    HalfLock { held: true, waiting: h.waiting - 1 }
                } else {
                    HalfLock { held: false, waiting: 0 }
                };
                let s2 = if reading { TcpStream { rd: h2, ..s } } else { TcpStream { wr: h2, ..s } };
                self.put(rid, Resource::Stream(s2));
                let r = if reading && s.cancelled {
                    Err(HostError::Cancelled)
                } else {
                    match outcome {
                        Ok(n) => Ok(n),
                        Err(e) => Err(HostError::Io(e)),
                    }
                };
                (r, h.waiting > 0)
            },
            _ => (Err(HostError::BadResource), false),
        }
    }

    /// Starts a read on the stream under `rid`: `Ok(true)` when it holds the
    /// read half now, `Ok(false)` when it queues behind the read that does.
    pub fn begin_read(&mut self, rid: u32) -> (res: Result<bool, HostError>)
        ensures
            (final(self)@, res) == begin_io_spec(old(self)@, rid, true),
    {
        self.begin_io(rid, true)
    }

    /// Starts a write on the stream under `rid`: `Ok(true)` when it holds the
    /// write half now, `Ok(false)` when it queues behind the write that does.
    pub fn begin_write(&mut self, rid: u32) -> (res: Result<bool, HostError>)
        ensures
            (final(self)@, res) == begin_io_spec(old(self)@, rid, false),
    {
        self.begin_io(rid, false)
    }

    /// Finishes the read that holds the read half of `rid` with the byte
    /// count or failure the transport gave; the flag says whether a queued
    /// read now holds the half.
    pub fn finish_read(&mut self, rid: u32, outcome: Result<usize, String>) -> (res: (
        Result<usize, HostError>,
        bool,
    ))
        ensures
            (final(self)@, res.0, res.1) == finish_io_spec(old(self)@, rid, true, outcome),
    {
        self.finish_io(rid, true, outcome)
    }

    /// Finishes the write that holds the write half of `rid`; the flag says
    /// whether a queued write now holds the half.
    pub fn finish_write(&mut self, rid: u32, outcome: Result<usize, String>) -> (res: (
        Result<usize, HostError>,
        bool,
    ))
        ensures
            (final(self)@, res.0, res.1) == finish_io_spec(old(self)@, rid, false, outcome),
    {
        self.finish_io(rid, false, outcome)
    }

    /// Closes the resource under `rid`: its signal fires, so every operation
    /// in flight on it that observes the signal ends `Cancelled`, and the
    /// handle names nothing from then on.
    pub fn close(&mut self, rid: u32) -> (res: Result<(), HostError>)
        ensures
            (final(self)@, res) == close_spec(old(self)@, rid),
    {
        match self.get(rid) {
            Some(r) => {
                if r.is_cancelled() {
                    return Err(HostError::BadResource);
                }
                let c = match r {
                    Resource::Listener(l) => Resource::Listener(TcpListener { cancelled: true, ..l }),
                    Resource::Stream(s) => Resource::Stream(TcpStream { cancelled: true, ..s }),
                };
                self.put(rid, c);
                Ok(())
            },
            None => Err(HostError::BadResource),
        }
    }
}

/// Every operation on a table keeps its invariant.
pub proof fn lemma_ops_keep_wf(
    t: TableView,
    rid: u32,
    reading: bool,
    r: Resource,
    accepted: Result<(), String>,
    transferred: Result<usize, String>,
)
    requires
        table_wf(t),
        !is_cancelled(r),
        r matches Resource::Stream(s) ==> half_wf(s.rd) && half_wf(s.wr),
    ensures
        table_wf(add_spec(t, r).0),
        table_wf(begin_accept_spec(t, rid).0),
        table_wf(finish_accept_spec(t, rid, accepted).0),
        table_wf(begin_io_spec(t, rid, reading).0),
        table_wf(finish_io_spec(t, rid, reading, transferred).0),
        table_wf(close_spec(t, rid).0),
{
}

/// A new handle names nothing that the table already holds, and every
/// later handle is larger.
pub proof fn lemma_new_handle_is_fresh(t: TableView, r: Resource)
    requires
        table_wf(t),
    ensures
        add_spec(t, r).1 matches Ok(rid) ==> !t.entries.contains_key(rid) && rid < add_spec(
            t,
            r,
        ).0.next_rid,
{
}

/// A handle that was handed out and is not open never becomes open again:
/// once closed, it stays invalid whatever happens next.
pub proof fn lemma_closed_stays_closed(
    t: TableView,
    rid: u32,
    other: u32,
    reading: bool,
    accepted: Result<(), String>,
    transferred: Result<usize, String>,
)
    requires
        table_wf(t),
        rid < t.next_rid,
        !is_open(t, rid),
    ensures
        !is_open(begin_accept_spec(t, other).0, rid),
        !is_open(finish_accept_spec(t, other, accepted).0, rid),
        !is_open(begin_io_spec(t, other, reading).0, rid),
        !is_open(finish_io_spec(t, other, reading, transferred).0, rid),
        !is_open(close_spec(t, other).0, rid),
        begin_accept_spec(t, rid).1 == Err::<(), HostError>(HostError::BadResource),
        begin_io_spec(t, rid, reading).1 == Err::<bool, HostError>(HostError::BadResource),
        close_spec(t, rid).1 == Err::<(), HostError>(HostError::BadResource),
{
}

/// Closing a listener while an accept is pending on it makes that accept
/// end `Cancelled`, whatever the transport then gives.
pub proof fn lemma_close_cancels_accept(t: TableView, rid: u32, accepted: Result<(), String>)
    requires
        table_wf(t),
        begin_accept_spec(t, rid).1 is Ok,
    ensures
        close_spec(begin_accept_spec(t, rid).0, rid).1 is Ok,
        finish_accept_spec(close_spec(begin_accept_spec(t, rid).0, rid).0, rid, accepted).1
            == Err::<u32, HostError>(HostError::Cancelled),
{
}

/// Closing a stream while a read holds its read half makes that read end
/// `Cancelled`, whatever the transport then gives.
pub proof fn lemma_close_cancels_read(t: TableView, rid: u32, transferred: Result<usize, String>)
    requires
        table_wf(t),
        begin_io_spec(t, rid, true).1 == Ok::<bool, HostError>(true),
    ensures
        close_spec(begin_io_spec(t, rid, true).0, rid).1 is Ok,
        finish_io_spec(close_spec(begin_io_spec(t, rid, true).0, rid).0, rid, true, transferred).1
            == Err::<usize, HostError>(HostError::Cancelled),
{
}

/// Reads on one stream serialize: while one read holds the read half, a
/// second read does not get it but queues, and it gets the half exactly
/// when the first read finishes.
pub proof fn lemma_reads_serialize(t: TableView, rid: u32, transferred: Result<usize, String>)
    requires
        table_wf(t),
        begin_io_spec(t, rid, true).1 == Ok::<bool, HostError>(true),
        begin_io_spec(begin_io_spec(t, rid, true).0, rid, true).1 is Ok,
    ensures
        ({
            let t1 = begin_io_spec(t, rid, true).0;
            let t2 = begin_io_spec(t1, rid, true).0;
            let done = finish_io_spec(t2, rid, true, transferred);
            &&& begin_io_spec(t1, rid, true).1 == Ok::<bool, HostError>(false)
            &&& done.2
            &&& done.0.entries.contains_key(rid)
            &&& done.0.entries[rid] matches Resource::Stream(s) && s.rd.held && s.rd.waiting == 0
        }),
{
}

/// A read and a write on one stream do not wait for each other: taking or
/// releasing one half leaves the other as it was, so a write starts at once
/// while a read is pending on a free write half, and the other way round.
pub proof fn lemma_halves_independent(
    t: TableView,
    rid: u32,
    reading: bool,
    transferred: Result<usize, String>,
)
    requires
        table_wf(t),
        is_open(t, rid),
        t.entries[rid] is Stream,
        !half_of(t.entries[rid]->Stream_0, !reading).held,
    ensures
        begin_io_spec(t, rid, !reading).1 == Ok::<bool, HostError>(true),
        begin_io_spec(t, rid, reading).1 is Ok ==> {
            let t1 = begin_io_spec(t, rid, reading).0;
            &&& t1.entries[rid] is Stream
            &&& half_of(t1.entries[rid]->Stream_0, !reading) == half_of(t.entries[rid]->Stream_0, !reading)
            &&& begin_io_spec(t1, rid, !reading).1 == Ok::<bool, HostError>(true)
        },
{
}

} // verus!
