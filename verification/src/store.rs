use vstd::prelude::*;

use crate::application::{proto_shows, CreateMicro, Micro};
use crate::datetime::{get_timestamp, timestamp_in_range};
use crate::error::ApiError;
use crate::keys::{lemma_micro_key_injective, list_key, list_key_text, micro_key, micro_key_text};
use crate::proto::ProtoMicro;

verus! {

/// A write to the cache whose outcome the store does not wait for.
#[derive(Debug)]
pub enum CacheWrite {
    /// `HSET key` with the fields of `micro`.
    Hset { key: String, micro: Micro },
    /// `HMSET key` with the fields of `micro`.
    Hmset { key: String, micro: Micro },
    /// `ZADD key` with `args` as score, member, score, member, ...
    Zadd { key: String, args: Vec<i64> },
}

/// What the outside world reports back to a store operation.
#[derive(Debug)]
pub enum StoreEvent {
    /// A cache connection was opened, or could not be.
    CacheOpened(Result<(), ApiError>),
    /// The micro read from a cache hash: `None` when the read or its decoding failed.
    CachedMicro(Option<Micro>),
    /// The row that a select by id gave back.
    Selected(Result<Micro, ApiError>),
    /// A transaction began, or could not.
    Begun(Result<(), ApiError>),
    /// The id that an insert gave the new row.
    Inserted(Result<u64, ApiError>),
    /// The transaction was committed, or could not be.
    Committed(Result<(), ApiError>),
    /// Whether a cache key exists.
    KeyExists(Result<bool, ApiError>),
    /// The members of a sorted set in a range of ranks: `None` when the read failed.
    RangeIds(Option<Vec<u32>>),
    /// The micros that fetching a list of ids found, in the order of the ids;
    /// those that failed are left out.
    Fetched(Vec<Micro>),
    /// The next row of a scan.
    Row(Micro),
    /// The scan failed.
    RowsFailed(ApiError),
    /// The scan has no more rows.
    RowsEnd,
    /// The cache writes were sent (their outcome is not looked at).
    CacheWritten,
}

/// What a store operation asks the outside world to do next.
#[derive(Debug)]
pub enum StoreAction {
    /// Open a connection to the cache.
    OpenCache,
    /// `HGETALL key`, decoded as a micro.
    CacheGetAll { key: String },
    /// `SELECT * FROM micro WHERE id=?` with `id`.
    DbSelect { id: u64 },
    /// Begin a transaction.
    DbBegin,
    /// In the transaction: `INSERT INTO micro (name, typ, update_ts, create_ts) VALUES (?, ?, ?, ?)`.
    TxInsert { name: String, typ: i8, update_ts: i64, create_ts: i64 },
    /// In the transaction: `SELECT * FROM micro WHERE id=?` with `id`.
    TxSelect { id: u64 },
    /// Commit the transaction.
    TxCommit,
    /// `EXISTS key`.
    CacheExists { key: String },
    /// `ZRANGE key start stop` (ranks, both ends included), read as ids.
    CacheRange { key: String, start: isize, stop: isize },
    /// Fetch each of `ids` as a single micro, each on its own.
    FetchEach { ids: Vec<u32> },
    /// `SELECT * FROM micro WHERE typ=?` with `typ`, read as a stream of rows.
    DbScanType { typ: i8 },
    /// Read the next row of the scan.
    ReadNextRow,
    /// Send these writes to the cache in one go, ignoring their outcome.
    CacheWriteAll { writes: Vec<CacheWrite> },
    /// The operation is over: take its outcome.
    Done,
}

/// Whether `w` stores `m` under its own key with `HSET`.
pub open spec fn hset_of(w: CacheWrite, key: Seq<char>, m: Micro) -> bool {
    &&& w matches CacheWrite::Hset { key: k, micro }
    &&& k@ == key
    &&& micro == m
}

/// Whether `w` stores `m` under the key `micro_{m.id}` with `HMSET`.
pub open spec fn hmset_of(w: CacheWrite, m: Micro) -> bool {
    &&& w matches CacheWrite::Hmset { key, micro }
    &&& key@ == micro_key_text(m.id as nat)
    &&& micro == m
}

// ----------------------------------------------------------------------------
// Reading one micro: the cache first, then the database.
// ----------------------------------------------------------------------------

#[derive(Debug, Clone, Copy, PartialEq, Eq, Structural)]
pub enum FindStage {
    Connecting,
    ReadingCache,
    ReadingDb,
    WritingCache,
    Finished,
}

/// Reading the micro `id`: from its cache hash when that decodes, else from the
/// database, in which case the row is written back to the cache.
#[derive(Debug)]
pub struct FindFlow {
    pub id: u32,
    pub stage: FindStage,
    pub found: Option<Micro>,
    pub outcome: Option<Result<Micro, ApiError>>,
}

impl FindFlow {
    pub open spec fn wf(&self) -> bool {
        &&& (self.stage == FindStage::WritingCache <==> self.found is Some)
        &&& (self.stage == FindStage::Finished <==> self.outcome is Some)
    }

    /// The events that the flow can take in its stage.
    pub open spec fn accepts(&self, e: StoreEvent) -> bool {
        match self.stage {
            FindStage::Connecting => e is CacheOpened,
            FindStage::ReadingCache => e is CachedMicro,
            FindStage::ReadingDb => e is Selected,
            FindStage::WritingCache => e is CacheWritten,
            FindStage::Finished => false,
        }
    }

    /// Whether the flow can take `e` now.
    pub fn accepts_event(&self, e: &StoreEvent) -> (r: bool)
        ensures
            r == self.accepts(*e),
    {
        match self.stage {
            FindStage::Connecting => matches!(e, StoreEvent::CacheOpened(_)),
            FindStage::ReadingCache => matches!(e, StoreEvent::CachedMicro(_)),
            FindStage::ReadingDb => matches!(e, StoreEvent::Selected(_)),
            FindStage::WritingCache => matches!(e, StoreEvent::CacheWritten),
            FindStage::Finished => false,
        }
    }

    /// Starts reading the micro `id`: first a cache connection.
    pub fn start(id: u32) -> (r: (FindFlow, StoreAction))
        ensures
            r.0.wf(),
            r.0.id == id,
            r.0.stage == FindStage::Connecting,
            r.1 is OpenCache,
    {
        (FindFlow { id, stage: FindStage::Connecting, found: None, outcome: None }, StoreAction::OpenCache)
    }

    /// What one step does: the flow keeps its id, and for each event takes the
    /// stage, the answer and the action given here.
    pub open spec fn step_post(
        before: FindFlow,
        event: StoreEvent,
        after: FindFlow,
        action: StoreAction,
    ) -> bool {
        &&& after.id == before.id
        &&& match event {
            StoreEvent::CacheOpened(Err(e)) => {
                &&& after.stage == FindStage::Finished
                &&& after.outcome == Some(Err::<Micro, ApiError>(e))
                &&& action is Done
            },
            StoreEvent::CacheOpened(Ok(_)) => {
                &&& after.stage == FindStage::ReadingCache
                &&& action matches StoreAction::CacheGetAll { key }
                &&& key@ == micro_key_text(before.id as nat)
            },
            StoreEvent::CachedMicro(Some(m)) => {
                &&& after.stage == FindStage::Finished
                &&& after.outcome == Some(Ok::<Micro, ApiError>(m))
                &&& action is Done
            },
            StoreEvent::CachedMicro(None) => {
                &&& after.stage == FindStage::ReadingDb
                &&& action == (StoreAction::DbSelect { id: before.id as u64 })
            },
            StoreEvent::Selected(Err(e)) => {
                &&& after.stage == FindStage::Finished
                &&& after.outcome == Some(Err::<Micro, ApiError>(e))
                &&& action is Done
            },
            StoreEvent::Selected(Ok(m)) => {
                &&& after.stage == FindStage::WritingCache
                &&& after.found == Some(m)
                &&& action matches StoreAction::CacheWriteAll { writes }
                &&& writes@.len() == 1
                &&& hset_of(writes@[0], micro_key_text(before.id as nat), m)
            },
            _ => {
                &&& after.stage == FindStage::Finished
                &&& after.outcome == Some(Ok::<Micro, ApiError>(before.found->Some_0))
                &&& action is Done
            },
        }
    }

    /// Takes the next event and says what to do next.
    pub fn step(&mut self, event: StoreEvent) -> (action: StoreAction)
        requires
            old(self).wf(),
            old(self).accepts(event),
        ensures
            final(self).wf(),
            FindFlow::step_post(*old(self), event, *final(self), action),
    {
        match event {
            StoreEvent::CacheOpened(Err(e)) => {
                self.stage = FindStage::Finished;
                self.outcome = Some(Err(e));
                StoreAction::Done
            },
            StoreEvent::CacheOpened(Ok(_)) => {
                self.stage = FindStage::ReadingCache;
                StoreAction::CacheGetAll { key: micro_key(self.id as u64) }
            },
            StoreEvent::CachedMicro(Some(m)) => {
                self.stage = FindStage::Finished;
                self.outcome = Some(Ok(m));
                StoreAction::Done
            },
            StoreEvent::CachedMicro(None) => {
                self.stage = FindStage::ReadingDb;
                StoreAction::DbSelect { id: self.id as u64 }
            },
            StoreEvent::Selected(Err(e)) => {
                self.stage = FindStage::Finished;
                self.outcome = Some(Err(e));
                StoreAction::Done
            },
            StoreEvent::Selected(Ok(m)) => {
                let stored = m.duplicate();
                self.stage = FindStage::WritingCache;
                self.found = Some(m);
                let mut writes: Vec<CacheWrite> = Vec::new();
                writes.push(CacheWrite::Hset { key: micro_key(self.id as u64), micro: stored });
                StoreAction::CacheWriteAll { writes }
            },
            _ => {
                let mut found: Option<Micro> = None;
                std::mem::swap(&mut found, &mut self.found);
                self.stage = FindStage::Finished;
                self.outcome = Some(Ok(found.unwrap()));
                StoreAction::Done
            },
        }
    }

    /// The outcome of a finished flow.
    pub fn into_outcome(self) -> (r: Result<Micro, ApiError>)
        requires
            self.wf(),
            self.stage == FindStage::Finished,
        ensures
            self.outcome == Some(r),
    {
        self.outcome.unwrap()
    }
}

// ----------------------------------------------------------------------------
// Creating a micro: insert and read back in one transaction, then cache it.
// ----------------------------------------------------------------------------

#[derive(Debug, Clone, Copy, PartialEq, Eq, Structural)]
pub enum CreateStage {
    Beginning,
    Inserting,
    Selecting,
    Committing,
    Connecting,
    WritingCache,
    Finished,
}

/// Creating a micro: both of its times are the moment the creation started; the
/// row is read back inside the transaction, and once committed it is cached
/// under the key of the id that the insert gave it.
#[derive(Debug)]
pub struct CreateFlow {
    pub name: String,
    pub typ: i8,
    pub now: i64,
    pub id: u64,
    pub stage: CreateStage,
    pub created: Option<Micro>,
    pub outcome: Option<Result<Micro, ApiError>>,
}

impl CreateFlow {
    pub open spec fn wf(&self) -> bool {
        &&& timestamp_in_range(self.now as int)
        &&& (self.stage == CreateStage::Committing || self.stage == CreateStage::Connecting
            || self.stage == CreateStage::WritingCache <==> self.created is Some)
        &&& (self.stage == CreateStage::Finished <==> self.outcome is Some)
    }

    /// The events that the flow can take in its stage.
    pub open spec fn accepts(&self, e: StoreEvent) -> bool {
        match self.stage {
            CreateStage::Beginning => e is Begun,
            CreateStage::Inserting => e is Inserted,
            CreateStage::Selecting => e is Selected,
            CreateStage::Committing => e is Committed,
            CreateStage::Connecting => e is CacheOpened,
            CreateStage::WritingCache => e is CacheWritten,
            CreateStage::Finished => false,
        }
    }

    /// Whether the flow can take `e` now.
    pub fn accepts_event(&self, e: &StoreEvent) -> (r: bool)
        ensures
            r == self.accepts(*e),
    {
        match self.stage {
            CreateStage::Beginning => matches!(e, StoreEvent::Begun(_)),
            CreateStage::Inserting => matches!(e, StoreEvent::Inserted(_)),
            CreateStage::Selecting => matches!(e, StoreEvent::Selected(_)),
            CreateStage::Committing => matches!(e, StoreEvent::Committed(_)),
            CreateStage::Connecting => matches!(e, StoreEvent::CacheOpened(_)),
            CreateStage::WritingCache => matches!(e, StoreEvent::CacheWritten),
            CreateStage::Finished => false,
        }
    }

    /// Starts creating `model`: takes the current time, then begins a transaction.
    pub fn start(model: CreateMicro) -> (r: (CreateFlow, StoreAction))
        ensures
            r.0.wf(),
            r.0.name == model.name,
            r.0.typ == model.typ,
            r.0.now >= 0,
            r.0.stage == CreateStage::Beginning,
            r.1 is DbBegin,
    {
        let now = get_timestamp();
        CreateFlow::start_at(model, now)
    }

    /// Starts creating `model` at the time `now`: begins a transaction.
    pub fn start_at(model: CreateMicro, now: i64) -> (r: (CreateFlow, StoreAction))
        requires
            timestamp_in_range(now as int),
        ensures
            r.0.wf(),
            r.0.name == model.name,
            r.0.typ == model.typ,
            r.0.now == now,
            r.0.stage == CreateStage::Beginning,
            r.1 is DbBegin,
    {
        (
            CreateFlow {
                name: model.name,
                typ: model.typ,
                now,
                id: 0,
                stage: CreateStage::Beginning,
                created: None,
                outcome: None,
            },
            StoreAction::DbBegin,
        )
    }

    /// What one step does: the flow keeps its name, type and time, and for each
    /// event takes the stage, the answer and the action given here.
    pub open spec fn step_post(
        before: CreateFlow,
        event: StoreEvent,
        after: CreateFlow,
        action: StoreAction,
    ) -> bool {
        &&& after.name == before.name
        &&& after.typ == before.typ
        &&& after.now == before.now
        &&& match event {
            StoreEvent::Begun(Err(e)) | StoreEvent::Inserted(Err(e)) | StoreEvent::Selected(
                Err(e),
            ) | StoreEvent::Committed(Err(e)) | StoreEvent::CacheOpened(Err(e)) => {
                &&& after.stage == CreateStage::Finished
                &&& after.outcome == Some(Err::<Micro, ApiError>(e))
                &&& action is Done
            },
            StoreEvent::Begun(Ok(_)) => {
                &&& after.stage == CreateStage::Inserting
                &&& action matches StoreAction::TxInsert { name, typ, update_ts, create_ts }
                &&& name@ == before.name@
                &&& typ == before.typ
                &&& update_ts == before.now
                &&& create_ts == before.now
            },
            StoreEvent::Inserted(Ok(id)) => {
                &&& after.stage == CreateStage::Selecting
                &&& after.id == id
                &&& action == (StoreAction::TxSelect { id })
            },
            StoreEvent::Selected(Ok(m)) => {
                &&& after.stage == CreateStage::Committing
                &&& after.id == before.id
                &&& after.created == Some(m)
                &&& action is TxCommit
            },
            StoreEvent::Committed(Ok(_)) => {
                &&& after.stage == CreateStage::Connecting
                &&& after.id == before.id
                &&& after.created == before.created
                &&& action is OpenCache
            },
            StoreEvent::CacheOpened(Ok(_)) => {
                &&& after.stage == CreateStage::WritingCache
                &&& after.id == before.id
                &&& after.created == before.created
                &&& action matches StoreAction::CacheWriteAll { writes }
                &&& writes@.len() == 1
                &&& hset_of(
                    writes@[0],
                    micro_key_text(before.id as nat),
                    before.created->Some_0,
                )
            },
            _ => {
                &&& after.stage == CreateStage::Finished
                &&& after.outcome == Some(
                    Ok::<Micro, ApiError>(before.created->Some_0),
                )
                &&& action is Done
            },
        }
    }

    /// Takes the next event and says what to do next.
    pub fn step(&mut self, event: StoreEvent) -> (action: StoreAction)
        requires
            old(self).wf(),
            old(self).accepts(event),
        ensures
            final(self).wf(),
            CreateFlow::step_post(*old(self), event, *final(self), action),
    {
        match event {
            StoreEvent::Begun(Err(e)) | StoreEvent::Inserted(Err(e)) | StoreEvent::Selected(Err(e))
            | StoreEvent::Committed(Err(e)) | StoreEvent::CacheOpened(Err(e)) => {
                self.created = None;
                self.stage = CreateStage::Finished;
                self.outcome = Some(Err(e));
                StoreAction::Done
            },
            StoreEvent::Begun(Ok(_)) => {
                self.stage = CreateStage::Inserting;
                StoreAction::TxInsert {
                    name: self.name.clone(),
                    typ: self.typ,
                    update_ts: self.now,
                    create_ts: self.now,
                }
            },
            StoreEvent::Inserted(Ok(id)) => {
                self.stage = CreateStage::Selecting;
                self.id = id;
                StoreAction::TxSelect { id }
            },
            StoreEvent::Selected(Ok(m)) => {
                self.stage = CreateStage::Committing;
                self.created = Some(m);
                StoreAction::TxCommit
            },
            StoreEvent::Committed(Ok(_)) => {
                self.stage = CreateStage::Connecting;
                StoreAction::OpenCache
            },
            StoreEvent::CacheOpened(Ok(_)) => {
                let stored = self.created.as_ref().unwrap().duplicate();
                self.stage = CreateStage::WritingCache;
                let mut writes: Vec<CacheWrite> = Vec::new();
                writes.push(CacheWrite::Hset { key: micro_key(self.id), micro: stored });
                StoreAction::CacheWriteAll { writes }
            },
            _ => {
                let mut created: Option<Micro> = None;
                std::mem::swap(&mut created, &mut self.created);
                self.stage = CreateStage::Finished;
                self.outcome = Some(Ok(created.unwrap()));
                StoreAction::Done
            },
        }
    }

    /// The outcome of a finished flow.
    pub fn into_outcome(self) -> (r: Result<Micro, ApiError>)
        requires
            self.wf(),
            self.stage == CreateStage::Finished,
        ensures
            self.outcome == Some(r),
    {
        self.outcome.unwrap()
    }
}

// ----------------------------------------------------------------------------
// Reading one page of a type: from the cached index when it is complete,
// else from a scan of the database that also rebuilds the cache.
// ----------------------------------------------------------------------------

/// The first position (from 0) of page `page_num` (from 1) of `page_size` rows.
pub open spec fn page_start(page_size: int, page_num: int) -> int {
    (page_num - 1) * page_size
}

/// The position after the last one of page `page_num` of `page_size` rows.
pub open spec fn page_end(page_size: int, page_num: int) -> int {
    page_start(page_size, page_num) + page_size
}

/// How many of `n` rows stand at positions `start <= i < end`.
pub open spec fn window_len(n: int, start: int, end: int) -> int {
    if n <= start {
        0
    } else if n <= end {
        n - start
    } else {
        end - start
    }
}

/// Consecutive pages follow each other: page `p + 1` starts where page `p` ends.
pub proof fn lemma_pages_adjacent(page_size: int, page_num: int)
    ensures
        page_start(page_size, page_num + 1) == page_end(page_size, page_num),
{
    assert((page_num + 1 - 1) * page_size == (page_num - 1) * page_size + page_size)
        by (nonlinear_arith);
}

/// A scan that has ended and whose writes are on their way answers exactly the
/// scanned rows at positions `start <= i < end`, in scan order, and never more
/// than a page.
pub proof fn lemma_scan_answers_page_window(flow: ListFlow)
    requires
        flow.wf(),
        flow.stage == ListStage::WritingCache,
    ensures
        flow.micros@.len() == window_len(flow.rows@.len() as int, flow.start as int, flow.end as int),
        flow.micros@.len() <= flow.end - flow.start,
        forall|k: int|
            0 <= k < flow.micros@.len() ==> proto_shows(
                #[trigger] flow.micros@[k],
                flow.rows@[flow.start + k],
            ),
{
}

/// While a scan runs, the index it will write pairs every scanned row's update
/// time (its score) with its id (its member), in scan order, and every scanned
/// row is to be cached under its own key.
pub proof fn lemma_scan_index_pairs_scores_with_ids(flow: ListFlow)
    requires
        flow.wf(),
        flow.stage == ListStage::Scanning,
    ensures
        flow.args@.len() == 2 * flow.rows@.len(),
        forall|k: int|
            #![trigger flow.rows@[k]]
            0 <= k < flow.rows@.len() ==> flow.args@[2 * k] == flow.rows@[k].update_ts
                && flow.args@[2 * k + 1] == flow.rows@[k].id as i64,
        flow.writes@.len() == flow.rows@.len(),
        forall|k: int|
            0 <= k < flow.rows@.len() ==> hmset_of(#[trigger] flow.writes@[k], flow.rows@[k]),
{
}

/// Whether the first position of page `page_num` of `page_size` rows can be
/// computed in 16 bits: pages are counted from 1.
pub open spec fn page_is_addressable(page_size: u16, page_num: u16) -> bool {
    &&& 1 <= page_num
    &&& (page_num - 1) * page_size <= u16::MAX
}

/// Whether the first position of page `page_num` of `page_size` rows can be
/// computed in 16 bits.
pub fn check_page_addressable(page_size: u16, page_num: u16) -> (r: bool)
    ensures
        r == page_is_addressable(page_size, page_num),
{
    if page_num == 0 {
        return false;
    }
    let before: u32 = (page_num - 1) as u32;
    let size: u32 = page_size as u32;
    assert(before * size <= 65535 * 65535) by (nonlinear_arith)
        requires
            before <= 65535,
            size <= 65535,
    ;
    before * size <= 65535
}

#[derive(Debug, Clone, Copy, PartialEq, Eq, Structural)]
pub enum ListStage {
    Connecting,
    CheckingIndex,
    ReadingIndex,
    Fetching,
    Scanning,
    WritingCache,
    Finished,
}

/// Reading page `page_num` of `page_size` micros of type `typ`. Once the cache
/// has said whether the page key exists, the page's positions `start`, `end`
/// are computed (in 16 bits, as pages count from 1). When the page key exists, its ranks `start ..= end - 1` are read as ids and
/// each id is fetched; if every one is found, those micros are the answer.
/// Otherwise all rows of the type are scanned: the rows at positions
/// `start <= i < end` are the answer, every row is cached under its own key,
/// and the page key gets every row as (update time, id).
pub struct ListFlow {
    pub typ: i8,
    pub page_size: u16,
    pub page_num: u16,
    pub key: String,
    pub start: isize,
    pub end: isize,
    pub stage: ListStage,
    pub ids_len: usize,
    pub micros: Vec<ProtoMicro>,
    pub args: Vec<i64>,
    pub writes: Vec<CacheWrite>,
    pub index: isize,
    pub rows: Ghost<Seq<Micro>>,
    pub outcome: Option<Result<Vec<ProtoMicro>, ApiError>>,
}

/// Whether chrono can turn the times of all of `ms` into dates.
pub open spec fn all_times_in_range(ms: Seq<Micro>) -> bool {
    forall|k: int| 0 <= k < ms.len() ==> (#[trigger] ms[k]).times_in_range()
}

impl ListFlow {
    /// The answer built so far matches the rows scanned so far.
    pub open spec fn scan_consistent(&self) -> bool {
        let rows = self.rows@;
        &&& self.index == rows.len()
        &&& self.micros@.len() == window_len(rows.len() as int, self.start as int, self.end as int)
        &&& forall|k: int|
            0 <= k < self.micros@.len() ==> proto_shows(
                #[trigger] self.micros@[k],
                rows[self.start + k],
            )
    }

    /// The cache writes built so far match the rows scanned so far.
    pub open spec fn writes_consistent(&self) -> bool {
        let rows = self.rows@;
        &&& self.writes@.len() == rows.len()
        &&& forall|k: int| 0 <= k < rows.len() ==> hmset_of(#[trigger] self.writes@[k], rows[k])
        &&& self.args@.len() == 2 * rows.len()
        &&& forall|k: int|
            #![trigger rows[k]]
            0 <= k < rows.len() ==> self.args@[2 * k] == rows[k].update_ts && self.args@[2 * k
                + 1] == rows[k].id as i64
    }

    /// Whether the page's positions have been computed.
    pub open spec fn bounds_known(&self) -> bool {
        self.stage == ListStage::ReadingIndex || self.stage == ListStage::Fetching || self.stage
            == ListStage::Scanning || self.stage == ListStage::WritingCache
    }

    pub open spec fn wf(&self) -> bool {
        &&& 0 <= self.start <= self.end
        &&& self.start <= u16::MAX
        &&& self.end - self.start <= u16::MAX
        &&& self.bounds_known() ==> {
            &&& page_is_addressable(self.page_size, self.page_num)
            &&& self.start == page_start(self.page_size as int, self.page_num as int)
            &&& self.end == page_end(self.page_size as int, self.page_num as int)
        }
        &&& (self.stage == ListStage::Scanning ==> self.scan_consistent() && self.writes_consistent())
        &&& (self.stage == ListStage::WritingCache ==> self.scan_consistent())
        &&& (self.stage == ListStage::Finished <==> self.outcome is Some)
    }

    /// The events that the flow can take in its stage: a fetched micro, and a
    /// scanned row inside the page, must have times that chrono can turn into
    /// dates (they are sent as text).
    pub open spec fn accepts(&self, e: StoreEvent) -> bool {
        match self.stage {
            ListStage::Connecting => e is CacheOpened,
            ListStage::CheckingIndex => match e {
                StoreEvent::KeyExists(Ok(_)) => page_is_addressable(self.page_size, self.page_num),
                StoreEvent::KeyExists(Err(_)) => true,
                _ => false,
            },
            ListStage::ReadingIndex => e is RangeIds,
            ListStage::Fetching => match e {
                StoreEvent::Fetched(found) => all_times_in_range(found@),
                _ => false,
            },
            ListStage::Scanning => {
                ||| e matches StoreEvent::Row(m) && self.index < isize::MAX && (self.start
                    <= self.index < self.end ==> m.times_in_range())
                ||| e is RowsFailed
                ||| e is RowsEnd
            },
            ListStage::WritingCache => e is CacheWritten,
            ListStage::Finished => false,
        }
    }

    /// Whether the flow can take `e` now.
    #[verifier::loop_isolation(false)]
    pub fn accepts_event(&self, e: &StoreEvent) -> (r: bool)
        ensures
            r == self.accepts(*e),
    {
        match self.stage {
            ListStage::Connecting => matches!(e, StoreEvent::CacheOpened(_)),
            ListStage::CheckingIndex => match e {
                StoreEvent::KeyExists(Ok(_)) => check_page_addressable(self.page_size, self.page_num),
                StoreEvent::KeyExists(Err(_)) => true,
                _ => false,
            },
            ListStage::ReadingIndex => matches!(e, StoreEvent::RangeIds(_)),
            ListStage::Fetching => match e {
                StoreEvent::Fetched(found) => {
                    let mut i: usize = 0;
                    while i < found.len()
                        invariant
                            i <= found@.len(),
                            forall|k: int| 0 <= k < i ==> (#[trigger] found@[k]).times_in_range(),
                        decreases found@.len() - i,
                    {
                        if !found[i].has_times_in_range() {
                            assert(!(found@[i as int]).times_in_range());
                            return false;
                        }
                        i = i + 1;
                    }
                    true
                },
                _ => false,
            },
            ListStage::Scanning => match e {
                StoreEvent::Row(m) => {
                    self.index < isize::MAX && (!(self.start <= self.index && self.index < self.end)
                        || m.has_times_in_range())
                },
                StoreEvent::RowsFailed(_) => true,
                StoreEvent::RowsEnd => true,
                _ => false,
            },
            ListStage::WritingCache => matches!(e, StoreEvent::CacheWritten),
            ListStage::Finished => false,
        }
    }

    /// Starts reading page `page_num` of `page_size` micros of type `typ`:
    /// first a cache connection.
    pub fn start(typ: i8, page_size: u16, page_num: u16, is_desc: bool) -> (r: (
        ListFlow,
        StoreAction,
    ))
        ensures
            r.0.wf(),
            r.0.typ == typ,
            r.0.page_size == page_size,
            r.0.page_num == page_num,
            r.0.key@ == list_key_text(typ as int, page_num as nat, is_desc),
            r.0.stage == ListStage::Connecting,
            r.1 is OpenCache,
    {
        let key = list_key(typ, page_num, is_desc);
        (
            ListFlow {
                typ,
                page_size,
                page_num,
                key,
                start: 0,
                end: 0,
                stage: ListStage::Connecting,
                ids_len: 0,
                micros: Vec::new(),
                args: Vec::new(),
                writes: Vec::new(),
                index: 0,
                rows: Ghost(Seq::empty()),
                outcome: None,
            },
            StoreAction::OpenCache,
        )
    }

    /// Clears the scan buffers and asks for the scan of the type.
    fn begin_scan(&mut self) -> (action: StoreAction)
        requires
            old(self).wf(),
            old(self).stage != ListStage::Finished,
            page_is_addressable(old(self).page_size, old(self).page_num),
            old(self).start == page_start(old(self).page_size as int, old(self).page_num as int),
            old(self).end == page_end(old(self).page_size as int, old(self).page_num as int),
        ensures
            final(self).wf(),
            final(self).typ == old(self).typ,
            final(self).page_size == old(self).page_size,
            final(self).page_num == old(self).page_num,
            final(self).key == old(self).key,
            final(self).start == old(self).start,
            final(self).end == old(self).end,
            final(self).stage == ListStage::Scanning,
            final(self).rows@ == Seq::<Micro>::empty(),
            action == (StoreAction::DbScanType { typ: old(self).typ }),
    {
        self.stage = ListStage::Scanning;
        self.micros = Vec::new();
        self.args = Vec::new();
        self.writes = Vec::new();
        self.index = 0;
        self.rows = Ghost(Seq::empty());
        StoreAction::DbScanType { typ: self.typ }
    }

    /// Takes one scanned row.
    fn take_row(&mut self, m: Micro)
        requires
            old(self).wf(),
            old(self).stage == ListStage::Scanning,
            old(self).index < isize::MAX,
            old(self).start <= old(self).index < old(self).end ==> m.times_in_range(),
        ensures
            final(self).wf(),
            final(self).typ == old(self).typ,
            final(self).page_size == old(self).page_size,
            final(self).page_num == old(self).page_num,
            final(self).key == old(self).key,
            final(self).start == old(self).start,
            final(self).end == old(self).end,
            final(self).stage == ListStage::Scanning,
            final(self).rows@ == old(self).rows@.push(m),
    {
        let ghost old_rows = self.rows@;
        let ghost n = old_rows.len() as int;
        let ghost old_micros = self.micros@;
        let ghost old_args = self.args@;
        let ghost old_writes = self.writes@;
        if self.start <= self.index && self.index < self.end {
            let shown = m.duplicate();
            self.micros.push(ProtoMicro::from_micro(shown));
        }
        self.args.push(m.update_ts);
        self.args.push(m.id as i64);
        let key = micro_key(m.id as u64);
        self.rows = Ghost(old_rows.push(m));
        self.writes.push(CacheWrite::Hmset { key, micro: m });
        self.index = self.index + 1;
        proof {
            let rows = self.rows@;
            assert(rows.len() == n + 1);
            assert forall|k: int| 0 <= k < self.micros@.len() implies proto_shows(
                #[trigger] self.micros@[k],
                rows[self.start + k],
            ) by {
                if k < old_micros.len() {
                    assert(self.micros@[k] == old_micros[k]);
                    assert(rows[self.start + k] == old_rows[self.start + k]);
                }
            }
            assert forall|k: int| 0 <= k < rows.len() implies hmset_of(
                #[trigger] self.writes@[k],
                rows[k],
            ) by {
                if k < n {
                    assert(self.writes@[k] == old_writes[k]);
                    assert(rows[k] == old_rows[k]);
                }
            }
            assert forall|k: int|
                #![trigger rows[k]]
                0 <= k < rows.len() implies self.args@[2 * k] == rows[k].update_ts && self.args@[2
                    * k + 1] == rows[k].id as i64 by {
                if k < n {
                    assert(rows[k] == old_rows[k]);
                    assert(self.args@[2 * k] == old_args[2 * k]);
                    assert(self.args@[2 * k + 1] == old_args[2 * k + 1]);
                    assert(old_args[2 * k] == old_rows[k].update_ts);
                }
            }
        }
    }

    /// What one step does: the flow keeps its type, page and key (and its page
    /// positions once known), and for each event takes the stage, the answer and
    /// the action given here.
    pub open spec fn step_post(
        before: ListFlow,
        event: StoreEvent,
        after: ListFlow,
        action: StoreAction,
    ) -> bool {
        &&& after.typ == before.typ
        &&& after.page_size == before.page_size
        &&& after.page_num == before.page_num
        &&& after.key == before.key
        &&& before.bounds_known() ==> after.start == before.start && after.end
            == before.end
        &&& match event {
            StoreEvent::CacheOpened(Err(e)) | StoreEvent::KeyExists(Err(e))
            | StoreEvent::RowsFailed(e) => {
                &&& after.stage == ListStage::Finished
                &&& after.outcome == Some(Err::<Vec<ProtoMicro>, ApiError>(e))
                &&& action is Done
            },
            StoreEvent::CacheOpened(Ok(_)) => {
                &&& after.stage == ListStage::CheckingIndex
                &&& action matches StoreAction::CacheExists { key }
                &&& key@ == before.key@
            },
            StoreEvent::KeyExists(Ok(true)) => {
                &&& after.stage == ListStage::ReadingIndex
                &&& after.start == page_start(
                    before.page_size as int,
                    before.page_num as int,
                )
                &&& after.end == page_end(
                    before.page_size as int,
                    before.page_num as int,
                )
                &&& action matches StoreAction::CacheRange { key, start, stop }
                &&& key@ == before.key@
                &&& start == after.start
                &&& stop == after.end - 1
            },
            StoreEvent::KeyExists(Ok(false)) | StoreEvent::RangeIds(None) => {
                &&& after.stage == ListStage::Scanning
                &&& after.rows@ == Seq::<Micro>::empty()
                &&& action == (StoreAction::DbScanType { typ: before.typ })
            },
            StoreEvent::RangeIds(Some(ids)) => {
                &&& after.stage == ListStage::Fetching
                &&& after.ids_len == ids@.len()
                &&& action == (StoreAction::FetchEach { ids })
            },
            StoreEvent::Fetched(found) => if found@.len() == before.ids_len {
                &&& after.stage == ListStage::Finished
                &&& action is Done
                &&& after.outcome matches Some(Ok(page))
                &&& page@.len() == found@.len()
                &&& forall|k: int|
                    0 <= k < page@.len() ==> proto_shows(#[trigger] page@[k], found@[k])
            } else {
                &&& after.stage == ListStage::Scanning
                &&& after.rows@ == Seq::<Micro>::empty()
                &&& action == (StoreAction::DbScanType { typ: before.typ })
            },
            StoreEvent::Row(m) => {
                &&& after.stage == ListStage::Scanning
                &&& after.rows@ == before.rows@.push(m)
                &&& action is ReadNextRow
            },
            StoreEvent::RowsEnd => {
                &&& after.stage == ListStage::WritingCache
                &&& after.rows@ == before.rows@
                &&& after.micros@ == before.micros@
                &&& action matches StoreAction::CacheWriteAll { writes }
                &&& writes@.len() == before.rows@.len() + 1
                &&& forall|k: int|
                    0 <= k < before.rows@.len() ==> hmset_of(
                        #[trigger] writes@[k],
                        before.rows@[k],
                    )
                &&& writes@[writes@.len() - 1] matches CacheWrite::Zadd { key, args }
                &&& key@ == before.key@
                &&& args@ == before.args@
            },
            _ => {
                &&& after.stage == ListStage::Finished
                &&& after.outcome == Some(
                    Ok::<Vec<ProtoMicro>, ApiError>(before.micros),
                )
                &&& action is Done
            },
        }
    }

    /// Takes the next event and says what to do next.
    pub fn step(&mut self, event: StoreEvent) -> (action: StoreAction)
        requires
            old(self).wf(),
            old(self).accepts(event),
        ensures
            final(self).wf(),
            ListFlow::step_post(*old(self), event, *final(self), action),
    {
        match event {
            StoreEvent::CacheOpened(Err(e)) | StoreEvent::KeyExists(Err(e))
            | StoreEvent::RowsFailed(e) => {
                self.stage = ListStage::Finished;
                self.outcome = Some(Err(e));
                StoreAction::Done
            },
            StoreEvent::CacheOpened(Ok(_)) => {
                self.stage = ListStage::CheckingIndex;
                StoreAction::CacheExists { key: self.key.clone() }
            },
            StoreEvent::KeyExists(Ok(exists)) => {
                let first: u16 = (self.page_num - 1) * self.page_size;
                self.start = first as isize;
                self.end = self.start + self.page_size as isize;
                if exists {
                    self.stage = ListStage::ReadingIndex;
                    StoreAction::CacheRange {
                        key: self.key.clone(),
                        start: self.start,
                        stop: self.end - 1,
                    }
                } else {
                    self.begin_scan()
                }
            },
            StoreEvent::RangeIds(None) => self.begin_scan(),
            StoreEvent::RangeIds(Some(ids)) => {
                self.stage = ListStage::Fetching;
                self.ids_len = ids.len();
                StoreAction::FetchEach { ids }
            },
            StoreEvent::Fetched(found) => {
                if found.len() == self.ids_len {
                    let mut page: Vec<ProtoMicro> = Vec::new();
                    let mut i: usize = 0;
                    while i < found.len()
                        invariant
                            i <= found@.len(),
                            page@.len() == i,
                            forall|k: int| 0 <= k < found@.len() ==> (#[trigger] found@[k]).times_in_range(),
                            forall|k: int| 0 <= k < i ==> proto_shows(#[trigger] page@[k], found@[k]),
                        decreases found@.len() - i,
                    {
                        let m = found[i].duplicate();
                        page.push(ProtoMicro::from_micro(m));
                        i = i + 1;
                    }
                    self.stage = ListStage::Finished;
                    self.outcome = Some(Ok(page));
                    StoreAction::Done
                } else {
                    self.begin_scan()
                }
            },
            StoreEvent::Row(m) => {
                self.take_row(m);
                StoreAction::ReadNextRow
            },
            StoreEvent::RowsEnd => {
                let mut writes: Vec<CacheWrite> = Vec::new();
                std::mem::swap(&mut writes, &mut self.writes);
                let mut args: Vec<i64> = Vec::new();
                std::mem::swap(&mut args, &mut self.args);
                let ghost before = writes@;
                writes.push(CacheWrite::Zadd { key: self.key.clone(), args });
                assert(forall|k: int| 0 <= k < before.len() ==> writes@[k] == before[k]);
                self.stage = ListStage::WritingCache;
                StoreAction::CacheWriteAll { writes }
            },
            _ => {
                let mut page: Vec<ProtoMicro> = Vec::new();
                std::mem::swap(&mut page, &mut self.micros);
                self.stage = ListStage::Finished;
                self.outcome = Some(Ok(page));
                StoreAction::Done
            },
        }
    }

    /// The outcome of a finished flow.
    pub fn into_outcome(self) -> (r: Result<Vec<ProtoMicro>, ApiError>)
        requires
            self.wf(),
            self.stage == ListStage::Finished,
        ensures
            self.outcome == Some(r),
    {
        self.outcome.unwrap()
    }
}

// ----------------------------------------------------------------------------
// The order flag only names the page key.
// ----------------------------------------------------------------------------

/// `page` shows `ms` one by one.
pub open spec fn page_shows(page: Seq<ProtoMicro>, ms: Seq<Micro>) -> bool {
    &&& page.len() == ms.len()
    &&& forall|k: int| 0 <= k < page.len() ==> proto_shows(#[trigger] page[k], ms[k])
}

/// Two outcomes that are alike: both pending, the same error, or pages that
/// show the same micros.
pub open spec fn same_outcome(
    a: Option<Result<Vec<ProtoMicro>, ApiError>>,
    b: Option<Result<Vec<ProtoMicro>, ApiError>>,
) -> bool {
    match a {
        None => b is None,
        Some(Err(e1)) => b == Some(Err::<Vec<ProtoMicro>, ApiError>(e1)),
        Some(Ok(p)) => match b {
            Some(Ok(q)) => exists|ms: Seq<Micro>| page_shows(p@, ms) && page_shows(q@, ms),
            _ => false,
        },
    }
}

/// Two flows for the same type and page that stand in the same state, their
/// keys aside.
pub open spec fn twins(a: ListFlow, b: ListFlow) -> bool {
    &&& a.typ == b.typ
    &&& a.page_size == b.page_size
    &&& a.page_num == b.page_num
    &&& a.stage == b.stage
    &&& a.stage == ListStage::Fetching ==> a.ids_len == b.ids_len
    &&& (a.stage == ListStage::Scanning || a.stage == ListStage::WritingCache) ==> a.rows@
        == b.rows@
    &&& same_outcome(a.outcome, b.outcome)
}

/// Two writes that store the same micro under keys with the same text.
pub open spec fn same_hmset(w1: CacheWrite, w2: CacheWrite) -> bool {
    &&& w1 matches CacheWrite::Hmset { key: k1, micro: m1 }
    &&& w2 matches CacheWrite::Hmset { key: k2, micro: m2 }
    &&& k1@ == k2@
    &&& m1 == m2
}

/// Two lists of cache writes that are the same but for the key of the page
/// index that closes them.
pub open spec fn same_writes_but_index_key(w1: Seq<CacheWrite>, w2: Seq<CacheWrite>) -> bool {
    &&& w1.len() == w2.len()
    &&& w1.len() >= 1
    &&& forall|k: int| 0 <= k < w1.len() - 1 ==> same_hmset(#[trigger] w1[k], w2[k])
    &&& w1[w1.len() - 1] matches CacheWrite::Zadd { args: a1, .. }
    &&& w2[w2.len() - 1] matches CacheWrite::Zadd { args: a2, .. }
    &&& a1@ == a2@
}

/// Two actions that are the same but for the cache keys they name.
pub open spec fn same_but_keys(x: StoreAction, y: StoreAction) -> bool {
    match x {
        StoreAction::OpenCache => y is OpenCache,
        StoreAction::CacheExists { .. } => y is CacheExists,
        StoreAction::CacheRange { start, stop, .. } => y matches StoreAction::CacheRange {
            start: s2,
            stop: t2,
            ..
        } && start == s2 && stop == t2,
        StoreAction::FetchEach { ids } => y == (StoreAction::FetchEach { ids }),
        StoreAction::DbScanType { typ } => y == (StoreAction::DbScanType { typ }),
        StoreAction::ReadNextRow => y is ReadNextRow,
        StoreAction::CacheWriteAll { writes } => y matches StoreAction::CacheWriteAll {
            writes: w2,
        } && same_writes_but_index_key(writes@, w2@),
        StoreAction::Done => y is Done,
        _ => false,
    }
}

/// Index arguments for the same rows are the same arguments.
proof fn lemma_index_args_unique(a1: Seq<i64>, a2: Seq<i64>, rows: Seq<Micro>)
    requires
        a1.len() == 2 * rows.len(),
        a2.len() == 2 * rows.len(),
        forall|k: int|
            #![trigger rows[k]]
            0 <= k < rows.len() ==> a1[2 * k] == rows[k].update_ts && a1[2 * k + 1] == rows[k].id
                as i64,
        forall|k: int|
            #![trigger rows[k]]
            0 <= k < rows.len() ==> a2[2 * k] == rows[k].update_ts && a2[2 * k + 1] == rows[k].id
                as i64,
    ensures
        a1 == a2,
{
    assert forall|i: int| 0 <= i < a1.len() implies a1[i] == a2[i] by {
        let k = i / 2;
        assert(0 <= k < rows.len());
        let _ = rows[k];
        assert(i == 2 * k || i == 2 * k + 1);
    }
    assert(a1 =~= a2);
}

/// Two flows started for the same type and page, whatever their order flags,
/// are twins: the flag has entered only their keys.
pub proof fn lemma_started_flows_are_twins(a: ListFlow, b: ListFlow)
    requires
        a.typ == b.typ,
        a.page_size == b.page_size,
        a.page_num == b.page_num,
        a.stage == ListStage::Connecting,
        b.stage == ListStage::Connecting,
        a.outcome is None,
        b.outcome is None,
    ensures
        twins(a, b),
{
}

/// The order flag only names the page key: twin flows that take the same
/// event stay twins, and ask for the same actions but for the cache keys.
/// So two reads of the same page that differ only in the order flag, fed the
/// same answers from outside, ask for the same work and end with the same
/// error or with pages that show the same micros.
pub proof fn lemma_twins_step_alike(
    a: ListFlow,
    b: ListFlow,
    event: StoreEvent,
    a2: ListFlow,
    b2: ListFlow,
    x: StoreAction,
    y: StoreAction,
)
    requires
        a.wf(),
        b.wf(),
        twins(a, b),
        a.accepts(event),
        ListFlow::step_post(a, event, a2, x),
        ListFlow::step_post(b, event, b2, y),
        a2.wf(),
        b2.wf(),
    ensures
        twins(a2, b2),
        same_but_keys(x, y),
{
    match event {
        StoreEvent::Fetched(found) => {
            if found@.len() == a.ids_len {
                let p = a2.outcome->Some_0->Ok_0;
                let q = b2.outcome->Some_0->Ok_0;
                assert(page_shows(p@, found@) && page_shows(q@, found@));
                assert(same_outcome(a2.outcome, b2.outcome));
            } else {
                assert(a2.rows@ == b2.rows@);
            }
        },
        StoreEvent::RowsEnd => {
            lemma_index_args_unique(a.args@, b.args@, a.rows@);
            if let StoreAction::CacheWriteAll { writes: w1 } = x {
                if let StoreAction::CacheWriteAll { writes: w2 } = y {
                    assert forall|k: int| 0 <= k < w1@.len() - 1 implies same_hmset(
                        #[trigger] w1@[k],
                        w2@[k],
                    ) by {
                        assert(hmset_of(w1@[k], a.rows@[k]));
                        assert(hmset_of(w2@[k], b.rows@[k]));
                    }
                }
            }
        },
        StoreEvent::CacheWritten => {
            let n = a.micros@.len() as int;
            let rows = a.rows@;
            let s = a.start as int;
            let ms = Seq::new(n as nat, |k: int| rows[s + k]);
            assert(page_shows(a.micros@, ms) && page_shows(b.micros@, ms));
            let p = a2.outcome->Some_0->Ok_0;
            let q = b2.outcome->Some_0->Ok_0;
            assert(p == a.micros && q == b.micros);
            assert(page_shows(p@, ms) && page_shows(q@, ms));
        },
        _ => {},
    }
}

// ----------------------------------------------------------------------------
// What a later read finds of what a flow wrote to the cache. The cache is
// seen as the micros its hashes decode to, by key; the laws below assume a
// cache that gives back, on a read of a key, the micro last written there.
// ----------------------------------------------------------------------------

/// The micros that the cache's hashes decode to after `writes`, in order, on
/// `cache`; a sorted-set write leaves the hashes as they are.
pub open spec fn cache_after(cache: Map<Seq<char>, Micro>, writes: Seq<CacheWrite>) -> Map<
    Seq<char>,
    Micro,
>
    decreases writes.len(),
{
    if writes.len() == 0 {
        cache
    } else {
        let earlier = cache_after(cache, writes.drop_last());
        match writes.last() {
            CacheWrite::Hset { key, micro } => earlier.insert(key@, micro),
            CacheWrite::Hmset { key, micro } => earlier.insert(key@, micro),
            CacheWrite::Zadd { .. } => earlier,
        }
    }
}

/// What reading the hash at `key` gives back from `cache`.
pub open spec fn cached_read(cache: Map<Seq<char>, Micro>, key: Seq<char>) -> Option<Micro> {
    if cache.dom().contains(key) {
        Some(cache[key])
    } else {
        None
    }
}

/// The writes that an action sends to the cache (none but for `CacheWriteAll`).
pub open spec fn writes_of(action: StoreAction) -> Seq<CacheWrite> {
    match action {
        StoreAction::CacheWriteAll { writes } => writes@,
        _ => Seq::empty(),
    }
}

/// A find that missed the cache writes the row it read from the database under
/// the key that the next find of the same id reads: if the cache gives back
/// what was written, that find answers the same micro, from the cache.
pub proof fn lemma_find_again_after_miss(
    cache: Map<Seq<char>, Micro>,
    f: FindFlow,
    m: Micro,
    f2: FindFlow,
    w: StoreAction,
    f3: FindFlow,
    done: StoreAction,
    g: FindFlow,
    g2: FindFlow,
    b: StoreAction,
)
    requires
        f.wf(),
        f.stage == FindStage::ReadingDb,
        FindFlow::step_post(f, StoreEvent::Selected(Ok(m)), f2, w),
        FindFlow::step_post(f2, StoreEvent::CacheWritten, f3, done),
        g.id == f.id,
        g.stage == FindStage::ReadingCache,
        FindFlow::step_post(
            g,
            StoreEvent::CachedMicro(
                cached_read(cache_after(cache, writes_of(w)), micro_key_text(g.id as nat)),
            ),
            g2,
            b,
        ),
    ensures
        f3.outcome == Some(Ok::<Micro, ApiError>(m)),
        g2.outcome == f3.outcome,
        b is Done,
{
    let ws = writes_of(w);
    assert(ws.drop_last() =~= Seq::<CacheWrite>::empty());
    assert(cache_after(cache, ws.drop_last()) == cache);
    assert(ws.last() == ws[0]);
    assert(cache_after(cache, ws) == cache.insert(micro_key_text(f.id as nat), m));
}

/// What a create sends to the cache is the created micro under the key of the
/// id the insert gave it; when the row read back is that row, a find of its id
/// on a cache that gives back what was written answers the created micro.
pub proof fn lemma_find_after_create(
    cache: Map<Seq<char>, Micro>,
    c: CreateFlow,
    c2: CreateFlow,
    w: StoreAction,
    c3: CreateFlow,
    done: StoreAction,
    f: FindFlow,
    f2: FindFlow,
    b: StoreAction,
)
    requires
        c.wf(),
        c.stage == CreateStage::Connecting,
        c.created->Some_0.id == c.id,
        CreateFlow::step_post(c, StoreEvent::CacheOpened(Ok(())), c2, w),
        CreateFlow::step_post(c2, StoreEvent::CacheWritten, c3, done),
        f.id == c.created->Some_0.id,
        f.stage == FindStage::ReadingCache,
        FindFlow::step_post(
            f,
            StoreEvent::CachedMicro(
                cached_read(cache_after(cache, writes_of(w)), micro_key_text(f.id as nat)),
            ),
            f2,
            b,
        ),
    ensures
        c3.outcome == Some(Ok::<Micro, ApiError>(c.created->Some_0)),
        f2.outcome == c3.outcome,
        b is Done,
{
    let ws = writes_of(w);
    assert(ws.drop_last() =~= Seq::<CacheWrite>::empty());
    assert(cache_after(cache, ws.drop_last()) == cache);
    assert(ws.last() == ws[0]);
    assert(cache_after(cache, ws) == cache.insert(micro_key_text(c.id as nat), c.created->Some_0));
}

/// The micros that fetching each of `ids` from `cache` finds, in the order of
/// the ids; an id whose hash is not there is left out.
pub open spec fn fetched_from(cache: Map<Seq<char>, Micro>, ids: Seq<u32>) -> Seq<Micro>
    decreases ids.len(),
{
    if ids.len() == 0 {
        Seq::empty()
    } else {
        let earlier = fetched_from(cache, ids.drop_last());
        match cached_read(cache, micro_key_text(ids.last() as nat)) {
            Some(m) => earlier.push(m),
            None => earlier,
        }
    }
}

/// The members at ranks `start ..= stop` of the sorted set that one `ZADD` of
/// the (score, member) pairs `args` makes of an absent key, when the scores
/// strictly increase along `args`: a member's rank is then its pair's place.
pub open spec fn index_range(args: Seq<i64>, start: int, stop: int) -> Seq<i64> {
    Seq::new(
        window_len((args.len() / 2) as int, start, stop + 1) as nat,
        |k: int| args[2 * (start + k) + 1],
    )
}

/// The hashes written for `rows`, one by one, hold each row under its own key
/// when no two rows share an id.
proof fn lemma_hashes_hold_rows(
    cache: Map<Seq<char>, Micro>,
    writes: Seq<CacheWrite>,
    rows: Seq<Micro>,
    i: int,
)
    requires
        0 <= i <= rows.len(),
        rows.len() <= writes.len(),
        forall|k: int| 0 <= k < rows.len() ==> hmset_of(#[trigger] writes[k], rows[k]),
        forall|j: int, k: int| 0 <= j < k < rows.len() ==> rows[j].id != rows[k].id,
    ensures
        forall|j: int|
            0 <= j < i ==> cached_read(
                cache_after(cache, writes.take(i)),
                micro_key_text(#[trigger] rows[j].id as nat),
            ) == Some(rows[j]),
    decreases i,
{
    if i > 0 {
        lemma_hashes_hold_rows(cache, writes, rows, i - 1);
        let w = writes.take(i);
        assert(w.drop_last() =~= writes.take(i - 1));
        assert(w.last() == writes[i - 1]);
        assert(hmset_of(writes[i - 1], rows[i - 1]));
        let last_key = micro_key_text(rows[i - 1].id as nat);
        assert(cache_after(cache, w) == cache_after(cache, writes.take(i - 1)).insert(
            last_key,
            rows[i - 1],
        ));
        assert forall|j: int| 0 <= j < i implies cached_read(
            cache_after(cache, w),
            micro_key_text(#[trigger] rows[j].id as nat),
        ) == Some(rows[j]) by {
            if j < i - 1 {
                if micro_key_text(rows[j].id as nat) == last_key {
                    lemma_micro_key_injective(rows[j].id as nat, rows[i - 1].id as nat);
                }
            }
        }
    }
}

/// Fetching ids whose hashes all hold micros finds those micros, in order.
proof fn lemma_fetch_finds_all(cache: Map<Seq<char>, Micro>, ids: Seq<u32>, ms: Seq<Micro>)
    requires
        ids.len() == ms.len(),
        forall|k: int|
            0 <= k < ids.len() ==> cached_read(cache, micro_key_text(#[trigger] ids[k] as nat))
                == Some(ms[k]),
    ensures
        fetched_from(cache, ids) == ms,
    decreases ids.len(),
{
    if ids.len() > 0 {
        let n = ids.len() - 1;
        assert(cached_read(cache, micro_key_text(ids[n] as nat)) == Some(ms[n]));
        lemma_fetch_finds_all(cache, ids.drop_last(), ms.drop_last());
        assert(ms.drop_last().push(ms[n]) =~= ms);
    }
}

/// A page read again from the cache answers what the scan that rebuilt the
/// cache answered. The first read found no page key, scanned all rows of the
/// type and wrote each row's hash and the page key's index; when the rows'
/// update times strictly increase and no two rows share an id, and the cache
/// gives back what was written, a second read of the same page (same type,
/// size, number and order flag), with a size of at least one, finds the key,
/// reads the page's ids from the index, finds every one of their hashes and
/// answers the same micros, without a scan.
pub proof fn lemma_page_read_again_from_cache(
    cache: Map<Seq<char>, Micro>,
    a: ListFlow,
    a2: ListFlow,
    x: StoreAction,
    a3: ListFlow,
    done: StoreAction,
    b: ListFlow,
    b2: ListFlow,
    y1: StoreAction,
    ids: Vec<u32>,
    b3: ListFlow,
    y2: StoreAction,
    found: Vec<Micro>,
    b4: ListFlow,
    y3: StoreAction,
)
    requires
        a.wf(),
        a.stage == ListStage::Scanning,
        a.rows@.len() > 0,
        forall|j: int, k: int|
            0 <= j < k < a.rows@.len() ==> a.rows@[j].update_ts < a.rows@[k].update_ts,
        forall|j: int, k: int| 0 <= j < k < a.rows@.len() ==> a.rows@[j].id != a.rows@[k].id,
        ListFlow::step_post(a, StoreEvent::RowsEnd, a2, x),
        ListFlow::step_post(a2, StoreEvent::CacheWritten, a3, done),
        b.wf(),
        b.stage == ListStage::CheckingIndex,
        b.typ == a.typ,
        b.page_size == a.page_size,
        b.page_num == a.page_num,
        b.key@ == a.key@,
        b.page_size >= 1,
        ListFlow::step_post(b, StoreEvent::KeyExists(Ok(true)), b2, y1),
        ids@.len() == index_range(a.args@, b2.start as int, b2.end - 1).len(),
        forall|k: int|
            0 <= k < ids@.len() ==> #[trigger] ids@[k] as i64 == index_range(
                a.args@,
                b2.start as int,
                b2.end - 1,
            )[k],
        ListFlow::step_post(b2, StoreEvent::RangeIds(Some(ids)), b3, y2),
        found@ == fetched_from(cache_after(cache, writes_of(x)), ids@),
        ListFlow::step_post(b3, StoreEvent::Fetched(found), b4, y3),
    ensures
        y1 is CacheRange,
        y2 is FetchEach,
        y3 is Done,
        a3.outcome is Some,
        a3.outcome->Some_0 is Ok,
        same_outcome(a3.outcome, b4.outcome),
{
    let rows = a.rows@;
    let n = rows.len() as int;
    let s = a.start as int;
    let e = a.end as int;
    let ws = writes_of(x);
    assert(b2.start == s && b2.end == e);
    let len = window_len(n, s, e);
    assert(a.args@.len() / 2 == n);
    let members = index_range(a.args@, s, e - 1);
    assert(members.len() == len);
    let page_rows = Seq::new(len as nat, |k: int| rows[s + k]);
    assert forall|k: int| 0 <= k < len implies #[trigger] ids@[k] == page_rows[k].id by {
        let _ = rows[s + k];
        assert(members[k] == a.args@[2 * (s + k) + 1]);
    }
    lemma_hashes_hold_rows(cache, ws, rows, n);
    assert(ws.drop_last() =~= ws.take(n));
    assert(cache_after(cache, ws) == cache_after(cache, ws.take(n)));
    let cache2 = cache_after(cache, ws);
    assert forall|k: int| 0 <= k < len implies cached_read(
        cache2,
        micro_key_text(#[trigger] ids@[k] as nat),
    ) == Some(page_rows[k]) by {
        assert(ids@[k] == rows[s + k].id);
    }
    lemma_fetch_finds_all(cache2, ids@, page_rows);
    let p = a3.outcome->Some_0->Ok_0;
    let q = b4.outcome->Some_0->Ok_0;
    assert(p@ == a.micros@);
    assert(page_shows(p@, page_rows));
    assert(page_shows(q@, page_rows));
}

// ----------------------------------------------------------------------------
// No flow refuses an answer that the outside world can give to what it asked.
// ----------------------------------------------------------------------------

/// A find takes every answer to what it asked for: any outcome of opening the
/// cache, any read of the hash, any select, and the end of the cache write.
pub proof fn lemma_find_takes_every_answer(flow: FindFlow)
    requires
        flow.wf(),
    ensures
        flow.stage == FindStage::Connecting ==> forall|r: Result<(), ApiError>|
            #[trigger] flow.accepts(StoreEvent::CacheOpened(r)),
        flow.stage == FindStage::ReadingCache ==> forall|m: Option<Micro>|
            #[trigger] flow.accepts(StoreEvent::CachedMicro(m)),
        flow.stage == FindStage::ReadingDb ==> forall|r: Result<Micro, ApiError>|
            #[trigger] flow.accepts(StoreEvent::Selected(r)),
        flow.stage == FindStage::WritingCache ==> flow.accepts(StoreEvent::CacheWritten),
{
}

/// A create takes every answer to what it asked for: any outcome of beginning,
/// inserting, selecting, committing and opening the cache, and the end of the
/// cache write.
pub proof fn lemma_create_takes_every_answer(flow: CreateFlow)
    requires
        flow.wf(),
    ensures
        flow.stage == CreateStage::Beginning ==> forall|r: Result<(), ApiError>|
            #[trigger] flow.accepts(StoreEvent::Begun(r)),
        flow.stage == CreateStage::Inserting ==> forall|r: Result<u64, ApiError>|
            #[trigger] flow.accepts(StoreEvent::Inserted(r)),
        flow.stage == CreateStage::Selecting ==> forall|r: Result<Micro, ApiError>|
            #[trigger] flow.accepts(StoreEvent::Selected(r)),
        flow.stage == CreateStage::Committing ==> forall|r: Result<(), ApiError>|
            #[trigger] flow.accepts(StoreEvent::Committed(r)),
        flow.stage == CreateStage::Connecting ==> forall|r: Result<(), ApiError>|
            #[trigger] flow.accepts(StoreEvent::CacheOpened(r)),
        flow.stage == CreateStage::WritingCache ==> flow.accepts(StoreEvent::CacheWritten),
{
}

/// A page read takes every answer to what it asked for: any outcome of opening
/// the cache; a failed key check, and any key check once the page's first
/// position fits in 16 bits; any read of the index; every fetch whose micros
/// have times that can be shown, an empty one included; a failed scan and the
/// end of a scan; and the end of the cache writes.
pub proof fn lemma_list_takes_every_answer(flow: ListFlow)
    requires
        flow.wf(),
    ensures
        flow.stage == ListStage::Connecting ==> forall|r: Result<(), ApiError>|
            #[trigger] flow.accepts(StoreEvent::CacheOpened(r)),
        flow.stage == ListStage::CheckingIndex ==> forall|e: ApiError|
            #[trigger] flow.accepts(StoreEvent::KeyExists(Err(e))),
        flow.stage == ListStage::CheckingIndex && page_is_addressable(
            flow.page_size,
            flow.page_num,
        ) ==> forall|b: bool| #[trigger] flow.accepts(StoreEvent::KeyExists(Ok(b))),
        flow.stage == ListStage::ReadingIndex ==> forall|ids: Option<Vec<u32>>|
            #[trigger] flow.accepts(StoreEvent::RangeIds(ids)),
        flow.stage == ListStage::Fetching ==> forall|found: Vec<Micro>|
            all_times_in_range(found@) ==> #[trigger] flow.accepts(StoreEvent::Fetched(found)),
        flow.stage == ListStage::Scanning ==> flow.accepts(StoreEvent::RowsEnd),
        flow.stage == ListStage::Scanning ==> forall|e: ApiError|
            #[trigger] flow.accepts(StoreEvent::RowsFailed(e)),
        flow.stage == ListStage::WritingCache ==> flow.accepts(StoreEvent::CacheWritten),
{
}

/// An index range with no ids (a page past the end of the index) answers an
/// empty page: the fetch of no ids is taken, and the read ends with no micros
/// and nothing more to do.
pub proof fn lemma_empty_range_answers_empty_page(
    b: ListFlow,
    ids: Vec<u32>,
    b2: ListFlow,
    y: StoreAction,
    found: Vec<Micro>,
    b3: ListFlow,
    y2: StoreAction,
)
    requires
        b.wf(),
        b.stage == ListStage::ReadingIndex,
        ids@.len() == 0,
        ListFlow::step_post(b, StoreEvent::RangeIds(Some(ids)), b2, y),
        b2.wf(),
        found@.len() == 0,
        ListFlow::step_post(b2, StoreEvent::Fetched(found), b3, y2),
    ensures
        y matches StoreAction::FetchEach { ids: asked } && asked@.len() == 0,
        b2.accepts(StoreEvent::Fetched(found)),
        y2 is Done,
        b3.outcome matches Some(Ok(page)) && page@.len() == 0,
{
    lemma_list_takes_every_answer(b2);
    assert(all_times_in_range(found@));
}

} // verus!
