use micro::application::{CreateMicro, Micro};
use micro::error::ApiError;
use micro::proto::ProtoMicro;
use micro::store::{
    CacheWrite, CreateFlow, CreateStage, FindFlow, FindStage, ListFlow, ListStage, StoreAction,
    StoreEvent,
};

fn row(id: u32, typ: i8, update_ts: i64) -> Micro {
    Micro {
        id,
        name: format!("m{}", id),
        view_num: id * 10,
        typ,
        update_ts,
        create_ts: update_ts - 1000,
    }
}

fn feed_find(flow: &mut FindFlow, e: StoreEvent) -> StoreAction {
    assert!(flow.accepts_event(&e));
    flow.step(e)
}

fn feed_create(flow: &mut CreateFlow, e: StoreEvent) -> StoreAction {
    assert!(flow.accepts_event(&e));
    flow.step(e)
}

fn feed_list(flow: &mut ListFlow, e: StoreEvent) -> StoreAction {
    assert!(flow.accepts_event(&e));
    flow.step(e)
}

#[test]
fn find_answers_from_the_cache_on_a_hit() {
    let (mut flow, a) = FindFlow::start(7);
    assert!(matches!(a, StoreAction::OpenCache));
    match feed_find(&mut flow, StoreEvent::CacheOpened(Ok(()))) {
        StoreAction::CacheGetAll { key } => assert_eq!(key, "micro_7"),
        other => panic!("unexpected {:?}", other),
    }
    let a = feed_find(&mut flow, StoreEvent::CachedMicro(Some(row(7, 1, 5000))));
    assert!(matches!(a, StoreAction::Done));
    assert_eq!(flow.stage, FindStage::Finished);
    let m = flow.into_outcome().unwrap();
    assert_eq!(m.id, 7);
    assert_eq!(m.name, "m7");
}

#[test]
fn find_falls_back_to_the_database_and_caches_the_row() {
    let (mut flow, _) = FindFlow::start(8);
    feed_find(&mut flow, StoreEvent::CacheOpened(Ok(())));
    match feed_find(&mut flow, StoreEvent::CachedMicro(None)) {
        StoreAction::DbSelect { id } => assert_eq!(id, 8),
        other => panic!("unexpected {:?}", other),
    }
    match feed_find(&mut flow, StoreEvent::Selected(Ok(row(8, 2, 9000)))) {
        StoreAction::CacheWriteAll { writes } => {
            assert_eq!(writes.len(), 1);
            match &writes[0] {
                CacheWrite::Hset { key, micro } => {
                    assert_eq!(key, "micro_8");
                    assert_eq!(micro.update_ts, 9000);
                }
                other => panic!("unexpected {:?}", other),
            }
        }
        other => panic!("unexpected {:?}", other),
    }
    assert!(!flow.accepts_event(&StoreEvent::RowsEnd));
    let a = feed_find(&mut flow, StoreEvent::CacheWritten);
    assert!(matches!(a, StoreAction::Done));
    assert_eq!(flow.into_outcome().unwrap().view_num, 80);
}

#[test]
fn find_reports_errors() {
    let (mut flow, _) = FindFlow::start(1);
    let a = feed_find(
        &mut flow,
        StoreEvent::CacheOpened(Err(ApiError::Internal("no cache".to_string()))),
    );
    assert!(matches!(a, StoreAction::Done));
    assert!(matches!(flow.into_outcome(), Err(ApiError::Internal(m)) if m == "no cache"));

    let (mut flow, _) = FindFlow::start(2);
    feed_find(&mut flow, StoreEvent::CacheOpened(Ok(())));
    feed_find(&mut flow, StoreEvent::CachedMicro(None));
    let a = feed_find(&mut flow, StoreEvent::Selected(Err(ApiError::SqlxError(sqlx::Error::RowNotFound))));
    assert!(matches!(a, StoreAction::Done));
    assert!(matches!(flow.into_outcome(), Err(ApiError::SqlxError(sqlx::Error::RowNotFound))));
}

#[test]
fn create_inserts_with_one_timestamp_and_caches_the_new_row() {
    let (mut flow, a) = CreateFlow::start(CreateMicro { name: "new".to_string(), typ: 3 });
    assert!(matches!(a, StoreAction::DbBegin));
    assert_eq!(flow.stage, CreateStage::Beginning);
    let now = flow.now;
    match feed_create(&mut flow, StoreEvent::Begun(Ok(()))) {
        StoreAction::TxInsert { name, typ, update_ts, create_ts } => {
            assert_eq!(name, "new");
            assert_eq!(typ, 3);
            assert_eq!(update_ts, now);
            assert_eq!(create_ts, now);
        }
        other => panic!("unexpected {:?}", other),
    }
    match feed_create(&mut flow, StoreEvent::Inserted(Ok(41))) {
        StoreAction::TxSelect { id } => assert_eq!(id, 41),
        other => panic!("unexpected {:?}", other),
    }
    let created = Micro {
        id: 41,
        name: "new".to_string(),
        view_num: 0,
        typ: 3,
        update_ts: now,
        create_ts: now,
    };
    assert!(matches!(feed_create(&mut flow, StoreEvent::Selected(Ok(created))), StoreAction::TxCommit));
    assert!(matches!(feed_create(&mut flow, StoreEvent::Committed(Ok(()))), StoreAction::OpenCache));
    match feed_create(&mut flow, StoreEvent::CacheOpened(Ok(()))) {
        StoreAction::CacheWriteAll { writes } => match &writes[0] {
            CacheWrite::Hset { key, micro } => {
                assert_eq!(key, "micro_41");
                assert_eq!(micro.name, "new");
            }
            other => panic!("unexpected {:?}", other),
        },
        other => panic!("unexpected {:?}", other),
    }
    assert!(matches!(feed_create(&mut flow, StoreEvent::CacheWritten), StoreAction::Done));
    let m = flow.into_outcome().unwrap();
    assert_eq!(m.id, 41);
    assert_eq!(m.create_ts, now);
}

#[test]
fn create_fails_when_the_cache_cannot_be_reached_after_commit() {
    let (mut flow, _) = CreateFlow::start(CreateMicro { name: "x".to_string(), typ: 0 });
    feed_create(&mut flow, StoreEvent::Begun(Ok(())));
    feed_create(&mut flow, StoreEvent::Inserted(Ok(5)));
    feed_create(&mut flow, StoreEvent::Selected(Ok(row(5, 0, 100_000))));
    feed_create(&mut flow, StoreEvent::Committed(Ok(())));
    let e = ApiError::RedisError(redis::RedisError::from((redis::ErrorKind::IoError, "down")));
    assert!(matches!(feed_create(&mut flow, StoreEvent::CacheOpened(Err(e))), StoreAction::Done));
    assert!(matches!(flow.into_outcome(), Err(ApiError::RedisError(_))));
}

#[test]
fn create_stops_at_a_failed_insert() {
    let (mut flow, _) = CreateFlow::start(CreateMicro { name: "x".to_string(), typ: 0 });
    feed_create(&mut flow, StoreEvent::Begun(Ok(())));
    let a = feed_create(&mut flow, StoreEvent::Inserted(Err(ApiError::SqlxError(sqlx::Error::PoolClosed))));
    assert!(matches!(a, StoreAction::Done));
    assert!(matches!(flow.into_outcome(), Err(ApiError::SqlxError(sqlx::Error::PoolClosed))));
}

#[test]
fn list_scans_the_database_and_answers_the_page_window() {
    // page 2 of 2 rows: positions 2 and 3
    let (mut flow, a) = ListFlow::start(4, 2, 2, false);
    assert!(matches!(a, StoreAction::OpenCache));
    match feed_list(&mut flow, StoreEvent::CacheOpened(Ok(()))) {
        StoreAction::CacheExists { key } => assert_eq!(key, "micros_typ_4_2_false"),
        other => panic!("unexpected {:?}", other),
    }
    match feed_list(&mut flow, StoreEvent::KeyExists(Ok(false))) {
        StoreAction::DbScanType { typ } => assert_eq!(typ, 4),
        other => panic!("unexpected {:?}", other),
    }
    assert_eq!((flow.start, flow.end), (2, 4));
    for id in 1..=5u32 {
        let a = feed_list(&mut flow, StoreEvent::Row(row(id, 4, 1000 * id as i64)));
        assert!(matches!(a, StoreAction::ReadNextRow));
    }
    assert_eq!(flow.stage, ListStage::Scanning);
    match feed_list(&mut flow, StoreEvent::RowsEnd) {
        StoreAction::CacheWriteAll { writes } => {
            assert_eq!(writes.len(), 6);
            for (k, w) in writes.iter().take(5).enumerate() {
                match w {
                    CacheWrite::Hmset { key, micro } => {
                        assert_eq!(key, &format!("micro_{}", k + 1));
                        assert_eq!(micro.id, k as u32 + 1);
                    }
                    other => panic!("unexpected {:?}", other),
                }
            }
            match &writes[5] {
                CacheWrite::Zadd { key, args } => {
                    assert_eq!(key, "micros_typ_4_2_false");
                    assert_eq!(args, &vec![1000, 1, 2000, 2, 3000, 3, 4000, 4, 5000, 5]);
                }
                other => panic!("unexpected {:?}", other),
            }
        }
        other => panic!("unexpected {:?}", other),
    }
    assert!(matches!(feed_list(&mut flow, StoreEvent::CacheWritten), StoreAction::Done));
    let page = flow.into_outcome().unwrap();
    let ids: Vec<u32> = page.iter().map(|p| p.id).collect();
    assert_eq!(ids, vec![3, 4]);
}

#[test]
fn list_page_past_the_end_is_empty() {
    let (mut flow, _) = ListFlow::start(1, 10, 3, true);
    feed_list(&mut flow, StoreEvent::CacheOpened(Ok(())));
    feed_list(&mut flow, StoreEvent::KeyExists(Ok(false)));
    for id in 1..=4u32 {
        feed_list(&mut flow, StoreEvent::Row(row(id, 1, 10)));
    }
    feed_list(&mut flow, StoreEvent::RowsEnd);
    feed_list(&mut flow, StoreEvent::CacheWritten);
    assert!(flow.into_outcome().unwrap().is_empty());
}

#[test]
fn list_answers_from_the_index_when_every_id_is_found() {
    let (mut flow, _) = ListFlow::start(2, 3, 1, false);
    feed_list(&mut flow, StoreEvent::CacheOpened(Ok(())));
    match feed_list(&mut flow, StoreEvent::KeyExists(Ok(true))) {
        StoreAction::CacheRange { key, start, stop } => {
            assert_eq!(key, "micros_typ_2_1_false");
            assert_eq!((start, stop), (0, 2));
        }
        other => panic!("unexpected {:?}", other),
    }
    match feed_list(&mut flow, StoreEvent::RangeIds(Some(vec![9, 4]))) {
        StoreAction::FetchEach { ids } => assert_eq!(ids, vec![9, 4]),
        other => panic!("unexpected {:?}", other),
    }
    let a = feed_list(&mut flow, StoreEvent::Fetched(vec![row(9, 2, 50), row(4, 2, 60)]));
    assert!(matches!(a, StoreAction::Done));
    let ids: Vec<u32> = flow.into_outcome().unwrap().iter().map(|p| p.id).collect();
    assert_eq!(ids, vec![9, 4]);
}

#[test]
fn list_scans_when_an_indexed_id_is_missing() {
    let (mut flow, _) = ListFlow::start(2, 3, 1, false);
    feed_list(&mut flow, StoreEvent::CacheOpened(Ok(())));
    feed_list(&mut flow, StoreEvent::KeyExists(Ok(true)));
    feed_list(&mut flow, StoreEvent::RangeIds(Some(vec![9, 4])));
    match feed_list(&mut flow, StoreEvent::Fetched(vec![row(9, 2, 50)])) {
        StoreAction::DbScanType { typ } => assert_eq!(typ, 2),
        other => panic!("unexpected {:?}", other),
    }
    assert_eq!(flow.stage, ListStage::Scanning);
}

#[test]
fn list_scans_when_the_index_cannot_be_read() {
    let (mut flow, _) = ListFlow::start(2, 3, 1, false);
    feed_list(&mut flow, StoreEvent::CacheOpened(Ok(())));
    feed_list(&mut flow, StoreEvent::KeyExists(Ok(true)));
    assert!(matches!(feed_list(&mut flow, StoreEvent::RangeIds(None)), StoreAction::DbScanType { .. }));
}

#[test]
fn list_reports_errors() {
    let (mut flow, _) = ListFlow::start(2, 3, 1, false);
    feed_list(&mut flow, StoreEvent::CacheOpened(Ok(())));
    let a = feed_list(&mut flow, StoreEvent::KeyExists(Err(ApiError::Internal("e".to_string()))));
    assert!(matches!(a, StoreAction::Done));
    assert!(flow.into_outcome().is_err());

    let (mut flow, _) = ListFlow::start(2, 3, 1, false);
    feed_list(&mut flow, StoreEvent::CacheOpened(Ok(())));
    feed_list(&mut flow, StoreEvent::KeyExists(Ok(false)));
    feed_list(&mut flow, StoreEvent::Row(row(1, 2, 10)));
    let a = feed_list(&mut flow, StoreEvent::RowsFailed(ApiError::SqlxError(sqlx::Error::RowNotFound)));
    assert!(matches!(a, StoreAction::Done));
    assert!(matches!(flow.into_outcome(), Err(ApiError::SqlxError(_))));
}

#[test]
fn list_refuses_rows_it_cannot_show() {
    let (mut flow, _) = ListFlow::start(2, 3, 1, false);
    feed_list(&mut flow, StoreEvent::CacheOpened(Ok(())));
    feed_list(&mut flow, StoreEvent::KeyExists(Ok(false)));
    let mut bad = row(1, 2, 10);
    bad.create_ts = i64::MAX;
    assert!(!flow.accepts_event(&StoreEvent::Row(bad)));
}

#[test]
fn consecutive_pages_meet() {
    let bounds = |page_num: u16| {
        let (mut flow, _) = ListFlow::start(0, 7, page_num, false);
        feed_list(&mut flow, StoreEvent::CacheOpened(Ok(())));
        feed_list(&mut flow, StoreEvent::KeyExists(Ok(false)));
        (flow.start, flow.end)
    };
    for page_num in 1..20u16 {
        let (this_start, this_end) = bounds(page_num);
        let (next_start, _) = bounds(page_num + 1);
        assert_eq!(this_end, next_start);
        assert_eq!(this_end - this_start, 7);
    }
}

#[test]
fn page_zero_fails_only_after_the_key_check() {
    let (mut flow, _) = ListFlow::start(0, 7, 0, false);
    feed_list(&mut flow, StoreEvent::CacheOpened(Ok(())));
    let e = ApiError::RedisError(redis::RedisError::from((redis::ErrorKind::IoError, "down")));
    assert!(matches!(feed_list(&mut flow, StoreEvent::KeyExists(Err(e))), StoreAction::Done));
    assert!(matches!(flow.into_outcome(), Err(ApiError::RedisError(_))));

    let (mut flow, _) = ListFlow::start(0, 7, 0, false);
    feed_list(&mut flow, StoreEvent::CacheOpened(Ok(())));
    assert!(!flow.accepts_event(&StoreEvent::KeyExists(Ok(true))));
    assert!(!flow.accepts_event(&StoreEvent::KeyExists(Ok(false))));
}

fn scan_events() -> Vec<StoreEvent> {
    let mut events = vec![StoreEvent::CacheOpened(Ok(())), StoreEvent::KeyExists(Ok(false))];
    for id in 1..=5u32 {
        events.push(StoreEvent::Row(row(id, 4, 1000 * id as i64)));
    }
    events.push(StoreEvent::RowsEnd);
    events.push(StoreEvent::CacheWritten);
    events
}

#[test]
fn order_flag_only_names_the_page_key() {
    let (mut up, a) = ListFlow::start(4, 2, 2, false);
    let (mut down, b) = ListFlow::start(4, 2, 2, true);
    assert_eq!(format!("{:?}", a), format!("{:?}", b));
    for (e, f) in scan_events().into_iter().zip(scan_events()) {
        let x = format!("{:?}", feed_list(&mut up, e));
        let y = format!("{:?}", feed_list(&mut down, f));
        assert_eq!(x, y.replace("micros_typ_4_2_true", "micros_typ_4_2_false"));
    }
    assert_ne!(up.key, down.key);
    let p = up.into_outcome().unwrap();
    let q = down.into_outcome().unwrap();
    let ids = |v: &Vec<ProtoMicro>| v.iter().map(|m| m.id).collect::<Vec<u32>>();
    assert_eq!(ids(&p), vec![3, 4]);
    assert_eq!(ids(&q), vec![3, 4]);
}

/// A cache that gives back what was written: hashes by key, and sorted sets
/// as (score, member) pairs.
#[derive(Default)]
struct FakeCache {
    hashes: std::collections::HashMap<String, Micro>,
    zsets: std::collections::HashMap<String, Vec<(i64, i64)>>,
}

impl FakeCache {
    fn apply(&mut self, action: &StoreAction) {
        if let StoreAction::CacheWriteAll { writes } = action {
            for w in writes {
                match w {
                    CacheWrite::Hset { key, micro } | CacheWrite::Hmset { key, micro } => {
                        self.hashes.insert(key.clone(), micro.clone());
                    }
                    CacheWrite::Zadd { key, args } => {
                        let set = self.zsets.entry(key.clone()).or_default();
                        for pair in args.chunks(2) {
                            set.retain(|&(_, m)| m != pair[1]);
                            set.push((pair[0], pair[1]));
                        }
                        set.sort();
                    }
                }
            }
        }
    }

    fn read(&self, key: &str) -> Option<Micro> {
        self.hashes.get(key).cloned()
    }

    fn range(&self, key: &str, start: isize, stop: isize) -> Vec<u32> {
        let set = &self.zsets[key];
        let n = set.len() as isize;
        let stop = if stop < 0 { n + stop } else { stop.min(n - 1) };
        (start..=stop).map(|r| set[r as usize].1 as u32).collect()
    }
}

fn find_through(cache: &mut FakeCache, id: u32, db_row: Option<Micro>) -> Micro {
    let (mut flow, _) = FindFlow::start(id);
    let key = match feed_find(&mut flow, StoreEvent::CacheOpened(Ok(()))) {
        StoreAction::CacheGetAll { key } => key,
        other => panic!("unexpected {:?}", other),
    };
    let a = feed_find(&mut flow, StoreEvent::CachedMicro(cache.read(&key)));
    if matches!(a, StoreAction::DbSelect { .. }) {
        let w = feed_find(&mut flow, StoreEvent::Selected(Ok(db_row.expect("a row"))));
        cache.apply(&w);
        feed_find(&mut flow, StoreEvent::CacheWritten);
    }
    flow.into_outcome().unwrap()
}

#[test]
fn find_again_after_a_miss_answers_from_the_cache() {
    let mut cache = FakeCache::default();
    let first = find_through(&mut cache, 7, Some(row(7, 1, 500)));
    assert_eq!(cache.hashes.len(), 1);
    let second = find_through(&mut cache, 7, None);
    assert_eq!(format!("{:?}", first), format!("{:?}", second));
    assert_eq!(second.id, 7);
}

#[test]
fn find_after_create_answers_the_created_micro() {
    let mut cache = FakeCache::default();
    let (mut flow, _) = CreateFlow::start_at(CreateMicro { name: "fresh".to_string(), typ: 2 }, 1_700_000_000_000);
    feed_create(&mut flow, StoreEvent::Begun(Ok(())));
    feed_create(&mut flow, StoreEvent::Inserted(Ok(12)));
    let created = Micro {
        id: 12,
        name: "fresh".to_string(),
        view_num: 0,
        typ: 2,
        update_ts: 1_700_000_000_000,
        create_ts: 1_700_000_000_000,
    };
    feed_create(&mut flow, StoreEvent::Selected(Ok(created)));
    feed_create(&mut flow, StoreEvent::Committed(Ok(())));
    let w = feed_create(&mut flow, StoreEvent::CacheOpened(Ok(())));
    cache.apply(&w);
    feed_create(&mut flow, StoreEvent::CacheWritten);
    let made = flow.into_outcome().unwrap();
    let found = find_through(&mut cache, made.id, None);
    assert_eq!(format!("{:?}", made), format!("{:?}", found));
}

#[test]
fn page_read_again_is_served_from_the_cache() {
    let mut cache = FakeCache::default();
    let rows: Vec<Micro> = (1..=5u32).map(|id| row(10 - id, 6, 100 * id as i64)).collect();
    let (mut first, _) = ListFlow::start(6, 2, 2, true);
    feed_list(&mut first, StoreEvent::CacheOpened(Ok(())));
    assert!(matches!(feed_list(&mut first, StoreEvent::KeyExists(Ok(false))), StoreAction::DbScanType { .. }));
    for m in &rows {
        feed_list(&mut first, StoreEvent::Row(m.clone()));
    }
    let w = feed_list(&mut first, StoreEvent::RowsEnd);
    cache.apply(&w);
    feed_list(&mut first, StoreEvent::CacheWritten);
    let p = first.into_outcome().unwrap();

    let (mut second, _) = ListFlow::start(6, 2, 2, true);
    feed_list(&mut second, StoreEvent::CacheOpened(Ok(())));
    let ids = match feed_list(&mut second, StoreEvent::KeyExists(Ok(true))) {
        StoreAction::CacheRange { key, start, stop } => cache.range(&key, start, stop),
        other => panic!("unexpected {:?}", other),
    };
    let found = match feed_list(&mut second, StoreEvent::RangeIds(Some(ids))) {
        StoreAction::FetchEach { ids } => ids
            .iter()
            .filter_map(|id| cache.read(&format!("micro_{}", id)))
            .collect::<Vec<Micro>>(),
        other => panic!("unexpected {:?}", other),
    };
    assert!(matches!(feed_list(&mut second, StoreEvent::Fetched(found)), StoreAction::Done));
    let q = second.into_outcome().unwrap();
    let ids = |v: &Vec<ProtoMicro>| v.iter().map(|m| (m.id, m.name.clone())).collect::<Vec<_>>();
    assert_eq!(ids(&p), vec![(7, "m7".to_string()), (6, "m6".to_string())]);
    assert_eq!(ids(&p), ids(&q));
}
