use micro::application::{CreateMicro, Micro};
use micro::cache::Cache;
use micro::config::CacheConfig;
use chrono::TimeZone;
use micro::datetime::{
    fmt_timestamp, get_timestamp, try_fmt_timestamp, MAX_TIMESTAMP_MILLIS, MIN_TIMESTAMP_MILLIS,
};
use micro::error::{ApiError, RpcCode};
use micro::proto::{CreateMicroRequest, GetMicroListRequest, ProtoMicro};
use micro::store::check_page_addressable;
use micro::service::{
    create_micro_reply, get_micro_by_id_reply, get_micro_list_query,
    get_micro_list_reply,
};

fn sample(id: u32) -> Micro {
    Micro {
        id,
        name: format!("m{}", id),
        view_num: 5,
        typ: -2,
        update_ts: 1_700_000_000_000,
        create_ts: 1_600_000_000_000,
    }
}

fn redis_error() -> redis::RedisError {
    redis::RedisError::from((redis::ErrorKind::IoError, "connection refused"))
}

#[test]
fn error_messages() {
    assert_eq!(ApiError::SqlxError(sqlx::Error::RowNotFound).message(), "Database Error");
    assert_eq!(ApiError::RedisError(redis_error()).message(), "Unable to connect to the cache. ");
    assert_eq!(ApiError::Internal("boom".to_string()).message(), "Internal error: boom");
    assert_eq!(ApiError::NotFound("micro 3".to_string()).message(), "micro 3 Not Found");
    assert_eq!(ApiError::ValidationError("bad".to_string()).message(), "Validation Error: bad");
}

#[test]
fn error_statuses() {
    let s = ApiError::SqlxError(sqlx::Error::RowNotFound).into_status();
    assert_eq!(s.code, RpcCode::Unavailable);
    assert_eq!(s.message, "database error");
    let s = ApiError::RedisError(redis_error()).into_status();
    assert_eq!(s.code, RpcCode::Unavailable);
    assert_eq!(s.message, "redis error");
    let s = ApiError::Internal("boom".to_string()).into_status();
    assert_eq!(s.code, RpcCode::Internal);
    assert_eq!(s.message, "boom");
    let s = ApiError::NotFound("x".to_string()).into_status();
    assert_eq!(s.code, RpcCode::NotFound);
    assert_eq!(s.message, "x");
    let s = ApiError::ValidationError("v".to_string()).into_status();
    assert_eq!(s.code, RpcCode::InvalidArgument);
    assert_eq!(s.message, "v");
}

#[test]
fn cache_opens_on_a_good_url() {
    let cfg = CacheConfig {
        host: "127.0.0.1".to_string(),
        port: 6379,
        password: "pw".to_string(),
    };
    let cache = Cache::new(cfg).expect("a well formed url opens");
    let info = cache.get_client().get_connection_info();
    assert_eq!(info.redis.password.as_deref(), Some("pw"));
}

#[test]
fn cache_refuses_a_bad_url() {
    let cfg = CacheConfig {
        host: "bad host".to_string(),
        port: 6379,
        password: "pw".to_string(),
    };
    match Cache::new(cfg) {
        Err(ApiError::RedisError(_)) => {}
        other => panic!("expected a redis error, got {:?}", other.is_ok()),
    }
}

#[test]
fn cache_from_open_result_keeps_the_error() {
    match Cache::from_open_result(Err(redis_error())) {
        Err(ApiError::RedisError(e)) => assert_eq!(e.kind(), redis::ErrorKind::IoError),
        _ => panic!("expected a redis error"),
    }
}

#[test]
fn timestamp_range_matches_chrono() {
    assert!(chrono::DateTime::from_timestamp_millis(MIN_TIMESTAMP_MILLIS).is_some());
    assert!(chrono::DateTime::from_timestamp_millis(MIN_TIMESTAMP_MILLIS - 1).is_none());
    assert!(chrono::DateTime::from_timestamp_millis(MAX_TIMESTAMP_MILLIS).is_some());
    assert!(chrono::DateTime::from_timestamp_millis(MAX_TIMESTAMP_MILLIS + 1).is_none());
}

#[test]
fn now_is_in_range() {
    let now = get_timestamp();
    assert!(MIN_TIMESTAMP_MILLIS <= now && now <= MAX_TIMESTAMP_MILLIS);
    assert!(now > 1_600_000_000_000);
}

#[test]
fn formats_local_date_time() {
    let text = fmt_timestamp(1_600_000_000_000, "%Y-%m-%d %H:%M:%S");
    assert_eq!(text.len(), 19);
    assert!(text.starts_with("2020-09-1"));
    let edge = fmt_timestamp(MAX_TIMESTAMP_MILLIS, "%Y");
    assert!(edge.contains("26214"));
    let _ = fmt_timestamp(MIN_TIMESTAMP_MILLIS, "%%%a %b %e %T %D %F %R");
    let all = fmt_timestamp(0, "%G %g %U %W %V %u %w %q %s %f %Z %z %c %x %X %r %v %n%t%C%y");
    assert!(all.contains(" 0 "));
}

#[test]
fn create_request_type_is_cut_to_eight_bits() {
    let m: CreateMicro = CreateMicroRequest { name: "a".to_string(), typ: 300 }.into();
    assert_eq!(m.name, "a");
    assert_eq!(m.typ, 44);
    let m: CreateMicro = CreateMicroRequest { name: "b".to_string(), typ: -1 }.into();
    assert_eq!(m.typ, -1);
}

#[test]
fn proto_micro_keeps_fields_and_formats_times() {
    let p = ProtoMicro::from_micro(sample(9));
    assert_eq!(p.id, 9);
    assert_eq!(p.name, "m9");
    assert_eq!(p.view_num, 5);
    assert_eq!(p.typ, -2);
    assert_eq!(p.create_datetime.len(), 19);
    assert_eq!(p.update_datetime.len(), 19);
    assert_ne!(p.create_datetime, p.update_datetime);
    let q = ProtoMicro::with_datetimes(sample(1), "c".to_string(), "u".to_string());
    assert_eq!(q.create_datetime, "c");
    assert_eq!(q.update_datetime, "u");
}

#[test]
fn micro_reply_carries_the_micro() {
    let r = get_micro_by_id_reply(Ok(sample(4))).unwrap();
    assert_eq!(r.code, 200);
    assert_eq!(r.msg, "");
    assert_eq!(r.data.unwrap().id, 4);
    let e = get_micro_by_id_reply(Err(ApiError::NotFound("4".to_string()))).unwrap_err();
    assert_eq!(e.code, RpcCode::NotFound);
    assert_eq!(e.message, "4");
}

#[test]
fn create_reply() {
    let r = create_micro_reply(Ok(sample(1))).unwrap();
    assert_eq!(r.code, 200);
    assert_eq!(r.msg, "");
    let e = create_micro_reply(Err(ApiError::SqlxError(sqlx::Error::PoolTimedOut))).unwrap_err();
    assert_eq!(e.code, RpcCode::Unavailable);
    assert_eq!(e.message, "database error");
}

#[test]
fn list_reply_has_fixed_counts() {
    let page = vec![ProtoMicro::from_micro(sample(1)), ProtoMicro::from_micro(sample(2))];
    let r = get_micro_list_reply(Ok(page)).unwrap();
    assert_eq!(r.code, 200);
    let list = r.data.unwrap();
    assert_eq!((list.total, list.total_page, list.cur_page), (10, 2, 1));
    assert_eq!(list.datalist.len(), 2);
    assert_eq!(list.datalist[1].id, 2);
    let e = get_micro_list_reply(Err(ApiError::RedisError(redis_error()))).unwrap_err();
    assert_eq!(e.message, "redis error");
}

#[test]
fn list_query_cuts_widths() {
    let q = get_micro_list_query(&GetMicroListRequest {
        typ: 129,
        page_size: 65537,
        page_num: 3,
        is_desc: true,
    });
    assert_eq!(q.typ, -127);
    assert_eq!(q.page_size, 1);
    assert_eq!(q.page_num, 3);
    assert!(q.is_desc);
}

#[test]
fn page_addressability() {
    assert!(!check_page_addressable(10, 0));
    assert!(check_page_addressable(10, 1));
    assert!(check_page_addressable(255, 258));
    assert!(!check_page_addressable(256, 257));
    assert!(check_page_addressable(65535, 1));
}

fn chrono_local(ts: i64, fmt: &str) -> String {
    chrono::Local.timestamp_millis_opt(ts).unwrap().format(fmt).to_string()
}

#[test]
fn formats_as_chrono_does_in_local_time() {
    for &ts in &[0i64, 1_600_000_000_123, -86_400_000, MAX_TIMESTAMP_MILLIS] {
        for fmt in ["%Y-%m-%d %H:%M:%S", "%-d/%-m %.3f %:z %+", "100%%", "%s"] {
            assert_eq!(fmt_timestamp(ts, fmt), chrono_local(ts, fmt));
        }
    }
}

#[test]
fn try_format_refuses_what_chrono_refuses() {
    assert_eq!(try_fmt_timestamp(0, "%Y").unwrap(), chrono_local(0, "%Y"));
    assert!(try_fmt_timestamp(0, "%Q").is_none());
    assert!(try_fmt_timestamp(0, "%#z").is_none());
    assert!(try_fmt_timestamp(0, "ends in %").is_none());
    assert!(try_fmt_timestamp(MAX_TIMESTAMP_MILLIS + 1, "%Y").is_none());
    assert!(try_fmt_timestamp(MIN_TIMESTAMP_MILLIS - 1, "%Y").is_none());
    assert!(try_fmt_timestamp(MIN_TIMESTAMP_MILLIS, "%Y").is_some());
}

#[test]
fn driver_errors_convert_into_api_errors() {
    assert!(matches!(ApiError::from(sqlx::Error::RowNotFound), ApiError::SqlxError(sqlx::Error::RowNotFound)));
    match ApiError::from(redis_error()) {
        ApiError::RedisError(e) => assert_eq!(e.kind(), redis::ErrorKind::IoError),
        _ => panic!("expected a redis error"),
    }
    let a = ApiError::SqlxError(sqlx::Error::RowNotFound).into_status();
    let b = ApiError::SqlxError(sqlx::Error::PoolClosed).into_status();
    assert_eq!((a.code, a.message), (b.code, b.message));
}

#[test]
fn proto_micro_times_are_the_local_texts_of_their_own_times() {
    let m = sample(3);
    let p = ProtoMicro::from_micro(m.clone());
    assert_eq!(p.create_datetime, chrono_local(m.create_ts, "%Y-%m-%d %H:%M:%S"));
    assert_eq!(p.update_datetime, chrono_local(m.update_ts, "%Y-%m-%d %H:%M:%S"));
}
