use vstd::prelude::*;

use crate::application::{proto_shows, Micro};
use crate::error::{status_code_of, status_message_of, ApiError, RpcStatus};
use crate::proto::{
    CreateMicroResponse, GetMicroByIdResponse, GetMicroListRequest, GetMicroListResponse,
    MicroList, ProtoMicro,
};

verus! {

/// The code of a successful reply.
pub const OK_CODE: i32 = 200i32;

/// What a page request asks for, in the widths the store works with.
#[derive(Debug, Clone, Copy, PartialEq, Eq, Structural)]
pub struct ListQuery {
    pub typ: i8,
    pub page_size: u16,
    pub page_num: u16,
    pub is_desc: bool,
}

/// The error status that answers `e`.
pub open spec fn status_matches(s: RpcStatus, e: ApiError) -> bool {
    &&& s.code == status_code_of(e)
    &&& s.message@ == status_message_of(e)
}

/// Reads a page request: the type is cut to 8 bits, the page size and number
/// to 16 bits.
pub fn get_micro_list_query(req: &GetMicroListRequest) -> (q: ListQuery)
    ensures
        q.typ == req.typ as i8,
        q.page_size == req.page_size as u16,
        q.page_num == req.page_num as u16,
        q.is_desc == req.is_desc,
{
    ListQuery {
        typ: req.typ as i8,
        page_size: req.page_size as u16,
        page_num: req.page_num as u16,
        is_desc: req.is_desc,
    }
}

/// Answers a request for one micro: the micro with code 200 and an empty
/// message, or the status of the error.
pub fn get_micro_by_id_reply(result: Result<Micro, ApiError>) -> (r: Result<
    GetMicroByIdResponse,
    RpcStatus,
>)
    requires
        result matches Ok(m) ==> m.times_in_range(),
    ensures
        match result {
            Ok(m) => {
                &&& r matches Ok(resp)
                &&& resp.code == 200
                &&& resp.msg@ == Seq::<char>::empty()
                &&& resp.data matches Some(p)
                &&& proto_shows(p, m)
            },
            Err(e) => r matches Err(s) && status_matches(s, e),
        },
{
    match result {
        Ok(micro) => Ok(
            GetMicroByIdResponse {
                code: OK_CODE,
                msg: String::new(),
                data: Some(ProtoMicro::from_micro(micro)),
            },
        ),
        Err(err) => Err(err.into_status()),
    }
}

/// Answers a request to create a micro: code 200 and an empty message, or the
/// status of the error.
pub fn create_micro_reply(result: Result<Micro, ApiError>) -> (r: Result<
    CreateMicroResponse,
    RpcStatus,
>)
    ensures
        match result {
            Ok(_) => r matches Ok(resp) && resp.code == 200 && resp.msg@ == Seq::<char>::empty(),
            Err(e) => r matches Err(s) && status_matches(s, e),
        },
{
    match result {
        Ok(_) => Ok(CreateMicroResponse { code: OK_CODE, msg: String::new() }),
        Err(err) => Err(err.into_status()),
    }
}

/// Answers a page request: the micros with code 200, an empty message and the
/// fixed counts total 10, total_page 2, cur_page 1; or the status of the error.
pub fn get_micro_list_reply(result: Result<Vec<ProtoMicro>, ApiError>) -> (r: Result<
    GetMicroListResponse,
    RpcStatus,
>)
    ensures
        match result {
            Ok(micros) => {
                &&& r matches Ok(resp)
                &&& resp.code == 200
                &&& resp.msg@ == Seq::<char>::empty()
                &&& resp.data matches Some(list)
                &&& list.total == 10
                &&& list.total_page == 2
                &&& list.cur_page == 1
                &&& list.datalist == micros
            },
            Err(e) => r matches Err(s) && status_matches(s, e),
        },
{
    match result {
        Ok(micros) => Ok(
            GetMicroListResponse {
                code: OK_CODE,
                msg: String::new(),
                data: Some(MicroList { total: 10, total_page: 2, cur_page: 1, datalist: micros }),
            },
        ),
        Err(err) => Err(err.into_status()),
    }
}

} // verus!
