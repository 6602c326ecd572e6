use vstd::prelude::*;

verus! {

/// A micro as the gRPC service sends it: dates as local date-time text.
#[derive(Debug, Clone)]
pub struct ProtoMicro {
    pub id: u32,
    pub name: String,
    pub view_num: u32,
    pub typ: i32,
    pub create_datetime: String,
    pub update_datetime: String,
}

/// Asks for one micro by its id.
#[derive(Debug, Clone)]
pub struct GetMicroByIdRequest {
    pub id: u32,
}

/// Answers `GetMicroByIdRequest`.
#[derive(Debug, Clone)]
pub struct GetMicroByIdResponse {
    pub code: i32,
    pub msg: String,
    pub data: Option<ProtoMicro>,
}

/// Asks to create a micro.
#[derive(Debug, Clone)]
pub struct CreateMicroRequest {
    pub name: String,
    pub typ: i32,
}

/// Answers `CreateMicroRequest`.
#[derive(Debug, Clone)]
pub struct CreateMicroResponse {
    pub code: i32,
    pub msg: String,
}

/// Asks for one page of the micros of a type.
#[derive(Debug, Clone)]
pub struct GetMicroListRequest {
    pub typ: i32,
    pub page_size: u32,
    pub page_num: u32,
    pub is_desc: bool,
}

/// One page of micros.
#[derive(Debug, Clone)]
pub struct MicroList {
    pub total: u32,
    pub total_page: u32,
    pub cur_page: u32,
    pub datalist: Vec<ProtoMicro>,
}

/// Answers `GetMicroListRequest`.
#[derive(Debug, Clone)]
pub struct GetMicroListResponse {
    pub code: i32,
    pub msg: String,
    pub data: Option<MicroList>,
}

} // verus!
