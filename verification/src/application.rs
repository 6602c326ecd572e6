use vstd::prelude::*;

use crate::datetime::{
    fmt_timestamp, plain_format, plain_specifier, shows_instant, timestamp_in_range,
    MAX_TIMESTAMP_MILLIS, MIN_TIMESTAMP_MILLIS,
};
use crate::proto::{CreateMicroRequest, ProtoMicro};

verus! {

/// A micro as it is stored: times in milliseconds since the UNIX epoch.
#[derive(Debug, Clone)]
pub struct Micro {
    pub id: u32,
    pub name: String,
    pub view_num: u32,
    pub typ: i8,
    pub update_ts: i64,
    pub create_ts: i64,
}

/// What creating a micro needs.
#[derive(Debug)]
pub struct CreateMicro {
    pub name: String,
    pub typ: i8,
}

impl Micro {
    /// Whether chrono can turn both times of the micro into dates.
    pub open spec fn times_in_range(&self) -> bool {
        &&& timestamp_in_range(self.create_ts as int)
        &&& timestamp_in_range(self.update_ts as int)
    }

    /// Whether chrono can turn both times of the micro into dates.
    pub fn has_times_in_range(&self) -> (r: bool)
        ensures
            r == self.times_in_range(),
    {
        MIN_TIMESTAMP_MILLIS <= self.create_ts && self.create_ts <= MAX_TIMESTAMP_MILLIS
            && MIN_TIMESTAMP_MILLIS <= self.update_ts && self.update_ts <= MAX_TIMESTAMP_MILLIS
    }

    /// A field-by-field copy of the micro.
    pub fn duplicate(&self) -> (r: Micro)
        ensures
            r == *self,
    {
        Micro {
            id: self.id,
            name: self.name.clone(),
            view_num: self.view_num,
            typ: self.typ,
            update_ts: self.update_ts,
            create_ts: self.create_ts,
        }
    }
}

/// The fields that a sent micro takes over from a stored one, unchanged but
/// for the type, which widens to `i32`.
pub open spec fn proto_matches(p: ProtoMicro, m: Micro) -> bool {
    &&& p.id == m.id
    &&& p.name@ == m.name@
    &&& p.view_num == m.view_num
    &&& p.typ == m.typ as i32
}

/// The format of the date-time text that is sent.
pub open spec fn datetime_format() -> Seq<char> {
    "%Y-%m-%d %H:%M:%S"@
}

/// A sent micro shows a stored one: the same fields, and each date-time text
/// is what chrono writes for its own time in the format `%Y-%m-%d %H:%M:%S` at
/// some offset of less than a day (the offset itself is left unsaid).
pub open spec fn proto_shows(p: ProtoMicro, m: Micro) -> bool {
    &&& proto_matches(p, m)
    &&& shows_instant(p.create_datetime@, m.create_ts as int, datetime_format())
    &&& shows_instant(p.update_datetime@, m.update_ts as int, datetime_format())
}

/// The format of the date-time text that is sent: `%Y-%m-%d %H:%M:%S`.
pub proof fn lemma_datetime_format_is_plain()
    ensures
        plain_format("%Y-%m-%d %H:%M:%S"@),
{
    reveal_strlit("%Y-%m-%d %H:%M:%S");
    let f = "%Y-%m-%d %H:%M:%S"@;
    assert forall|i: int| 0 <= i < f.len() && #[trigger] f[i] == '%' implies i + 1 < f.len()
        && plain_specifier(f[i + 1]) by {
        assert(i == 0 || i == 3 || i == 6 || i == 9 || i == 12 || i == 15);
    }
}

impl ProtoMicro {
    /// A sent micro built from a stored one and the text of its two times.
    pub fn with_datetimes(model: Micro, create_datetime: String, update_datetime: String) -> (r:
        ProtoMicro)
        ensures
            proto_matches(r, model),
            r.create_datetime == create_datetime,
            r.update_datetime == update_datetime,
    {
        ProtoMicro {
            id: model.id,
            name: model.name,
            view_num: model.view_num,
            typ: model.typ as i32,
            create_datetime,
            update_datetime,
        }
    }

    /// A sent micro built from a stored one: its times become local date-time
    /// text in the format `%Y-%m-%d %H:%M:%S`.
    pub fn from_micro(model: Micro) -> (r: ProtoMicro)
        requires
            model.times_in_range(),
        ensures
            proto_shows(r, model),
    {
        proof {
            lemma_datetime_format_is_plain();
        }
        let create_datetime = fmt_timestamp(model.create_ts, "%Y-%m-%d %H:%M:%S");
        let update_datetime = fmt_timestamp(model.update_ts, "%Y-%m-%d %H:%M:%S");
        ProtoMicro::with_datetimes(model, create_datetime, update_datetime)
    }
}

impl vstd::std_specs::convert::FromSpecImpl<CreateMicroRequest> for CreateMicro {
    open spec fn obeys_from_spec() -> bool {
        true
    }

    open spec fn from_spec(req: CreateMicroRequest) -> CreateMicro {
        CreateMicro { name: req.name, typ: req.typ as i8 }
    }
}

impl From<CreateMicroRequest> for CreateMicro {
    /// Takes the name; the type is cut to its low 8 bits.
    fn from(req: CreateMicroRequest) -> (r: CreateMicro) {
        CreateMicro { name: req.name, typ: req.typ as i8 }
    }
}

} // verus!
