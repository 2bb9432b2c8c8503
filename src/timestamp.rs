use time::{OffsetDateTime, UtcOffset};
use vstd::prelude::*;
use vstd::string::*;

verus! {

/// Default layout for times shown with their offset from UTC.
pub const TIMESTAMP_FORMAT_OFFSET: &'static str = "[year]-[month]-[day]T[hour]:[minute]:[second].[subsecond digits:3][offset_hour sign:mandatory]:[offset_minute]";

/// Default layout for times shown in UTC.
pub const TIMESTAMP_FORMAT_UTC: &'static str = "[year]-[month]-[day]T[hour]:[minute]:[second].[subsecond digits:3]Z";

/// How timestamps are shown. `UtcOffset` holds the offset in whole seconds
/// east of UTC.
#[derive(Clone, Copy, Debug, PartialEq, Eq, Structural)]
pub enum Timestamps {
    Off,
    Local,
    Utc,
    UtcOffset(i32),
}

/// Why no timestamp could be written.
#[derive(Clone, Copy, Debug, PartialEq, Eq, Structural)]
pub enum TimestampError {
    /// The offset of the local time zone could not be determined.
    IndeterminateOffset,
    /// The time could not be written in the layout: the layout is not valid,
    /// the offset is out of range, or the moment lies outside the supported
    /// dates in that offset.
    Format,
}

/// The text that the `time` crate writes for the moment `unix_nanos`
/// (nanoseconds since the Unix epoch), seen in the offset `offset_seconds`,
/// in the layout described by `layout`; `None` where it writes nothing.
pub uninterp spec fn time_written(unix_nanos: int, offset_seconds: int, layout: Seq<char>) -> Option<
    Seq<char>,
>;

pub open spec fn opt_text(o: Option<String>) -> Option<Seq<char>> {
    match o {
        Some(s) => Some(s@),
        None => None,
    }
}

pub open spec fn result_text<E>(r: Result<String, E>) -> Result<Seq<char>, E> {
    match r {
        Ok(s) => Ok(s@),
        Err(e) => Err(e),
    }
}

/// Relies on `OffsetDateTime::now_utc` and `unix_timestamp_nanos`: the
/// present moment, in nanoseconds since the Unix epoch.
#[verifier::external_body]
fn now_unix_nanos() -> i128 {
    OffsetDateTime::now_utc().unix_timestamp_nanos()
}

/// Relies on `UtcOffset::local_offset_at`: the offset of the local time zone
/// at a moment, in whole seconds; `None` where it cannot be determined.
#[verifier::external_body]
fn local_offset_at(unix_nanos: i128) -> Option<i32> {
    let t = match OffsetDateTime::from_unix_timestamp_nanos(unix_nanos) {
        Ok(t) => t,
        Err(_) => return None,
    };
    match UtcOffset::local_offset_at(t) {
        Ok(o) => Some(o.whole_seconds()),
        Err(_) => None,
    }
}

/// Relies on `OffsetDateTime::format`, on the moment and offset built from
/// plain values and on the layout read by `format_description::parse_owned`
/// in the first version of its syntax. What it writes depends on these
/// alone.
#[verifier::external_body]
fn format_moment(unix_nanos: i128, offset_seconds: i32, layout: &str) -> (r: Option<String>)
    ensures
        opt_text(r) == time_written(unix_nanos as int, offset_seconds as int, layout@),
{
    let t = OffsetDateTime::from_unix_timestamp_nanos(unix_nanos).ok()?;
    let offset = UtcOffset::from_whole_seconds(offset_seconds).ok()?;
    let items = time::format_description::parse_owned::<1>(layout).ok()?;
    t.checked_to_offset(offset)?.format(&items).ok()
}

/// The layout used: the custom one where given, else the default of the
/// mode.
pub open spec fn layout_spec(mode: Timestamps, custom: Option<Seq<char>>) -> Seq<char> {
    match custom {
        Some(c) => c,
        None => if mode is Utc {
            TIMESTAMP_FORMAT_UTC@
        } else {
            TIMESTAMP_FORMAT_OFFSET@
        },
    }
}

/// The layout for `mode`: `custom` where given, else the default of the mode.
pub fn layout_for<'a>(mode: &Timestamps, custom: &'a Option<String>) -> (r: &'a str)
    ensures
        r@ == layout_spec(*mode, opt_text(*custom)),
{
    match custom {
        Some(c) => c.as_str(),
        None => if let Timestamps::Utc = mode {
            TIMESTAMP_FORMAT_UTC
        } else {
            TIMESTAMP_FORMAT_OFFSET
        },
    }
}

/// The column for a written time: the time and one space; an error where
/// nothing was written.
pub open spec fn column_spec(written: Option<Seq<char>>) -> Result<Seq<char>, TimestampError> {
    match written {
        Some(w) => Ok(w + seq![' ']),
        None => Err(TimestampError::Format),
    }
}

/// The column for a written time: the time and one space; an error where
/// nothing was written.
pub fn timestamp_column(written: Option<String>) -> (r: Result<String, TimestampError>)
    ensures
        result_text(r) == column_spec(opt_text(written)),
{
    match written {
        Some(w) => {
            let ghost before = w@;
            let mut s = w;
            s.append(" ");
            proof {
                reveal_strlit(" ");
                assert(s@ =~= before + seq![' ']);
            }
            Ok(s)
        },
        None => Err(TimestampError::Format),
    }
}

/// The timestamp column for the clock reading `now` (nanoseconds since the
/// Unix epoch), where the local offset at that moment is `local_offset`:
/// empty where timestamps are off; else the moment in UTC, in the local
/// offset or in the fixed offset, written in the layout, and one space.
pub open spec fn timestamp_spec(
    mode: Timestamps,
    custom: Option<Seq<char>>,
    now: int,
    local_offset: Option<int>,
) -> Result<Seq<char>, TimestampError> {
    let layout = layout_spec(mode, custom);
    match mode {
        Timestamps::Off => Ok(Seq::empty()),
        Timestamps::Utc => column_spec(time_written(now, 0, layout)),
        Timestamps::Local => match local_offset {
            Some(o) => column_spec(time_written(now, o, layout)),
            None => Err(TimestampError::IndeterminateOffset),
        },
        Timestamps::UtcOffset(o) => column_spec(time_written(now, o as int, layout)),
    }
}

/// The timestamp column for a given clock reading and local offset.
pub fn timestamp_at(mode: &Timestamps, custom: &Option<String>, now: i128, local_offset: Option<i32>) -> (r:
    Result<String, TimestampError>)
    ensures
        result_text(r) == timestamp_spec(
            *mode,
            opt_text(*custom),
            now as int,
            offset_view(local_offset),
        ),
{
    let layout = layout_for(mode, custom);
    match mode {
        Timestamps::Off => Ok(String::new()),
        Timestamps::Utc => timestamp_column(format_moment(now, 0, layout)),
        Timestamps::Local => match local_offset {
            Some(o) => timestamp_column(format_moment(now, o, layout)),
            None => Err(TimestampError::IndeterminateOffset),
        },
        Timestamps::UtcOffset(o) => timestamp_column(format_moment(now, *o, layout)),
    }
}

/// One reading of the clock, in nanoseconds since the Unix epoch, and in
/// local mode the local offset at that moment; no offset in other modes.
pub fn clock_reading(mode: &Timestamps) -> (r: (i128, Option<i32>))
    ensures
        !(*mode is Local) ==> r.1 is None,
{
    let now = now_unix_nanos();
    let local_offset = if let Timestamps::Local = mode {
        local_offset_at(now)
    } else {
        None
    };
    (now, local_offset)
}

pub open spec fn offset_view(o: Option<i32>) -> Option<int> {
    match o {
        Some(x) => Some(x as int),
        None => None,
    }
}

/// The timestamp column for the present moment: what `timestamp_at` gives
/// for one reading of the clock and, in local mode, the local offset read at
/// that moment.
pub fn timestamp_segment(mode: &Timestamps, custom: &Option<String>) -> (r: Result<
    String,
    TimestampError,
>)
    ensures
        exists|now: int, local_offset: Option<int>|
            result_text(r) == #[trigger] timestamp_spec(*mode, opt_text(*custom), now, local_offset),
{
    let (now, local_offset) = clock_reading(mode);
    let r = timestamp_at(mode, custom, now, local_offset);
    assert(result_text(r) == timestamp_spec(*mode, opt_text(*custom), now as int, offset_view(local_offset)));
    r
}

} // verus!
