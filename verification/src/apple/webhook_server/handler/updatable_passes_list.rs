//! A device asks which of its passes changed.

use crate::app::{serial_of, watermark, App};
use crate::db::models::moment;
use crate::db::texts;
use crate::time::Timestamp;
use vstd::prelude::*;

verus! {

/// The answer: the serial numbers of the passes that changed, and the
/// watermark to ask with next time.
#[derive(Debug, PartialEq, Eq)]
pub struct Res {
    pub serial_numbers: Vec<String>,
    pub last_updated: Timestamp,
}

/// The watermark that the device was given last time, if it has one.
#[derive(Clone, Copy, Debug, PartialEq, Eq)]
pub struct QueryParams {
    pub passes_updated_since: Option<Timestamp>,
}

#[derive(Debug, PartialEq, Eq)]
pub struct PathParams {
    pub device_library_id: String,
    pub pass_type_id: String,
}

/// The passes of the template that the device is registered to and that
/// changed at the given watermark or later, or all of them where none is
/// given; and the new watermark, which is the latest change among them,
/// or `now` where there are none.
pub fn handle_list_updatable_passes(
    query: QueryParams,
    path: &PathParams,
    app: &App,
    now: Timestamp,
) -> (res: Res)
    ensures
        texts(res.serial_numbers@) == app@.passes_changed_since(
            path.pass_type_id@,
            path.device_library_id@,
            moment(query.passes_updated_since),
        ).map_values(serial_of()),
        res.last_updated == watermark(
            app@.passes_changed_since(
                path.pass_type_id@,
                path.device_library_id@,
                moment(query.passes_updated_since),
            ),
            now as int,
        ),
{
    let (serial_numbers, last_updated) = app.apple_updatable_passes(
        path.pass_type_id.as_str(),
        path.device_library_id.as_str(),
        query.passes_updated_since,
        now,
    );
    Res { serial_numbers, last_updated }
}

} // verus!
