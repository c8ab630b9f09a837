//! The bus-event handler: stores each greeting that arrives on the event bus
//! and announces it on the notification topic.

use vstd::prelude::*;
use crate::error::HandlerError;

verus! {

/// The fields of a bus event's detail that the handler reads, each as the
/// JSON text of its value.
#[derive(Debug)]
pub struct EventDetail {
    pub id: String,
    pub message: String,
}

/// The item written to the table.
#[derive(Debug)]
pub struct StoredItem {
    pub id: String,
    pub source: String,
    pub message: String,
}

/// The notification published once the item is stored.
#[derive(Debug)]
pub struct Notice {
    pub message: String,
    /// The value of the `id` message attribute.
    pub id: String,
    /// The data type of the `id` message attribute.
    pub id_data_type: String,
}

/// What the handler writes, in this order.
#[derive(Debug)]
pub struct ArchivePlan {
    pub item: StoredItem,
    pub notice: Notice,
}

pub open spec fn names_field(r: Result<ArchivePlan, HandlerError>, field: Seq<char>) -> bool {
    match r {
        Err(HandlerError::MissingField(f)) => f@ == field,
        _ => false,
    }
}

/// Plans the writes for a bus event from `source` with `detail`. The event
/// must carry both; the source is checked first.
pub fn plan_archive(source: Option<String>, detail: Option<EventDetail>) -> (r: Result<
    ArchivePlan,
    HandlerError,
>)
    ensures
        source is None ==> names_field(r, "source"@),
        source is Some && detail is None ==> names_field(r, "detail"@),
        source is Some && detail is Some ==> (r matches Ok(plan) && {
            &&& plan.item.id@ == detail->Some_0.id@
            &&& plan.item.source@ == source->Some_0@
            &&& plan.item.message@ == detail->Some_0.message@
            &&& plan.notice.message@ == "eventbridge function says hello"@
            &&& plan.notice.id@ == detail->Some_0.id@
            &&& plan.notice.id_data_type@ == "String"@
        }),
{
    let source = match source {
        Some(s) => s,
        None => {
            return Err(HandlerError::MissingField(String::from_str("source")));
        },
    };
    let detail = match detail {
        Some(d) => d,
        None => {
            return Err(HandlerError::MissingField(String::from_str("detail")));
        },
    };
    let notice = Notice {
        message: String::from_str("eventbridge function says hello"),
        id: detail.id.clone(),
        id_data_type: String::from_str("String"),
    };
    let item = StoredItem { id: detail.id, source, message: detail.message };
    Ok(ArchivePlan { item, notice })
}

} // verus!
