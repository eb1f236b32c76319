//! Handing a reading to the HTTP consumer.

use vstd::prelude::*;
use crate::model::EngineError;
use crate::transport::Event;

verus! {

/// Whether an HTTP status code is one of success: 200 to 299.
pub open spec fn is_success(status: u16) -> bool {
    200 <= status < 300
}

/// Whether the consumer's answer acknowledges the reading.
pub open spec fn acknowledged(event: Event) -> bool {
    event matches Event::Status(status) && is_success(status)
}

/// Judges the consumer's answer to a posted reading.
///
/// The reading is delivered exactly when the answer is a status code from 200
/// to 299. Every other status, and a request that never got an answer, is
/// `SinkPostFailed`; nothing is posted again.
pub fn post_battery_data(event: &Event) -> (r: Result<(), EngineError>)
    ensures
        r is Ok <==> acknowledged(*event),
        r is Err ==> r == Err::<(), EngineError>(EngineError::SinkPostFailed),
{
    match event {
        Event::Status(status) => if 200 <= *status && *status < 300 {
            Ok(())
        } else {
            Err(EngineError::SinkPostFailed)
        },
        _ => Err(EngineError::SinkPostFailed),
    }
}

} // verus!
