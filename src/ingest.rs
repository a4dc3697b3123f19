use vstd::prelude::*;

use crate::codec::CanFrame;
use crate::error::ProtocolError;
use crate::fields::{field_value, unpack_fields};
use crate::history::{channel_value, TelemetryHistory, TelemetryRow};
use crate::rate::{arrival_gap, window_rate, RateEstimator};
use crate::window::bounded_push;

verus! {

/// Identifier of the frames that carry telemetry samples.
pub const TELEMETRY_ID: u16 = 1;

/// `row` holds, at time `t`, the values of `payload`: the lead value is
/// reserved and skipped, values 1 to 12 fill channels 0 to 11 in order.
pub open spec fn row_of_payload(row: TelemetryRow, payload: Seq<u8>, t: u64) -> bool {
    &&& row.time_ns == t
    &&& forall|c: int| 0 <= c < 12 ==> #[trigger] channel_value(row, c) == field_value(payload, c + 1)
}

/// Decodes a telemetry payload into the sample at `time_ns`. Fails with
/// `MalformedPayload` unless the payload has the 32-byte layout.
pub fn sample_from_payload(payload: &[u8], time_ns: u64) -> (r: Result<TelemetryRow, ProtocolError>)
    ensures
        payload@.len() != 32 ==> r == Err::<TelemetryRow, ProtocolError>(
            ProtocolError::MalformedPayload,
        ),
        payload@.len() == 32 ==> (r matches Ok(row) && row_of_payload(row, payload@, time_ns)),
{
    let v = match unpack_fields(payload) {
        Ok(v) => v,
        Err(e) => return Err(e),
    };
    let row = TelemetryRow {
        time_ns,
        pressure: [v[1], v[2], v[3], v[4], v[5], v[6]],
        accel: [v[7], v[8], v[9]],
        gyro: [v[10], v[11], v[12]],
    };
    assert(forall|c: int| 0 <= c < 12 ==> #[trigger] channel_value(row, c) == v@[c + 1]);
    Ok(row)
}

/// One step of ingestion for a received frame: the arrival at `arrival_ns`
/// always enters the rate window; a telemetry frame (identifier 1) is decoded
/// into the sample at `elapsed_ns`, any other frame yields no sample.
pub fn ingest_frame(
    estimator: &mut RateEstimator,
    frame: &CanFrame,
    arrival_ns: u64,
    elapsed_ns: u64,
) -> (r: Result<Option<TelemetryRow>, ProtocolError>)
    requires
        old(estimator).wf(),
    ensures
        final(estimator).wf(),
        final(estimator).window() == bounded_push(
            old(estimator).window(),
            old(estimator).capacity_spec(),
            arrival_gap(old(estimator).last_arrival(), arrival_ns),
        ),
        final(estimator).capacity_spec() == old(estimator).capacity_spec(),
        final(estimator).last_arrival() == arrival_ns,
        frame.id != 1 ==> r == Ok::<Option<TelemetryRow>, ProtocolError>(None),
        frame.id == 1 && frame.data@.len() != 32 ==> r == Err::<Option<TelemetryRow>, ProtocolError>(
            ProtocolError::MalformedPayload,
        ),
        frame.id == 1 && frame.data@.len() == 32 ==> (r matches Ok(Some(row)) && row_of_payload(
            row,
            frame.data@,
            elapsed_ns,
        )),
{
    estimator.record_arrival(arrival_ns);
    if frame.id != TELEMETRY_ID {
        return Ok(None);
    }
    match sample_from_payload(frame.data.as_slice(), elapsed_ns) {
        Ok(row) => Ok(Some(row)),
        Err(e) => Err(e),
    }
}

/// Ingests a received frame into `history`: the rate window always takes the
/// arrival; a telemetry frame appends its sample to every channel together
/// with the new rate estimate; any other frame leaves the history as it was.
pub fn process_frame(
    estimator: &mut RateEstimator,
    history: &mut TelemetryHistory,
    frame: &CanFrame,
    arrival_ns: u64,
    elapsed_ns: u64,
) -> (r: Result<(), ProtocolError>)
    requires
        old(estimator).wf(),
        old(history).wf(),
    ensures
        final(estimator).wf(),
        final(history).wf(),
        final(estimator).window() == bounded_push(
            old(estimator).window(),
            old(estimator).capacity_spec(),
            arrival_gap(old(estimator).last_arrival(), arrival_ns),
        ),
        final(estimator).capacity_spec() == old(estimator).capacity_spec(),
        final(estimator).last_arrival() == arrival_ns,
        final(history).capacity_spec() == old(history).capacity_spec(),
        frame.id != 1 ==> r is Ok && *final(history) == *old(history),
        frame.id == 1 && frame.data@.len() != 32 ==> r == Err::<(), ProtocolError>(
            ProtocolError::MalformedPayload,
        ) && *final(history) == *old(history),
        frame.id == 1 && frame.data@.len() == 32 ==> {
            &&& r is Ok
            &&& final(history).rate_spec() == window_rate(final(estimator).window())
            &&& exists|row: TelemetryRow|
                row_of_payload(row, frame.data@, elapsed_ns) && final(history).rows()
                    == bounded_push(old(history).rows(), old(history).capacity_spec(), row)
        },
{
    match ingest_frame(estimator, frame, arrival_ns, elapsed_ns) {
        Ok(Some(row)) => {
            let rate = estimator.rate_millihertz();
            history.append_sample(row, rate);
            Ok(())
        },
        Ok(None) => Ok(()),
        Err(e) => Err(e),
    }
}

} // verus!
