use std::time::Duration;
use vstd::prelude::*;

verus! {

/// The `Duration` that `std::time::Duration::from_nanos` makes of a number
/// of nanoseconds.
pub uninterp spec fn duration_of_nanos(nanos: u64) -> Duration;

/// Calls `std::time::Duration::from_nanos`, which makes the duration of the
/// given number of nanoseconds; the result is claimed to be
/// `duration_of_nanos(nanos)`, that is, to depend on `nanos` alone.
#[verifier::external_body]
fn duration_from_nanos(nanos: u64) -> (d: Duration)
    ensures
        d == duration_of_nanos(nanos),
{
    Duration::from_nanos(nanos)
}

/// The duration of an optional signed nanosecond count: none stays none, and
/// a count is read as the unsigned 64-bit number of the same bits.
pub open spec fn spec_nanos_to_duration(nanos: Option<i64>) -> Option<Duration> {
    match nanos {
        Some(v) => Some(duration_of_nanos(v as u64)),
        None => None,
    }
}

/// A presentation time of `v` nanoseconds becomes the duration of exactly
/// `v` nanoseconds when `v` is not negative; a negative count is read as the
/// unsigned 64-bit number of the same bits, that is `v + 2^64`.
pub proof fn law_time_counts_nanoseconds(v: i64, n: u64)
    requires
        v >= 0 ==> n as int == v as int,
        v < 0 ==> n as int == v as int + 0x1_0000_0000_0000_0000,
    ensures
        spec_nanos_to_duration(Some(v)) == Some(duration_of_nanos(n)),
{
    assert(v as u64 == n) by (bit_vector)
        requires
            v >= 0 ==> n == v,
            v < 0 ==> n == v + 0x1_0000_0000_0000_0000,
    ;
}

/// Turns the optional nanosecond count of a packet timestamp into a
/// duration, as [`spec_nanos_to_duration`] says.
pub fn nanos_to_duration(nanos: Option<i64>) -> (d: Option<Duration>)
    ensures
        d == spec_nanos_to_duration(nanos),
        nanos is None <==> d is None,
        forall|n: u64|
            n <= i64::MAX && nanos == Some(n as i64) ==> d == Some(
                #[trigger] duration_of_nanos(n),
            ),
{
    proof {
        assert forall|n: u64| n <= i64::MAX && nanos == Some(n as i64) implies spec_nanos_to_duration(
            nanos,
        ) == Some(#[trigger] duration_of_nanos(n)) by {
            law_time_counts_nanoseconds(n as i64, n);
        }
    }
    match nanos {
        Some(v) => Some(duration_from_nanos(v as u64)),
        None => None,
    }
}

/// A packet of undecoded raw data.
#[derive(Clone, Debug)]
pub struct DataPacket {
    /// When the packet is to be presented, from the start of the stream.
    pub time: Option<Duration>,
    /// How long the packet lasts.
    pub duration: Option<Duration>,
    /// The packet's payload.
    pub data: Vec<u8>,
}

impl DataPacket {
    /// The packet of the given payload, with its presentation time given in
    /// nanoseconds (none where the stream has none) and its duration.
    pub fn new(data: Vec<u8>, time_nanos: Option<i64>, duration: Option<Duration>) -> (p: DataPacket)
        ensures
            p.data@ == data@,
            p.time == spec_nanos_to_duration(time_nanos),
            p.duration == duration,
    {
        DataPacket { time: nanos_to_duration(time_nanos), duration, data }
    }
}

/// What a data stream broadcasts for one demuxed packet: nothing while the
/// stream's channel has no active subscriber, and otherwise the packet's
/// payload with its presentation time and duration.
pub fn prepare_data_packet(
    receivers: usize,
    data: Vec<u8>,
    time_nanos: Option<i64>,
    duration: Option<Duration>,
) -> (p: Option<DataPacket>)
    ensures
        receivers == 0 ==> p is None,
        receivers > 0 ==> (p matches Some(packet) && packet.data@ == data@ && packet.time
            == spec_nanos_to_duration(time_nanos) && packet.duration == duration),
{
    if receivers > 0 {
        Some(DataPacket::new(data, time_nanos, duration))
    } else {
        None
    }
}

} // verus!
