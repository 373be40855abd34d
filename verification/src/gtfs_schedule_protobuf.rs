//! GTFS frequencies and their protobuf encoding.
use vstd::prelude::*;

verus! {

/// Whether the trips of a frequency run on an exact schedule (GTFS `exact_times`).
#[derive(Clone, Copy, Debug, PartialEq, Eq, Structural)]
pub enum ExactTimes {
    FrequencyBased,
    ScheduleBased,
}

/// A GTFS `frequencies.txt` row of a trip: times are seconds since the start of the service day.
#[derive(Clone, Copy, Debug, PartialEq, Eq, Structural)]
pub struct Frequency {
    pub start_time: u32,
    pub end_time: u32,
    pub headway_secs: u32,
    pub exact_times: Option<ExactTimes>,
}

/// The protobuf enumeration of `exact_times`.
#[derive(Clone, Copy, Debug, PartialEq, Eq, Structural)]
pub enum ExactTimesProto {
    FrequencyBased,
    ScheduleBased,
}

impl ExactTimesProto {
    /// The wire value of the enumeration: 0 for frequency based, 1 for schedule based.
    pub open spec fn spec_value(self) -> i32 {
        match self {
            ExactTimesProto::FrequencyBased => 0,
            ExactTimesProto::ScheduleBased => 1,
        }
    }

    /// The wire value of the enumeration.
    pub fn value(self) -> (v: i32)
        ensures
            v == self.spec_value(),
    {
        match self {
            ExactTimesProto::FrequencyBased => 0,
            ExactTimesProto::ScheduleBased => 1,
        }
    }
}

/// The protobuf message of one frequency.
#[derive(Clone, Copy, Debug, PartialEq, Eq, Structural)]
pub struct GtfsFrequencyProto {
    pub start_time: u32,
    pub end_time: u32,
    pub headway_secs: u32,
    pub exact_times: Option<i32>,
}

/// The protobuf message of the frequencies of a trip.
#[derive(Clone, Debug)]
pub struct GtfsFrequenciesProto {
    pub frequencies: Vec<GtfsFrequencyProto>,
}

/// The wire value that encodes `exact_times`.
pub open spec fn exact_times_code(e: Option<ExactTimes>) -> Option<i32> {
    match e {
        Some(ExactTimes::FrequencyBased) => Some(ExactTimesProto::FrequencyBased.spec_value()),
        Some(ExactTimes::ScheduleBased) => Some(ExactTimesProto::ScheduleBased.spec_value()),
        None => None,
    }
}

/// The `exact_times` that a wire value decodes to: 0 and 1 are known, anything else is dropped.
pub open spec fn exact_times_of_code(c: Option<i32>) -> Option<ExactTimes> {
    match c {
        Some(0) => Some(ExactTimes::FrequencyBased),
        Some(1) => Some(ExactTimes::ScheduleBased),
        _ => None,
    }
}

/// The protobuf message of a frequency.
pub open spec fn frequency_proto(f: Frequency) -> GtfsFrequencyProto {
    GtfsFrequencyProto {
        start_time: f.start_time,
        end_time: f.end_time,
        headway_secs: f.headway_secs,
        exact_times: exact_times_code(f.exact_times),
    }
}

/// The frequency that a protobuf message decodes to.
pub open spec fn proto_frequency(p: GtfsFrequencyProto) -> Frequency {
    Frequency {
        start_time: p.start_time,
        end_time: p.end_time,
        headway_secs: p.headway_secs,
        exact_times: exact_times_of_code(p.exact_times),
    }
}

fn frequency_to_protobuf(frequency: &Frequency) -> (p: GtfsFrequencyProto)
    ensures
        p == frequency_proto(*frequency),
{
    GtfsFrequencyProto {
        start_time: frequency.start_time,
        end_time: frequency.end_time,
        headway_secs: frequency.headway_secs,
        exact_times: match frequency.exact_times {
            Some(ExactTimes::FrequencyBased) => Some(ExactTimesProto::FrequencyBased.value()),
            Some(ExactTimes::ScheduleBased) => Some(ExactTimesProto::ScheduleBased.value()),
            None => None,
        },
    }
}

fn protobuf_to_frequency(frequency: &GtfsFrequencyProto) -> (f: Frequency)
    ensures
        f == proto_frequency(*frequency),
{
    Frequency {
        start_time: frequency.start_time,
        end_time: frequency.end_time,
        headway_secs: frequency.headway_secs,
        exact_times: match frequency.exact_times {
            Some(0) => Some(ExactTimes::FrequencyBased),
            Some(1) => Some(ExactTimes::ScheduleBased),
            _ => None,
        },
    }
}

/// Encodes the frequencies of a trip, one message per frequency, in order.
pub fn frequencies_to_protobuf(frequencies: &Vec<Frequency>) -> (p: GtfsFrequenciesProto)
    ensures
        p.frequencies@ == frequencies@.map_values(|f: Frequency| frequency_proto(f)),
{
    let mut out: Vec<GtfsFrequencyProto> = Vec::new();
    let mut i: usize = 0;
    while i < frequencies.len()
        invariant
            i <= frequencies.len(),
            out@ == frequencies@.take(i as int).map_values(|f: Frequency| frequency_proto(f)),
        decreases frequencies.len() - i,
    {
        let p = frequency_to_protobuf(&frequencies[i]);
        out.push(p);
        i = i + 1;
        assert(frequencies@.take(i as int).drop_last() == frequencies@.take(i - 1));
    }
    assert(frequencies@.take(i as int) == frequencies@);
    GtfsFrequenciesProto { frequencies: out }
}

/// Decodes the frequencies of a trip, one per message, in order.
pub fn protobuf_to_frequencies(frequencies: &GtfsFrequenciesProto) -> (v: Vec<Frequency>)
    ensures
        v@ == frequencies.frequencies@.map_values(|p: GtfsFrequencyProto| proto_frequency(p)),
{
    let mut out: Vec<Frequency> = Vec::new();
    let mut i: usize = 0;
    while i < frequencies.frequencies.len()
        invariant
            i <= frequencies.frequencies.len(),
            out@ == frequencies.frequencies@.take(i as int).map_values(
                |p: GtfsFrequencyProto| proto_frequency(p),
            ),
        decreases frequencies.frequencies.len() - i,
    {
        let f = protobuf_to_frequency(&frequencies.frequencies[i]);
        out.push(f);
        i = i + 1;
        assert(frequencies.frequencies@.take(i as int).drop_last() == frequencies.frequencies@.take(
            i - 1,
        ));
    }
    assert(frequencies.frequencies@.take(i as int) == frequencies.frequencies@);
    out
}

/// Encoding and decoding copy the times and the headway unchanged, encode frequency based
/// as 0 and schedule based as 1, and decode 0 and 1 back while dropping any other value.
pub proof fn lemma_frequency_fields(f: Frequency, p: GtfsFrequencyProto)
    ensures
        frequency_proto(f).start_time == f.start_time,
        frequency_proto(f).end_time == f.end_time,
        frequency_proto(f).headway_secs == f.headway_secs,
        f.exact_times == Some(ExactTimes::FrequencyBased) ==> frequency_proto(f).exact_times
            == Some(0i32),
        f.exact_times == Some(ExactTimes::ScheduleBased) ==> frequency_proto(f).exact_times == Some(
            1i32,
        ),
        f.exact_times is None ==> frequency_proto(f).exact_times is None,
        proto_frequency(p).start_time == p.start_time,
        proto_frequency(p).end_time == p.end_time,
        proto_frequency(p).headway_secs == p.headway_secs,
        p.exact_times == Some(0i32) ==> proto_frequency(p).exact_times == Some(
            ExactTimes::FrequencyBased,
        ),
        p.exact_times == Some(1i32) ==> proto_frequency(p).exact_times == Some(
            ExactTimes::ScheduleBased,
        ),
        !(p.exact_times == Some(0i32) || p.exact_times == Some(1i32)) ==> proto_frequency(
            p,
        ).exact_times is None,
{
}

/// Decoding the encoding of a frequency gives the frequency back.
pub proof fn lemma_frequency_roundtrip(f: Frequency)
    ensures
        proto_frequency(frequency_proto(f)) == f,
{
}

/// Encoding the decoding of a message gives the message back exactly when its
/// `exact_times` is absent, 0 or 1.
pub proof fn lemma_proto_roundtrip(p: GtfsFrequencyProto)
    ensures
        frequency_proto(proto_frequency(p)) == p <==> (p.exact_times is None
            || p.exact_times == Some(0i32) || p.exact_times == Some(1i32)),
{
}

/// Decoding the encoding of a list of frequencies gives the list back.
pub proof fn lemma_frequencies_roundtrip(v: Seq<Frequency>)
    ensures
        v.map_values(|f: Frequency| frequency_proto(f)).map_values(
            |p: GtfsFrequencyProto| proto_frequency(p),
        ) == v,
{
    let w = v.map_values(|f: Frequency| frequency_proto(f)).map_values(
        |p: GtfsFrequencyProto| proto_frequency(p),
    );
    assert forall|i: int| 0 <= i < v.len() implies w[i] == v[i] by {
        lemma_frequency_roundtrip(v[i]);
    }
    assert(w =~= v);
}

} // verus!
