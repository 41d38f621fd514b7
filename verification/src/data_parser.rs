//! The record grammar of a telemetry file.
//!
//! A file is either one status record of fourteen bytes or a run of sensor
//! records of twenty-eight bytes each. Every record starts with an eight-byte
//! timestamp; the measurements that follow are two bytes each, big-endian.
//! Nothing in a file says which of the two it is: the sensor grammar is tried
//! first, and the status grammar only where not even one sensor record fits.

use vstd::prelude::*;
use vstd::slice::slice_subrange;
use crate::scalar::{decode_scalar, lemma_wire_of_decoded, scalar_of, Scalar};

verus! {

/// Seconds between 1970-01-01 00:00:00 UTC and the instant from which the
/// stations count.
pub const EPOCH_OFFSET: i64 = 631_152_000;

/// Bytes of a timestamp on the wire: the seconds and a reserved word.
pub const DATE_TIME_LEN: usize = 8;

/// Bytes of a status record: a timestamp and three measurements.
pub const SIMPLE_LEN: usize = 14;

/// Bytes of a sensor record: a timestamp and ten measurements.
pub const MULTIPLE_LEN: usize = 28;

/// A point in time, in whole seconds since 1970-01-01 00:00:00 UTC.
#[derive(Clone, Copy, Debug, PartialEq, Eq, Structural)]
pub struct Timestamp {
    pub seconds: i64,
}

impl Timestamp {
    /// A time that a station can report: its 32-bit count of seconds, moved
    /// by the epoch offset.
    pub open spec fn wf(self) -> bool {
        EPOCH_OFFSET <= self.seconds <= EPOCH_OFFSET + u32::MAX
    }

    /// Whether this is a time that a station can report.
    pub fn is_station_time(&self) -> (valid: bool)
        ensures
            valid == self.wf(),
    {
        EPOCH_OFFSET <= self.seconds && self.seconds <= EPOCH_OFFSET + 0xFFFF_FFFF
    }
}

/// One status sample of a station.
#[derive(Clone, Copy, Debug, PartialEq, Eq, Structural)]
pub struct SimpleDataType {
    pub date_time: Timestamp,
    pub solar_battery_voltage: Scalar,
    pub lithium_battery_voltage: Scalar,
    pub wind_direction: Scalar,
}

/// One sample of a station's sensors.
#[derive(Clone, Copy, Debug, PartialEq, Eq, Structural)]
pub struct MultipleDataType {
    pub date_time: Timestamp,
    pub air_temperature: Scalar,
    pub air_relative_humidity: Scalar,
    pub solar_radiation: Scalar,
    pub soil_water_content: Scalar,
    pub soil_temperature: Scalar,
    pub wind_speed: Scalar,
    pub wind_max: Scalar,
    pub wind_direction: Scalar,
    pub precipitation: Scalar,
    pub air_pressure: Scalar,
}

impl SimpleDataType {
    /// A record as the decoder makes it: a time that a station can report
    /// and measurements that each stand for a wire pattern.
    pub open spec fn wf(self) -> bool {
        &&& self.date_time.wf()
        &&& self.solar_battery_voltage.wf()
        &&& self.lithium_battery_voltage.wf()
        &&& self.wind_direction.wf()
    }
}

impl MultipleDataType {
    /// A record as the decoder makes it: a time that a station can report
    /// and measurements that each stand for a wire pattern.
    pub open spec fn wf(self) -> bool {
        &&& self.date_time.wf()
        &&& self.air_temperature.wf()
        &&& self.air_relative_humidity.wf()
        &&& self.solar_radiation.wf()
        &&& self.soil_water_content.wf()
        &&& self.soil_temperature.wf()
        &&& self.wind_speed.wf()
        &&& self.wind_max.wf()
        &&& self.wind_direction.wf()
        &&& self.precipitation.wf()
        &&& self.air_pressure.wf()
    }
}

/// What a file holds: one status sample, or one or more sensor samples in the
/// order of the file.
#[derive(Debug, PartialEq, Eq)]
pub enum WeatherStationData {
    SimpleData(SimpleDataType),
    MultipleData(Vec<MultipleDataType>),
}

/// The mathematical value of a `WeatherStationData`.
pub ghost enum Payload {
    Simple(SimpleDataType),
    Multiple(Seq<MultipleDataType>),
}

impl Payload {
    /// A payload as the decoder makes it: every record is well formed, and a
    /// run of sensor records holds at least one.
    pub open spec fn wf(self) -> bool {
        match self {
            Payload::Simple(record) => record.wf(),
            Payload::Multiple(records) => {
                &&& records.len() >= 1
                &&& forall|i: int| 0 <= i < records.len() ==> (#[trigger] records[i]).wf()
            },
        }
    }
}

impl View for WeatherStationData {
    type V = Payload;

    open spec fn view(&self) -> Payload {
        match *self {
            WeatherStationData::SimpleData(record) => Payload::Simple(record),
            WeatherStationData::MultipleData(records) => Payload::Multiple(records@),
        }
    }
}

/// The part of the grammar that a decoding step was reading.
#[derive(Clone, Copy, Debug, PartialEq, Eq, Structural)]
pub enum Grammar {
    DateTime,
    Simple,
    Multiple,
}

/// Why a buffer was not decoded.
#[derive(Clone, Copy, Debug, PartialEq, Eq, Structural)]
pub enum DecodeError {
    /// The buffer ends before the `needed` bytes that `grammar` takes at the
    /// least; `available` is what it holds.
    Truncated { grammar: Grammar, needed: usize, available: usize },
    /// The bytes are there but `grammar` does not accept them. Neither
    /// grammar of the present format rejects a frame of full length, so no
    /// decoder of this module returns it.
    Malformed { grammar: Grammar },
}

/// The little-endian 32-bit number in the four bytes of `s` from `at` on.
pub open spec fn le_u32(s: Seq<u8>, at: int) -> int
    recommends
        0 <= at,
        at + 4 <= s.len(),
{
    s[at] + 0x100 * s[at + 1] + 0x1_0000 * s[at + 2] + 0x100_0000 * s[at + 3]
}

/// The big-endian 16-bit number in the two bytes of `s` from `at` on.
pub open spec fn be_u16(s: Seq<u8>, at: int) -> u16
    recommends
        0 <= at,
        at + 2 <= s.len(),
{
    (0x100 * s[at] + s[at + 1]) as u16
}

/// The measurement in the two bytes of `s` from `at` on.
pub open spec fn scalar_at(s: Seq<u8>, at: int) -> Scalar
    recommends
        0 <= at,
        at + 2 <= s.len(),
{
    scalar_of(be_u16(s, at))
}

/// The timestamp at the start of `s`: the station's count of seconds, moved
/// by the epoch offset. The reserved word in bytes 4 to 7 plays no part.
pub open spec fn timestamp_of(s: Seq<u8>) -> Timestamp
    recommends
        s.len() >= DATE_TIME_LEN,
{
    Timestamp { seconds: (le_u32(s, 0) + EPOCH_OFFSET) as i64 }
}

/// The status record at the start of `s`.
pub open spec fn simple_of(s: Seq<u8>) -> SimpleDataType
    recommends
        s.len() >= SIMPLE_LEN,
{
    SimpleDataType {
        date_time: timestamp_of(s),
        solar_battery_voltage: scalar_at(s, 8),
        lithium_battery_voltage: scalar_at(s, 10),
        wind_direction: scalar_at(s, 12),
    }
}

/// The sensor record at the start of `s`.
pub open spec fn multiple_one_of(s: Seq<u8>) -> MultipleDataType
    recommends
        s.len() >= MULTIPLE_LEN,
{
    MultipleDataType {
        date_time: timestamp_of(s),
        air_temperature: scalar_at(s, 8),
        air_relative_humidity: scalar_at(s, 10),
        solar_radiation: scalar_at(s, 12),
        soil_water_content: scalar_at(s, 14),
        soil_temperature: scalar_at(s, 16),
        wind_speed: scalar_at(s, 18),
        wind_max: scalar_at(s, 20),
        wind_direction: scalar_at(s, 22),
        precipitation: scalar_at(s, 24),
        air_pressure: scalar_at(s, 26),
    }
}

/// The number of whole sensor records that `len` bytes hold.
pub open spec fn group_count(len: nat) -> nat {
    len / (MULTIPLE_LEN as nat)
}

/// All the whole sensor records of `s`, in order: record `i` is read from
/// byte `28 * i` on.
pub open spec fn multiple_of(s: Seq<u8>) -> Seq<MultipleDataType> {
    Seq::new(group_count(s.len()), |i: int| multiple_one_of(s.skip(MULTIPLE_LEN * i)))
}

/// Whether a buffer of `len` bytes can be decoded at all.
pub open spec fn decodable(len: nat) -> bool {
    len >= SIMPLE_LEN
}

/// What a decodable buffer holds. A buffer that has room for a sensor record
/// is a run of sensor records, whatever its length; a shorter one is a status
/// record.
pub open spec fn payload_of(s: Seq<u8>) -> Payload
    recommends
        decodable(s.len()),
{
    if s.len() >= MULTIPLE_LEN {
        Payload::Multiple(multiple_of(s))
    } else {
        Payload::Simple(simple_of(s))
    }
}

/// The number of bytes that decoding a buffer of `len` bytes takes: every
/// whole sensor record, or else the one status record.
pub open spec fn consumed_len(len: nat) -> nat
    recommends
        decodable(len),
{
    if len >= MULTIPLE_LEN {
        group_count(len) * (MULTIPLE_LEN as nat)
    } else {
        SIMPLE_LEN as nat
    }
}

/// The error of every decoder that finds its input too short.
pub open spec fn truncated(grammar: Grammar, needed: usize, available: nat) -> DecodeError {
    DecodeError::Truncated { grammar, needed, available: available as usize }
}

fn read_le_u32(input: &[u8], at: usize) -> (value: u32)
    requires
        at + 4 <= input@.len(),
    ensures
        value == le_u32(input@, at as int),
{
    let b0: u32 = input[at] as u32;
    let b1: u32 = input[at + 1] as u32;
    let b2: u32 = input[at + 2] as u32;
    let b3: u32 = input[at + 3] as u32;
    b0 + 0x100 * b1 + 0x1_0000 * b2 + 0x100_0000 * b3
}

fn read_scalar(input: &[u8], at: usize) -> (value: Scalar)
    requires
        at + 2 <= input@.len(),
    ensures
        value == scalar_at(input@, at as int),
        value.wf(),
{
    let high: u16 = input[at] as u16;
    let low: u16 = input[at + 1] as u16;
    decode_scalar(0x100 * high + low)
}

/// Reads the timestamp at the start of `input` and hands back the bytes
/// after it. All eight bytes are taken; the reserved word is not looked at.
/// An input of fewer than eight bytes is truncated.
pub fn parse_date_time(input: &[u8]) -> (result: Result<(Timestamp, &[u8]), DecodeError>)
    ensures
        match result {
            Ok((date_time, rest)) => {
                &&& input@.len() >= DATE_TIME_LEN
                &&& date_time == timestamp_of(input@)
                &&& date_time.wf()
                &&& rest@ == input@.skip(DATE_TIME_LEN as int)
            },
            Err(e) => {
                &&& input@.len() < DATE_TIME_LEN
                &&& e == truncated(Grammar::DateTime, DATE_TIME_LEN, input@.len())
            },
        },
{
    let len: usize = input.len();
    if len < DATE_TIME_LEN {
        return Err(
            DecodeError::Truncated {
                grammar: Grammar::DateTime,
                needed: DATE_TIME_LEN,
                available: len,
            },
        );
    }
    let raw: u32 = read_le_u32(input, 0);
    let date_time = Timestamp { seconds: raw as i64 + EPOCH_OFFSET };
    Ok((date_time, slice_subrange(input, DATE_TIME_LEN, len)))
}

/// Reads one status record at the start of `input` and hands back the bytes
/// after it. An input of fewer than fourteen bytes is truncated.
pub fn parse_data_simple(input: &[u8]) -> (result: Result<
    (WeatherStationData, &[u8]),
    DecodeError,
>)
    ensures
        match result {
            Ok((data, rest)) => {
                &&& input@.len() >= SIMPLE_LEN
                &&& data@ == Payload::Simple(simple_of(input@))
                &&& data@.wf()
                &&& rest@ == input@.skip(SIMPLE_LEN as int)
            },
            Err(e) => {
                &&& input@.len() < SIMPLE_LEN
                &&& e == truncated(Grammar::Simple, SIMPLE_LEN, input@.len())
            },
        },
{
    let available: usize = input.len();
    match parse_date_time(input) {
        Ok((date_time, fields)) if fields.len() >= SIMPLE_LEN - DATE_TIME_LEN => {
            let record = SimpleDataType {
                date_time,
                solar_battery_voltage: read_scalar(fields, 0),
                lithium_battery_voltage: read_scalar(fields, 2),
                wind_direction: read_scalar(fields, 4),
            };
            let rest = slice_subrange(fields, SIMPLE_LEN - DATE_TIME_LEN, fields.len());
            proof {
                assert(rest@ =~= input@.skip(SIMPLE_LEN as int));
            }
            Ok((WeatherStationData::SimpleData(record), rest))
        },
        _ => Err(
            DecodeError::Truncated { grammar: Grammar::Simple, needed: SIMPLE_LEN, available },
        ),
    }
}

/// Reads one sensor record at the start of `input` and hands back the bytes
/// after it. An input of fewer than twenty-eight bytes is truncated.
pub fn parse_data_multiple_one(input: &[u8]) -> (result: Result<
    (MultipleDataType, &[u8]),
    DecodeError,
>)
    ensures
        match result {
            Ok((record, rest)) => {
                &&& input@.len() >= MULTIPLE_LEN
                &&& record == multiple_one_of(input@)
                &&& record.wf()
                &&& rest@ == input@.skip(MULTIPLE_LEN as int)
            },
            Err(e) => {
                &&& input@.len() < MULTIPLE_LEN
                &&& e == truncated(Grammar::Multiple, MULTIPLE_LEN, input@.len())
            },
        },
{
    let available: usize = input.len();
    match parse_date_time(input) {
        Ok((date_time, fields)) if fields.len() >= MULTIPLE_LEN - DATE_TIME_LEN => {
            let record = MultipleDataType {
                date_time,
                air_temperature: read_scalar(fields, 0),
                air_relative_humidity: read_scalar(fields, 2),
                solar_radiation: read_scalar(fields, 4),
                soil_water_content: read_scalar(fields, 6),
                soil_temperature: read_scalar(fields, 8),
                wind_speed: read_scalar(fields, 10),
                wind_max: read_scalar(fields, 12),
                wind_direction: read_scalar(fields, 14),
                precipitation: read_scalar(fields, 16),
                air_pressure: read_scalar(fields, 18),
            };
            let rest = slice_subrange(fields, MULTIPLE_LEN - DATE_TIME_LEN, fields.len());
            proof {
                assert(rest@ =~= input@.skip(MULTIPLE_LEN as int));
            }
            Ok((record, rest))
        },
        _ => Err(
            DecodeError::Truncated { grammar: Grammar::Multiple, needed: MULTIPLE_LEN, available },
        ),
    }
}

/// Reads sensor records from the start of `input` for as long as a whole one
/// is left, and hands back what follows the last of them. At least one
/// record is needed: an input without room for one is truncated. Bytes after
/// the last whole record are no error.
pub fn parse_data_multiple(input: &[u8]) -> (result: Result<
    (WeatherStationData, &[u8]),
    DecodeError,
>)
    ensures
        match result {
            Ok((data, rest)) => {
                &&& input@.len() >= MULTIPLE_LEN
                &&& data@ == Payload::Multiple(multiple_of(input@))
                &&& data@.wf()
                &&& rest@ == input@.skip(consumed_len(input@.len()) as int)
            },
            Err(e) => {
                &&& input@.len() < MULTIPLE_LEN
                &&& e == truncated(Grammar::Multiple, MULTIPLE_LEN, input@.len())
            },
        },
{
    let mut records: Vec<MultipleDataType> = Vec::new();
    let mut rest: &[u8] = input;
    loop
        invariant
            MULTIPLE_LEN * records@.len() <= input@.len(),
            rest@ == input@.skip(MULTIPLE_LEN * records@.len()),
            forall|i: int|
                0 <= i < records@.len() ==> records@[i] == multiple_one_of(
                    input@.skip(MULTIPLE_LEN * i),
                ),
            forall|i: int| 0 <= i < records@.len() ==> (#[trigger] records@[i]).wf(),
        ensures
            rest@.len() < MULTIPLE_LEN,
        decreases rest@.len(),
    {
        match parse_data_multiple_one(rest) {
            Ok((record, tail)) => {
                proof {
                    let n: int = records@.len() as int;
                    assert(tail@ =~= input@.skip(MULTIPLE_LEN * (n + 1)));
                }
                records.push(record);
                rest = tail;
            },
            Err(_) => {
                break ;
            },
        }
    }
    if records.len() == 0 {
        return Err(
            DecodeError::Truncated {
                grammar: Grammar::Multiple,
                needed: MULTIPLE_LEN,
                available: input.len(),
            },
        );
    }
    proof {
        assert(records@.len() == group_count(input@.len()));
        assert(records@ =~= multiple_of(input@));
    }
    Ok((WeatherStationData::MultipleData(records), rest))
}

/// The outcome of decoding `s`: what it holds and the bytes left over, or
/// the error. The sensor grammar has the first say; the status grammar is
/// tried on the same bytes only where no sensor record fits.
pub open spec fn decoded(s: Seq<u8>) -> Result<(Payload, Seq<u8>), DecodeError> {
    if decodable(s.len()) {
        Ok((payload_of(s), s.skip(consumed_len(s.len()) as int)))
    } else {
        Err(truncated(Grammar::Simple, SIMPLE_LEN, s.len()))
    }
}

/// Whether `result` is the outcome of decoding `s`, left-over bytes aside.
pub open spec fn is_decoding_of(s: Seq<u8>, result: Result<WeatherStationData, DecodeError>) -> bool {
    match (result, decoded(s)) {
        (Ok(data), Ok((payload, _))) => data@ == payload && data@.wf(),
        (Err(e), Err(expected)) => e == expected,
        _ => false,
    }
}

/// Decodes `input` and hands back the bytes that were not used.
///
/// A run of sensor records is tried first, then one status record. The
/// first that fits decides; bytes after it are handed back, never read as a
/// further record. Only an input of fewer than fourteen bytes fails, and the
/// error is that of the status grammar, the last one tried.
pub fn multiple_or_simple(input: &[u8]) -> (result: Result<
    (WeatherStationData, &[u8]),
    DecodeError,
>)
    ensures
        match (result, decoded(input@)) {
            (Ok((data, rest)), Ok((payload, remainder))) => {
                &&& data@ == payload
                &&& data@.wf()
                &&& rest@ == remainder
            },
            (Err(e), Err(expected)) => e == expected,
            _ => false,
        },
{
    match parse_data_multiple(input) {
        Ok(found) => Ok(found),
        Err(_) => parse_data_simple(input),
    }
}

/// Decodes the contents of a file.
///
/// Succeeds on every buffer of at least fourteen bytes, with the records
/// that `payload_of` gives; a shorter buffer is truncated. Left-over bytes
/// are not reported here: `multiple_or_simple` hands them back.
pub fn parse_data(binary_data: Vec<u8>) -> (result: Result<WeatherStationData, DecodeError>)
    ensures
        is_decoding_of(binary_data@, result),
{
    match multiple_or_simple(binary_data.as_slice()) {
        Ok((data, _)) => Ok(data),
        Err(e) => Err(e),
    }
}

/// The timestamp read from a buffer is the station's count plus the epoch
/// offset, exactly: the sum always fits, and it is a time that a station can
/// report.
pub proof fn lemma_timestamp_exact(s: Seq<u8>)
    requires
        s.len() >= DATE_TIME_LEN,
    ensures
        0 <= le_u32(s, 0) <= u32::MAX,
        timestamp_of(s).seconds == le_u32(s, 0) + 631_152_000,
        timestamp_of(s).wf(),
{
}

/// Whatever a decodable buffer holds is well formed: a status record, or at
/// least one sensor record, each with a time that a station can report and
/// with measurements that stand for their wire patterns.
pub proof fn lemma_payload_wf(s: Seq<u8>)
    requires
        decodable(s.len()),
    ensures
        payload_of(s).wf(),
        decoded(s) is Ok,
        decoded(s)->Ok_0.0.wf(),
{
    if s.len() >= MULTIPLE_LEN {
        let records = multiple_of(s);
        assert forall|i: int| 0 <= i < records.len() implies (#[trigger] records[i]).wf() by {
            lemma_multiple_one_wf(s.skip(MULTIPLE_LEN * i));
        }
    } else {
        lemma_simple_wf(s);
    }
}

/// The status record read from a buffer is well formed.
pub proof fn lemma_simple_wf(s: Seq<u8>)
    requires
        s.len() >= SIMPLE_LEN,
    ensures
        simple_of(s).wf(),
{
    lemma_wire_of_decoded(be_u16(s, 8));
    lemma_wire_of_decoded(be_u16(s, 10));
    lemma_wire_of_decoded(be_u16(s, 12));
}

/// The sensor record read from a buffer is well formed.
pub proof fn lemma_multiple_one_wf(s: Seq<u8>)
    requires
        s.len() >= MULTIPLE_LEN,
    ensures
        multiple_one_of(s).wf(),
{
    lemma_wire_of_decoded(be_u16(s, 8));
    lemma_wire_of_decoded(be_u16(s, 10));
    lemma_wire_of_decoded(be_u16(s, 12));
    lemma_wire_of_decoded(be_u16(s, 14));
    lemma_wire_of_decoded(be_u16(s, 16));
    lemma_wire_of_decoded(be_u16(s, 18));
    lemma_wire_of_decoded(be_u16(s, 20));
    lemma_wire_of_decoded(be_u16(s, 22));
    lemma_wire_of_decoded(be_u16(s, 24));
    lemma_wire_of_decoded(be_u16(s, 26));
}

/// A buffer of fewer than fourteen bytes is not decoded, and the error says
/// that it is truncated.
pub proof fn lemma_short_buffer_fails(s: Seq<u8>)
    requires
        s.len() < SIMPLE_LEN,
    ensures
        decoded(s) == Err::<(Payload, Seq<u8>), DecodeError>(
            DecodeError::Truncated {
                grammar: Grammar::Simple,
                needed: SIMPLE_LEN,
                available: s.len() as usize,
            },
        ),
{
}

/// A buffer with room for a status record but not for a sensor record is
/// decoded as that one status record; with exactly fourteen bytes nothing is
/// left over.
pub proof fn lemma_status_frame(s: Seq<u8>)
    requires
        SIMPLE_LEN <= s.len() < MULTIPLE_LEN,
    ensures
        decoded(s) == Ok::<(Payload, Seq<u8>), DecodeError>(
            (Payload::Simple(simple_of(s)), s.skip(SIMPLE_LEN as int)),
        ),
        decoded(s)->Ok_0.1.len() == s.len() - SIMPLE_LEN,
        s.len() == SIMPLE_LEN ==> decoded(s)->Ok_0.1 == Seq::<u8>::empty(),
{
    if s.len() == SIMPLE_LEN {
        assert(s.skip(SIMPLE_LEN as int) =~= Seq::<u8>::empty());
    }
}

/// A buffer with room for `n + 1` whole sensor records and not for one more
/// is decoded as exactly those records, in order, and what is left over is
/// shorter than a record. With a whole number of records nothing is left
/// over.
pub proof fn lemma_sensor_frames(s: Seq<u8>)
    requires
        s.len() >= MULTIPLE_LEN,
    ensures
        decoded(s) is Ok,
        decoded(s)->Ok_0.0 == Payload::Multiple(multiple_of(s)),
        multiple_of(s).len() == s.len() / (MULTIPLE_LEN as nat),
        multiple_of(s).len() >= 1,
        decoded(s)->Ok_0.1.len() == s.len() % (MULTIPLE_LEN as nat),
        forall|i: int|
            0 <= i < multiple_of(s).len() ==> multiple_of(s)[i] == multiple_one_of(
                s.skip(MULTIPLE_LEN * i),
            ),
{
}

/// A buffer made of `n` whole sensor records, `n` at least one, is decoded as
/// `n` records with nothing left over.
pub proof fn lemma_whole_records(s: Seq<u8>, n: nat)
    requires
        n >= 1,
        s.len() == n * MULTIPLE_LEN,
    ensures
        decoded(s) is Ok,
        decoded(s)->Ok_0.0 == Payload::Multiple(multiple_of(s)),
        multiple_of(s).len() == n,
        decoded(s)->Ok_0.1 == Seq::<u8>::empty(),
{
    assert(decoded(s)->Ok_0.1 =~= Seq::<u8>::empty());
}

/// Decoding is a function of the bytes: two outcomes of decoding one buffer
/// agree, in whether they succeed, in every record and in the error.
pub proof fn lemma_decoding_unique(
    s: Seq<u8>,
    first: Result<WeatherStationData, DecodeError>,
    second: Result<WeatherStationData, DecodeError>,
)
    requires
        is_decoding_of(s, first),
        is_decoding_of(s, second),
    ensures
        first is Ok <==> second is Ok,
        first is Ok ==> first->Ok_0@ == second->Ok_0@,
        first is Err ==> first->Err_0 == second->Err_0,
{
}

} // verus!
