use vstd::prelude::*;

use vstd::slice::slice_subrange;

use crate::error::GatewayError;

verus! {

/// A decimal number, `units / 10^places`.
#[derive(Debug, Clone, Copy, PartialEq, Eq, Structural)]
pub struct Decimal {
    pub units: i64,
    pub places: u8,
}

/// The most decimal places whose power of ten is computed, so that it stays
/// well inside 128 bits.
pub const MAX_PLACES: u8 = 20;

/// `10^n`.
pub open spec fn pow10(n: nat) -> int
    decreases n,
{
    if n == 0 {
        1
    } else {
        10 * pow10((n - 1) as nat)
    }
}

/// Powers of ten grow with the exponent.
pub proof fn lemma_pow10_mono(a: nat, b: nat)
    requires
        a <= b,
    ensures
        1 <= pow10(a) <= pow10(b),
    decreases b,
{
    if b > a {
        lemma_pow10_mono(a, (b - 1) as nat);
    } else if a > 0 {
        lemma_pow10_mono(0, (a - 1) as nat);
    }
}

pub proof fn lemma_pow10_20()
    ensures
        pow10(20) == 100_000_000_000_000_000_000,
{
    reveal_with_fuel(pow10, 21);
}

pub proof fn lemma_pow10_bounds(n: nat)
    requires
        n <= MAX_PLACES,
    ensures
        1 <= pow10(n) <= 100_000_000_000_000_000_000,
{
    lemma_pow10_mono(n, 20);
    lemma_pow10_20();
}

impl Decimal {
    /// The number minus `t / 10`, scaled by `10^(places + 1)`: negative when
    /// the number is below `t / 10`, zero when it equals it.
    pub open spec fn tenths_diff(&self, t: int) -> int {
        self.units * 10 - t * pow10(self.places as nat)
    }
}

/// `10^n`.
pub fn pow10_exec(n: u8) -> (r: i128)
    requires
        n <= MAX_PLACES,
    ensures
        r == pow10(n as nat),
        1 <= r <= 100_000_000_000_000_000_000,
{
    let mut r: i128 = 1;
    let mut i: u8 = 0;
    while i < n
        invariant
            i <= n <= MAX_PLACES,
            r == pow10(i as nat),
        decreases n - i,
    {
        proof {
            lemma_pow10_bounds(i as nat);
        }
        r = r * 10;
        i += 1;
    }
    proof {
        lemma_pow10_bounds(n as nat);
    }
    r
}

/// Compares `d` with `t / 10`: the result is negative, zero or positive as
/// `d` lies below, at or above it.
pub fn compare_tenths(d: Decimal, t: i64) -> (r: i128)
    requires
        0 <= t <= 1000,
    ensures
        (r < 0) == (d.tenths_diff(t as int) < 0),
        (r == 0) == (d.tenths_diff(t as int) == 0),
{
    if d.places <= MAX_PLACES {
        let p = pow10_exec(d.places);
        proof {
            assert(0 <= t * p <= 1000 * 100_000_000_000_000_000_000) by (nonlinear_arith)
                requires
                    0 <= t <= 1000,
                    1 <= p <= 100_000_000_000_000_000_000,
            ;
        }
        (d.units as i128) * 10 - (t as i128) * p
    } else {
        // |units| * 10 stays below 10^20, which 10^places exceeds
        let ghost p = pow10(d.places as nat);
        proof {
            lemma_pow10_mono(20, d.places as nat);
            lemma_pow10_20();
            if t > 0 {
                assert(t * p >= p) by (nonlinear_arith)
                    requires
                        t >= 1,
                        p >= 1,
                ;
            }
        }
        if t > 0 {
            -1
        } else if d.units < 0 {
            -1
        } else if d.units == 0 {
            0
        } else {
            1
        }
    }
}

/// How a sensor reports the state of its battery.
#[derive(Debug, Clone, Copy, PartialEq, Eq, Structural)]
pub enum SensorBatteryState {
    Okay,
    Low,
    Connected,
    Unknown,
}

/// One decoded value, tagged with the physical quantity it measures.
#[derive(Debug, Clone, Copy, PartialEq, Eq)]
pub enum SensorValue {
    Empty,
    Temp(Decimal),
    Humidity(Decimal),
    Pressure(Decimal),
    Speed(Decimal),
    Rain(Decimal),
    RainLarge(Decimal),
    Distance(i8),
    Direction(i16),
    UtcTime(i32),
    Count(u32),
    Gain(Decimal),
    DateTime([u8; 6]),
    Pm10(Decimal),
    Pm25(Decimal),
    Co2(i16),
    Light(Decimal),
    Uv(Decimal),
    UvIndex(Decimal),
    Leak(Decimal),
    Moist(Decimal),
    Battery(SensorBatteryState),
}

/// The encodings a live-data record can have, one per decoder.
#[derive(Debug, Clone, Copy, PartialEq, Eq, Structural)]
pub enum DecoderKind {
    Temp,
    Humidity,
    Moist,
    Pressure,
    Speed,
    Rain,
    RainLarge,
    Distance,
    Direction,
    Count,
    Gain,
    Light,
    Uv,
    UvIndex,
    Pm10,
    Pm25,
    Leak,
    Co2,
    Utc,
    DateTime,
    Wh45,
    Skip,
}

/// The number of bytes a decoder takes; the skip decoder takes any number.
pub open spec fn kind_len(k: DecoderKind) -> nat {
    match k {
        DecoderKind::Humidity | DecoderKind::Moist | DecoderKind::UvIndex | DecoderKind::Leak
        | DecoderKind::Distance => 1,
        DecoderKind::RainLarge | DecoderKind::Count | DecoderKind::Gain | DecoderKind::Light
        | DecoderKind::Utc => 4,
        DecoderKind::DateTime => 6,
        DecoderKind::Wh45 => 16,
        DecoderKind::Skip => 0,
        _ => 2,
    }
}

/// Unsigned big-endian value of `s[i..i+2]`.
pub open spec fn be_u16_at(s: Seq<u8>, i: int) -> int {
    s[i] as int * 256 + s[i + 1] as int
}

/// Signed (two's complement) big-endian value of `s[i..i+2]`.
pub open spec fn be_i16_at(s: Seq<u8>, i: int) -> int {
    if be_u16_at(s, i) >= 0x8000 {
        be_u16_at(s, i) - 0x10000
    } else {
        be_u16_at(s, i)
    }
}

/// Unsigned big-endian value of `s[i..i+4]`.
pub open spec fn be_u32_at(s: Seq<u8>, i: int) -> int {
    s[i] as int * 0x1000000 + s[i + 1] as int * 0x10000 + s[i + 2] as int * 0x100
        + s[i + 3] as int
}

/// Signed (two's complement) big-endian value of `s[i..i+4]`.
pub open spec fn be_i32_at(s: Seq<u8>, i: int) -> int {
    if be_u32_at(s, i) >= 0x8000_0000 {
        be_u32_at(s, i) - 0x1_0000_0000
    } else {
        be_u32_at(s, i)
    }
}

/// Signed value of one byte.
pub open spec fn i8_at(s: Seq<u8>, i: int) -> int {
    if s[i] >= 0x80 {
        s[i] - 0x100
    } else {
        s[i] as int
    }
}

pub open spec fn dec(units: int, places: u8) -> Decimal {
    Decimal { units: units as i64, places }
}

/// The one value a single-value decoder produces from bytes of the right length.
pub open spec fn single_value(k: DecoderKind, s: Seq<u8>) -> SensorValue {
    match k {
        DecoderKind::Temp => SensorValue::Temp(dec(be_i16_at(s, 0), 1)),
        DecoderKind::Pressure => SensorValue::Pressure(dec(be_i16_at(s, 0), 1)),
        DecoderKind::Speed => SensorValue::Speed(dec(be_i16_at(s, 0), 1)),
        DecoderKind::Rain => SensorValue::Rain(dec(be_i16_at(s, 0), 1)),
        DecoderKind::Uv => SensorValue::Uv(dec(be_i16_at(s, 0), 1)),
        DecoderKind::Pm10 => SensorValue::Pm10(dec(be_i16_at(s, 0), 1)),
        DecoderKind::Pm25 => SensorValue::Pm25(dec(be_i16_at(s, 0), 1)),
        DecoderKind::Humidity => SensorValue::Humidity(dec(s[0] as int, 0)),
        DecoderKind::Moist => SensorValue::Moist(dec(s[0] as int, 0)),
        DecoderKind::UvIndex => SensorValue::UvIndex(dec(s[0] as int, 0)),
        DecoderKind::Leak => SensorValue::Leak(dec(s[0] as int, 0)),
        DecoderKind::RainLarge => SensorValue::RainLarge(dec(be_u32_at(s, 0), 1)),
        DecoderKind::Distance => SensorValue::Distance(i8_at(s, 0) as i8),
        DecoderKind::Direction => SensorValue::Direction(be_i16_at(s, 0) as i16),
        DecoderKind::Co2 => SensorValue::Co2(be_i16_at(s, 0) as i16),
        DecoderKind::Utc => SensorValue::UtcTime(be_i32_at(s, 0) as i32),
        DecoderKind::Count => SensorValue::Count(be_u32_at(s, 0) as u32),
        DecoderKind::Gain => SensorValue::Gain(dec(be_u32_at(s, 0), 2)),
        DecoderKind::Light => SensorValue::Light(dec(be_u32_at(s, 0), 2)),
        DecoderKind::DateTime => SensorValue::DateTime([s[0], s[1], s[2], s[3], s[4], s[5]]),
        _ => SensorValue::Empty,
    }
}

/// The composite air-quality block: single-value decoders applied at fixed offsets.
pub open spec fn wh45_values(s: Seq<u8>) -> Seq<SensorValue> {
    seq![
        single_value(DecoderKind::Temp, s.subrange(0, 2)),
        single_value(DecoderKind::Humidity, s.subrange(2, 3)),
        single_value(DecoderKind::Pm10, s.subrange(3, 5)),
        single_value(DecoderKind::Pm10, s.subrange(5, 7)),
        single_value(DecoderKind::Pm25, s.subrange(7, 9)),
        single_value(DecoderKind::Pm25, s.subrange(9, 11)),
        single_value(DecoderKind::Co2, s.subrange(11, 13)),
        single_value(DecoderKind::Co2, s.subrange(13, 15)),
    ]
}

/// What decoding `s` with decoder `k` yields.
pub open spec fn decode_spec(k: DecoderKind, s: Seq<u8>) -> Result<Seq<SensorValue>, GatewayError> {
    if k == DecoderKind::Skip {
        Ok(seq![SensorValue::Empty])
    } else if s.len() != kind_len(k) {
        Err(GatewayError::DecodeLength { expected: kind_len(k) as usize, actual: s.len() as usize })
    } else if k == DecoderKind::Wh45 {
        Ok(wh45_values(s))
    } else {
        Ok(seq![single_value(k, s)])
    }
}

/// The value lies in the range and scale its encoding documents: tenths of a
/// 16-bit signed number, a byte, tenths or hundredths of a 32-bit unsigned
/// number; the integer kinds by their type.
pub open spec fn in_scale(v: SensorValue) -> bool {
    match v {
        SensorValue::Temp(d) | SensorValue::Pressure(d) | SensorValue::Speed(d)
        | SensorValue::Rain(d) | SensorValue::Uv(d) | SensorValue::Pm10(d)
        | SensorValue::Pm25(d) => d.places == 1 && -32768 <= d.units <= 32767,
        SensorValue::Humidity(d) | SensorValue::Moist(d) | SensorValue::UvIndex(d)
        | SensorValue::Leak(d) => d.places == 0 && 0 <= d.units <= 255,
        SensorValue::RainLarge(d) => d.places == 1 && 0 <= d.units <= 0xFFFF_FFFF,
        SensorValue::Gain(d) | SensorValue::Light(d) => d.places == 2 && 0 <= d.units
            <= 0xFFFF_FFFF,
        _ => true,
    }
}

proof fn lemma_single_in_scale(k: DecoderKind, s: Seq<u8>)
    requires
        k != DecoderKind::Skip,
        k != DecoderKind::Wh45,
        s.len() == kind_len(k),
    ensures
        in_scale(single_value(k, s)),
{
}

/// Every decoder but the skip decoder, given exactly its length of bytes,
/// succeeds, and each value it yields lies within its documented scale.
pub proof fn lemma_decode_in_scale(k: DecoderKind, s: Seq<u8>)
    requires
        k == DecoderKind::Skip || s.len() == kind_len(k),
    ensures
        decode_spec(k, s) is Ok,
        forall|i: int|
            0 <= i < decode_spec(k, s)->Ok_0.len() ==> in_scale(
                #[trigger] decode_spec(k, s)->Ok_0[i],
            ),
{
    if k == DecoderKind::Wh45 {
        lemma_single_in_scale(DecoderKind::Temp, s.subrange(0, 2));
        lemma_single_in_scale(DecoderKind::Humidity, s.subrange(2, 3));
        lemma_single_in_scale(DecoderKind::Pm10, s.subrange(3, 5));
        lemma_single_in_scale(DecoderKind::Pm10, s.subrange(5, 7));
        lemma_single_in_scale(DecoderKind::Pm25, s.subrange(7, 9));
        lemma_single_in_scale(DecoderKind::Pm25, s.subrange(9, 11));
        lemma_single_in_scale(DecoderKind::Co2, s.subrange(11, 13));
        lemma_single_in_scale(DecoderKind::Co2, s.subrange(13, 15));
    } else if k != DecoderKind::Skip {
        lemma_single_in_scale(k, s);
    }
}

/// The view of a decoder's result.
pub open spec fn decoded_view(r: Result<Vec<SensorValue>, GatewayError>) -> Result<
    Seq<SensorValue>,
    GatewayError,
> {
    match r {
        Ok(v) => Ok(v@),
        Err(e) => Err(e),
    }
}

fn read_u16_be(data: &[u8], at: usize) -> (r: u16)
    requires
        at + 2 <= data@.len(),
    ensures
        r as int == be_u16_at(data@, at as int),
{
    (data[at] as u16) * 256 + (data[at + 1] as u16)
}

fn read_i16_be(data: &[u8], at: usize) -> (r: i16)
    requires
        at + 2 <= data@.len(),
    ensures
        r as int == be_i16_at(data@, at as int),
{
    let u = read_u16_be(data, at);
    if u >= 0x8000 {
        (u as i32 - 0x10000) as i16
    } else {
        u as i16
    }
}

pub(crate) fn read_u32_be(data: &[u8], at: usize) -> (r: u32)
    requires
        at + 4 <= data@.len(),
    ensures
        r as int == be_u32_at(data@, at as int),
{
    (data[at] as u32) * 0x1000000 + (data[at + 1] as u32) * 0x10000 + (data[at + 2] as u32)
        * 0x100 + (data[at + 3] as u32)
}

fn read_i32_be(data: &[u8], at: usize) -> (r: i32)
    requires
        at + 4 <= data@.len(),
    ensures
        r as int == be_i32_at(data@, at as int),
{
    let u = read_u32_be(data, at);
    if u >= 0x8000_0000 {
        (u as i64 - 0x1_0000_0000) as i32
    } else {
        u as i32
    }
}

fn read_i8(b: u8) -> (r: i8)
    ensures
        r as int == i8_at(seq![b], 0),
{
    if b >= 0x80 {
        (b as i16 - 0x100) as i8
    } else {
        b as i8
    }
}

fn length_error(expected: usize, data: &[u8]) -> (r: Result<Vec<SensorValue>, GatewayError>)
    ensures
        r == Err::<Vec<SensorValue>, GatewayError>(
            GatewayError::DecodeLength { expected, actual: data@.len() as usize },
        ),
{
    Err(GatewayError::DecodeLength { expected, actual: data.len() })
}

fn tenths_at(data: &[u8], at: usize) -> (r: Decimal)
    requires
        at + 2 <= data@.len(),
    ensures
        r == dec(be_i16_at(data@, at as int), 1),
{
    Decimal { units: read_i16_be(data, at) as i64, places: 1 }
}

fn whole(b: u8) -> (r: Decimal)
    ensures
        r == dec(b as int, 0),
{
    Decimal { units: b as i64, places: 0 }
}

/// Applies one of the single-value decoders that the composite block uses to
/// `data[from..to]`.
fn sub_value(k: DecoderKind, data: &[u8], from: usize, to: usize) -> (v: SensorValue)
    requires
        k == DecoderKind::Temp || k == DecoderKind::Humidity || k == DecoderKind::Pm10
            || k == DecoderKind::Pm25 || k == DecoderKind::Co2,
        from <= to <= data@.len(),
        to - from == kind_len(k),
    ensures
        v == single_value(k, data@.subrange(from as int, to as int)),
{
    let part = slice_subrange(data, from, to);
    let r = match k {
        DecoderKind::Temp => SensorValue::parse_temp(part),
        DecoderKind::Humidity => SensorValue::parse_humidity(part),
        DecoderKind::Pm10 => SensorValue::parse_pm10(part),
        DecoderKind::Pm25 => SensorValue::parse_pm25(part),
        _ => SensorValue::parse_co2(part),
    };
    match r {
        Ok(values) => values[0],
        Err(_) => SensorValue::Empty,
    }
}

impl SensorValue {
    /// 16-bit signed big-endian temperature in tenths of a degree.
    pub fn parse_temp(data: &[u8]) -> (r: Result<Vec<SensorValue>, GatewayError>)
        ensures
            decoded_view(r) == decode_spec(DecoderKind::Temp, data@),
    {
        if data.len() != 2 {
            return length_error(2, data);
        }
        let r = vec![SensorValue::Temp(tenths_at(data, 0))];
        assert(r@ == seq![single_value(DecoderKind::Temp, data@)]);
        Ok(r)
    }

    /// 8-bit unsigned relative humidity in percent.
    pub fn parse_humidity(data: &[u8]) -> (r: Result<Vec<SensorValue>, GatewayError>)
        ensures
            decoded_view(r) == decode_spec(DecoderKind::Humidity, data@),
    {
        if data.len() != 1 {
            return length_error(1, data);
        }
        let r = vec![SensorValue::Humidity(whole(data[0]))];
        assert(r@ == seq![single_value(DecoderKind::Humidity, data@)]);
        Ok(r)
    }

    /// 8-bit unsigned soil moisture in percent.
    pub fn parse_moist(data: &[u8]) -> (r: Result<Vec<SensorValue>, GatewayError>)
        ensures
            decoded_view(r) == decode_spec(DecoderKind::Moist, data@),
    {
        if data.len() != 1 {
            return length_error(1, data);
        }
        let r = vec![SensorValue::Moist(whole(data[0]))];
        assert(r@ == seq![single_value(DecoderKind::Moist, data@)]);
        Ok(r)
    }

    /// 16-bit signed big-endian pressure in tenths.
    pub fn parse_pressure(data: &[u8]) -> (r: Result<Vec<SensorValue>, GatewayError>)
        ensures
            decoded_view(r) == decode_spec(DecoderKind::Pressure, data@),
    {
        if data.len() != 2 {
            return length_error(2, data);
        }
        let r = vec![SensorValue::Pressure(tenths_at(data, 0))];
        assert(r@ == seq![single_value(DecoderKind::Pressure, data@)]);
        Ok(r)
    }

    /// 16-bit signed big-endian wind speed in tenths.
    pub fn parse_speed(data: &[u8]) -> (r: Result<Vec<SensorValue>, GatewayError>)
        ensures
            decoded_view(r) == decode_spec(DecoderKind::Speed, data@),
    {
        if data.len() != 2 {
            return length_error(2, data);
        }
        let r = vec![SensorValue::Speed(tenths_at(data, 0))];
        assert(r@ == seq![single_value(DecoderKind::Speed, data@)]);
        Ok(r)
    }

    /// 16-bit signed big-endian rainfall in tenths.
    pub fn parse_rain(data: &[u8]) -> (r: Result<Vec<SensorValue>, GatewayError>)
        ensures
            decoded_view(r) == decode_spec(DecoderKind::Rain, data@),
    {
        if data.len() != 2 {
            return length_error(2, data);
        }
        let r = vec![SensorValue::Rain(tenths_at(data, 0))];
        assert(r@ == seq![single_value(DecoderKind::Rain, data@)]);
        Ok(r)
    }

    /// 32-bit unsigned big-endian rainfall in tenths.
    pub fn parse_rainlarge(data: &[u8]) -> (r: Result<Vec<SensorValue>, GatewayError>)
        ensures
            decoded_view(r) == decode_spec(DecoderKind::RainLarge, data@),
    {
        if data.len() != 4 {
            return length_error(4, data);
        }
        let r = vec![SensorValue::RainLarge(Decimal { units: read_u32_be(data, 0) as i64, places: 1 })];
        assert(r@ == seq![single_value(DecoderKind::RainLarge, data@)]);
        Ok(r)
    }

    /// 8-bit signed lightning distance.
    pub fn parse_distance(data: &[u8]) -> (r: Result<Vec<SensorValue>, GatewayError>)
        ensures
            decoded_view(r) == decode_spec(DecoderKind::Distance, data@),
    {
        if data.len() != 1 {
            return length_error(1, data);
        }
        let r = vec![SensorValue::Distance(read_i8(data[0]))];
        assert(r@ == seq![single_value(DecoderKind::Distance, data@)]);
        Ok(r)
    }

    /// 16-bit signed big-endian wind direction in degrees.
    pub fn parse_direction(data: &[u8]) -> (r: Result<Vec<SensorValue>, GatewayError>)
        ensures
            decoded_view(r) == decode_spec(DecoderKind::Direction, data@),
    {
        if data.len() != 2 {
            return length_error(2, data);
        }
        let r = vec![SensorValue::Direction(read_i16_be(data, 0))];
        assert(r@ == seq![single_value(DecoderKind::Direction, data@)]);
        Ok(r)
    }

    /// 32-bit unsigned big-endian count.
    pub fn parse_count(data: &[u8]) -> (r: Result<Vec<SensorValue>, GatewayError>)
        ensures
            decoded_view(r) == decode_spec(DecoderKind::Count, data@),
    {
        if data.len() != 4 {
            return length_error(4, data);
        }
        let r = vec![SensorValue::Count(read_u32_be(data, 0))];
        assert(r@ == seq![single_value(DecoderKind::Count, data@)]);
        Ok(r)
    }

    /// 32-bit unsigned big-endian gain in hundredths.
    pub fn parse_gain(data: &[u8]) -> (r: Result<Vec<SensorValue>, GatewayError>)
        ensures
            decoded_view(r) == decode_spec(DecoderKind::Gain, data@),
    {
        if data.len() != 4 {
            return length_error(4, data);
        }
        let r = vec![SensorValue::Gain(Decimal { units: read_u32_be(data, 0) as i64, places: 2 })];
        assert(r@ == seq![single_value(DecoderKind::Gain, data@)]);
        Ok(r)
    }

    /// 32-bit unsigned big-endian light level in hundredths.
    pub fn parse_light(data: &[u8]) -> (r: Result<Vec<SensorValue>, GatewayError>)
        ensures
            decoded_view(r) == decode_spec(DecoderKind::Light, data@),
    {
        if data.len() != 4 {
            return length_error(4, data);
        }
        let r = vec![SensorValue::Light(Decimal { units: read_u32_be(data, 0) as i64, places: 2 })];
        assert(r@ == seq![single_value(DecoderKind::Light, data@)]);
        Ok(r)
    }

    /// 16-bit signed big-endian UV radiation in tenths.
    pub fn parse_uv(data: &[u8]) -> (r: Result<Vec<SensorValue>, GatewayError>)
        ensures
            decoded_view(r) == decode_spec(DecoderKind::Uv, data@),
    {
        if data.len() != 2 {
            return length_error(2, data);
        }
        let r = vec![SensorValue::Uv(tenths_at(data, 0))];
        assert(r@ == seq![single_value(DecoderKind::Uv, data@)]);
        Ok(r)
    }

    /// 8-bit unsigned UV index.
    pub fn parse_uv_index(data: &[u8]) -> (r: Result<Vec<SensorValue>, GatewayError>)
        ensures
            decoded_view(r) == decode_spec(DecoderKind::UvIndex, data@),
    {
        if data.len() != 1 {
            return length_error(1, data);
        }
        let r = vec![SensorValue::UvIndex(whole(data[0]))];
        assert(r@ == seq![single_value(DecoderKind::UvIndex, data@)]);
        Ok(r)
    }

    /// 16-bit signed big-endian PM10 concentration in tenths.
    pub fn parse_pm10(data: &[u8]) -> (r: Result<Vec<SensorValue>, GatewayError>)
        ensures
            decoded_view(r) == decode_spec(DecoderKind::Pm10, data@),
    {
        if data.len() != 2 {
            return length_error(2, data);
        }
        let r = vec![SensorValue::Pm10(tenths_at(data, 0))];
        assert(r@ == seq![single_value(DecoderKind::Pm10, data@)]);
        Ok(r)
    }

    /// 16-bit signed big-endian PM2.5 concentration in tenths.
    pub fn parse_pm25(data: &[u8]) -> (r: Result<Vec<SensorValue>, GatewayError>)
        ensures
            decoded_view(r) == decode_spec(DecoderKind::Pm25, data@),
    {
        if data.len() != 2 {
            return length_error(2, data);
        }
        let r = vec![SensorValue::Pm25(tenths_at(data, 0))];
        assert(r@ == seq![single_value(DecoderKind::Pm25, data@)]);
        Ok(r)
    }

    /// 8-bit unsigned leak state.
    pub fn parse_leak(data: &[u8]) -> (r: Result<Vec<SensorValue>, GatewayError>)
        ensures
            decoded_view(r) == decode_spec(DecoderKind::Leak, data@),
    {
        if data.len() != 1 {
            return length_error(1, data);
        }
        let r = vec![SensorValue::Leak(whole(data[0]))];
        assert(r@ == seq![single_value(DecoderKind::Leak, data@)]);
        Ok(r)
    }

    /// 16-bit signed big-endian CO2 concentration in ppm.
    pub fn parse_co2(data: &[u8]) -> (r: Result<Vec<SensorValue>, GatewayError>)
        ensures
            decoded_view(r) == decode_spec(DecoderKind::Co2, data@),
    {
        if data.len() != 2 {
            return length_error(2, data);
        }
        let r = vec![SensorValue::Co2(read_i16_be(data, 0))];
        assert(r@ == seq![single_value(DecoderKind::Co2, data@)]);
        Ok(r)
    }

    /// 32-bit signed big-endian time in seconds.
    pub fn parse_utc(data: &[u8]) -> (r: Result<Vec<SensorValue>, GatewayError>)
        ensures
            decoded_view(r) == decode_spec(DecoderKind::Utc, data@),
    {
        if data.len() != 4 {
            return length_error(4, data);
        }
        let r = vec![SensorValue::UtcTime(read_i32_be(data, 0))];
        assert(r@ == seq![single_value(DecoderKind::Utc, data@)]);
        Ok(r)
    }

    /// Six raw date-time bytes, passed through.
    pub fn parse_datetime(data: &[u8]) -> (r: Result<Vec<SensorValue>, GatewayError>)
        ensures
            decoded_view(r) == decode_spec(DecoderKind::DateTime, data@),
    {
        if data.len() != 6 {
            return length_error(6, data);
        }
        let r = vec![SensorValue::DateTime([data[0], data[1], data[2], data[3], data[4], data[5]])];
        assert(r@ == seq![single_value(DecoderKind::DateTime, data@)]);
        Ok(r)
    }

    /// The composite air-quality block: temperature, humidity, PM10 and its
    /// 24-hour average, PM2.5 and its 24-hour average, CO2 and its 24-hour
    /// average, each decoded at its fixed offset; the last byte is not read.
    pub fn parse_wh45(data: &[u8]) -> (r: Result<Vec<SensorValue>, GatewayError>)
        ensures
            decoded_view(r) == decode_spec(DecoderKind::Wh45, data@),
    {
        if data.len() != 16 {
            return length_error(16, data);
        }
        let temp = sub_value(DecoderKind::Temp, data, 0, 2);
        let humid = sub_value(DecoderKind::Humidity, data, 2, 3);
        let pm10 = sub_value(DecoderKind::Pm10, data, 3, 5);
        let pm10_avg = sub_value(DecoderKind::Pm10, data, 5, 7);
        let pm25 = sub_value(DecoderKind::Pm25, data, 7, 9);
        let pm25_avg = sub_value(DecoderKind::Pm25, data, 9, 11);
        let co2 = sub_value(DecoderKind::Co2, data, 11, 13);
        let co2_avg = sub_value(DecoderKind::Co2, data, 13, 15);
        let r = vec![temp, humid, pm10, pm10_avg, pm25, pm25_avg, co2, co2_avg];
        assert(r@ == wh45_values(data@));
        Ok(r)
    }

    /// Consumes a block that carries nothing of use and yields one empty value.
    pub fn skip_data(data: &[u8]) -> (r: Result<Vec<SensorValue>, GatewayError>)
        ensures
            decoded_view(r) == decode_spec(DecoderKind::Skip, data@),
    {
        let r = vec![SensorValue::Empty];
        assert(r@ == seq![SensorValue::Empty]);
        Ok(r)
    }
}

impl DecoderKind {
    /// The number of bytes this decoder takes (zero for the skip decoder, which
    /// takes any number).
    pub fn expected_len(&self) -> (r: usize)
        ensures
            r == kind_len(*self),
    {
        match self {
            DecoderKind::Humidity | DecoderKind::Moist | DecoderKind::UvIndex
            | DecoderKind::Leak | DecoderKind::Distance => 1,
            DecoderKind::RainLarge | DecoderKind::Count | DecoderKind::Gain
            | DecoderKind::Light | DecoderKind::Utc => 4,
            DecoderKind::DateTime => 6,
            DecoderKind::Wh45 => 16,
            DecoderKind::Skip => 0,
            _ => 2,
        }
    }

    /// Decodes `data` with this decoder.
    pub fn decode(&self, data: &[u8]) -> (r: Result<Vec<SensorValue>, GatewayError>)
        ensures
            decoded_view(r) == decode_spec(*self, data@),
    {
        match self {
            DecoderKind::Temp => SensorValue::parse_temp(data),
            DecoderKind::Humidity => SensorValue::parse_humidity(data),
            DecoderKind::Moist => SensorValue::parse_moist(data),
            DecoderKind::Pressure => SensorValue::parse_pressure(data),
            DecoderKind::Speed => SensorValue::parse_speed(data),
            DecoderKind::Rain => SensorValue::parse_rain(data),
            DecoderKind::RainLarge => SensorValue::parse_rainlarge(data),
            DecoderKind::Distance => SensorValue::parse_distance(data),
            DecoderKind::Direction => SensorValue::parse_direction(data),
            DecoderKind::Count => SensorValue::parse_count(data),
            DecoderKind::Gain => SensorValue::parse_gain(data),
            DecoderKind::Light => SensorValue::parse_light(data),
            DecoderKind::Uv => SensorValue::parse_uv(data),
            DecoderKind::UvIndex => SensorValue::parse_uv_index(data),
            DecoderKind::Pm10 => SensorValue::parse_pm10(data),
            DecoderKind::Pm25 => SensorValue::parse_pm25(data),
            DecoderKind::Leak => SensorValue::parse_leak(data),
            DecoderKind::Co2 => SensorValue::parse_co2(data),
            DecoderKind::Utc => SensorValue::parse_utc(data),
            DecoderKind::DateTime => SensorValue::parse_datetime(data),
            DecoderKind::Wh45 => SensorValue::parse_wh45(data),
            DecoderKind::Skip => SensorValue::skip_data(data),
        }
    }
}

} // verus!
