use vstd::prelude::*;

use crate::text::{hex_pair, push_hex_pair};
use crate::values::{
    lemma_pow10_20, lemma_pow10_mono, pow10, pow10_exec, Decimal, SensorBatteryState, SensorValue,
    MAX_PLACES,
};

verus! {

/// The scalar a reading is published as.
#[derive(Debug, Clone, PartialEq, Eq)]
pub enum Projection {
    /// No value.
    Null,
    /// A number given in hundredths: `Number(h)` stands for `h / 100`.
    Number(i128),
    /// A whole number, passed through as it was decoded.
    Integer(i64),
    /// A text value.
    Text(String),
}

/// A projection with its text as characters.
pub enum ProjectionView {
    Null,
    Number(int),
    Integer(int),
    Text(Seq<char>),
}

impl View for Projection {
    type V = ProjectionView;

    open spec fn view(&self) -> ProjectionView {
        match self {
            Projection::Null => ProjectionView::Null,
            Projection::Number(h) => ProjectionView::Number(*h as int),
            Projection::Integer(i) => ProjectionView::Integer(*i as int),
            Projection::Text(s) => ProjectionView::Text(s@),
        }
    }
}

/// `units / 10^places` in hundredths, rounded half away from zero.
pub open spec fn round_hundredths(d: Decimal) -> int {
    if d.places <= 2 {
        d.units * pow10((2 - d.places) as nat)
    } else {
        let div = pow10((d.places - 2) as nat);
        let a = if d.units < 0 {
            -d.units
        } else {
            d.units as int
        };
        let q = a / div + if 2 * (a % div) >= div {
            1int
        } else {
            0int
        };
        if d.units < 0 {
            -q
        } else {
            q
        }
    }
}

/// The text of a battery state.
pub open spec fn battery_text(b: SensorBatteryState) -> Seq<char> {
    match b {
        SensorBatteryState::Okay => "ok"@,
        SensorBatteryState::Low => "low"@,
        SensorBatteryState::Connected => "connected"@,
        SensorBatteryState::Unknown => "unknown"@,
    }
}

/// Six date-time bytes as `dt:` and lower-case hexadecimal pairs joined by
/// spaces.
pub open spec fn datetime_text(b: [u8; 6]) -> Seq<char> {
    "dt:"@ + hex_pair(b[0], false) + " "@ + hex_pair(b[1], false) + " "@ + hex_pair(b[2], false)
        + " "@ + hex_pair(b[3], false) + " "@ + hex_pair(b[4], false) + " "@ + hex_pair(
        b[5],
        false,
    )
}

/// The scalar each value is published as.
pub open spec fn projection_spec(v: SensorValue) -> ProjectionView {
    match v {
        SensorValue::Empty => ProjectionView::Null,
        SensorValue::Temp(d) | SensorValue::Humidity(d) | SensorValue::Pressure(d)
        | SensorValue::Speed(d) | SensorValue::Rain(d) | SensorValue::RainLarge(d)
        | SensorValue::Gain(d) | SensorValue::Pm10(d) | SensorValue::Pm25(d)
        | SensorValue::Light(d) | SensorValue::Uv(d) | SensorValue::UvIndex(d)
        | SensorValue::Leak(d) | SensorValue::Moist(d) => ProjectionView::Number(
            round_hundredths(d),
        ),
        SensorValue::Distance(i) => ProjectionView::Integer(i as int),
        SensorValue::Direction(i) => ProjectionView::Integer(i as int),
        SensorValue::UtcTime(i) => ProjectionView::Integer(i as int),
        SensorValue::Count(i) => ProjectionView::Integer(i as int),
        SensorValue::Co2(i) => ProjectionView::Integer(i as int),
        SensorValue::DateTime(b) => ProjectionView::Text(datetime_text(b)),
        SensorValue::Battery(b) => ProjectionView::Text(battery_text(b)),
    }
}

impl SensorValue {
    /// A decimal in hundredths, rounded half away from zero.
    pub fn round(x: &Decimal) -> (r: i128)
        ensures
            r == round_hundredths(*x),
    {
        if x.places <= 2 {
            let m = pow10_exec(2 - x.places);
            proof {
                reveal_with_fuel(pow10, 3);
                assert(-0x8000_0000_0000_0000 * 100 <= x.units * m <= 0x7fff_ffff_ffff_ffff * 100)
                    by (nonlinear_arith)
                    requires
                        -0x8000_0000_0000_0000 <= x.units <= 0x7fff_ffff_ffff_ffff,
                        1 <= m <= 100,
                        m == pow10((2 - x.places) as nat),
                ;
            }
            (x.units as i128) * m
        } else if x.places - 2 > MAX_PLACES {
            proof {
                let div = pow10((x.places - 2) as nat);
                lemma_pow10_mono(MAX_PLACES as nat, (x.places - 2) as nat);
                lemma_pow10_20();
                let a = if x.units < 0 {
                    -x.units
                } else {
                    x.units as int
                };
                assert(a / div == 0 && a % div == a) by {
                    vstd::arithmetic::div_mod::lemma_basic_div(a, div);
                    vstd::arithmetic::div_mod::lemma_small_mod(a as nat, div as nat);
                }
            }
            0
        } else {
            let div = pow10_exec(x.places - 2);
            let a: i128 = if x.units < 0 {
                -(x.units as i128)
            } else {
                x.units as i128
            };
            let q = a / div;
            let rem = a % div;
            let q2 = if 2 * rem >= div {
                q + 1
            } else {
                q
            };
            if x.units < 0 {
                -q2
            } else {
                q2
            }
        }
    }

    /// The scalar this value is published as: decimals rounded to hundredths,
    /// whole numbers unchanged, date-times and battery states as text, the
    /// empty value as null.
    pub fn to_json_val(t: &SensorValue) -> (r: Projection)
        ensures
            r@ == projection_spec(*t),
    {
        match t {
            SensorValue::Empty => Projection::Null,
            SensorValue::Temp(d) | SensorValue::Humidity(d) | SensorValue::Pressure(d)
            | SensorValue::Speed(d) | SensorValue::Rain(d) | SensorValue::RainLarge(d)
            | SensorValue::Gain(d) | SensorValue::Pm10(d) | SensorValue::Pm25(d)
            | SensorValue::Light(d) | SensorValue::Uv(d) | SensorValue::UvIndex(d)
            | SensorValue::Leak(d) | SensorValue::Moist(d) => Projection::Number(Self::round(d)),
            SensorValue::Distance(i) => Projection::Integer(*i as i64),
            SensorValue::Direction(i) => Projection::Integer(*i as i64),
            SensorValue::UtcTime(i) => Projection::Integer(*i as i64),
            SensorValue::Count(i) => Projection::Integer(*i as i64),
            SensorValue::Co2(i) => Projection::Integer(*i as i64),
            SensorValue::DateTime(b) => Projection::Text(datetime_string(b)),
            SensorValue::Battery(b) => Projection::Text(battery_string(*b)),
        }
    }
}

fn datetime_string(b: &[u8; 6]) -> (r: String)
    ensures
        r@ == datetime_text(*b),
{
    let mut s = String::from_str("dt:");
    push_hex_pair(&mut s, b[0], false);
    let mut i: usize = 1;
    while i < 6
        invariant
            1 <= i <= 6,
            s@ == datetime_prefix(*b, i as int),
        decreases 6 - i,
    {
        s.append(" ");
        push_hex_pair(&mut s, b[i], false);
        i += 1;
    }
    proof {
        reveal_with_fuel(datetime_prefix, 6);
    }
    s
}

spec fn datetime_prefix(b: [u8; 6], n: int) -> Seq<char>
    decreases n,
{
    if n <= 1 {
        "dt:"@ + hex_pair(b[0], false)
    } else {
        datetime_prefix(b, n - 1) + " "@ + hex_pair(b[n - 1], false)
    }
}

fn battery_string(b: SensorBatteryState) -> (r: String)
    ensures
        r@ == battery_text(b),
{
    match b {
        SensorBatteryState::Okay => String::from_str("ok"),
        SensorBatteryState::Low => String::from_str("low"),
        SensorBatteryState::Connected => String::from_str("connected"),
        SensorBatteryState::Unknown => String::from_str("unknown"),
    }
}

} // verus!
