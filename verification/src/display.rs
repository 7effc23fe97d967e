//! What a dashboard shows of a reading, as plain values: which panels and
//! gauges there are, and the text on each. Laying them out is the
//! dashboard's own business.

use crate::fields::optional_view;
use crate::hardware::{hardware_on_the_board, modules_of, texts};
use crate::json::Real;
use crate::sensor_data::{LocalSensorData, LocalSensorDataView};
use vstd::prelude::*;

verus! {

/// The character of one decimal digit.
pub open spec fn digit_char(d: nat) -> char {
    if d == 0 {
        '0'
    } else if d == 1 {
        '1'
    } else if d == 2 {
        '2'
    } else if d == 3 {
        '3'
    } else if d == 4 {
        '4'
    } else if d == 5 {
        '5'
    } else if d == 6 {
        '6'
    } else if d == 7 {
        '7'
    } else if d == 8 {
        '8'
    } else {
        '9'
    }
}

/// A number in decimal, without leading zeros.
pub open spec fn decimal(n: nat) -> Seq<char>
    decreases n,
{
    if n < 10 {
        seq![digit_char(n)]
    } else {
        decimal(n / 10).push(digit_char(n % 10))
    }
}

/// The text of one decimal digit.
fn digit_text(d: u64) -> (text: &'static str)
    requires
        d < 10,
    ensures
        text@ == seq![digit_char(d as nat)],
{
    proof {
        reveal_strlit("0");
        reveal_strlit("1");
        reveal_strlit("2");
        reveal_strlit("3");
        reveal_strlit("4");
        reveal_strlit("5");
        reveal_strlit("6");
        reveal_strlit("7");
        reveal_strlit("8");
        reveal_strlit("9");
    }
    let text: &'static str = match d {
        0 => "0",
        1 => "1",
        2 => "2",
        3 => "3",
        4 => "4",
        5 => "5",
        6 => "6",
        7 => "7",
        8 => "8",
        _ => "9",
    };
    assert(text@ =~= seq![digit_char(d as nat)]);
    text
}

/// Writes a number in decimal at the end of a text.
fn push_decimal(out: &mut String, n: u64)
    ensures
        final(out)@ == old(out)@ + decimal(n as nat),
    decreases n,
{
    if n >= 10 {
        push_decimal(out, n / 10);
    }
    out.append(digit_text(n % 10));
    proof {
        if n >= 10 {
            assert(out@ =~= old(out)@ + decimal((n / 10) as nat).push(digit_char((n % 10) as nat)));
        } else {
            assert(out@ =~= old(out)@ + seq![digit_char(n as nat)]);
        }
    }
}

/// A temperature in degrees Fahrenheit: the number, a space, `°F`.
pub open spec fn fahrenheit(temp: u64) -> Seq<char> {
    decimal(temp as nat) + seq![' ', '\u{b0}', 'F']
}

/// A share of a hundred: the number and `%`.
pub open spec fn percent(value: u64) -> Seq<char> {
    decimal(value as nat).push('%')
}

/// A label and its value: `label: value`.
pub open spec fn labelled(label: Seq<char>, value: Seq<char>) -> Seq<char> {
    label + seq![':', ' '] + value
}

/// The text of a temperature in degrees Fahrenheit.
pub fn temperature_f(temp: u64) -> (text: String)
    ensures
        text@ == fahrenheit(temp),
{
    let mut text: String = String::new();
    push_decimal(&mut text, temp);
    text.append(" \u{b0}F");
    proof {
        reveal_strlit(" \u{b0}F");
        assert(text@ =~= fahrenheit(temp));
    }
    text
}

/// The text of a share of a hundred.
pub fn humidity_percent(value: u64) -> (text: String)
    ensures
        text@ == percent(value),
{
    let mut text: String = String::new();
    push_decimal(&mut text, value);
    text.append("%");
    proof {
        reveal_strlit("%");
        assert(text@ =~= percent(value));
    }
    text
}

/// The line that shows one field: `label: value`.
pub fn field(label: &str, value: &str) -> (text: String)
    ensures
        text@ == labelled(label@, value@),
{
    let mut text: String = String::from_str(label);
    text.append(": ");
    text.append(value);
    proof {
        reveal_strlit(": ");
        assert(text@ =~= labelled(label@, value@));
    }
    text
}

/// What a gauge measures.
#[derive(Clone, Copy, Debug, PartialEq, Eq, Structural)]
pub enum Gauge {
    Temperature,
    DewPoint,
    Humidity,
}

/// One gauge of the dashboard and the text beside it.
#[derive(Clone, Debug, PartialEq, Eq)]
pub struct Measurement {
    pub gauge: Gauge,
    pub label: String,
}

/// A sequence with one gauge more at its end, if the reading has it.
pub open spec fn and_gauge(
    shown: Seq<(Gauge, Seq<char>)>,
    gauge: Gauge,
    label: Option<Seq<char>>,
) -> Seq<(Gauge, Seq<char>)> {
    match label {
        Some(text) => shown.push((gauge, text)),
        None => shown,
    }
}

/// The text of an optional temperature.
pub open spec fn optional_fahrenheit(temp: Option<u64>) -> Option<Seq<char>> {
    match temp {
        Some(t) => Some(fahrenheit(t)),
        None => None,
    }
}

/// The text of an optional share.
pub open spec fn optional_percent(value: Option<u64>) -> Option<Seq<char>> {
    match value {
        Some(v) => Some(percent(v)),
        None => None,
    }
}

/// The gauges that a reading has, in the order in which they are shown:
/// temperature, dew point, humidity.
pub open spec fn gauges_of(s: LocalSensorDataView) -> Seq<(Gauge, Seq<char>)> {
    and_gauge(
        and_gauge(
            and_gauge(Seq::empty(), Gauge::Temperature, optional_fahrenheit(s.current_temp_f)),
            Gauge::DewPoint,
            optional_fahrenheit(s.current_dewpoint_f),
        ),
        Gauge::Humidity,
        optional_percent(s.current_humidity),
    )
}

/// Gauges with their texts as sequences of characters.
pub open spec fn gauge_views(shown: Seq<Measurement>) -> Seq<(Gauge, Seq<char>)> {
    Seq::new(shown.len(), |i: int| (shown[i].gauge, shown[i].label@))
}

/// The gauges of the common measurements: each one that the reading has,
/// and no other.
pub fn common_measurements(sensor_data: &LocalSensorData) -> (shown: Vec<Measurement>)
    ensures
        gauge_views(shown@) == gauges_of(sensor_data@),
{
    let mut shown: Vec<Measurement> = Vec::new();
    assert(gauge_views(shown@) =~= Seq::empty());
    if let Some(temp) = sensor_data.current_temp_f {
        let ghost before = gauge_views(shown@);
        shown.push(Measurement { gauge: Gauge::Temperature, label: temperature_f(temp) });
        assert(gauge_views(shown@) =~= before.push((Gauge::Temperature, fahrenheit(temp))));
    }
    if let Some(dewpoint) = sensor_data.current_dewpoint_f {
        let ghost before = gauge_views(shown@);
        shown.push(Measurement { gauge: Gauge::DewPoint, label: temperature_f(dewpoint) });
        assert(gauge_views(shown@) =~= before.push((Gauge::DewPoint, fahrenheit(dewpoint))));
    }
    if let Some(humidity) = sensor_data.current_humidity {
        let ghost before = gauge_views(shown@);
        shown.push(Measurement { gauge: Gauge::Humidity, label: humidity_percent(humidity) });
        assert(gauge_views(shown@) =~= before.push((Gauge::Humidity, percent(humidity))));
    }
    shown
}

/// The air-quality panel of one channel.
#[derive(Clone, Debug, PartialEq, Eq)]
pub struct AqiPanel {
    /// The heading of the panel.
    pub title: &'static str,
    /// The colour of the panel, as the sensor names it.
    pub colour: String,
    /// The PM2.5 air-quality index that the panel shows.
    pub index: Real,
}

/// The panel of a channel: there is one exactly when the reading has both
/// the colour and the index of that channel.
pub open spec fn panel_of(title: Seq<char>, colour: Option<Seq<char>>, index: Option<Real>) -> Option<
    (Seq<char>, Seq<char>, Real),
> {
    match (colour, index) {
        (Some(c), Some(x)) => Some((title, c, x)),
        _ => None,
    }
}

/// A panel with its texts as sequences of characters.
pub open spec fn panel_view(panel: Option<AqiPanel>) -> Option<(Seq<char>, Seq<char>, Real)> {
    match panel {
        Some(p) => Some((p.title@, p.colour@, p.index)),
        None => None,
    }
}

/// Makes a panel of a colour and an index, if both are there.
fn panel(title: &'static str, colour: &Option<String>, index: Option<Real>) -> (r: Option<
    AqiPanel,
>)
    ensures
        panel_view(r) == panel_of(title@, optional_view(*colour), index),
{
    match (colour, index) {
        (Some(c), Some(x)) => Some(AqiPanel { title, colour: c.clone(), index: x }),
        _ => None,
    }
}

/// The air-quality panel of channel A.
pub fn aqi_a(sensor_data: &LocalSensorData) -> (r: Option<AqiPanel>)
    ensures
        panel_view(r) == panel_of(
            "Ch A PM2.5 AQI"@,
            sensor_data@.p25aqic,
            sensor_data@.pm2_5_aqi,
        ),
{
    panel("Ch A PM2.5 AQI", &sensor_data.p25aqic, sensor_data.pm2_5_aqi)
}

/// The air-quality panel of channel B.
pub fn aqi_b(sensor_data: &LocalSensorData) -> (r: Option<AqiPanel>)
    ensures
        panel_view(r) == panel_of(
            "Ch B PM2.5 AQI"@,
            sensor_data@.p25aqic_b,
            sensor_data@.pm2_5_aqi_b,
        ),
{
    panel("Ch B PM2.5 AQI", &sensor_data.p25aqic_b, sensor_data.pm2_5_aqi_b)
}

/// The pieces in one text, with `separator` between neighbours.
pub open spec fn joined(pieces: Seq<Seq<char>>, separator: Seq<char>) -> Seq<char>
    decreases pieces.len(),
{
    if pieces.len() == 0 {
        Seq::empty()
    } else if pieces.len() == 1 {
        pieces[0]
    } else {
        joined(pieces.drop_last(), separator) + separator + pieces.last()
    }
}

/// Writes the pieces in one text, with `separator` between neighbours.
pub fn join(pieces: &Vec<String>, separator: &str) -> (text: String)
    ensures
        text@ == joined(texts(pieces@), separator@),
{
    let mut text: String = String::new();
    let mut i: usize = 0;
    assert(texts(pieces@).take(0) =~= Seq::<Seq<char>>::empty());
    while i < pieces.len()
        invariant
            i <= pieces.len(),
            text@ == joined(texts(pieces@).take(i as int), separator@),
        decreases pieces.len() - i,
    {
        let ghost before = texts(pieces@).take(i as int);
        let ghost now = texts(pieces@).take(i + 1);
        proof {
            assert(now.drop_last() =~= before);
            assert(now.last() == pieces@[i as int]@);
        }
        if i > 0 {
            text.append(separator);
        }
        text.append(pieces[i].as_str());
        proof {
            if i == 0 {
                assert(text@ =~= pieces@[0]@);
            } else {
                assert(text@ =~= joined(before, separator@) + separator@ + pieces@[i as int]@);
            }
        }
        i += 1;
    }
    assert(texts(pieces@).take(pieces.len() as int) =~= texts(pieces@));
    text
}

/// The lines about the device, in the order in which they are shown: the
/// firmware version, the version of the board, and the modules that the
/// board has found, with `, ` between them.
pub open spec fn device_lines_of(s: LocalSensorDataView) -> Seq<Seq<char>> {
    seq![
        labelled("Firmware Version"@, s.version),
        labelled("Hardware Version"@, s.hardware_version),
        labelled("Devices"@, joined(modules_of(s.hardware_discovered), ", "@)),
    ]
}

/// The lines about the device.
pub fn device_lines(sensor_data: &LocalSensorData) -> (lines: Vec<String>)
    ensures
        texts(lines@) == device_lines_of(sensor_data@),
{
    let modules: Vec<String> = hardware_on_the_board(sensor_data.hardware_discovered.clone());
    let devices: String = join(&modules, ", ");
    let mut lines: Vec<String> = Vec::new();
    lines.push(field("Firmware Version", sensor_data.version.as_str()));
    lines.push(field("Hardware Version", sensor_data.hardware_version.as_str()));
    lines.push(field("Devices", devices.as_str()));
    assert(texts(lines@) =~= device_lines_of(sensor_data@));
    lines
}

} // verus!
