use vstd::prelude::*;
use vstd::string::*;
use crate::request::FetchError;
use crate::conditions::{description_segment, description_view};
use crate::style::{line_view, segment, Segment, Style, Tint};
use crate::temperature::{temperature_segment, temperature_view};
use crate::text::{to_upper, upper_of};

verus! {

/// One weather condition reported by the provider.
#[derive(Debug)]
pub struct Condition {
    pub description: String,
}

/// The decoded answer to one weather query. The numbers are held as the decimal
/// text that Rust prints a float in (`22.5`, `1013`).
#[derive(Debug)]
pub struct WeatherRecord {
    pub city_name: String,
    /// The conditions, most significant first; only the first one is shown.
    pub conditions: Vec<Condition>,
    /// Degrees Celsius.
    pub temperature: String,
    /// Hectopascal.
    pub pressure: String,
    /// Percent.
    pub humidity: String,
    /// Metres per second.
    pub wind_speed: String,
}

impl WeatherRecord {
    /// A record can be shown only if it has a condition.
    pub open spec fn wf(&self) -> bool {
        self.conditions@.len() > 0
    }

    /// Whether the record has a condition to show.
    pub fn has_condition(&self) -> (r: bool)
        ensures
            r == self.wf(),
    {
        self.conditions.len() > 0
    }
}

/// A decoded record if it can be shown; an answer without any condition is taken as
/// one that does not decode.
pub fn check_decoded(rec: WeatherRecord) -> (r: Result<WeatherRecord, FetchError>)
    ensures
        rec.wf() ==> r == Ok::<WeatherRecord, FetchError>(rec),
        !rec.wf() ==> r is Err && r->Err_0 is Decode,
{
    if rec.has_condition() {
        Ok(rec)
    } else {
        Err(FetchError::Decode(String::from_str("the answer lists no weather condition")))
    }
}

/// The characters and styles of a sequence of lines.
pub open spec fn lines_view(ls: Seq<Vec<Segment>>) -> Seq<Seq<(Seq<char>, Style)>> {
    ls.map_values(|l: Vec<Segment>| line_view(l@))
}

/// A labelled number: the label unstyled, the number bold green, then the unit.
pub open spec fn measure_line(label: Seq<char>, value: Seq<char>, unit: Seq<char>) -> Seq<
    (Seq<char>, Style),
> {
    seq![(label, Style::Plain), (value, Style::Bold(Tint::Green)), (unit, Style::Plain)]
}

/// The block printed for one record under the heading `title`: two blank lines, the
/// heading in bold bright white, a blank line, the weather, temperature, pressure,
/// humidity and wind speed lines, and two blank lines.
pub open spec fn report_view(title: Seq<char>, rec: WeatherRecord) -> Seq<
    Seq<(Seq<char>, Style)>,
> {
    seq![
        seq![],
        seq![],
        seq![(title, Style::Bold(Tint::BrightWhite))],
        seq![],
        seq![("> Weather: "@, Style::Plain), description_view(rec.conditions@[0].description@)],
        seq![("> Temperature: "@, Style::Plain), temperature_view(rec.temperature@)],
        measure_line("> Pressure: "@, rec.pressure@, " hPa"@),
        measure_line("> Humidity: "@, rec.humidity@, "%"@),
        measure_line("> Wind speed: "@, rec.wind_speed@, " m/s"@),
        seq![],
        seq![],
    ]
}

fn blank_line() -> (r: Vec<Segment>)
    ensures
        line_view(r@) == Seq::<(Seq<char>, Style)>::empty(),
{
    let r: Vec<Segment> = Vec::new();
    assert(line_view(r@) =~= Seq::<(Seq<char>, Style)>::empty());
    r
}

fn labelled_line(label: &str, value: Segment) -> (r: Vec<Segment>)
    ensures
        line_view(r@) == seq![(label@, Style::Plain), value@],
{
    let mut r: Vec<Segment> = Vec::new();
    r.push(segment(label, Style::Plain));
    r.push(value);
    assert(line_view(r@) =~= seq![(label@, Style::Plain), value@]);
    r
}

fn measure(label: &str, value: &str, unit: &str) -> (r: Vec<Segment>)
    ensures
        line_view(r@) == measure_line(label@, value@, unit@),
{
    let mut r: Vec<Segment> = Vec::new();
    r.push(segment(label, Style::Plain));
    r.push(segment(value, Style::Bold(Tint::Green)));
    r.push(segment(unit, Style::Plain));
    assert(line_view(r@) =~= measure_line(label@, value@, unit@));
    r
}

/// The lines shown for `rec` under the heading `title`.
pub fn report_lines_titled(title: &str, rec: &WeatherRecord) -> (r: Vec<Vec<Segment>>)
    requires
        rec.wf(),
    ensures
        lines_view(r@) == report_view(title@, *rec),
{
    let mut r: Vec<Vec<Segment>> = Vec::new();
    r.push(blank_line());
    r.push(blank_line());
    let mut heading: Vec<Segment> = Vec::new();
    heading.push(segment(title, Style::Bold(Tint::BrightWhite)));
    assert(line_view(heading@) =~= seq![(title@, Style::Bold(Tint::BrightWhite))]);
    r.push(heading);
    r.push(blank_line());
    r.push(
        labelled_line("> Weather: ", description_segment(rec.conditions[0].description.as_str())),
    );
    r.push(labelled_line("> Temperature: ", temperature_segment(rec.temperature.as_str())));
    r.push(measure("> Pressure: ", rec.pressure.as_str(), " hPa"));
    r.push(measure("> Humidity: ", rec.humidity.as_str(), "%"));
    r.push(measure("> Wind speed: ", rec.wind_speed.as_str(), " m/s"));
    r.push(blank_line());
    r.push(blank_line());
    assert(lines_view(r@) =~= report_view(title@, *rec));
    r
}

/// The lines shown for `rec`, headed by its city name in upper case.
pub fn report_lines(rec: &WeatherRecord) -> (r: Vec<Vec<Segment>>)
    requires
        rec.wf(),
    ensures
        lines_view(r@) == report_view(upper_of(rec.city_name@), *rec),
{
    let title = to_upper(rec.city_name.as_str());
    report_lines_titled(title.as_str(), rec)
}

} // verus!
