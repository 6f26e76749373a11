use weather_cli::conditions::description_segment;
use weather_cli::report::{check_decoded, report_lines, report_lines_titled, Condition, WeatherRecord};
use weather_cli::request::FetchError;
use weather_cli::style::{Segment, Style, Tint};
use weather_cli::temperature::{temp_band, temperature_segment, TempBand};

fn lisbon() -> WeatherRecord {
    WeatherRecord {
        city_name: "lisbon".to_string(),
        conditions: vec![Condition { description: "clear sky".to_string() }],
        temperature: "22.5".to_string(),
        pressure: "1013".to_string(),
        humidity: "60".to_string(),
        wind_speed: "3.4".to_string(),
    }
}

fn texts(line: &[Segment]) -> Vec<String> {
    line.iter().map(|s| s.text.clone()).collect()
}

#[test]
fn bands_below_zero() {
    assert_eq!(temp_band("-0.5"), TempBand::BelowZero);
    assert_eq!(temp_band("-12"), TempBand::BelowZero);
    assert_eq!(temp_band("-inf"), TempBand::BelowZero);
}

#[test]
fn bands_boundaries_open_the_higher_band() {
    assert_eq!(temp_band("0"), TempBand::Cold);
    assert_eq!(temp_band("-0"), TempBand::Cold);
    assert_eq!(temp_band("10"), TempBand::Mild);
    assert_eq!(temp_band("20"), TempBand::Warm);
    assert_eq!(temp_band("30"), TempBand::Hot);
}

#[test]
fn bands_inside_ranges() {
    assert_eq!(temp_band("9.99"), TempBand::Cold);
    assert_eq!(temp_band("0.01"), TempBand::Cold);
    assert_eq!(temp_band("19.5"), TempBand::Mild);
    assert_eq!(temp_band("29.99"), TempBand::Warm);
    assert_eq!(temp_band("35.2"), TempBand::Hot);
    assert_eq!(temp_band("123456789012345678901234567890"), TempBand::Hot);
}

#[test]
fn bands_of_texts_that_are_no_finite_number() {
    assert_eq!(temp_band("NaN"), TempBand::Hot);
    assert_eq!(temp_band("inf"), TempBand::Hot);
}

#[test]
fn bands_agree_with_float_comparison() {
    for t in [-40.0f64, -0.25, 0.0, 0.5, 9.75, 10.0, 15.0, 19.999, 20.0, 25.5, 29.5, 30.0, 41.0] {
        let expected = if t < 0.0 {
            TempBand::BelowZero
        } else if t < 10.0 {
            TempBand::Cold
        } else if t < 20.0 {
            TempBand::Mild
        } else if t < 30.0 {
            TempBand::Warm
        } else {
            TempBand::Hot
        };
        assert_eq!(temp_band(&t.to_string()), expected, "{}", t);
    }
}

#[test]
fn temperature_segments() {
    let s = temperature_segment("22.5");
    assert_eq!(s.text, "22.5°C 🌞");
    assert_eq!(s.style, Style::Colored(Tint::Yellow));
    let s = temperature_segment("-3");
    assert_eq!(s.text, "-3°C 🫢");
    assert_eq!(s.style, Style::Colored(Tint::Cyan));
    let s = temperature_segment("0");
    assert_eq!(s.text, "0°C 🥶");
    assert_eq!(s.style, Style::Colored(Tint::Blue));
    let s = temperature_segment("12");
    assert_eq!(s.text, "12°C 😊");
    assert_eq!(s.style, Style::Colored(Tint::BrightGreen));
    let s = temperature_segment("31.2");
    assert_eq!(s.text, "31.2°C 🔥");
    assert_eq!(s.style, Style::Colored(Tint::Red));
}

#[test]
fn known_descriptions() {
    let table = [
        ("clear sky", "🌄", Style::Colored(Tint::BrightYellow)),
        ("few clouds", "🌤️", Style::Colored(Tint::BrightBlue)),
        ("overcast clouds", "🌤️", Style::Colored(Tint::BrightBlue)),
        ("scattered clouds", "🌥️", Style::Colored(Tint::BrightBlue)),
        ("broken clouds", "🌫️", Style::Colored(Tint::BrightBlue)),
        ("shower rain", "🌧️", Style::Colored(Tint::BrightCyan)),
        ("light rain", "🌧️", Style::Colored(Tint::BrightCyan)),
        ("rain", "🌧️", Style::Colored(Tint::BrightCyan)),
        ("light snow", "🌨️", Style::Colored(Tint::BrightCyan)),
        ("snow", "🌨️", Style::Colored(Tint::BrightCyan)),
        ("thunderstorm", "⛈️", Style::Colored(Tint::BrightCyan)),
        ("mist", "🌫️", Style::Dimmed),
    ];
    for (d, emoji, style) in table {
        let s = description_segment(d);
        assert_eq!(s.text, format!("{} {}", d, emoji));
        assert_eq!(s.style, style);
    }
}

#[test]
fn unknown_descriptions_are_plain() {
    for d in ["Clear Sky", "CLEAR SKY", "haze", "", "clear sky "] {
        let s = description_segment(d);
        assert_eq!(s.text, d);
        assert_eq!(s.style, Style::Plain);
    }
}

#[test]
fn lisbon_report() {
    let lines = report_lines(&lisbon());
    assert_eq!(lines.len(), 11);
    assert!(lines[0].is_empty() && lines[1].is_empty() && lines[3].is_empty());
    assert!(lines[9].is_empty() && lines[10].is_empty());
    assert_eq!(texts(&lines[2]), vec!["LISBON"]);
    assert_eq!(lines[2][0].style, Style::Bold(Tint::BrightWhite));
    assert_eq!(texts(&lines[4]), vec!["> Weather: ", "clear sky 🌄"]);
    assert_eq!(lines[4][1].style, Style::Colored(Tint::BrightYellow));
    assert_eq!(texts(&lines[5]), vec!["> Temperature: ", "22.5°C 🌞"]);
    assert_eq!(lines[5][1].style, Style::Colored(Tint::Yellow));
    assert_eq!(texts(&lines[6]), vec!["> Pressure: ", "1013", " hPa"]);
    assert_eq!(texts(&lines[7]), vec!["> Humidity: ", "60", "%"]);
    assert_eq!(texts(&lines[8]), vec!["> Wind speed: ", "3.4", " m/s"]);
    for l in 6..9 {
        assert_eq!(lines[l][0].style, Style::Plain);
        assert_eq!(lines[l][1].style, Style::Bold(Tint::Green));
        assert_eq!(lines[l][2].style, Style::Plain);
    }
}

#[test]
fn titled_report_keeps_the_title() {
    let lines = report_lines_titled("Porto", &lisbon());
    assert_eq!(texts(&lines[2]), vec!["Porto"]);
}

#[test]
fn heading_is_upper_case_beyond_ascii() {
    let mut rec = lisbon();
    rec.city_name = "münchen".to_string();
    let lines = report_lines(&rec);
    assert_eq!(texts(&lines[2]), vec!["MÜNCHEN"]);
}

#[test]
fn record_without_condition_does_not_decode() {
    let mut rec = lisbon();
    rec.conditions.clear();
    assert!(matches!(check_decoded(rec), Err(FetchError::Decode(_))));
    let ok = check_decoded(lisbon()).unwrap();
    assert_eq!(ok.city_name, "lisbon");
}
