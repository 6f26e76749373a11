use vstd::prelude::*;
use crate::style::{Segment, Style, Tint};
use crate::text::same_text;

verus! {

/// The style and emoji of a weather description, matched exactly against the
/// provider's lower-case phrases; `None` for any other description.
pub open spec fn condition_look(d: Seq<char>) -> Option<(Style, Seq<char>)> {
    if d == "clear sky"@ {
        Some((Style::Colored(Tint::BrightYellow), "🌄"@))
    } else if d == "few clouds"@ {
        Some((Style::Colored(Tint::BrightBlue), "🌤️"@))
    } else if d == "overcast clouds"@ {
        Some((Style::Colored(Tint::BrightBlue), "🌤️"@))
    } else if d == "scattered clouds"@ {
        Some((Style::Colored(Tint::BrightBlue), "🌥️"@))
    } else if d == "broken clouds"@ {
        Some((Style::Colored(Tint::BrightBlue), "🌫️"@))
    } else if d == "shower rain"@ {
        Some((Style::Colored(Tint::BrightCyan), "🌧️"@))
    } else if d == "light rain"@ {
        Some((Style::Colored(Tint::BrightCyan), "🌧️"@))
    } else if d == "light snow"@ {
        Some((Style::Colored(Tint::BrightCyan), "🌨️"@))
    } else if d == "rain"@ {
        Some((Style::Colored(Tint::BrightCyan), "🌧️"@))
    } else if d == "thunderstorm"@ {
        Some((Style::Colored(Tint::BrightCyan), "⛈️"@))
    } else if d == "snow"@ {
        Some((Style::Colored(Tint::BrightCyan), "🌨️"@))
    } else if d == "mist"@ {
        Some((Style::Dimmed, "🌫️"@))
    } else {
        None
    }
}

/// The weather line's value: a known description followed by a space and its emoji,
/// in its style; any other description as it is, unstyled.
pub open spec fn description_view(d: Seq<char>) -> (Seq<char>, Style) {
    match condition_look(d) {
        Some((st, e)) => (d + " "@ + e, st),
        None => (d, Style::Plain),
    }
}

/// The style and emoji of the description `d`, if it is a known one.
pub fn look_of(d: &str) -> (r: Option<(Style, &'static str)>)
    ensures
        match r {
            Some((st, e)) => condition_look(d@) == Some((st, e@)),
            None => condition_look(d@) is None,
        },
{
    if same_text(d, "clear sky") {
        Some((Style::Colored(Tint::BrightYellow), "🌄"))
    } else if same_text(d, "few clouds") {
        Some((Style::Colored(Tint::BrightBlue), "🌤️"))
    } else if same_text(d, "overcast clouds") {
        Some((Style::Colored(Tint::BrightBlue), "🌤️"))
    } else if same_text(d, "scattered clouds") {
        Some((Style::Colored(Tint::BrightBlue), "🌥️"))
    } else if same_text(d, "broken clouds") {
        Some((Style::Colored(Tint::BrightBlue), "🌫️"))
    } else if same_text(d, "shower rain") {
        Some((Style::Colored(Tint::BrightCyan), "🌧️"))
    } else if same_text(d, "light rain") {
        Some((Style::Colored(Tint::BrightCyan), "🌧️"))
    } else if same_text(d, "light snow") {
        Some((Style::Colored(Tint::BrightCyan), "🌨️"))
    } else if same_text(d, "rain") {
        Some((Style::Colored(Tint::BrightCyan), "🌧️"))
    } else if same_text(d, "thunderstorm") {
        Some((Style::Colored(Tint::BrightCyan), "⛈️"))
    } else if same_text(d, "snow") {
        Some((Style::Colored(Tint::BrightCyan), "🌨️"))
    } else if same_text(d, "mist") {
        Some((Style::Dimmed, "🌫️"))
    } else {
        None
    }
}

/// The weather line's value for the description `d`.
pub fn description_segment(d: &str) -> (r: Segment)
    ensures
        r@ == description_view(d@),
{
    match look_of(d) {
        Some((style, emoji)) => {
            let mut text = String::from_str(d);
            text.append(" ");
            text.append(emoji);
            Segment { text, style }
        },
        None => Segment { text: String::from_str(d), style: Style::Plain },
    }
}

} // verus!
