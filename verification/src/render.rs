//! The forecast message: one text in the chat's MarkdownV2 dialect, made of
//! a heading for the place, the current weather, and a block for each day
//! with a line for each hour.

use vstd::prelude::*;
use crate::codes::{condition_of_code, describe};
use crate::format::{date_text, fmt_date, fmt_temperature, fmt_time, hour_label, temperature_text};
use crate::report::{
    first_text, first_value, AreaView, AstronomyView, CurrentCondition, CurrentView, DayView,
    DayWeather, HourView, HourWeather, NearestArea, Weather, WeatherView,
};
use crate::text::chars_of;

verus! {

/// The characters that MarkdownV2 reads as markup, and the backslash that
/// takes this meaning from them.
pub open spec fn is_reserved(c: char) -> bool {
    ||| c == '_'
    ||| c == '*'
    ||| c == '['
    ||| c == ']'
    ||| c == '('
    ||| c == ')'
    ||| c == '~'
    ||| c == '`'
    ||| c == '>'
    ||| c == '#'
    ||| c == '+'
    ||| c == '-'
    ||| c == '='
    ||| c == '|'
    ||| c == '{'
    ||| c == '}'
    ||| c == '.'
    ||| c == '!'
    ||| c == '\\'
}

/// One character as it stands in the message: behind a backslash where it
/// is reserved, alone where it is not.
pub open spec fn escaped_char(c: char) -> Seq<char> {
    if is_reserved(c) {
        seq!['\\', c]
    } else {
        seq![c]
    }
}

/// A text with each of its reserved characters behind a backslash.
pub open spec fn escaped(s: Seq<char>) -> Seq<char>
    decreases s.len(),
{
    if s.len() == 0 {
        Seq::empty()
    } else {
        escaped(s.drop_last()) + escaped_char(s.last())
    }
}

/// A temperature or a description of the weather as the message shows
/// it: long dashes for hyphens, and what is left of markup escaped.
pub open spec fn plain(raw: Seq<char>) -> Seq<char> {
    escaped(temperature_text(raw))
}

/// Whether `t` holds no markup: each backslash in it is followed by a
/// reserved character, which it guards, and no reserved character stands
/// unguarded.
pub open spec fn is_guarded(t: Seq<char>) -> bool
    decreases t.len(),
{
    if t.len() == 0 {
        true
    } else if t[0] == '\\' {
        t.len() >= 2 && is_reserved(t[1]) && is_guarded(t.skip(2))
    } else {
        !is_reserved(t[0]) && is_guarded(t.skip(1))
    }
}

/// Two texts without markup, one after the other, hold no markup.
pub proof fn guarded_texts_join(a: Seq<char>, b: Seq<char>)
    requires
        is_guarded(a),
        is_guarded(b),
    ensures
        is_guarded(a + b),
    decreases a.len(),
{
    if a.len() == 0 {
        assert(a + b =~= b);
    } else if a[0] == '\\' {
        guarded_texts_join(a.skip(2), b);
        assert((a + b).skip(2) =~= a.skip(2) + b);
    } else {
        guarded_texts_join(a.skip(1), b);
        assert((a + b).skip(1) =~= a.skip(1) + b);
    }
}

/// An escaped text holds no markup, whatever the text was: the chat shows
/// it letter by letter.
pub proof fn escaped_is_guarded(s: Seq<char>)
    ensures
        is_guarded(escaped(s)),
    decreases s.len(),
{
    if s.len() > 0 {
        escaped_is_guarded(s.drop_last());
        let c = s.last();
        let one = escaped_char(c);
        assert(is_guarded(one)) by {
            if is_reserved(c) {
                assert(one.skip(2) =~= Seq::<char>::empty());
                assert(is_guarded(one.skip(2)));
            } else {
                assert(one.skip(1) =~= Seq::<char>::empty());
                assert(is_guarded(one.skip(1)));
            }
        }
        guarded_texts_join(escaped(s.drop_last()), one);
    }
}

/// What the message shows of a temperature or of a description of the
/// weather holds no markup.
pub proof fn plain_is_guarded(raw: Seq<char>)
    ensures
        is_guarded(plain(raw)),
{
    escaped_is_guarded(temperature_text(raw));
}

/// The heading: the place's name and its region, in bold.
pub open spec fn area_text(area: AreaView) -> Seq<char> {
    "*"@ + escaped(first_text(area.area_name)) + ", "@ + escaped(first_text(area.region))
        + "*\n"@
}

/// The current weather: what it is like, the temperature and what it feels
/// like, the wind and the humidity.
pub open spec fn current_text(now: CurrentView) -> Seq<char> {
    plain(first_text(now.weather_desc)) + ": "@ + plain(now.temp_c) + "°C, feels like "@ + plain(
        now.feels_like_c,
    ) + "°C\nWind "@ + escaped(now.windspeed_kmph) + " km/h, humidity "@ + escaped(now.humidity)
        + "%\n"@
}

/// The line of one hour: the hour in two digits, in bold; the symbol and
/// the name of the condition that the code stands for; the temperature;
/// and the provider's own words.
pub open spec fn hour_text(hour: HourView) -> Seq<char> {
    "*"@ + escaped(hour_label(hour.time)) + "* "@ + condition_of_code(
        hour.weather_code,
    ).symbol_text() + " "@ + condition_of_code(hour.weather_code).name_text() + ", "@ + plain(
        hour.temp_c,
    ) + "°C, "@ + plain(first_text(hour.weather_desc)) + "\n"@
}

/// The lines of the given hours, in their order.
pub open spec fn hours_text(hours: Seq<HourView>) -> Seq<char>
    decreases hours.len(),
{
    if hours.len() == 0 {
        Seq::empty()
    } else {
        hours_text(hours.drop_last()) + hour_text(hours.last())
    }
}

/// Sunrise and sunset, in a line.
pub open spec fn sun_text(sun: AstronomyView) -> Seq<char> {
    "Sunrise "@ + escaped(sun.sunrise) + ", sunset "@ + escaped(sun.sunset) + "\n"@
}

/// What stands above a day's hours: the date in bold, the lowest and the
/// highest temperature, and the sun's times where the provider gave them.
pub open spec fn day_head_text(day: DayView) -> Seq<char> {
    "\n*"@ + escaped(date_text(day.date)) + "*: "@ + plain(day.min_temp_c) + "°C … "@ + plain(
        day.max_temp_c,
    ) + "°C\n"@ + (if day.astronomy.len() > 0 {
        sun_text(day.astronomy[0])
    } else {
        Seq::empty()
    })
}

/// The block of one day.
pub open spec fn day_text(day: DayView) -> Seq<char> {
    day_head_text(day) + hours_text(day.hourly)
}

/// The blocks of the given days, in their order.
pub open spec fn days_text(days: Seq<DayView>) -> Seq<char>
    decreases days.len(),
{
    if days.len() == 0 {
        Seq::empty()
    } else {
        days_text(days.drop_last()) + day_text(days.last())
    }
}

/// What stands above the days: the heading and the current weather, each
/// where the provider gave it.
pub open spec fn summary_text(report: WeatherView) -> Seq<char> {
    (if report.nearest_area.len() > 0 {
        area_text(report.nearest_area[0])
    } else {
        Seq::empty()
    }) + (if report.current_condition.len() > 0 {
        current_text(report.current_condition[0])
    } else {
        Seq::empty()
    })
}

/// The whole message for a forecast.
pub open spec fn message_text(report: WeatherView) -> Seq<char> {
    summary_text(report) + days_text(report.weather)
}

/// Puts a backslash before each character of `s` that MarkdownV2 would read
/// as markup.
pub fn escape(s: &str) -> (r: String)
    ensures
        r@ == escaped(s@),
{
    let v = chars_of(s);
    let mut r = String::new();
    let mut i: usize = 0;
    while i < v.len()
        invariant
            v@ == s@,
            i <= v@.len(),
            r@ == escaped(s@.take(i as int)),
        decreases v@.len() - i,
    {
        let c = v[i];
        if c == '_' || c == '*' || c == '[' || c == ']' || c == '(' || c == ')' || c == '~' || c
            == '`' || c == '>' || c == '#' || c == '+' || c == '-' || c == '=' || c == '|' || c
            == '{' || c == '}' || c == '.' || c == '!' || c == '\\' {
            r.push('\\');
        }
        r.push(c);
        i += 1;
        assert(s@.take(i as int).drop_last() =~= s@.take(i - 1));
        assert(r@ =~= escaped(s@.take(i - 1)) + escaped_char(c));
    }
    assert(s@.take(s@.len() as int) =~= s@);
    r
}

/// Formats a temperature or a description of the weather for the message.
pub fn show(raw: &str) -> (r: String)
    ensures
        r@ == plain(raw@),
{
    let dashed = fmt_temperature(raw);
    escape(dashed.as_str())
}

/// Renders the heading.
pub fn render_area(area: &NearestArea) -> (out: String)
    ensures
        out@ == area_text(area@),
{
    let mut out = String::from_str("*");
    out.append(escape(first_value(&area.area_name)).as_str());
    out.append(", ");
    out.append(escape(first_value(&area.region)).as_str());
    out.append("*\n");
    out
}

/// Renders the current weather.
pub fn render_current(now: &CurrentCondition) -> (out: String)
    ensures
        out@ == current_text(now@),
{
    let mut out = show(first_value(&now.weather_desc));
    out.append(": ");
    out.append(show(now.temp_c.as_str()).as_str());
    out.append("°C, feels like ");
    out.append(show(now.feels_like_c.as_str()).as_str());
    out.append("°C\nWind ");
    out.append(escape(now.windspeed_kmph.as_str()).as_str());
    out.append(" km/h, humidity ");
    out.append(escape(now.humidity.as_str()).as_str());
    out.append("%\n");
    out
}

/// Renders the line of one hour.
pub fn render_hour(hour: &HourWeather) -> (out: String)
    ensures
        out@ == hour_text(hour@),
{
    let condition = describe(hour.weather_code.as_str());
    let mut out = String::from_str("*");
    out.append(escape(fmt_time(hour.time.as_str()).as_str()).as_str());
    out.append("* ");
    out.append(condition.symbol());
    out.append(" ");
    out.append(condition.name());
    out.append(", ");
    out.append(show(hour.temp_c.as_str()).as_str());
    out.append("°C, ");
    out.append(show(first_value(&hour.weather_desc)).as_str());
    out.append("\n");
    out
}

/// Renders the block of one day.
pub fn render_day(day: &DayWeather) -> (out: String)
    ensures
        out@ == day_text(day@),
{
    let mut out = String::from_str("\n*");
    out.append(escape(fmt_date(day.date.as_str()).as_str()).as_str());
    out.append("*: ");
    out.append(show(day.min_temp_c.as_str()).as_str());
    out.append("°C … ");
    out.append(show(day.max_temp_c.as_str()).as_str());
    out.append("°C\n");
    if day.astronomy.len() > 0 {
        let sun = &day.astronomy[0];
        let mut line = String::from_str("Sunrise ");
        line.append(escape(sun.sunrise.as_str()).as_str());
        line.append(", sunset ");
        line.append(escape(sun.sunset.as_str()).as_str());
        line.append("\n");
        out.append(line.as_str());
    } else {
        assert(out@ + Seq::<char>::empty() =~= out@);
    }
    assert(out@ == day_head_text(day@));
    let ghost hours = day@.hourly;
    let mut i: usize = 0;
    assert(hours.take(0) =~= Seq::<HourView>::empty());
    assert(out@ =~= day_head_text(day@) + hours_text(hours.take(0)));
    while i < day.hourly.len()
        invariant
            hours == day@.hourly,
            i <= day.hourly@.len(),
            out@ == day_head_text(day@) + hours_text(hours.take(i as int)),
        decreases day.hourly@.len() - i,
    {
        out.append(render_hour(&day.hourly[i]).as_str());
        i += 1;
        assert(hours.take(i as int).drop_last() =~= hours.take(i - 1));
        assert(hours.take(i as int).last() == day.hourly@[i - 1]@);
        assert(out@ =~= day_head_text(day@) + hours_text(hours.take(i as int)));
    }
    assert(hours.take(day.hourly@.len() as int) =~= hours);
    out
}

/// Renders a forecast as one message. The message is the same whenever the
/// forecast is: nothing but the forecast goes into it.
pub fn render(report: &Weather) -> (out: String)
    ensures
        out@ == message_text(report@),
{
    let mut out = String::new();
    if report.nearest_area.len() > 0 {
        out.append(render_area(&report.nearest_area[0]).as_str());
    }
    if report.current_condition.len() > 0 {
        out.append(render_current(&report.current_condition[0]).as_str());
    }
    assert(out@ =~= summary_text(report@));
    let ghost days = report@.weather;
    let mut i: usize = 0;
    assert(days.take(0) =~= Seq::<DayView>::empty());
    assert(out@ =~= summary_text(report@) + days_text(days.take(0)));
    while i < report.weather.len()
        invariant
            days == report@.weather,
            i <= report.weather@.len(),
            out@ == summary_text(report@) + days_text(days.take(i as int)),
        decreases report.weather@.len() - i,
    {
        out.append(render_day(&report.weather[i]).as_str());
        i += 1;
        assert(days.take(i as int).drop_last() =~= days.take(i - 1));
        assert(days.take(i as int).last() == report.weather@[i - 1]@);
        assert(out@ =~= summary_text(report@) + days_text(days.take(i as int)));
    }
    assert(days.take(report.weather@.len() as int) =~= days);
    out
}

} // verus!
