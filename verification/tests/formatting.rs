use butlerbot::codes::{describe, Condition};
use butlerbot::format::{fmt_date, fmt_temperature, fmt_time, fmt_wwo_code};
use butlerbot::render::{escape, show};
use butlerbot::text::{chars_of, range_is, same_text, substitute};

#[test]
fn known_codes_have_their_conditions() {
    assert_eq!(describe("113"), Condition::Sunny);
    assert_eq!(describe("116"), Condition::PartlyCloudy);
    assert_eq!(describe("119"), Condition::Cloudy);
    assert_eq!(describe("122"), Condition::VeryCloudy);
    assert_eq!(describe("143"), Condition::Fog);
    assert_eq!(describe("176"), Condition::LightShowers);
    assert_eq!(describe("179"), Condition::LightSleetShowers);
    assert_eq!(describe("182"), Condition::LightSleet);
    assert_eq!(describe("185"), Condition::LightSleet);
    assert_eq!(describe("200"), Condition::ThunderyShowers);
    assert_eq!(describe("227"), Condition::LightSnow);
    assert_eq!(describe("230"), Condition::HeavySnow);
    assert_eq!(describe("248"), Condition::Fog);
    assert_eq!(describe("260"), Condition::Fog);
    assert_eq!(describe("263"), Condition::LightShowers);
    assert_eq!(describe("266"), Condition::LightRain);
    assert_eq!(describe("281"), Condition::LightSleet);
    assert_eq!(describe("284"), Condition::LightSleet);
    assert_eq!(describe("293"), Condition::LightRain);
    assert_eq!(describe("296"), Condition::LightRain);
    assert_eq!(describe("299"), Condition::HeavyShowers);
    assert_eq!(describe("302"), Condition::HeavyRain);
    assert_eq!(describe("305"), Condition::HeavyShowers);
    assert_eq!(describe("308"), Condition::HeavyRain);
    assert_eq!(describe("311"), Condition::LightSleet);
    assert_eq!(describe("314"), Condition::LightSleet);
    assert_eq!(describe("317"), Condition::LightSleet);
    assert_eq!(describe("320"), Condition::LightSnow);
    assert_eq!(describe("323"), Condition::LightSnowShowers);
    assert_eq!(describe("326"), Condition::LightSnowShowers);
    assert_eq!(describe("329"), Condition::HeavySnow);
    assert_eq!(describe("332"), Condition::HeavySnow);
    assert_eq!(describe("335"), Condition::HeavySnowShowers);
    assert_eq!(describe("338"), Condition::HeavySnow);
    assert_eq!(describe("350"), Condition::LightSleet);
    assert_eq!(describe("353"), Condition::LightShowers);
    assert_eq!(describe("356"), Condition::HeavyShowers);
    assert_eq!(describe("359"), Condition::HeavyRain);
    assert_eq!(describe("362"), Condition::LightSleetShowers);
    assert_eq!(describe("365"), Condition::LightSleetShowers);
    assert_eq!(describe("368"), Condition::LightSnowShowers);
    assert_eq!(describe("371"), Condition::HeavySnowShowers);
    assert_eq!(describe("374"), Condition::LightSleetShowers);
    assert_eq!(describe("377"), Condition::LightSleet);
    assert_eq!(describe("386"), Condition::ThunderyShowers);
    assert_eq!(describe("389"), Condition::ThunderyHeavyRain);
    assert_eq!(describe("392"), Condition::ThunderySnowShowers);
    assert_eq!(describe("395"), Condition::HeavySnowShowers);
}

#[test]
fn unmapped_codes_are_unknown() {
    assert_eq!(describe("999"), Condition::Unknown);
    assert_eq!(describe(""), Condition::Unknown);
    assert_eq!(describe("11"), Condition::Unknown);
    assert_eq!(describe("1130"), Condition::Unknown);
    assert_eq!(describe(" 113"), Condition::Unknown);
    assert_eq!(describe("sunny"), Condition::Unknown);
    assert_eq!(describe("١١٣"), Condition::Unknown);
    assert_eq!(describe("114"), Condition::Unknown);
}

#[test]
fn every_condition_has_a_name_and_a_symbol() {
    let all = [
        (Condition::Cloudy, "Cloudy", "☁️"),
        (Condition::Fog, "Fog", "🌫"),
        (Condition::HeavyRain, "HeavyRain", "🌧"),
        (Condition::HeavyShowers, "HeavyShowers", "🌧"),
        (Condition::HeavySnow, "HeavySnow", "❄️"),
        (Condition::HeavySnowShowers, "HeavySnowShowers", "❄️"),
        (Condition::LightRain, "LightRain", "🌦"),
        (Condition::LightShowers, "LightShowers", "🌦"),
        (Condition::LightSleet, "LightSleet", "🌧"),
        (Condition::LightSleetShowers, "LightSleetShowers", "🌧"),
        (Condition::LightSnow, "LightSnow", "🌨"),
        (Condition::LightSnowShowers, "LightSnowShowers", "🌨"),
        (Condition::PartlyCloudy, "PartlyCloudy", "⛅️"),
        (Condition::Sunny, "Sunny", "☀️"),
        (Condition::ThunderyHeavyRain, "ThunderyHeavyRain", "🌩"),
        (Condition::ThunderyShowers, "ThunderyShowers", "⛈"),
        (Condition::ThunderySnowShowers, "ThunderySnowShowers", "⛈"),
        (Condition::VeryCloudy, "VeryCloudy", "☁️"),
        (Condition::Unknown, "Unknown", "✨"),
    ];
    for (condition, name, symbol) in all {
        assert_eq!(condition.name(), name);
        assert_eq!(condition.symbol(), symbol);
    }
}

#[test]
fn symbol_lookup_never_fails() {
    assert_eq!(fmt_wwo_code("113"), "☀️");
    assert_eq!(fmt_wwo_code("119"), "☁️");
    assert_eq!(fmt_wwo_code("230"), "❄️");
    assert_eq!(fmt_wwo_code("308"), "🌧");
    assert_eq!(fmt_wwo_code("999"), "✨");
    assert_eq!(fmt_wwo_code(""), "✨");
    assert_eq!(fmt_wwo_code("not a code"), "✨");
}

#[test]
fn date_gets_middle_dots() {
    assert_eq!(fmt_date("2023-05-01"), "2023·05·01");
    assert_eq!(fmt_date(""), "");
    assert_eq!(fmt_date("---"), "···");
    assert_eq!(fmt_date("no hyphen"), "no hyphen");
}

#[test]
fn date_formatting_twice_is_formatting_once() {
    let once = fmt_date("2023-05-01");
    let twice = fmt_date(&once);
    assert_eq!(twice, "2023·05·01");
    assert_eq!(once, twice);
    assert!(!once.contains('-'));
}

#[test]
fn temperature_gets_long_dashes() {
    assert_eq!(fmt_temperature("-3"), "—3");
    assert_eq!(fmt_temperature("12"), "12");
    assert_eq!(fmt_temperature("Light rain - mist"), "Light rain — mist");
    assert_eq!(fmt_temperature(""), "");
    assert_eq!(fmt_temperature(&fmt_temperature("-3")), "—3");
}

#[test]
fn time_becomes_two_digit_hour() {
    assert_eq!(fmt_time("300"), "03");
    assert_eq!(fmt_time("0"), "00");
    assert_eq!(fmt_time("1200"), "12");
}

#[test]
fn time_of_every_slot_of_a_day() {
    assert_eq!(fmt_time("600"), "06");
    assert_eq!(fmt_time("900"), "09");
    assert_eq!(fmt_time("1500"), "15");
    assert_eq!(fmt_time("1800"), "18");
    assert_eq!(fmt_time("2100"), "21");
    assert_eq!(fmt_time("1000"), "10");
    assert_eq!(fmt_time("2000"), "20");
}

#[test]
fn time_edge_cases() {
    assert_eq!(fmt_time(""), "00");
    assert_eq!(fmt_time("00"), "00");
    assert_eq!(fmt_time("7"), "07");
    assert_eq!(fmt_time("12"), "12");
    assert_eq!(fmt_time("123"), "123");
    assert_eq!(fmt_time("0012"), "0012");
    assert_eq!(fmt_time("é"), "0é");
}

#[test]
fn escape_guards_markup() {
    assert_eq!(escape("plain text"), "plain text");
    assert_eq!(escape("a.b"), "a\\.b");
    assert_eq!(escape("*bold*"), "\\*bold\\*");
    assert_eq!(escape("_*[]()~`>#+-=|{}.!\\"), "\\_\\*\\[\\]\\(\\)\\~\\`\\>\\#\\+\\-\\=\\|\\{\\}\\.\\!\\\\");
    assert_eq!(escape(""), "");
    assert_eq!(escape("St. John's"), "St\\. John's");
}

#[test]
fn show_replaces_dashes_before_escaping() {
    assert_eq!(show("-3"), "—3");
    assert_eq!(show("Rain - heavy (at times)"), "Rain — heavy \\(at times\\)");
    assert_eq!(show("12.5"), "12\\.5");
}

#[test]
fn text_helpers_work_on_characters() {
    assert_eq!(chars_of("a·b"), vec!['a', '·', 'b']);
    assert_eq!(chars_of(""), Vec::<char>::new());
    let v = chars_of("héllo");
    assert!(range_is(&v, 0, 2, "hé"));
    assert!(!range_is(&v, 0, 2, "he"));
    assert!(!range_is(&v, 0, 2, "hél"));
    assert!(same_text("abc", "abc"));
    assert!(!same_text("abc", "abd"));
    assert!(!same_text("abc", "ab"));
    assert_eq!(substitute("a-b-c", '-', '+'), "a+b+c");
    assert_eq!(substitute("abc", 'x', 'y'), "abc");
}
