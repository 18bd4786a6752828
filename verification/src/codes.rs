//! The provider's condition codes, the conditions they stand for, and the
//! symbol shown for each condition.

use vstd::prelude::*;
use crate::text::chars_of;

verus! {

/// What the sky does, as far as the forecast tells.
#[derive(Clone, Copy, Debug, PartialEq, Eq, Structural)]
pub enum Condition {
    Cloudy,
    Fog,
    HeavyRain,
    HeavyShowers,
    HeavySnow,
    HeavySnowShowers,
    LightRain,
    LightShowers,
    LightSleet,
    LightSleetShowers,
    LightSnow,
    LightSnowShowers,
    PartlyCloudy,
    Sunny,
    ThunderyHeavyRain,
    ThunderyShowers,
    ThunderySnowShowers,
    VeryCloudy,
    /// Stands for every code that the table does not hold.
    Unknown,
}

/// The table of condition codes. Every code is three decimal digits; any
/// other triple of characters stands for no known condition.
pub open spec fn condition_of_digits(a: char, b: char, c: char) -> Condition {
    match (a, b, c) {
        ('1', '1', '3') => Condition::Sunny,
        ('1', '1', '6') => Condition::PartlyCloudy,
        ('1', '1', '9') => Condition::Cloudy,
        ('1', '2', '2') => Condition::VeryCloudy,
        ('1', '4', '3') => Condition::Fog,
        ('1', '7', '6') => Condition::LightShowers,
        ('1', '7', '9') => Condition::LightSleetShowers,
        ('1', '8', '2') => Condition::LightSleet,
        ('1', '8', '5') => Condition::LightSleet,
        ('2', '0', '0') => Condition::ThunderyShowers,
        ('2', '2', '7') => Condition::LightSnow,
        ('2', '3', '0') => Condition::HeavySnow,
        ('2', '4', '8') => Condition::Fog,
        ('2', '6', '0') => Condition::Fog,
        ('2', '6', '3') => Condition::LightShowers,
        ('2', '6', '6') => Condition::LightRain,
        ('2', '8', '1') => Condition::LightSleet,
        ('2', '8', '4') => Condition::LightSleet,
        ('2', '9', '3') => Condition::LightRain,
        ('2', '9', '6') => Condition::LightRain,
        ('2', '9', '9') => Condition::HeavyShowers,
        ('3', '0', '2') => Condition::HeavyRain,
        ('3', '0', '5') => Condition::HeavyShowers,
        ('3', '0', '8') => Condition::HeavyRain,
        ('3', '1', '1') => Condition::LightSleet,
        ('3', '1', '4') => Condition::LightSleet,
        ('3', '1', '7') => Condition::LightSleet,
        ('3', '2', '0') => Condition::LightSnow,
        ('3', '2', '3') => Condition::LightSnowShowers,
        ('3', '2', '6') => Condition::LightSnowShowers,
        ('3', '2', '9') => Condition::HeavySnow,
        ('3', '3', '2') => Condition::HeavySnow,
        ('3', '3', '5') => Condition::HeavySnowShowers,
        ('3', '3', '8') => Condition::HeavySnow,
        ('3', '5', '0') => Condition::LightSleet,
        ('3', '5', '3') => Condition::LightShowers,
        ('3', '5', '6') => Condition::HeavyShowers,
        ('3', '5', '9') => Condition::HeavyRain,
        ('3', '6', '2') => Condition::LightSleetShowers,
        ('3', '6', '5') => Condition::LightSleetShowers,
        ('3', '6', '8') => Condition::LightSnowShowers,
        ('3', '7', '1') => Condition::HeavySnowShowers,
        ('3', '7', '4') => Condition::LightSleetShowers,
        ('3', '7', '7') => Condition::LightSleet,
        ('3', '8', '6') => Condition::ThunderyShowers,
        ('3', '8', '9') => Condition::ThunderyHeavyRain,
        ('3', '9', '2') => Condition::ThunderySnowShowers,
        ('3', '9', '5') => Condition::HeavySnowShowers,
        _ => Condition::Unknown,
    }
}

/// The condition that a code stands for: the table's entry where the code is
/// one of its keys, `Unknown` for every other string.
pub open spec fn condition_of_code(code: Seq<char>) -> Condition {
    if code.len() == 3 {
        condition_of_digits(code[0], code[1], code[2])
    } else {
        Condition::Unknown
    }
}

/// Looks a condition code up. Never fails: a code that the table does not
/// hold gives `Condition::Unknown`.
pub fn describe(code: &str) -> (condition: Condition)
    ensures
        condition == condition_of_code(code@),
{
    let v = chars_of(code);
    if v.len() != 3 {
        return Condition::Unknown;
    }
    match (v[0], v[1], v[2]) {
        ('1', '1', '3') => Condition::Sunny,
        ('1', '1', '6') => Condition::PartlyCloudy,
        ('1', '1', '9') => Condition::Cloudy,
        ('1', '2', '2') => Condition::VeryCloudy,
        ('1', '4', '3') => Condition::Fog,
        ('1', '7', '6') => Condition::LightShowers,
        ('1', '7', '9') => Condition::LightSleetShowers,
        ('1', '8', '2') => Condition::LightSleet,
        ('1', '8', '5') => Condition::LightSleet,
        ('2', '0', '0') => Condition::ThunderyShowers,
        ('2', '2', '7') => Condition::LightSnow,
        ('2', '3', '0') => Condition::HeavySnow,
        ('2', '4', '8') => Condition::Fog,
        ('2', '6', '0') => Condition::Fog,
        ('2', '6', '3') => Condition::LightShowers,
        ('2', '6', '6') => Condition::LightRain,
        ('2', '8', '1') => Condition::LightSleet,
        ('2', '8', '4') => Condition::LightSleet,
        ('2', '9', '3') => Condition::LightRain,
        ('2', '9', '6') => Condition::LightRain,
        ('2', '9', '9') => Condition::HeavyShowers,
        ('3', '0', '2') => Condition::HeavyRain,
        ('3', '0', '5') => Condition::HeavyShowers,
        ('3', '0', '8') => Condition::HeavyRain,
        ('3', '1', '1') => Condition::LightSleet,
        ('3', '1', '4') => Condition::LightSleet,
        ('3', '1', '7') => Condition::LightSleet,
        ('3', '2', '0') => Condition::LightSnow,
        ('3', '2', '3') => Condition::LightSnowShowers,
        ('3', '2', '6') => Condition::LightSnowShowers,
        ('3', '2', '9') => Condition::HeavySnow,
        ('3', '3', '2') => Condition::HeavySnow,
        ('3', '3', '5') => Condition::HeavySnowShowers,
        ('3', '3', '8') => Condition::HeavySnow,
        ('3', '5', '0') => Condition::LightSleet,
        ('3', '5', '3') => Condition::LightShowers,
        ('3', '5', '6') => Condition::HeavyShowers,
        ('3', '5', '9') => Condition::HeavyRain,
        ('3', '6', '2') => Condition::LightSleetShowers,
        ('3', '6', '5') => Condition::LightSleetShowers,
        ('3', '6', '8') => Condition::LightSnowShowers,
        ('3', '7', '1') => Condition::HeavySnowShowers,
        ('3', '7', '4') => Condition::LightSleetShowers,
        ('3', '7', '7') => Condition::LightSleet,
        ('3', '8', '6') => Condition::ThunderyShowers,
        ('3', '8', '9') => Condition::ThunderyHeavyRain,
        ('3', '9', '2') => Condition::ThunderySnowShowers,
        ('3', '9', '5') => Condition::HeavySnowShowers,
        _ => Condition::Unknown,
    }
}

impl Condition {
    /// The condition's name as it is shown to the user.
    pub open spec fn name_text(self) -> Seq<char> {
        match self {
            Condition::Cloudy => "Cloudy"@,
            Condition::Fog => "Fog"@,
            Condition::HeavyRain => "HeavyRain"@,
            Condition::HeavyShowers => "HeavyShowers"@,
            Condition::HeavySnow => "HeavySnow"@,
            Condition::HeavySnowShowers => "HeavySnowShowers"@,
            Condition::LightRain => "LightRain"@,
            Condition::LightShowers => "LightShowers"@,
            Condition::LightSleet => "LightSleet"@,
            Condition::LightSleetShowers => "LightSleetShowers"@,
            Condition::LightSnow => "LightSnow"@,
            Condition::LightSnowShowers => "LightSnowShowers"@,
            Condition::PartlyCloudy => "PartlyCloudy"@,
            Condition::Sunny => "Sunny"@,
            Condition::ThunderyHeavyRain => "ThunderyHeavyRain"@,
            Condition::ThunderyShowers => "ThunderyShowers"@,
            Condition::ThunderySnowShowers => "ThunderySnowShowers"@,
            Condition::VeryCloudy => "VeryCloudy"@,
            Condition::Unknown => "Unknown"@,
        }
    }

    /// The glyph shown for the condition; `Unknown` has a glyph too.
    pub open spec fn symbol_text(self) -> Seq<char> {
        match self {
            Condition::Cloudy => "☁️"@,
            Condition::Fog => "🌫"@,
            Condition::HeavyRain => "🌧"@,
            Condition::HeavyShowers => "🌧"@,
            Condition::HeavySnow => "❄️"@,
            Condition::HeavySnowShowers => "❄️"@,
            Condition::LightRain => "🌦"@,
            Condition::LightShowers => "🌦"@,
            Condition::LightSleet => "🌧"@,
            Condition::LightSleetShowers => "🌧"@,
            Condition::LightSnow => "🌨"@,
            Condition::LightSnowShowers => "🌨"@,
            Condition::PartlyCloudy => "⛅️"@,
            Condition::Sunny => "☀️"@,
            Condition::ThunderyHeavyRain => "🌩"@,
            Condition::ThunderyShowers => "⛈"@,
            Condition::ThunderySnowShowers => "⛈"@,
            Condition::VeryCloudy => "☁️"@,
            Condition::Unknown => "✨"@,
        }
    }

    /// The condition's name.
    pub fn name(self) -> (s: &'static str)
        ensures
            s@ == self.name_text(),
    {
        match self {
            Condition::Cloudy => "Cloudy",
            Condition::Fog => "Fog",
            Condition::HeavyRain => "HeavyRain",
            Condition::HeavyShowers => "HeavyShowers",
            Condition::HeavySnow => "HeavySnow",
            Condition::HeavySnowShowers => "HeavySnowShowers",
            Condition::LightRain => "LightRain",
            Condition::LightShowers => "LightShowers",
            Condition::LightSleet => "LightSleet",
            Condition::LightSleetShowers => "LightSleetShowers",
            Condition::LightSnow => "LightSnow",
            Condition::LightSnowShowers => "LightSnowShowers",
            Condition::PartlyCloudy => "PartlyCloudy",
            Condition::Sunny => "Sunny",
            Condition::ThunderyHeavyRain => "ThunderyHeavyRain",
            Condition::ThunderyShowers => "ThunderyShowers",
            Condition::ThunderySnowShowers => "ThunderySnowShowers",
            Condition::VeryCloudy => "VeryCloudy",
            Condition::Unknown => "Unknown",
        }
    }

    /// The condition's glyph.
    pub fn symbol(self) -> (s: &'static str)
        ensures
            s@ == self.symbol_text(),
    {
        match self {
            Condition::Cloudy => "☁️",
            Condition::Fog => "🌫",
            Condition::HeavyRain => "🌧",
            Condition::HeavyShowers => "🌧",
            Condition::HeavySnow => "❄️",
            Condition::HeavySnowShowers => "❄️",
            Condition::LightRain => "🌦",
            Condition::LightShowers => "🌦",
            Condition::LightSleet => "🌧",
            Condition::LightSleetShowers => "🌧",
            Condition::LightSnow => "🌨",
            Condition::LightSnowShowers => "🌨",
            Condition::PartlyCloudy => "⛅️",
            Condition::Sunny => "☀️",
            Condition::ThunderyHeavyRain => "🌩",
            Condition::ThunderyShowers => "⛈",
            Condition::ThunderySnowShowers => "⛈",
            Condition::VeryCloudy => "☁️",
            Condition::Unknown => "✨",
        }
    }
}

/// Every condition has something to show, `Unknown` too: neither its name
/// nor its symbol is empty.
pub proof fn every_condition_is_shown(condition: Condition)
    ensures
        condition.name_text().len() > 0,
        condition.symbol_text().len() > 0,
{
    reveal_strlit("Cloudy");
    reveal_strlit("Fog");
    reveal_strlit("HeavyRain");
    reveal_strlit("HeavyShowers");
    reveal_strlit("HeavySnow");
    reveal_strlit("HeavySnowShowers");
    reveal_strlit("LightRain");
    reveal_strlit("LightShowers");
    reveal_strlit("LightSleet");
    reveal_strlit("LightSleetShowers");
    reveal_strlit("LightSnow");
    reveal_strlit("LightSnowShowers");
    reveal_strlit("PartlyCloudy");
    reveal_strlit("Sunny");
    reveal_strlit("ThunderyHeavyRain");
    reveal_strlit("ThunderyShowers");
    reveal_strlit("ThunderySnowShowers");
    reveal_strlit("VeryCloudy");
    reveal_strlit("Unknown");
    reveal_strlit("☁️");
    reveal_strlit("🌫");
    reveal_strlit("🌧");
    reveal_strlit("❄️");
    reveal_strlit("🌦");
    reveal_strlit("🌨");
    reveal_strlit("⛅️");
    reveal_strlit("☀️");
    reveal_strlit("🌩");
    reveal_strlit("⛈");
    reveal_strlit("✨");
}

} // verus!
