//! The forecast as the provider reports it. Every number arrives as text and
//! stays text: nothing is computed from it.

use vstd::prelude::*;

verus! {

/// A text in the provider's wrapping: a list entry with one `value`.
#[derive(Clone, Debug, PartialEq, Eq)]
pub struct Value {
    pub value: String,
}

/// The place that the forecast is for.
#[derive(Clone, Debug, PartialEq, Eq)]
pub struct NearestArea {
    pub area_name: Vec<Value>,
    pub region: Vec<Value>,
}

/// The weather at the moment of the request.
#[derive(Clone, Debug, PartialEq, Eq)]
pub struct CurrentCondition {
    pub weather_desc: Vec<Value>,
    pub feels_like_c: String,
    pub temp_c: String,
    pub windspeed_kmph: String,
    pub humidity: String,
}

/// Sunrise and sunset of one day.
#[derive(Clone, Debug, PartialEq, Eq)]
pub struct Astronomy {
    pub sunrise: String,
    pub sunset: String,
}

/// The forecast for one hour of a day.
#[derive(Clone, Debug, PartialEq, Eq)]
pub struct HourWeather {
    /// The hour, counted in hundreds: `0`, `300`, ... `2100`.
    pub time: String,
    /// The condition code.
    pub weather_code: String,
    pub temp_c: String,
    pub weather_desc: Vec<Value>,
}

/// The forecast for one day.
#[derive(Clone, Debug, PartialEq, Eq)]
pub struct DayWeather {
    pub date: String,
    pub max_temp_c: String,
    pub min_temp_c: String,
    pub astronomy: Vec<Astronomy>,
    pub hourly: Vec<HourWeather>,
}

/// A forecast: the place, the current weather and the days to come.
#[derive(Clone, Debug, PartialEq, Eq)]
pub struct Weather {
    pub nearest_area: Vec<NearestArea>,
    pub current_condition: Vec<CurrentCondition>,
    pub weather: Vec<DayWeather>,
}

/// The views of the items of a list, in their order.
pub open spec fn views<T: View>(items: Seq<T>) -> Seq<T::V> {
    Seq::new(items.len(), |i: int| items[i]@)
}

impl View for Value {
    type V = Seq<char>;

    open spec fn view(&self) -> Seq<char> {
        self.value@
    }
}

/// A `NearestArea` as plain texts.
pub struct AreaView {
    pub area_name: Seq<Seq<char>>,
    pub region: Seq<Seq<char>>,
}

impl View for NearestArea {
    type V = AreaView;

    open spec fn view(&self) -> AreaView {
        AreaView { area_name: views(self.area_name@), region: views(self.region@) }
    }
}

/// A `CurrentCondition` as plain texts.
pub struct CurrentView {
    pub weather_desc: Seq<Seq<char>>,
    pub feels_like_c: Seq<char>,
    pub temp_c: Seq<char>,
    pub windspeed_kmph: Seq<char>,
    pub humidity: Seq<char>,
}

impl View for CurrentCondition {
    type V = CurrentView;

    open spec fn view(&self) -> CurrentView {
        CurrentView {
            weather_desc: views(self.weather_desc@),
            feels_like_c: self.feels_like_c@,
            temp_c: self.temp_c@,
            windspeed_kmph: self.windspeed_kmph@,
            humidity: self.humidity@,
        }
    }
}

/// An `Astronomy` as plain texts.
pub struct AstronomyView {
    pub sunrise: Seq<char>,
    pub sunset: Seq<char>,
}

impl View for Astronomy {
    type V = AstronomyView;

    open spec fn view(&self) -> AstronomyView {
        AstronomyView { sunrise: self.sunrise@, sunset: self.sunset@ }
    }
}

/// An `HourWeather` as plain texts.
pub struct HourView {
    pub time: Seq<char>,
    pub weather_code: Seq<char>,
    pub temp_c: Seq<char>,
    pub weather_desc: Seq<Seq<char>>,
}

impl View for HourWeather {
    type V = HourView;

    open spec fn view(&self) -> HourView {
        HourView {
            time: self.time@,
            weather_code: self.weather_code@,
            temp_c: self.temp_c@,
            weather_desc: views(self.weather_desc@),
        }
    }
}

/// A `DayWeather` as plain texts.
pub struct DayView {
    pub date: Seq<char>,
    pub max_temp_c: Seq<char>,
    pub min_temp_c: Seq<char>,
    pub astronomy: Seq<AstronomyView>,
    pub hourly: Seq<HourView>,
}

impl View for DayWeather {
    type V = DayView;

    open spec fn view(&self) -> DayView {
        DayView {
            date: self.date@,
            max_temp_c: self.max_temp_c@,
            min_temp_c: self.min_temp_c@,
            astronomy: views(self.astronomy@),
            hourly: views(self.hourly@),
        }
    }
}

/// A `Weather` as plain texts.
pub struct WeatherView {
    pub nearest_area: Seq<AreaView>,
    pub current_condition: Seq<CurrentView>,
    pub weather: Seq<DayView>,
}

impl View for Weather {
    type V = WeatherView;

    open spec fn view(&self) -> WeatherView {
        WeatherView {
            nearest_area: views(self.nearest_area@),
            current_condition: views(self.current_condition@),
            weather: views(self.weather@),
        }
    }
}

/// The first text of a list; empty where the list is.
pub open spec fn first_text(values: Seq<Seq<char>>) -> Seq<char> {
    if values.len() > 0 {
        values[0]
    } else {
        Seq::empty()
    }
}

/// The text of the first entry of a list of values; empty where the list is.
pub fn first_value(values: &Vec<Value>) -> (text: &str)
    ensures
        text@ == first_text(views(values@)),
{
    if values.len() > 0 {
        values[0].value.as_str()
    } else {
        let empty: &'static str = "";
        proof {
            reveal_strlit("");
        }
        assert(empty@ =~= Seq::<char>::empty());
        empty
    }
}

} // verus!
