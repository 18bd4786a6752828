//! What is asked of the forecast provider, and how its answer is read.
//! The request itself is the caller's: this module says which address to
//! get and what the answer means.

use vstd::prelude::*;
use crate::report::{Weather, WeatherView};

verus! {

/// A point on the map. Both numbers are held in decimal notation, as the
/// request carries them.
#[derive(Clone, Debug, PartialEq, Eq)]
pub struct Coordinates {
    pub latitude: String,
    pub longitude: String,
}

/// The place that a forecast is asked for: a point on the map or a name,
/// never both.
#[derive(Clone, Debug, PartialEq, Eq)]
pub enum LocationQuery {
    Coordinates(Coordinates),
    Name(String),
}

/// `Coordinates` as plain texts.
pub struct PointView {
    pub latitude: Seq<char>,
    pub longitude: Seq<char>,
}

/// A `LocationQuery` as plain texts.
pub enum QueryView {
    Coordinates(PointView),
    Name(Seq<char>),
}

impl View for Coordinates {
    type V = PointView;

    open spec fn view(&self) -> PointView {
        PointView { latitude: self.latitude@, longitude: self.longitude@ }
    }
}

impl View for LocationQuery {
    type V = QueryView;

    open spec fn view(&self) -> QueryView {
        match self {
            LocationQuery::Coordinates(point) => QueryView::Coordinates(point@),
            LocationQuery::Name(name) => QueryView::Name(name@),
        }
    }
}

/// What came of a request to the provider.
#[derive(Clone, Debug, PartialEq, Eq)]
pub enum Fetched {
    /// The provider knows the place and sent its forecast.
    Report(Weather),
    /// The provider answered, but has nothing for the place.
    NotFound,
    /// No answer came, or one that could not be read.
    TransportError,
}

/// A `Fetched` as plain values.
pub enum FetchedView {
    Report(WeatherView),
    NotFound,
    TransportError,
}

impl View for Fetched {
    type V = FetchedView;

    open spec fn view(&self) -> FetchedView {
        match self {
            Fetched::Report(report) => FetchedView::Report(report@),
            Fetched::NotFound => FetchedView::NotFound,
            Fetched::TransportError => FetchedView::TransportError,
        }
    }
}

/// The address to get for a query.
pub open spec fn url_text(query: QueryView) -> Seq<char> {
    match query {
        QueryView::Coordinates(point) => "https://wttr.in/"@ + point.latitude + ","@
            + point.longitude + "?format=j1"@,
        QueryView::Name(name) => "https://wttr.in/"@ + name + "?format=j1"@,
    }
}

/// Whether an HTTP status says that the request succeeded.
pub open spec fn is_success(status: u16) -> bool {
    200 <= status < 300
}

/// What an answer of the provider means. A status other than success says
/// that the place is not known, whatever else the answer holds. After a
/// success the forecast is expected; `None` stands for a body that could
/// not be read as one.
pub open spec fn answer(status: u16, body: Option<WeatherView>) -> FetchedView {
    if !is_success(status) {
        FetchedView::NotFound
    } else {
        match body {
            Some(report) => FetchedView::Report(report),
            None => FetchedView::TransportError,
        }
    }
}

/// Builds the address to get for a query.
pub fn request_url(query: &LocationQuery) -> (url: String)
    ensures
        url@ == url_text(query@),
{
    let mut url = String::from_str("https://wttr.in/");
    match query {
        LocationQuery::Coordinates(point) => {
            url.append(point.latitude.as_str());
            url.append(",");
            url.append(point.longitude.as_str());
        },
        LocationQuery::Name(name) => {
            url.append(name.as_str());
        },
    }
    url.append("?format=j1");
    url
}

/// Whether the provider's answer has a forecast to read: only an answer
/// with a success status has.
pub fn found(status: u16) -> (r: bool)
    ensures
        r == is_success(status),
{
    200 <= status && status < 300
}

/// Reads the provider's answer from its status and its body, the latter as
/// far as it could be read.
pub fn fetched(status: u16, body: Option<Weather>) -> (outcome: Fetched)
    ensures
        outcome@ == answer(
            status,
            match body {
                Some(report) => Some(report@),
                None => None,
            },
        ),
{
    if !found(status) {
        Fetched::NotFound
    } else {
        match body {
            Some(report) => Fetched::Report(report),
            None => Fetched::TransportError,
        }
    }
}

} // verus!
