//! Where the caller is, read leniently from a geolocation page.

use vstd::prelude::*;

verus! {

/// The caller's position and the names of the place.
///
/// Every field is text as the page gave it; a field that the page does not
/// hold is empty.
#[derive(Debug, Clone, PartialEq, Eq)]
pub struct Location {
    pub latitude: String,
    pub longitude: String,
    pub country: String,
    pub region: String,
    pub city: String,
}

/// A location as plain text fields.
pub struct LocationView {
    pub latitude: Seq<char>,
    pub longitude: Seq<char>,
    pub country: Seq<char>,
    pub region: Seq<char>,
    pub city: Seq<char>,
}

impl View for Location {
    type V = LocationView;

    open spec fn view(&self) -> LocationView {
        LocationView {
            latitude: self.latitude@,
            longitude: self.longitude@,
            country: self.country@,
            region: self.region@,
            city: self.city@,
        }
    }
}

/// The address of the geolocation page.
pub const LOCATION_PAGE: &'static str = "https://iplocation.com/";

/// Selects the element that holds the latitude.
pub const LATITUDE_SELECTOR: &'static str = "td.lat";

/// Selects the element that holds the longitude.
pub const LONGITUDE_SELECTOR: &'static str = "td.lng";

/// Selects the element that holds the country's name.
pub const COUNTRY_SELECTOR: &'static str = "span.country_name";

/// Selects the element that holds the region's name.
pub const REGION_SELECTOR: &'static str = "span.region_name";

/// Selects the element that holds the city.
pub const CITY_SELECTOR: &'static str = "td.city";

/// What a selector finds in a page: the inner HTML of each element of the
/// document `body` that the selector group `selector` matches, in document
/// order, or `None` where `selector` is not a selector group.
pub uninterp spec fn selected_inner_html(body: Seq<char>, selector: Seq<char>) -> Option<
    Seq<Seq<char>>,
>;

/// The texts that a list of strings holds.
pub open spec fn texts(items: Seq<String>) -> Seq<Seq<char>> {
    items.map_values(|item: String| item@)
}

/// The texts of what was found, where anything was looked for.
pub open spec fn found_texts(found: Option<Vec<String>>) -> Option<Seq<Seq<char>>> {
    match found {
        Some(items) => Some(texts(items@)),
        None => None,
    }
}

/// The text a field takes from what its selector found: the last match in
/// document order, and nothing where there is no match or no selector.
pub open spec fn field_text(found: Option<Seq<Seq<char>>>) -> Seq<char> {
    match found {
        Some(items) => if items.len() > 0 {
            items.last()
        } else {
            Seq::empty()
        },
        None => Seq::empty(),
    }
}

/// The location that a page yields: each field from its own selector,
/// independently of the others.
pub open spec fn located(body: Seq<char>) -> LocationView {
    LocationView {
        latitude: field_text(selected_inner_html(body, LATITUDE_SELECTOR@)),
        longitude: field_text(selected_inner_html(body, LONGITUDE_SELECTOR@)),
        country: field_text(selected_inner_html(body, COUNTRY_SELECTOR@)),
        region: field_text(selected_inner_html(body, REGION_SELECTOR@)),
        city: field_text(selected_inner_html(body, CITY_SELECTOR@)),
    }
}

/// A field is empty where its selector finds nothing, and is the last of
/// what it finds otherwise. What the other selectors find has no part in
/// it.
pub proof fn lemma_field_text(found: Option<Seq<Seq<char>>>)
    ensures
        found is None ==> field_text(found) == Seq::<char>::empty(),
        found matches Some(items) ==> (items.len() == 0 ==> field_text(found) == Seq::<
            char,
        >::empty()),
        found matches Some(items) ==> (items.len() > 0 ==> field_text(found) == items[items.len()
            - 1]),
{
}

/// Calls `scraper::Selector::parse` on `selector`, `scraper::Html::parse_document`
/// on `body`, walks `scraper::Html::select` and takes
/// `scraper::ElementRef::inner_html` of each element that comes out.
///
/// Trusted: that the answer depends on the two texts alone, which is what
/// `selected_inner_html` names. `None` stands for a selector that scraper
/// rejects. Nothing is claimed of which elements match or how they are
/// written out.
#[verifier::external_body]
fn select_inner_html(body: &str, selector: &str) -> (found: Option<Vec<String>>)
    ensures
        found_texts(found) == selected_inner_html(body@, selector@),
{
    match scraper::Selector::parse(selector) {
        Ok(parsed) => {
            let document = scraper::Html::parse_document(body);
            Some(document.select(&parsed).map(|element| element.inner_html()).collect())
        },
        Err(_) => None,
    }
}

/// The value of a field, given what its selector found: the last match
/// wins, and no match leaves the field empty.
pub fn last_match(found: Option<Vec<String>>) -> (text: String)
    ensures
        text@ == field_text(found_texts(found)),
{
    match found {
        Some(items) => {
            let count = items.len();
            if count > 0 {
                items[count - 1].clone()
            } else {
                String::new()
            }
        },
        None => String::new(),
    }
}

/// Reads the caller's location out of the geolocation page `body`.
///
/// Never fails: a field whose element is missing from the page is empty.
pub fn get_data_from_ip(body: &str) -> (location: Location)
    ensures
        location@ == located(body@),
{
    let latitude = last_match(select_inner_html(body, LATITUDE_SELECTOR));
    let longitude = last_match(select_inner_html(body, LONGITUDE_SELECTOR));
    let country = last_match(select_inner_html(body, COUNTRY_SELECTOR));
    let region = last_match(select_inner_html(body, REGION_SELECTOR));
    let city = last_match(select_inner_html(body, CITY_SELECTOR));
    Location { latitude, longitude, country, region, city }
}

} // verus!
