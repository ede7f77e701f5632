//! The two request-scoped records and the mapping between them.
//!
//! A [`GeoContext`] is what the hosting platform knows about the request:
//! the edge-location code and timezone it always has, every other attribute
//! optional, and the two coordinate values separate and already rendered as
//! number text.  A [`GeoProperties`] is the record the response body is made
//! of; building one pairs the coordinates all-or-nothing and checks that the
//! paired number text is well-formed JSON.

use vstd::prelude::*;
use crate::number::is_json_number;

verus! {

/// The one way a request can fail.
#[derive(Clone, Copy, Debug, PartialEq, Eq, Structural)]
pub enum GeoError {
    /// The platform supplied no per-request context.
    ContextUnavailable,
    /// The platform supplied a coordinate that is not a JSON number token.
    InvalidCoordinate,
}

/// A latitude/longitude pair, each an already-rendered JSON number token.
pub struct Coordinates {
    pub latitude: String,
    pub longitude: String,
}

/// Spec-level image of [`Coordinates`].
pub struct CoordinatesView {
    pub latitude: Seq<char>,
    pub longitude: Seq<char>,
}

impl View for Coordinates {
    type V = CoordinatesView;

    open spec fn view(&self) -> CoordinatesView {
        CoordinatesView { latitude: self.latitude@, longitude: self.longitude@ }
    }
}

impl CoordinatesView {
    /// Both coordinate texts are well-formed JSON number tokens.
    pub open spec fn wf(self) -> bool {
        is_json_number(self.latitude) && is_json_number(self.longitude)
    }
}

/// What the platform reports about the request, as plain values.
pub struct GeoContext {
    pub colo: String,
    pub asn: Option<u32>,
    pub as_organization: Option<String>,
    pub country: Option<String>,
    pub city: Option<String>,
    pub continent: Option<String>,
    pub latitude: Option<String>,
    pub longitude: Option<String>,
    pub postal_code: Option<String>,
    pub metro_code: Option<String>,
    pub region: Option<String>,
    pub region_code: Option<String>,
    pub timezone: String,
}

/// Spec-level image of [`GeoContext`].
pub struct GeoContextView {
    pub colo: Seq<char>,
    pub asn: Option<u32>,
    pub as_organization: Option<Seq<char>>,
    pub country: Option<Seq<char>>,
    pub city: Option<Seq<char>>,
    pub continent: Option<Seq<char>>,
    pub latitude: Option<Seq<char>>,
    pub longitude: Option<Seq<char>>,
    pub postal_code: Option<Seq<char>>,
    pub metro_code: Option<Seq<char>>,
    pub region: Option<Seq<char>>,
    pub region_code: Option<Seq<char>>,
    pub timezone: Seq<char>,
}

/// The view of an optional string.
pub open spec fn opt_text(o: &Option<String>) -> Option<Seq<char>> {
    match o {
        Some(s) => Some(s@),
        None => None,
    }
}

/// The view of an optional coordinate pair.
pub open spec fn opt_coords(o: &Option<Coordinates>) -> Option<CoordinatesView> {
    match o {
        Some(c) => Some(c@),
        None => None,
    }
}

impl View for GeoContext {
    type V = GeoContextView;

    open spec fn view(&self) -> GeoContextView {
        GeoContextView {
            colo: self.colo@,
            asn: self.asn,
            as_organization: opt_text(&self.as_organization),
            country: opt_text(&self.country),
            city: opt_text(&self.city),
            continent: opt_text(&self.continent),
            latitude: opt_text(&self.latitude),
            longitude: opt_text(&self.longitude),
            postal_code: opt_text(&self.postal_code),
            metro_code: opt_text(&self.metro_code),
            region: opt_text(&self.region),
            region_code: opt_text(&self.region_code),
            timezone: self.timezone@,
        }
    }
}

/// The record a response body is rendered from, one field per schema key.
pub struct GeoProperties {
    pub colo: String,
    pub asn: Option<u32>,
    pub as_organization: Option<String>,
    pub country: Option<String>,
    pub city: Option<String>,
    pub continent: Option<String>,
    pub coordinates: Option<Coordinates>,
    pub postal_code: Option<String>,
    pub metro_code: Option<String>,
    pub region: Option<String>,
    pub region_code: Option<String>,
    pub timezone: String,
}

/// Spec-level image of [`GeoProperties`].
pub struct GeoPropertiesView {
    pub colo: Seq<char>,
    pub asn: Option<u32>,
    pub as_organization: Option<Seq<char>>,
    pub country: Option<Seq<char>>,
    pub city: Option<Seq<char>>,
    pub continent: Option<Seq<char>>,
    pub coordinates: Option<CoordinatesView>,
    pub postal_code: Option<Seq<char>>,
    pub metro_code: Option<Seq<char>>,
    pub region: Option<Seq<char>>,
    pub region_code: Option<Seq<char>>,
    pub timezone: Seq<char>,
}

impl View for GeoProperties {
    type V = GeoPropertiesView;

    open spec fn view(&self) -> GeoPropertiesView {
        GeoPropertiesView {
            colo: self.colo@,
            asn: self.asn,
            as_organization: opt_text(&self.as_organization),
            country: opt_text(&self.country),
            city: opt_text(&self.city),
            continent: opt_text(&self.continent),
            coordinates: opt_coords(&self.coordinates),
            postal_code: opt_text(&self.postal_code),
            metro_code: opt_text(&self.metro_code),
            region: opt_text(&self.region),
            region_code: opt_text(&self.region_code),
            timezone: self.timezone@,
        }
    }
}

impl GeoPropertiesView {
    /// If coordinates are present, both their texts are JSON number tokens.
    pub open spec fn wf(self) -> bool {
        match self.coordinates {
            Some(c) => c.wf(),
            None => true,
        }
    }
}

/// The properties record a context maps to: every attribute carried over,
/// the coordinates paired only when both halves are present, and the pair
/// rejected when either half is not a JSON number token.
pub open spec fn props_of(c: GeoContextView) -> Result<GeoPropertiesView, GeoError> {
    match (c.latitude, c.longitude) {
        (Some(la), Some(lo)) => if is_json_number(la) && is_json_number(lo) {
            Ok(mapped_props(c, Some(CoordinatesView { latitude: la, longitude: lo })))
        } else {
            Err(GeoError::InvalidCoordinate)
        },
        _ => Ok(mapped_props(c, None)),
    }
}

/// The field-for-field carry-over, with the coordinate pair already decided.
pub open spec fn mapped_props(c: GeoContextView, coords: Option<CoordinatesView>)
    -> GeoPropertiesView {
    GeoPropertiesView {
        colo: c.colo,
        asn: c.asn,
        as_organization: c.as_organization,
        country: c.country,
        city: c.city,
        continent: c.continent,
        coordinates: coords,
        postal_code: c.postal_code,
        metro_code: c.metro_code,
        region: c.region,
        region_code: c.region_code,
        timezone: c.timezone,
    }
}

fn clone_opt_string(o: &Option<String>) -> (r: Option<String>)
    ensures
        opt_text(&r) == opt_text(o),
{
    match o {
        Some(s) => Some(s.clone()),
        None => None,
    }
}

impl GeoProperties {
    /// Build the response record from a platform context: every attribute is
    /// carried over unchanged; `coordinates` is present exactly when the
    /// context has both latitude and longitude, and a present pair whose
    /// text is not well-formed JSON number syntax is the one build error.
    pub fn from_context(ctx: &GeoContext) -> (r: Result<GeoProperties, GeoError>)
        ensures
            r is Ok <==> props_of(ctx@) is Ok,
            r is Ok ==> r->Ok_0@ == props_of(ctx@)->Ok_0,
            r is Err ==> r->Err_0 == props_of(ctx@)->Err_0,
            r is Ok ==> r->Ok_0@.wf(),
            r is Ok ==> (r->Ok_0@.coordinates is Some <==> ctx.latitude is Some
                && ctx.longitude is Some),
    {
        let coordinates: Option<Coordinates> = match (&ctx.latitude, &ctx.longitude) {
            (Some(la), Some(lo)) => {
                if crate::number::is_json_number_token(la.as_str())
                    && crate::number::is_json_number_token(lo.as_str()) {
                    Some(Coordinates { latitude: la.clone(), longitude: lo.clone() })
                } else {
                    return Err(GeoError::InvalidCoordinate);
                }
            },
            _ => None,
        };
        Ok(GeoProperties {
            colo: ctx.colo.clone(),
            asn: ctx.asn,
            as_organization: clone_opt_string(&ctx.as_organization),
            country: clone_opt_string(&ctx.country),
            city: clone_opt_string(&ctx.city),
            continent: clone_opt_string(&ctx.continent),
            coordinates,
            postal_code: clone_opt_string(&ctx.postal_code),
            metro_code: clone_opt_string(&ctx.metro_code),
            region: clone_opt_string(&ctx.region),
            region_code: clone_opt_string(&ctx.region_code),
            timezone: ctx.timezone.clone(),
        })
    }
}

} // verus!
