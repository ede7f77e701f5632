//! Rendering a [`GeoProperties`] record as JSON text.
//!
//! Every schema key appears in every body, in declaration order; an absent
//! optional value renders as `null` under its key.  The compact form has no
//! insignificant whitespace; the pretty form indents by two spaces, puts one
//! entry per line, and a space after each colon.

use vstd::prelude::*;
use vstd::string::StringExecFns;
use crate::props::{Coordinates, CoordinatesView, GeoProperties, GeoPropertiesView};
use crate::props::{opt_coords, opt_text};
use crate::text::{dec_rep, escape_seq, escape_str, u32_to_dec};

verus! {

/// A string value as JSON: escaped, in quotes.
pub open spec fn json_string(s: Seq<char>) -> Seq<char> {
    "\""@ + escape_seq(s) + "\""@
}

/// An optional string value: `null` when absent.
pub open spec fn opt_string_json(o: Option<Seq<char>>) -> Seq<char> {
    match o {
        Some(s) => json_string(s),
        None => "null"@,
    }
}

/// An optional integer value: `null` when absent.
pub open spec fn opt_u32_json(o: Option<u32>) -> Seq<char> {
    match o {
        Some(n) => dec_rep(n),
        None => "null"@,
    }
}

/// The coordinate pair in the compact body: an object or `null`.
pub open spec fn coords_compact(o: Option<CoordinatesView>) -> Seq<char> {
    match o {
        Some(c) => "{"@ + field_part("latitude"@, c.latitude) + ","@ + field_part(
            "longitude"@,
            c.longitude,
        ) + "}"@,
        None => "null"@,
    }
}

/// The coordinate pair in the pretty body, nested one level deep.
pub open spec fn coords_pretty(o: Option<CoordinatesView>) -> Seq<char> {
    match o {
        Some(c) => "{\n    "@ + field_part_pretty("latitude"@, c.latitude) + ",\n    "@
            + field_part_pretty("longitude"@, c.longitude) + "\n  }"@,
        None => "null"@,
    }
}

/// One object entry in the compact form: the quoted key, a colon, the value.
pub open spec fn field_part(key: Seq<char>, value: Seq<char>) -> Seq<char> {
    "\""@ + key + "\":"@ + value
}

/// One object entry in the pretty form: a space after the colon.
pub open spec fn field_part_pretty(key: Seq<char>, value: Seq<char>) -> Seq<char> {
    "\""@ + key + "\": "@ + value
}

/// The compact response body: one line, no insignificant whitespace, each
/// schema key once and in order.
pub open spec fn compact_json(p: GeoPropertiesView) -> Seq<char> {
    "{"@ + field_part("colo"@, json_string(p.colo)) + ","@ + field_part(
        "asn"@,
        opt_u32_json(p.asn),
    ) + ","@ + field_part("as_organization"@, opt_string_json(p.as_organization)) + ","@
        + field_part("country"@, opt_string_json(p.country)) + ","@ + field_part(
        "city"@,
        opt_string_json(p.city),
    ) + ","@ + field_part("continent"@, opt_string_json(p.continent)) + ","@ + field_part(
        "coordinates"@,
        coords_compact(p.coordinates),
    ) + ","@ + field_part("postal_code"@, opt_string_json(p.postal_code)) + ","@ + field_part(
        "metro_code"@,
        opt_string_json(p.metro_code),
    ) + ","@ + field_part("region"@, opt_string_json(p.region)) + ","@ + field_part(
        "region_code"@,
        opt_string_json(p.region_code),
    ) + ","@ + field_part("timezone"@, json_string(p.timezone)) + "}"@
}

/// The pretty response body: the same entries in the same order, one per
/// line, indented by two spaces, a space after each colon.
pub open spec fn pretty_json(p: GeoPropertiesView) -> Seq<char> {
    "{\n  "@ + field_part_pretty("colo"@, json_string(p.colo)) + ",\n  "@ + field_part_pretty(
        "asn"@,
        opt_u32_json(p.asn),
    ) + ",\n  "@ + field_part_pretty("as_organization"@, opt_string_json(p.as_organization))
        + ",\n  "@ + field_part_pretty("country"@, opt_string_json(p.country)) + ",\n  "@
        + field_part_pretty("city"@, opt_string_json(p.city)) + ",\n  "@ + field_part_pretty(
        "continent"@,
        opt_string_json(p.continent),
    ) + ",\n  "@ + field_part_pretty("coordinates"@, coords_pretty(p.coordinates)) + ",\n  "@
        + field_part_pretty("postal_code"@, opt_string_json(p.postal_code)) + ",\n  "@
        + field_part_pretty("metro_code"@, opt_string_json(p.metro_code)) + ",\n  "@
        + field_part_pretty("region"@, opt_string_json(p.region)) + ",\n  "@ + field_part_pretty(
        "region_code"@,
        opt_string_json(p.region_code),
    ) + ",\n  "@ + field_part_pretty("timezone"@, json_string(p.timezone)) + "\n}"@
}

/// Escape a string and wrap it in quotes.
pub fn json_quote(s: &str) -> (r: String)
    ensures
        r@ == json_string(s@),
{
    let mut out = String::from_str("\"");
    let e = escape_str(s);
    out.append(e.as_str());
    out.append("\"");
    out
}

fn opt_string_field(o: &Option<String>) -> (r: String)
    ensures
        r@ == opt_string_json(opt_text(o)),
{
    match o {
        Some(s) => json_quote(s.as_str()),
        None => String::from_str("null"),
    }
}

fn opt_u32_field(o: &Option<u32>) -> (r: String)
    ensures
        r@ == opt_u32_json(*o),
{
    match o {
        Some(n) => u32_to_dec(*n),
        None => String::from_str("null"),
    }
}

fn append_field(out: &mut String, key: &str, value: &str)
    ensures
        final(out)@ == old(out)@ + field_part(key@, value@),
{
    out.append("\"");
    out.append(key);
    out.append("\":");
    out.append(value);
    proof {
        assert(out@ =~= old(out)@ + field_part(key@, value@));
    }
}

fn append_field_pretty(out: &mut String, key: &str, value: &str)
    ensures
        final(out)@ == old(out)@ + field_part_pretty(key@, value@),
{
    out.append("\"");
    out.append(key);
    out.append("\": ");
    out.append(value);
    proof {
        assert(out@ =~= old(out)@ + field_part_pretty(key@, value@));
    }
}

fn coords_field_compact(o: &Option<Coordinates>) -> (r: String)
    ensures
        r@ == coords_compact(opt_coords(o)),
{
    match o {
        Some(c) => {
            let mut out = String::from_str("{");
            append_field(&mut out, "latitude", c.latitude.as_str());
            out.append(",");
            append_field(&mut out, "longitude", c.longitude.as_str());
            out.append("}");
            out
        },
        None => String::from_str("null"),
    }
}

fn coords_field_pretty(o: &Option<Coordinates>) -> (r: String)
    ensures
        r@ == coords_pretty(opt_coords(o)),
{
    match o {
        Some(c) => {
            let mut out = String::from_str("{\n    ");
            append_field_pretty(&mut out, "latitude", c.latitude.as_str());
            out.append(",\n    ");
            append_field_pretty(&mut out, "longitude", c.longitude.as_str());
            out.append("\n  }");
            out
        },
        None => String::from_str("null"),
    }
}

impl GeoProperties {
    /// Render the compact response body.
    pub fn to_json(&self) -> (r: String)
        ensures
            r@ == compact_json(self@),
    {
        let mut out = String::from_str("{");
        let colo = json_quote(self.colo.as_str());
        append_field(&mut out, "colo", colo.as_str());
        out.append(",");
        let asn = opt_u32_field(&self.asn);
        append_field(&mut out, "asn", asn.as_str());
        out.append(",");
        let as_org = opt_string_field(&self.as_organization);
        append_field(&mut out, "as_organization", as_org.as_str());
        out.append(",");
        let country = opt_string_field(&self.country);
        append_field(&mut out, "country", country.as_str());
        out.append(",");
        let city = opt_string_field(&self.city);
        append_field(&mut out, "city", city.as_str());
        out.append(",");
        let continent = opt_string_field(&self.continent);
        append_field(&mut out, "continent", continent.as_str());
        out.append(",");
        let coords = coords_field_compact(&self.coordinates);
        append_field(&mut out, "coordinates", coords.as_str());
        out.append(",");
        let postal = opt_string_field(&self.postal_code);
        append_field(&mut out, "postal_code", postal.as_str());
        out.append(",");
        let metro = opt_string_field(&self.metro_code);
        append_field(&mut out, "metro_code", metro.as_str());
        out.append(",");
        let region = opt_string_field(&self.region);
        append_field(&mut out, "region", region.as_str());
        out.append(",");
        let region_code = opt_string_field(&self.region_code);
        append_field(&mut out, "region_code", region_code.as_str());
        out.append(",");
        let timezone = json_quote(self.timezone.as_str());
        append_field(&mut out, "timezone", timezone.as_str());
        out.append("}");
        out
    }

    /// Render the pretty response body.
    pub fn to_json_pretty(&self) -> (r: String)
        ensures
            r@ == pretty_json(self@),
    {
        let mut out = String::from_str("{\n  ");
        let colo = json_quote(self.colo.as_str());
        append_field_pretty(&mut out, "colo", colo.as_str());
        out.append(",\n  ");
        let asn = opt_u32_field(&self.asn);
        append_field_pretty(&mut out, "asn", asn.as_str());
        out.append(",\n  ");
        let as_org = opt_string_field(&self.as_organization);
        append_field_pretty(&mut out, "as_organization", as_org.as_str());
        out.append(",\n  ");
        let country = opt_string_field(&self.country);
        append_field_pretty(&mut out, "country", country.as_str());
        out.append(",\n  ");
        let city = opt_string_field(&self.city);
        append_field_pretty(&mut out, "city", city.as_str());
        out.append(",\n  ");
        let continent = opt_string_field(&self.continent);
        append_field_pretty(&mut out, "continent", continent.as_str());
        out.append(",\n  ");
        let coords = coords_field_pretty(&self.coordinates);
        append_field_pretty(&mut out, "coordinates", coords.as_str());
        out.append(",\n  ");
        let postal = opt_string_field(&self.postal_code);
        append_field_pretty(&mut out, "postal_code", postal.as_str());
        out.append(",\n  ");
        let metro = opt_string_field(&self.metro_code);
        append_field_pretty(&mut out, "metro_code", metro.as_str());
        out.append(",\n  ");
        let region = opt_string_field(&self.region);
        append_field_pretty(&mut out, "region", region.as_str());
        out.append(",\n  ");
        let region_code = opt_string_field(&self.region_code);
        append_field_pretty(&mut out, "region_code", region_code.as_str());
        out.append(",\n  ");
        let timezone = json_quote(self.timezone.as_str());
        append_field_pretty(&mut out, "timezone", timezone.as_str());
        out.append("\n}");
        out
    }
}

} // verus!
