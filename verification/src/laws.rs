//! The library's general guarantees, each stated over the same spec
//! functions the executable contracts use and proved once and for all.

use vstd::prelude::*;
use crate::handler::{HttpResponseView, fallback_response, response_of};
use crate::json::{
    compact_json, coords_compact, coords_pretty, field_part, field_part_pretty, json_string,
    opt_string_json, opt_u32_json, pretty_json,
};
use crate::props::{CoordinatesView, GeoContextView, GeoError, GeoPropertiesView, mapped_props,
    props_of};
use crate::query::has_query_key;

verus! {

/// Object entries joined by a separator, in order.
pub open spec fn entries_join(es: Seq<Seq<char>>, sep: Seq<char>) -> Seq<char>
    decreases es.len(),
{
    if es.len() == 0 {
        Seq::<char>::empty()
    } else if es.len() == 1 {
        es[0]
    } else {
        entries_join(es.drop_last(), sep) + sep + es.last()
    }
}

/// The schema's keys, in the order every response carries them.
pub open spec fn schema_keys() -> Seq<Seq<char>> {
    seq![
        "colo"@,
        "asn"@,
        "as_organization"@,
        "country"@,
        "city"@,
        "continent"@,
        "coordinates"@,
        "postal_code"@,
        "metro_code"@,
        "region"@,
        "region_code"@,
        "timezone"@,
    ]
}

/// The value rendered under the i-th schema key in the compact body.
pub open spec fn compact_value(p: GeoPropertiesView, i: int) -> Seq<char> {
    if i == 0 { json_string(p.colo) }
    else if i == 1 { opt_u32_json(p.asn) }
    else if i == 2 { opt_string_json(p.as_organization) }
    else if i == 3 { opt_string_json(p.country) }
    else if i == 4 { opt_string_json(p.city) }
    else if i == 5 { opt_string_json(p.continent) }
    else if i == 6 { coords_compact(p.coordinates) }
    else if i == 7 { opt_string_json(p.postal_code) }
    else if i == 8 { opt_string_json(p.metro_code) }
    else if i == 9 { opt_string_json(p.region) }
    else if i == 10 { opt_string_json(p.region_code) }
    else { json_string(p.timezone) }
}

/// The value rendered under the i-th schema key in the pretty body.
pub open spec fn pretty_value(p: GeoPropertiesView, i: int) -> Seq<char> {
    if i == 6 {
        coords_pretty(p.coordinates)
    } else {
        compact_value(p, i)
    }
}

/// The compact body's entries, one per schema key.
pub open spec fn compact_entries(p: GeoPropertiesView) -> Seq<Seq<char>> {
    Seq::new(schema_keys().len(), |i: int| field_part(schema_keys()[i], compact_value(p, i)))
}

/// The pretty body's entries, one per schema key.
pub open spec fn pretty_entries(p: GeoPropertiesView) -> Seq<Seq<char>> {
    Seq::new(
        schema_keys().len(),
        |i: int| field_part_pretty(schema_keys()[i], pretty_value(p, i)),
    )
}

/// Every body is the JSON object over the schema's twelve keys: the entries
/// stand in schema order, joined by the form's separator, so each key is
/// present, exactly once, in compact and pretty form alike.
pub proof fn lemma_body_is_schema_object(p: GeoPropertiesView)
    ensures
        compact_json(p) == "{"@ + entries_join(compact_entries(p), ","@) + "}"@,
        pretty_json(p) == "{\n  "@ + entries_join(pretty_entries(p), ",\n  "@) + "\n}"@,
        schema_keys().no_duplicates(),
{
    lemma_body_shape(compact_entries(p), ","@, "{"@, "}"@, compact_json(p));
    lemma_body_shape(pretty_entries(p), ",\n  "@, "{\n  "@, "\n}"@, pretty_json(p));
    lemma_schema_keys_distinct();
}

/// Concatenation is associative: a parenthesised entry-plus-separator group
/// behind a prefix flattens out.
proof fn lemma_concat_assoc(pre: Seq<char>, a: Seq<char>, sep: Seq<char>, b: Seq<char>)
    ensures
        pre + (a + sep + b) == pre + a + sep + b,
{
    assert(pre + (a + sep + b) =~= pre + a + sep + b);
}

/// A body built by appending entry after entry equals the opener, the
/// joined entries, and the closer.
proof fn lemma_body_shape(
    es: Seq<Seq<char>>,
    sep: Seq<char>,
    opener: Seq<char>,
    closer: Seq<char>,
    body: Seq<char>,
)
    requires
        es.len() == 12,
        body == opener + es[0] + sep + es[1] + sep + es[2] + sep + es[3] + sep + es[4] + sep
            + es[5] + sep + es[6] + sep + es[7] + sep + es[8] + sep + es[9] + sep + es[10] + sep
            + es[11] + closer,
    ensures
        body == opener + entries_join(es, sep) + closer,
{
    lemma_join_shape(es, sep);
    let j1 = es[0] + sep + es[1];
    let j2 = j1 + sep + es[2];
    let j3 = j2 + sep + es[3];
    let j4 = j3 + sep + es[4];
    let j5 = j4 + sep + es[5];
    let j6 = j5 + sep + es[6];
    let j7 = j6 + sep + es[7];
    let j8 = j7 + sep + es[8];
    let j9 = j8 + sep + es[9];
    let j10 = j9 + sep + es[10];
    let j11 = j10 + sep + es[11];
    lemma_concat_assoc(opener, es[0], sep, es[1]);
    lemma_concat_assoc(opener, j1, sep, es[2]);
    lemma_concat_assoc(opener, j2, sep, es[3]);
    lemma_concat_assoc(opener, j3, sep, es[4]);
    lemma_concat_assoc(opener, j4, sep, es[5]);
    lemma_concat_assoc(opener, j5, sep, es[6]);
    lemma_concat_assoc(opener, j6, sep, es[7]);
    lemma_concat_assoc(opener, j7, sep, es[8]);
    lemma_concat_assoc(opener, j8, sep, es[9]);
    lemma_concat_assoc(opener, j9, sep, es[10]);
    lemma_concat_assoc(opener, j10, sep, es[11]);
    assert(opener + j11 == opener + es[0] + sep + es[1] + sep + es[2] + sep + es[3] + sep + es[4]
        + sep + es[5] + sep + es[6] + sep + es[7] + sep + es[8] + sep + es[9] + sep + es[10] + sep
        + es[11]);
    assert(entries_join(es, sep) == j11);
}

/// Unrolls `entries_join` over a twelve-entry sequence.
proof fn lemma_join_shape(es: Seq<Seq<char>>, sep: Seq<char>)
    requires
        es.len() == 12,
    ensures
        entries_join(es, sep) == es[0] + sep + es[1] + sep + es[2] + sep + es[3] + sep + es[4]
            + sep + es[5] + sep + es[6] + sep + es[7] + sep + es[8] + sep + es[9] + sep + es[10]
            + sep + es[11],
{
    let s1 = es.drop_last().drop_last().drop_last().drop_last().drop_last().drop_last()
        .drop_last().drop_last().drop_last().drop_last().drop_last();
    let s2 = es.drop_last().drop_last().drop_last().drop_last().drop_last().drop_last()
        .drop_last().drop_last().drop_last().drop_last();
    let s3 = es.drop_last().drop_last().drop_last().drop_last().drop_last().drop_last()
        .drop_last().drop_last().drop_last();
    let s4 = es.drop_last().drop_last().drop_last().drop_last().drop_last().drop_last()
        .drop_last().drop_last();
    let s5 = es.drop_last().drop_last().drop_last().drop_last().drop_last().drop_last()
        .drop_last();
    let s6 = es.drop_last().drop_last().drop_last().drop_last().drop_last().drop_last();
    let s7 = es.drop_last().drop_last().drop_last().drop_last().drop_last();
    let s8 = es.drop_last().drop_last().drop_last().drop_last();
    let s9 = es.drop_last().drop_last().drop_last();
    let s10 = es.drop_last().drop_last();
    let s11 = es.drop_last();
    assert(entries_join(s1, sep) == es[0]);
    assert(entries_join(s2, sep) == entries_join(s1, sep) + sep + es[1]);
    assert(entries_join(s3, sep) == entries_join(s2, sep) + sep + es[2]);
    assert(entries_join(s4, sep) == entries_join(s3, sep) + sep + es[3]);
    assert(entries_join(s5, sep) == entries_join(s4, sep) + sep + es[4]);
    assert(entries_join(s6, sep) == entries_join(s5, sep) + sep + es[5]);
    assert(entries_join(s7, sep) == entries_join(s6, sep) + sep + es[6]);
    assert(entries_join(s8, sep) == entries_join(s7, sep) + sep + es[7]);
    assert(entries_join(s9, sep) == entries_join(s8, sep) + sep + es[8]);
    assert(entries_join(s10, sep) == entries_join(s9, sep) + sep + es[9]);
    assert(entries_join(s11, sep) == entries_join(s10, sep) + sep + es[10]);
    assert(entries_join(es, sep) == entries_join(s11, sep) + sep + es[11]);
}

/// No schema key repeats.
proof fn lemma_schema_keys_distinct()
    ensures
        schema_keys().no_duplicates(),
{
    reveal_strlit("colo");
    reveal_strlit("asn");
    reveal_strlit("as_organization");
    reveal_strlit("country");
    reveal_strlit("city");
    reveal_strlit("continent");
    reveal_strlit("coordinates");
    reveal_strlit("postal_code");
    reveal_strlit("metro_code");
    reveal_strlit("region");
    reveal_strlit("region_code");
    reveal_strlit("timezone");
    let ks = schema_keys();
    assert(ks[0].len() == 4 && ks[1].len() == 3 && ks[2].len() == 15 && ks[3].len() == 7
        && ks[4].len() == 4 && ks[5].len() == 9 && ks[6].len() == 11 && ks[7].len() == 11
        && ks[8].len() == 10 && ks[9].len() == 6 && ks[10].len() == 11 && ks[11].len() == 8);
    assert(ks[0] != ks[4]) by {
        assert(ks[0][1] == 'o' && ks[4][1] == 'i');
    }
    assert(ks[6] != ks[7]) by {
        assert(ks[6][0] == 'c' && ks[7][0] == 'p');
    }
    assert(ks[6] != ks[10]) by {
        assert(ks[6][0] == 'c' && ks[10][0] == 'r');
    }
    assert(ks[7] != ks[10]) by {
        assert(ks[7][0] == 'p' && ks[10][0] == 'r');
    }
    assert(schema_keys().no_duplicates());
}

/// The response is a function of the request alone: two requests with the
/// same path, query string and context get the same answer, byte for byte.
pub proof fn lemma_identical_requests_identical_responses(
    path1: Seq<char>,
    q1: Seq<char>,
    ctx1: Option<GeoContextView>,
    path2: Seq<char>,
    q2: Seq<char>,
    ctx2: Option<GeoContextView>,
)
    requires
        path1 == path2,
        q1 == q2,
        ctx1 == ctx2,
    ensures
        response_of(path1, q1, ctx1) == response_of(path2, q2, ctx2),
{
}

/// On the known path with a context whose record builds, the response is a
/// 200 with JSON content type, and `pretty` as a query key — nothing else —
/// selects the pretty rendering.
pub proof fn lemma_known_path_response(q: Seq<char>, c: GeoContextView)
    requires
        props_of(c) is Ok,
    ensures
        ({
            let r = response_of("/v1.json"@, q, Some(c));
            &&& r is Ok
            &&& (r->Ok_0).status == 200
            &&& (r->Ok_0).content_type == Some("application/json"@)
            &&& (r->Ok_0).body == (if has_query_key(q, "pretty"@) {
                pretty_json(props_of(c)->Ok_0)
            } else {
                compact_json(props_of(c)->Ok_0)
            })
        }),
{
}

/// An absent optional attribute still has its key in the body: its value
/// renders as `null` in both forms, never by dropping the key.
pub proof fn lemma_absent_fields_render_null(p: GeoPropertiesView)
    ensures
        p.asn is None ==> compact_value(p, 1) == "null"@ && pretty_value(p, 1) == "null"@,
        p.as_organization is None ==> compact_value(p, 2) == "null"@ && pretty_value(p, 2)
            == "null"@,
        p.country is None ==> compact_value(p, 3) == "null"@ && pretty_value(p, 3) == "null"@,
        p.city is None ==> compact_value(p, 4) == "null"@ && pretty_value(p, 4) == "null"@,
        p.continent is None ==> compact_value(p, 5) == "null"@ && pretty_value(p, 5) == "null"@,
        p.coordinates is None ==> compact_value(p, 6) == "null"@ && pretty_value(p, 6) == "null"@,
        p.postal_code is None ==> compact_value(p, 7) == "null"@ && pretty_value(p, 7) == "null"@,
        p.metro_code is None ==> compact_value(p, 8) == "null"@ && pretty_value(p, 8) == "null"@,
        p.region is None ==> compact_value(p, 9) == "null"@ && pretty_value(p, 9) == "null"@,
        p.region_code is None ==> compact_value(p, 10) == "null"@ && pretty_value(p, 10)
            == "null"@,
{
}

/// Coordinates are all-or-nothing: with either half missing the record
/// builds with no pair and the body shows `null`; a pair appears exactly
/// when the platform supplied both halves, and carries them unchanged.
pub proof fn lemma_coordinates_all_or_nothing(c: GeoContextView)
    ensures
        (c.latitude is None || c.longitude is None) ==> props_of(c) == Ok::<
            GeoPropertiesView,
            GeoError,
        >(mapped_props(c, None)),
        props_of(c) is Ok ==> ((props_of(c)->Ok_0).coordinates is Some <==> (c.latitude is Some
            && c.longitude is Some)),
        props_of(c) is Ok && c.latitude is Some && c.longitude is Some ==> (
        props_of(c)->Ok_0).coordinates == Some(
            CoordinatesView { latitude: c.latitude->0, longitude: c.longitude->0 },
        ),
        coords_compact(None) == "null"@,
        coords_pretty(None) == "null"@,
{
}

/// Every path but the known one gets the fixed plain-text fallback, whatever
/// the query string and whatever the context.
pub proof fn lemma_fallback_for_other_paths(
    path: Seq<char>,
    q1: Seq<char>,
    q2: Seq<char>,
    ctx1: Option<GeoContextView>,
    ctx2: Option<GeoContextView>,
)
    requires
        path != "/v1.json"@,
    ensures
        response_of(path, q1, ctx1) == Ok::<HttpResponseView, GeoError>(fallback_response()),
        response_of(path, q1, ctx1) == response_of(path, q2, ctx2),
{
}

/// The known path without a platform context is the handler's one hard
/// failure, whatever the query string.
pub proof fn lemma_missing_context_fails(q: Seq<char>)
    ensures
        response_of("/v1.json"@, q, None) == Err::<HttpResponseView, GeoError>(
            GeoError::ContextUnavailable,
        ),
{
}

} // verus!
