//! The archive's reply schema, its validation, and URL resolution.
//!
//! One query returns a JSON object with an `images` array of records and a
//! `tooltips` object. Exactly one record is expected per query; the record's
//! `url` field is the relative path that resolves to the picture. The other
//! fields are required by the schema but not otherwise consumed.

use vstd::prelude::*;
use vstd::string::StringExecFns;

use crate::error::Error;
use crate::json::{
    value_as_array, value_as_bool, value_as_i64, value_as_str, value_get, json_of, parse_json,
    value_model, Json,
};
use crate::urls::{resolve_image_url, resolved_url_spec};

verus! {

/// One parsed archive record, as plain values.
pub struct ArchiveRecord {
    /// The record's start date, as the archive writes it.
    pub startdate: String,
    /// The record's full start date with time.
    pub fullstartdate: String,
    /// The record's end date.
    pub enddate: String,
    /// The relative path of the full-resolution picture; begins with `/`.
    pub url: String,
    /// The relative path without resolution parameters.
    pub urlbase: String,
    /// The copyright line.
    pub copyright: String,
    /// A link with copyright background.
    pub copyrightlink: String,
    /// The picture's title.
    pub title: String,
    /// A quiz link.
    pub quiz: String,
    /// Whether the picture is offered as wallpaper.
    pub wp: bool,
    /// The record's hash.
    pub hsh: String,
    /// An archive display flag.
    pub drk: i64,
    /// An archive display flag.
    pub top: i64,
    /// An archive display flag.
    pub bot: i64,
}

/// The tooltip strings that accompany every reply.
pub struct Tooltips {
    /// Text shown while loading.
    pub loading: String,
    /// Label of the previous-day control.
    pub previous: String,
    /// Label of the next-day control.
    pub next: String,
    /// Label for a picture not offered as wallpaper.
    pub walle: String,
    /// Label for a picture offered as wallpaper.
    pub walls: String,
}

/// One whole archive reply.
pub struct ArchiveResponse {
    /// The returned records, in reply order.
    pub images: Vec<ArchiveRecord>,
    /// The reply's tooltip strings.
    pub tooltips: Tooltips,
}

/// Whether the object `m` has a string under `key`.
pub open spec fn obj_has_str(m: Map<Seq<char>, Json>, key: Seq<char>) -> bool {
    m.contains_key(key) && m[key] is Str
}

/// The string the object `m` holds under `key`.
pub open spec fn obj_str(m: Map<Seq<char>, Json>, key: Seq<char>) -> Seq<char> {
    m[key]->Str_0
}

/// Whether the object `m` has a boolean under `key`.
pub open spec fn obj_has_bool(m: Map<Seq<char>, Json>, key: Seq<char>) -> bool {
    m.contains_key(key) && m[key] is Bool
}

/// Whether the object `m` has an integer under `key`.
pub open spec fn obj_has_int(m: Map<Seq<char>, Json>, key: Seq<char>) -> bool {
    m.contains_key(key) && m[key] is Int
}

/// Whether `j` has the shape of one archive record.
pub open spec fn record_ok(j: Json) -> bool {
    let m = j->Obj_0;
    &&& j is Obj
    &&& obj_has_str(m, "startdate"@)
    &&& obj_has_str(m, "fullstartdate"@)
    &&& obj_has_str(m, "enddate"@)
    &&& obj_has_str(m, "url"@)
    &&& obj_has_str(m, "urlbase"@)
    &&& obj_has_str(m, "copyright"@)
    &&& obj_has_str(m, "copyrightlink"@)
    &&& obj_has_str(m, "title"@)
    &&& obj_has_str(m, "quiz"@)
    &&& obj_has_bool(m, "wp"@)
    &&& obj_has_str(m, "hsh"@)
    &&& obj_has_int(m, "drk"@)
    &&& obj_has_int(m, "top"@)
    &&& obj_has_int(m, "bot"@)
    &&& m.contains_key("hs"@) && m["hs"@] is Arr
}

/// Whether the parsed record `r` carries exactly the fields of `j`.
pub open spec fn record_matches(r: ArchiveRecord, j: Json) -> bool {
    let m = j->Obj_0;
    &&& r.startdate@ == obj_str(m, "startdate"@)
    &&& r.fullstartdate@ == obj_str(m, "fullstartdate"@)
    &&& r.enddate@ == obj_str(m, "enddate"@)
    &&& r.url@ == obj_str(m, "url"@)
    &&& r.urlbase@ == obj_str(m, "urlbase"@)
    &&& r.copyright@ == obj_str(m, "copyright"@)
    &&& r.copyrightlink@ == obj_str(m, "copyrightlink"@)
    &&& r.title@ == obj_str(m, "title"@)
    &&& r.quiz@ == obj_str(m, "quiz"@)
    &&& r.wp == m["wp"@]->Bool_0
    &&& r.hsh@ == obj_str(m, "hsh"@)
    &&& r.drk == m["drk"@]->Int_0
    &&& r.top == m["top"@]->Int_0
    &&& r.bot == m["bot"@]->Int_0
}

/// Whether `j` has the shape of the tooltip object.
pub open spec fn tooltips_ok(j: Json) -> bool {
    let m = j->Obj_0;
    &&& j is Obj
    &&& obj_has_str(m, "loading"@)
    &&& obj_has_str(m, "previous"@)
    &&& obj_has_str(m, "next"@)
    &&& obj_has_str(m, "walle"@)
    &&& obj_has_str(m, "walls"@)
}

/// Whether the parsed tooltips `t` carry exactly the fields of `j`.
pub open spec fn tooltips_matches(t: Tooltips, j: Json) -> bool {
    let m = j->Obj_0;
    &&& t.loading@ == obj_str(m, "loading"@)
    &&& t.previous@ == obj_str(m, "previous"@)
    &&& t.next@ == obj_str(m, "next"@)
    &&& t.walle@ == obj_str(m, "walle"@)
    &&& t.walls@ == obj_str(m, "walls"@)
}

/// Whether `j` has the shape of a whole archive reply.
pub open spec fn response_ok(j: Json) -> bool {
    let m = j->Obj_0;
    &&& j is Obj
    &&& m.contains_key("images"@)
    &&& m["images"@] is Arr
    &&& forall|i: int|
        0 <= i < m["images"@]->Arr_0.len() ==> record_ok(#[trigger] m["images"@]->Arr_0[i])
    &&& m.contains_key("tooltips"@)
    &&& tooltips_ok(m["tooltips"@])
}

/// Whether the parsed reply `r` carries exactly the records and tooltips
/// of `j`, in order.
pub open spec fn response_matches(r: ArchiveResponse, j: Json) -> bool {
    let m = j->Obj_0;
    &&& r.images@.len() == m["images"@]->Arr_0.len()
    &&& forall|i: int|
        0 <= i < r.images@.len() ==> record_matches(
            #[trigger] r.images@[i],
            m["images"@]->Arr_0[i],
        )
    &&& tooltips_matches(r.tooltips, m["tooltips"@])
}

/// A decode failure naming the field that was missing or mistyped.
fn decode_field_err(offset: i64, key: &str) -> (e: Error)
    ensures
        e matches Error::Decode { offset: o, .. } && o == offset,
{
    let mut detail: String = "archive reply field missing or mistyped: ".to_owned();
    detail.append(key);
    Error::Decode { offset, detail }
}

/// Reads the string field `key` of the object `v`.
fn get_str_field(offset: i64, v: &serde_json::Value, key: &str) -> (r: Result<String, Error>)
    ensures
        r is Ok <==> (value_model(*v) is Obj && obj_has_str(value_model(*v)->Obj_0, key@)),
        r matches Ok(s) ==> s@ == obj_str(value_model(*v)->Obj_0, key@),
        r matches Err(e) ==> e matches Error::Decode { offset: o, .. } && o == offset,
{
    match value_get(v, key) {
        Some(x) => match value_as_str(x) {
            Some(s) => Ok(s.to_owned()),
            None => Err(decode_field_err(offset, key)),
        },
        None => Err(decode_field_err(offset, key)),
    }
}

/// Reads the integer field `key` of the object `v`.
fn get_i64_field(offset: i64, v: &serde_json::Value, key: &str) -> (r: Result<i64, Error>)
    ensures
        r is Ok <==> (value_model(*v) is Obj && obj_has_int(value_model(*v)->Obj_0, key@)),
        r matches Ok(n) ==> n == value_model(*v)->Obj_0[key@]->Int_0,
        r matches Err(e) ==> e matches Error::Decode { offset: o, .. } && o == offset,
{
    match value_get(v, key) {
        Some(x) => match value_as_i64(x) {
            Some(n) => Ok(n),
            None => Err(decode_field_err(offset, key)),
        },
        None => Err(decode_field_err(offset, key)),
    }
}

/// Reads the boolean field `key` of the object `v`.
fn get_bool_field(offset: i64, v: &serde_json::Value, key: &str) -> (r: Result<bool, Error>)
    ensures
        r is Ok <==> (value_model(*v) is Obj && obj_has_bool(value_model(*v)->Obj_0, key@)),
        r matches Ok(b) ==> b == value_model(*v)->Obj_0[key@]->Bool_0,
        r matches Err(e) ==> e matches Error::Decode { offset: o, .. } && o == offset,
{
    match value_get(v, key) {
        Some(x) => match value_as_bool(x) {
            Some(b) => Ok(b),
            None => Err(decode_field_err(offset, key)),
        },
        None => Err(decode_field_err(offset, key)),
    }
}

/// Validates one record of the `images` array and copies its fields out.
fn parse_record(offset: i64, v: &serde_json::Value) -> (r: Result<ArchiveRecord, Error>)
    ensures
        r is Ok <==> record_ok(value_model(*v)),
        r matches Ok(rec) ==> record_matches(rec, value_model(*v)),
        r matches Err(e) ==> e matches Error::Decode { offset: o, .. } && o == offset,
{
    let startdate = match get_str_field(offset, v, "startdate") {
        Ok(s) => s,
        Err(e) => { return Err(e); },
    };
    let fullstartdate = match get_str_field(offset, v, "fullstartdate") {
        Ok(s) => s,
        Err(e) => { return Err(e); },
    };
    let enddate = match get_str_field(offset, v, "enddate") {
        Ok(s) => s,
        Err(e) => { return Err(e); },
    };
    let url = match get_str_field(offset, v, "url") {
        Ok(s) => s,
        Err(e) => { return Err(e); },
    };
    let urlbase = match get_str_field(offset, v, "urlbase") {
        Ok(s) => s,
        Err(e) => { return Err(e); },
    };
    let copyright = match get_str_field(offset, v, "copyright") {
        Ok(s) => s,
        Err(e) => { return Err(e); },
    };
    let copyrightlink = match get_str_field(offset, v, "copyrightlink") {
        Ok(s) => s,
        Err(e) => { return Err(e); },
    };
    let title = match get_str_field(offset, v, "title") {
        Ok(s) => s,
        Err(e) => { return Err(e); },
    };
    let quiz = match get_str_field(offset, v, "quiz") {
        Ok(s) => s,
        Err(e) => { return Err(e); },
    };
    let wp = match get_bool_field(offset, v, "wp") {
        Ok(b) => b,
        Err(e) => { return Err(e); },
    };
    let hsh = match get_str_field(offset, v, "hsh") {
        Ok(s) => s,
        Err(e) => { return Err(e); },
    };
    let drk = match get_i64_field(offset, v, "drk") {
        Ok(n) => n,
        Err(e) => { return Err(e); },
    };
    let top = match get_i64_field(offset, v, "top") {
        Ok(n) => n,
        Err(e) => { return Err(e); },
    };
    let bot = match get_i64_field(offset, v, "bot") {
        Ok(n) => n,
        Err(e) => { return Err(e); },
    };
    let hs_is_array = match value_get(v, "hs") {
        Some(x) => value_as_array(x).is_some(),
        None => false,
    };
    if !hs_is_array {
        return Err(decode_field_err(offset, "hs"));
    }
    Ok(
        ArchiveRecord {
            startdate,
            fullstartdate,
            enddate,
            url,
            urlbase,
            copyright,
            copyrightlink,
            title,
            quiz,
            wp,
            hsh,
            drk,
            top,
            bot,
        },
    )
}

/// Validates the tooltip object and copies its fields out.
fn parse_tooltips(offset: i64, v: &serde_json::Value) -> (r: Result<Tooltips, Error>)
    ensures
        r is Ok <==> tooltips_ok(value_model(*v)),
        r matches Ok(t) ==> tooltips_matches(t, value_model(*v)),
        r matches Err(e) ==> e matches Error::Decode { offset: o, .. } && o == offset,
{
    let loading = match get_str_field(offset, v, "loading") {
        Ok(s) => s,
        Err(e) => { return Err(e); },
    };
    let previous = match get_str_field(offset, v, "previous") {
        Ok(s) => s,
        Err(e) => { return Err(e); },
    };
    let next = match get_str_field(offset, v, "next") {
        Ok(s) => s,
        Err(e) => { return Err(e); },
    };
    let walle = match get_str_field(offset, v, "walle") {
        Ok(s) => s,
        Err(e) => { return Err(e); },
    };
    let walls = match get_str_field(offset, v, "walls") {
        Ok(s) => s,
        Err(e) => { return Err(e); },
    };
    Ok(Tooltips { loading, previous, next, walle, walls })
}

/// Parses and validates a whole archive reply body.
///
/// Returns the reply's records and tooltips exactly when the bytes parse as
/// JSON of the expected shape; any other body is a decode failure carrying
/// the given offset.
pub fn parse_archive_response(offset: i64, body: &[u8]) -> (r: Result<ArchiveResponse, Error>)
    ensures
        r is Ok <==> (json_of(body@) matches Some(j) && response_ok(j)),
        r matches Ok(resp) ==> response_matches(resp, json_of(body@)->Some_0),
        r matches Err(e) ==> e matches Error::Decode { offset: o, .. } && o == offset,
{
    let root = match parse_json(body) {
        Ok(v) => v,
        Err(detail) => { return Err(Error::Decode { offset, detail }); },
    };
    let images_val = match value_get(&root, "images") {
        Some(x) => x,
        None => { return Err(decode_field_err(offset, "images")); },
    };
    let arr = match value_as_array(images_val) {
        Some(a) => a,
        None => { return Err(decode_field_err(offset, "images")); },
    };
    let mut images: Vec<ArchiveRecord> = Vec::new();
    let n = arr.len();
    let mut i: usize = 0;
    while i < n
        invariant
            n == arr@.len(),
            json_of(body@) is Some,
            value_model(root) == json_of(body@)->Some_0,
            value_model(root) is Obj,
            value_model(root)->Obj_0.contains_key("images"@),
            value_model(*images_val) == value_model(root)->Obj_0["images"@],
            value_model(*images_val) is Arr,
            arr@.len() == value_model(*images_val)->Arr_0.len(),
            forall|j: int|
                0 <= j < arr@.len() ==> value_model(arr@[j]) == value_model(
                    *images_val,
                )->Arr_0[j],
            0 <= i <= n,
            images@.len() == i as int,
            forall|j: int| 0 <= j < i as int ==> record_ok(value_model(*images_val)->Arr_0[j]),
            forall|j: int|
                0 <= j < i as int ==> record_matches(
                    #[trigger] images@[j],
                    value_model(*images_val)->Arr_0[j],
                ),
        decreases n - i,
    {
        let rec = match parse_record(offset, &arr[i]) {
            Ok(rec) => rec,
            Err(e) => {
                proof {
                    let j = json_of(body@)->Some_0;
                    assert(!record_ok(j->Obj_0["images"@]->Arr_0[i as int]));
                    assert(!response_ok(j));
                }
                return Err(e);
            },
        };
        images.push(rec);
        i = i + 1;
    }
    let tooltips_val = match value_get(&root, "tooltips") {
        Some(x) => x,
        None => { return Err(decode_field_err(offset, "tooltips")); },
    };
    let tooltips = match parse_tooltips(offset, tooltips_val) {
        Ok(t) => t,
        Err(e) => { return Err(e); },
    };
    Ok(ArchiveResponse { images, tooltips })
}

/// The relative path of the first record of a reply.
pub open spec fn first_record_url(j: Json) -> Seq<char> {
    obj_str(j->Obj_0["images"@]->Arr_0[0]->Obj_0, "url"@)
}

/// Resolves an archive reply body to the absolute URL of its first
/// record's picture.
///
/// Succeeds exactly when the body parses as a well-shaped reply with at
/// least one record; a well-shaped reply with no records is the archive's
/// way of saying there is nothing at this offset, and is reported as a
/// not-found failure rather than read out of bounds.
pub fn archive_image_url(offset: i64, body: &[u8]) -> (r: Result<String, Error>)
    ensures
        r is Ok <==> (json_of(body@) matches Some(j) && response_ok(j)
            && j->Obj_0["images"@]->Arr_0.len() > 0),
        r matches Ok(u) ==> u@ == resolved_url_spec(first_record_url(json_of(body@)->Some_0)),
        (json_of(body@) is None || (json_of(body@) matches Some(j) && !response_ok(j))) ==> (
        r matches Err(e) && e matches Error::Decode { offset: o, .. } && o == offset),
        (json_of(body@) matches Some(j) && response_ok(j) && j->Obj_0["images"@]->Arr_0.len()
            == 0) ==> r == Err::<String, Error>(Error::NotFound { offset }),
{
    let resp = match parse_archive_response(offset, body) {
        Ok(resp) => resp,
        Err(e) => { return Err(e); },
    };
    if resp.images.len() == 0 {
        return Err(Error::NotFound { offset });
    }
    let first = &resp.images[0];
    Ok(resolve_image_url(first.url.as_str()))
}

} // verus!
