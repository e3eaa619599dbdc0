use bing_iotd::archive::{archive_image_url, parse_archive_response};
use bing_iotd::error::Error;
use bing_iotd::urls::{archive_query_url, i64_dec, output_file_name, resolve_image_url, u64_dec};

fn record_json(url: &str) -> String {
    let mut s = String::from(
        r#"{"startdate":"20260101","fullstartdate":"202601010800","enddate":"20260102","url":""#,
    );
    s.push_str(url);
    s.push_str(
        r#"","urlbase":"/th?id=OHR.Example","copyright":"An example scene","copyrightlink":"https://www.bing.com/search?q=example","title":"Example of the day","quiz":"/search?q=quiz","wp":true,"hsh":"0123abcd","drk":1,"top":1,"bot":1,"hs":[]}"#,
    );
    s
}

fn response_json(records: &[String]) -> String {
    let mut s = String::from(r#"{"images":["#);
    s.push_str(&records.join(","));
    s.push_str(
        r#"],"tooltips":{"loading":"Loading...","previous":"Previous image","next":"Next image","walle":"This image is not available as wallpaper.","walls":"Download this image."}}"#,
    );
    s
}

#[test]
fn resolves_the_example_record_url() {
    let body = response_json(&[record_json("/th?id=OHR.Example_1920x1080.jpg")]);
    let url = archive_image_url(0, body.as_bytes()).unwrap();
    assert_eq!(url, "https://bing.com/th?id=OHR.Example_1920x1080.jpg");
}

#[test]
fn empty_record_list_is_not_found() {
    let body = response_json(&[]);
    let r = archive_image_url(7, body.as_bytes());
    assert_eq!(r, Err(Error::NotFound { offset: 7 }));
}

#[test]
fn junk_bytes_are_a_decode_error() {
    let r = archive_image_url(3, b"this is not json at all");
    match r {
        Err(Error::Decode { offset, .. }) => assert_eq!(offset, 3),
        other => panic!("expected a decode error, got {:?}", other),
    }
}

#[test]
fn missing_field_is_a_decode_error() {
    // A record without its "url" field does not match the schema.
    let mut rec = record_json("/x.jpg");
    rec = rec.replace(r#""url":"/x.jpg","#, "");
    let body = response_json(&[rec]);
    match archive_image_url(0, body.as_bytes()) {
        Err(Error::Decode { offset, .. }) => assert_eq!(offset, 0),
        other => panic!("expected a decode error, got {:?}", other),
    }
}

#[test]
fn mistyped_field_is_a_decode_error() {
    // "wp" must be a boolean, not a string.
    let rec = record_json("/x.jpg").replace(r#""wp":true"#, r#""wp":"yes""#);
    let body = response_json(&[rec]);
    assert!(matches!(
        archive_image_url(0, body.as_bytes()),
        Err(Error::Decode { .. })
    ));
}

#[test]
fn missing_tooltips_is_a_decode_error() {
    let body = format!(r#"{{"images":[{}]}}"#, record_json("/x.jpg"));
    assert!(matches!(
        archive_image_url(0, body.as_bytes()),
        Err(Error::Decode { .. })
    ));
}

#[test]
fn parses_every_field_of_a_record() {
    let body = response_json(&[record_json("/th?id=OHR.Example_1920x1080.jpg")]);
    let resp = parse_archive_response(0, body.as_bytes()).unwrap();
    assert_eq!(resp.images.len(), 1);
    let rec = &resp.images[0];
    assert_eq!(rec.startdate, "20260101");
    assert_eq!(rec.fullstartdate, "202601010800");
    assert_eq!(rec.enddate, "20260102");
    assert_eq!(rec.url, "/th?id=OHR.Example_1920x1080.jpg");
    assert_eq!(rec.urlbase, "/th?id=OHR.Example");
    assert_eq!(rec.copyright, "An example scene");
    assert_eq!(rec.copyrightlink, "https://www.bing.com/search?q=example");
    assert_eq!(rec.title, "Example of the day");
    assert_eq!(rec.quiz, "/search?q=quiz");
    assert!(rec.wp);
    assert_eq!(rec.hsh, "0123abcd");
    assert_eq!(rec.drk, 1);
    assert_eq!(rec.top, 1);
    assert_eq!(rec.bot, 1);
    assert_eq!(resp.tooltips.loading, "Loading...");
    assert_eq!(resp.tooltips.walls, "Download this image.");
}

#[test]
fn builds_the_archive_query_url() {
    assert_eq!(
        archive_query_url(5),
        "https://www.bing.com/HPImageArchive.aspx?format=js&idx=5&n=1"
    );
    assert_eq!(
        archive_query_url(0),
        "https://www.bing.com/HPImageArchive.aspx?format=js&idx=0&n=1"
    );
    assert_eq!(
        archive_query_url(365),
        "https://www.bing.com/HPImageArchive.aspx?format=js&idx=365&n=1"
    );
}

#[test]
fn renders_decimals_without_leading_zeros() {
    assert_eq!(u64_dec(0), "0");
    assert_eq!(u64_dec(9), "9");
    assert_eq!(u64_dec(10), "10");
    assert_eq!(u64_dec(1234567890), "1234567890");
    assert_eq!(u64_dec(u64::MAX), "18446744073709551615");
}

#[test]
fn renders_signed_decimals() {
    assert_eq!(i64_dec(0), "0");
    assert_eq!(i64_dec(42), "42");
    assert_eq!(i64_dec(-1), "-1");
    assert_eq!(i64_dec(-365), "-365");
    assert_eq!(i64_dec(i64::MAX), "9223372036854775807");
    assert_eq!(i64_dec(i64::MIN), "-9223372036854775808");
}

#[test]
fn describes_failures_in_words() {
    assert_eq!(
        Error::Protocol {
            offset: 1,
            status: 500
        }
        .describe(),
        "offset 1: server answered with status 500"
    );
    assert_eq!(
        Error::NotFound { offset: -3 }.describe(),
        "offset -3: no record in the archive"
    );
    assert_eq!(
        Error::Transport {
            offset: 7,
            detail: String::from("connection refused")
        }
        .describe(),
        "offset 7: transport failure: connection refused"
    );
    assert_eq!(
        Error::Filesystem {
            offset: 0,
            detail: String::from("disk full")
        }
        .describe(),
        "offset 0: could not write the output file: disk full"
    );
    assert!(Error::Decode {
        offset: 2,
        detail: String::from("x")
    }
    .describe()
    .starts_with("offset 2: undecodable reply: "));
}

#[test]
fn joins_the_origin_without_normalization() {
    assert_eq!(resolve_image_url("/a/b.jpg"), "https://bing.com/a/b.jpg");
    assert_eq!(resolve_image_url(""), "https://bing.com");
}

#[test]
fn names_output_files_by_offset() {
    assert_eq!(output_file_name(8), "8.jpg");
    assert_eq!(output_file_name(0), "0.jpg");
    assert_eq!(output_file_name(15), "15.jpg");
}
