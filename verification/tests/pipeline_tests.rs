use bing_iotd::error::Error;
use bing_iotd::imagecodec::reencode_jpeg;
use bing_iotd::pipeline::{Action, Batch, HttpEvent, TaskState, WriteEvent};

fn record_json(url: &str) -> String {
    let mut s = String::from(
        r#"{"startdate":"20260101","fullstartdate":"202601010800","enddate":"20260102","url":""#,
    );
    s.push_str(url);
    s.push_str(
        r#"","urlbase":"/th?id=OHR.Example","copyright":"An example scene","copyrightlink":"https://www.bing.com/search?q=example","title":"Example of the day","quiz":"/search?q=quiz","wp":true,"hsh":"0123abcd","drk":1,"top":1,"bot":1,"hs":[]}"#,
    );
    s
}

fn response_json(records: &[String]) -> String {
    let mut s = String::from(r#"{"images":["#);
    s.push_str(&records.join(","));
    s.push_str(
        r#"],"tooltips":{"loading":"Loading...","previous":"Previous image","next":"Next image","walle":"This image is not available as wallpaper.","walls":"Download this image."}}"#,
    );
    s
}

/// A small valid PNG whose pixels depend on `seed`, so every offset gets a
/// distinct picture.
fn tiny_png(seed: u8) -> Vec<u8> {
    let mut img = image::RgbImage::new(2, 2);
    img.put_pixel(0, 0, image::Rgb([seed, 10, 20]));
    img.put_pixel(1, 1, image::Rgb([30, seed, 40]));
    let mut buf = Vec::new();
    image::DynamicImage::ImageRgb8(img)
        .write_to(&mut std::io::Cursor::new(&mut buf), image::ImageFormat::Png)
        .unwrap();
    buf
}

/// Runs one task against a mocked archive and image endpoint, recording
/// written files; mirrors the caller's loop.
fn drive_task(
    offset: i64,
    archive: HttpEvent,
    image: Option<HttpEvent>,
    files: &mut Vec<(String, Vec<u8>)>,
) -> TaskState {
    let mut st = TaskState::start(offset);
    let mut query = None;
    if let Action::QueryArchive { url } = st.next_action() {
        query = Some(url);
    }
    if query.is_some() {
        st = st.on_archive_response(archive);
    }
    let mut fetch = None;
    if let Action::FetchImage { url } = st.next_action() {
        fetch = Some(url);
    }
    if fetch.is_some() {
        st = st.on_image_response(image.expect("the task should not have fetched an image"));
    }
    let mut wrote = false;
    if let Action::SaveFile { name, bytes } = st.next_action() {
        files.push((name, bytes.to_vec()));
        wrote = true;
    }
    if wrote {
        st = st.on_write_result(WriteEvent::Succeeded);
    }
    st
}

#[test]
fn non_image_bytes_are_a_decode_error() {
    match reencode_jpeg(4, b"definitely not a raster image") {
        Err(Error::Decode { offset, .. }) => assert_eq!(offset, 4),
        other => panic!("expected a decode error, got {:?}", other),
    }
}

#[test]
fn image_fetch_of_junk_fails_the_task() {
    let body = response_json(&[record_json("/th?id=OHR.Example_1920x1080.jpg")]);
    let st = TaskState::start(0);
    let st = st.on_archive_response(HttpEvent::Response {
        status: 200,
        body: body.into_bytes(),
    });
    assert!(matches!(st, TaskState::UrlResolved { .. }));
    let st = st.on_image_response(HttpEvent::Response {
        status: 200,
        body: b"junk bytes".to_vec(),
    });
    match st {
        TaskState::Failed {
            error: Error::Decode { offset, .. },
        } => assert_eq!(offset, 0),
        other => panic!("expected a decode failure, got {:?}", other),
    }
}

#[test]
fn empty_archive_aborts_before_any_image_fetch() {
    let body = response_json(&[]);
    let mut files = Vec::new();
    let st = drive_task(
        2,
        HttpEvent::Response {
            status: 200,
            body: body.into_bytes(),
        },
        None, // the task must never ask for an image
        &mut files,
    );
    assert!(matches!(
        st,
        TaskState::Failed {
            error: Error::NotFound { offset: 2 }
        }
    ));
    assert!(matches!(st.next_action(), Action::Stop));
    assert!(files.is_empty());
}

#[test]
fn negative_offsets_fail_at_the_start() {
    let st = TaskState::start(-3);
    assert!(matches!(
        st,
        TaskState::Failed {
            error: Error::NotFound { offset: -3 }
        }
    ));
    assert!(matches!(st.next_action(), Action::Stop));
}

#[test]
fn resolved_url_drives_the_image_fetch() {
    let body = response_json(&[record_json("/th?id=OHR.Example_1920x1080.jpg")]);
    let st = TaskState::start(5);
    if let Action::QueryArchive { url } = st.next_action() {
        assert_eq!(
            url,
            "https://www.bing.com/HPImageArchive.aspx?format=js&idx=5&n=1"
        );
    } else {
        panic!("a fresh task must query the archive");
    }
    let st = st.on_archive_response(HttpEvent::Response {
        status: 200,
        body: body.into_bytes(),
    });
    match st.next_action() {
        Action::FetchImage { url } => {
            assert_eq!(url, "https://bing.com/th?id=OHR.Example_1920x1080.jpg");
        }
        _ => panic!("a resolved task must fetch the image"),
    }
}

#[test]
fn transport_failure_is_a_transport_error() {
    let st = TaskState::start(1);
    let st = st.on_archive_response(HttpEvent::TransportFailed {
        detail: String::from("connection refused"),
    });
    match st {
        TaskState::Failed {
            error: Error::Transport { offset, detail },
        } => {
            assert_eq!(offset, 1);
            assert_eq!(detail, "connection refused");
        }
        other => panic!("expected a transport failure, got {:?}", other),
    }
}

#[test]
fn failed_write_is_a_filesystem_error() {
    let body = response_json(&[record_json("/a.png")]);
    let st = TaskState::start(0)
        .on_archive_response(HttpEvent::Response {
            status: 200,
            body: body.into_bytes(),
        })
        .on_image_response(HttpEvent::Response {
            status: 200,
            body: tiny_png(1),
        });
    assert!(matches!(st, TaskState::ImageFetched { .. }));
    let st = st.on_write_result(WriteEvent::WriteFailed {
        detail: String::from("disk full"),
    });
    assert!(matches!(
        st,
        TaskState::Failed {
            error: Error::Filesystem { offset: 0, .. }
        }
    ));
}

#[test]
fn wallpaper_task_saves_to_the_fixed_name() {
    let st = TaskState::start_wallpaper();
    if let Action::QueryArchive { url } = st.next_action() {
        assert_eq!(
            url,
            "https://www.bing.com/HPImageArchive.aspx?format=js&idx=0&n=1"
        );
    } else {
        panic!("a fresh task must query the archive");
    }
    let body = response_json(&[record_json("/th?id=OHR.Example_1920x1080.jpg")]);
    let st = st.on_archive_response(HttpEvent::Response {
        status: 200,
        body: body.into_bytes(),
    });
    let st = st.on_image_response(HttpEvent::Response {
        status: 200,
        body: tiny_png(3),
    });
    match st.next_action() {
        Action::SaveFile { name, bytes } => {
            assert_eq!(name, "wallpaper.jpg");
            assert_eq!(image::guess_format(bytes).unwrap(), image::ImageFormat::Jpeg);
        }
        _ => panic!("expected a file write action"),
    }
}

#[test]
fn gif_bytes_are_sniffed_and_reencoded() {
    // The decoder must sniff the format from the content; a GIF body is
    // decoded and comes back as JPEG.
    let mut img = image::RgbaImage::new(3, 3);
    img.put_pixel(1, 1, image::Rgba([200, 100, 50, 255]));
    let mut gif_bytes = Vec::new();
    image::DynamicImage::ImageRgba8(img)
        .write_to(
            &mut std::io::Cursor::new(&mut gif_bytes),
            image::ImageFormat::Gif,
        )
        .unwrap();
    let jpeg = reencode_jpeg(0, &gif_bytes).unwrap();
    assert_eq!(image::guess_format(&jpeg).unwrap(), image::ImageFormat::Jpeg);
}

#[test]
fn eight_offsets_give_eight_jpeg_files() {
    let mut files = Vec::new();
    let mut batch = Batch::start((8..=15i64).collect());
    while let Some(offset) = batch.current() {
        let url = format!("/th?id=OHR.Example{}_1920x1080.jpg", offset);
        let body = response_json(&[record_json(&url)]);
        let st = drive_task(
            offset,
            HttpEvent::Response {
                status: 200,
                body: body.into_bytes(),
            },
            Some(HttpEvent::Response {
                status: 200,
                body: tiny_png(offset as u8),
            }),
            &mut files,
        );
        assert!(matches!(st, TaskState::Written { .. }));
        batch = batch.on_task_finished(st);
    }
    assert_eq!(batch.into_result(), Ok(()));
    assert_eq!(files.len(), 8);
    for (i, (name, bytes)) in files.iter().enumerate() {
        assert_eq!(*name, format!("{}.jpg", i + 8));
        let guessed = image::guess_format(bytes).unwrap();
        assert_eq!(guessed, image::ImageFormat::Jpeg);
        image::load_from_memory(bytes).unwrap();
    }
}

#[test]
fn server_error_on_the_second_offset_stops_the_batch() {
    let mut files = Vec::new();
    let mut batch = Batch::start(vec![0i64, 1i64]);
    while let Some(offset) = batch.current() {
        let archive = if offset == 0 {
            HttpEvent::Response {
                status: 200,
                body: response_json(&[record_json("/a.png")]).into_bytes(),
            }
        } else {
            HttpEvent::Response {
                status: 500,
                body: Vec::new(),
            }
        };
        let st = drive_task(
            offset,
            archive,
            Some(HttpEvent::Response {
                status: 200,
                body: tiny_png(7),
            }),
            &mut files,
        );
        batch = batch.on_task_finished(st);
    }
    assert_eq!(files.len(), 1);
    assert_eq!(files[0].0, "0.jpg");
    assert_eq!(
        batch.into_result(),
        Err(Error::Protocol {
            offset: 1,
            status: 500
        })
    );
}
