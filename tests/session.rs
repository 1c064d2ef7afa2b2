use qr_studio::{
    raster_source, ExportArtifact, ExportError, ExportFormat, ExportRequest, Phase, Session, RASTER_SIDE,
};

fn hello_session() -> Session {
    let mut s = Session::new();
    s.set_text("HELLO".to_string());
    assert_eq!(s.generate(), Ok(()));
    s
}

fn vector_doc(s: &Session) -> String {
    match s.export_as(ExportFormat::Vector) {
        ExportRequest::Ready(ExportArtifact::Vector { document }) => document,
        _ => panic!("vector export must be ready at once"),
    }
}

#[test]
fn new_session_is_idle_with_default_colors() {
    let s = Session::new();
    assert_eq!(s.phase(), Phase::Idle);
    assert_eq!(s.config().foreground, "#000000");
    assert_eq!(s.config().background, "#FFFFFF");
    assert!(!s.config().transparent_background);
    assert!(s.last_path().is_none());
    assert!(s.document().is_none());
}

#[test]
fn set_text_moves_between_idle_and_editing() {
    let mut s = Session::new();
    s.set_text("abc".to_string());
    assert_eq!(s.phase(), Phase::Editing);
    s.set_text(String::new());
    assert_eq!(s.phase(), Phase::Idle);
}

#[test]
fn generate_twice_gives_same_path() {
    let mut s = hello_session();
    assert_eq!(s.phase(), Phase::Generated);
    let first = s.last_path().unwrap().data();
    assert_eq!(s.generate(), Ok(()));
    assert_eq!(s.last_path().unwrap().data(), first);
    assert_eq!(s.phase(), Phase::Generated);
}

#[test]
fn set_text_to_same_value_invalidates() {
    let mut s = hello_session();
    s.set_text("HELLO".to_string());
    assert!(s.last_path().is_none());
    assert_eq!(s.phase(), Phase::Editing);
}

#[test]
fn transparent_background_has_no_fill() {
    let mut s = hello_session();
    s.set_background("#123456".to_string());
    s.set_transparent(true);
    let doc = vector_doc(&s);
    assert!(!doc.contains("<rect"));
    assert!(!doc.contains("#123456"));
    s.set_transparent(false);
    let doc = vector_doc(&s);
    assert_eq!(doc.matches("<rect").count(), 1);
    assert!(doc.contains("<rect width=\"100%\" height=\"100%\" fill=\"#123456\"/>"));
    assert!(doc.find("<rect").unwrap() < doc.find("<path").unwrap());
}

#[test]
fn hello_vector_export_round_trip() {
    let s = hello_session();
    let doc = vector_doc(&s);
    let d = s.last_path().unwrap().data();
    assert!(!d.is_empty());
    let expected = format!(
        "<svg xmlns=\"http://www.w3.org/2000/svg\" version=\"1.1\" viewBox=\"0 0 29 29\" stroke=\"none\"><rect width=\"100%\" height=\"100%\" fill=\"#FFFFFF\"/><path d=\"{}\" fill=\"#000000\"/></svg>",
        d
    );
    assert_eq!(doc, expected);
    assert_eq!(s.document().unwrap(), expected);
}

#[test]
fn colors_apply_without_regenerating() {
    let mut s = hello_session();
    let d = s.last_path().unwrap().data();
    s.set_foreground("#ff0000".to_string());
    assert_eq!(s.phase(), Phase::Generated);
    assert_eq!(s.last_path().unwrap().data(), d);
    assert!(vector_doc(&s).contains("fill=\"#ff0000\"/></svg>"));
}

#[test]
fn too_long_text_fails_without_state_change() {
    let mut s = Session::new();
    let long = "A".repeat(4300);
    s.set_text(long.clone());
    assert_eq!(s.generate(), Err(qr_studio::EncodeError::CapacityExceeded));
    assert_eq!(s.phase(), Phase::Editing);
    assert_eq!(s.text(), &long);
    assert!(s.last_path().is_none());
}

#[test]
fn raster_export_waits_for_decode_signal() {
    let s = hello_session();
    let mut job = match s.export_as(ExportFormat::Raster) {
        ExportRequest::Decode(job) => job,
        _ => panic!("raster export needs a decode"),
    };
    assert!(job.is_pending());
    assert!(job.artifact().is_none());
    assert_eq!(job.source(), &raster_source(&vector_doc(&s)));
    job.complete("data:image/png;base64,AAAA".to_string());
    match job.artifact() {
        Some(ExportArtifact::Raster { document, width, height }) => {
            assert_eq!(document, "data:image/png;base64,AAAA");
            assert_eq!((width, height), (290, 290));
        }
        _ => panic!("raster artifact expected"),
    }
    assert_eq!(RASTER_SIDE, 290);
    job.complete("data:image/png;base64,BBBB".to_string());
    assert_eq!(job.artifact().unwrap().document(), "data:image/png;base64,AAAA");
    assert_eq!(job.artifact().unwrap().file_name(), "qrcode.png");
}

#[test]
fn raster_failure_gives_no_artifact() {
    let s = hello_session();
    let mut job = match s.export_as(ExportFormat::Raster) {
        ExportRequest::Decode(job) => job,
        _ => panic!("raster export needs a decode"),
    };
    job.fail(ExportError::ImageDecodeFailed);
    assert!(job.artifact().is_none());
    assert_eq!(job.error(), Some(ExportError::ImageDecodeFailed));
    job.complete("late".to_string());
    assert!(job.artifact().is_none());
}

#[test]
fn raster_source_is_base64_data_url() {
    assert_eq!(raster_source(&"abc".to_string()), "data:image/svg+xml;base64,YWJj");
    assert_eq!(raster_source(&String::new()), "data:image/svg+xml;base64,");
}

#[test]
fn file_names_are_fixed() {
    assert_eq!(qr_studio::file_name(ExportFormat::Vector), "qrcode.svg");
    assert_eq!(qr_studio::file_name(ExportFormat::Raster), "qrcode.png");
    let a = ExportArtifact::Vector { document: "x".to_string() };
    assert_eq!(a.file_name(), "qrcode.svg");
    assert_eq!(a.format(), ExportFormat::Vector);
}
