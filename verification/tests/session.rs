use linkshot::session::{palette, saved_file_name, Mode, Session};
use linkshot::{Shape, Tool, Uploaded};

type S = Session<(i32, i32, i32, i32), [i32; 2], u32, Vec<u8>>;

fn editing() -> S {
    let mut s: S = Session::new(None, Ok(vec![1, 2, 3]), 4);
    s.begin_selection(Some([0, 0]));
    s.resize_selection((0, 0, 50, 50));
    s.end_selection(true);
    s
}

#[test]
fn new_session_defaults() {
    let s: S = Session::new(Some("cid".to_string()), Ok(vec![9]), 4);
    assert_eq!(s.mode, Mode::Selecting);
    assert_eq!(s.tool, Tool::Arrow);
    assert_eq!(s.color, [237, 28, 36, 255]);
    assert_eq!(s.client_id_input, "cid");
    assert_eq!(s.image, Some(vec![9]));
    assert!(s.error.is_none());
    assert!(s.annots.is_empty() && s.sel.is_none() && !s.uploading);
    let s: S = Session::new(None, Err("boom".to_string()), 4);
    assert_eq!(s.client_id_input, "");
    assert_eq!(s.error.as_deref(), Some("boom"));
    assert!(s.image.is_none());
    assert_eq!(palette().len(), 6);
    assert_eq!(palette()[3], [0, 162, 232, 255]);
}

#[test]
fn small_selection_is_dropped() {
    let mut s: S = Session::new(None, Ok(vec![1, 2, 3]), 4);
    s.begin_selection(Some([1, 1]));
    s.resize_selection((1, 1, 3, 3));
    s.end_selection(false);
    assert_eq!(s.mode, Mode::Selecting);
    assert!(s.sel.is_none());
    let s = editing();
    assert_eq!(s.mode, Mode::Editing);
    assert_eq!(s.sel, Some((0, 0, 50, 50)));
}

#[test]
fn stroke_then_undo() {
    let mut s = editing();
    s.select_tool(Tool::Pen);
    s.select_color([1, 2, 3, 4]);
    s.begin_stroke([5, 5]);
    s.move_stroke([6, 6]);
    s.move_stroke([7, 8]);
    s.end_stroke();
    assert_eq!(s.annots.len(), 1);
    assert_eq!(s.annots[0].color, [1, 2, 3, 4]);
    assert_eq!(s.annots[0].width, 4);
    match &s.annots[0].shape {
        Shape::Pen(pts) => assert_eq!(pts, &vec![[5, 5], [6, 6], [7, 8]]),
        _ => panic!("expected a stroke"),
    }
    assert!(s.in_progress.is_none());
    s.undo();
    assert!(s.annots.is_empty());
    s.undo();
    assert!(s.annots.is_empty());
}

#[test]
fn no_strokes_while_selecting() {
    let mut s: S = Session::new(None, Ok(vec![1, 2, 3]), 4);
    s.begin_stroke([1, 1]);
    s.move_stroke([2, 2]);
    s.end_stroke();
    assert!(s.annots.is_empty() && s.in_progress.is_none());
}

#[test]
fn reselect_starts_over() {
    let mut s = editing();
    s.begin_stroke([1, 1]);
    s.end_stroke();
    s.begin_stroke([2, 2]);
    s.reselect();
    assert_eq!(s.mode, Mode::Selecting);
    assert!(s.sel.is_none() && s.annots.is_empty() && s.in_progress.is_none());
}

#[test]
fn upload_flow_statuses() {
    let mut s = editing();
    assert_eq!(s.request_upload(None), None);
    assert!(s.show_settings);
    assert_eq!(s.status, "Set an Imgur Client-ID first.");
    assert_eq!(s.request_upload(Some("id".to_string())), Some("id".to_string()));
    s.render_failed("bad image size");
    assert_eq!(s.status, "Render error: bad image size");
    s.upload_started();
    assert!(s.uploading);
    assert_eq!(s.status, "Uploading…");
    let link = s.upload_finished(Ok(Uploaded { link: "https://i/x.png".to_string(), deletehash: Some("DH".to_string()) }));
    assert_eq!(link.as_deref(), Some("https://i/x.png"));
    assert!(!s.uploading);
    assert_eq!(s.status, "Uploaded — link copied. Delete hash: DH");
    assert_eq!(s.result_link.as_deref(), Some("https://i/x.png"));
    s.upload_started();
    assert_eq!(s.upload_finished(Ok(Uploaded { link: "l".to_string(), deletehash: None })).as_deref(), Some("l"));
    assert_eq!(s.status, "Uploaded — link copied to clipboard.");
    s.upload_started();
    assert_eq!(s.upload_finished(Err("upload thread died".to_string())), None);
    assert_eq!(s.status, "Upload failed: upload thread died");
    assert_eq!(s.result_link.as_deref(), Some("l"));
    assert!(!s.uploading);
}

#[test]
fn save_and_settings_statuses() {
    let mut s = editing();
    s.save_finished(Ok("/home/u/Pictures/linkshot-7.png".to_string()));
    assert_eq!(s.status, "Saved to /home/u/Pictures/linkshot-7.png");
    s.save_finished(Err("denied".to_string()));
    assert_eq!(s.status, "Save error: denied");
    s.show_settings = true;
    s.settings_saved(Ok(()));
    assert_eq!(s.status, "Client-ID saved.");
    assert!(!s.show_settings);
    s.show_settings = true;
    s.settings_saved(Err("disk full".to_string()));
    assert_eq!(s.status, "Save error: disk full");
    s.show_settings = true;
    s.settings_cancelled();
    assert!(!s.show_settings);
    assert_eq!(saved_file_name(31337), "linkshot-31337.png");
}

#[test]
fn hint_line() {
    let s: S = Session::new(None, Ok(vec![1, 2, 3]), 4);
    assert_eq!(s.hint_text(), "Drag to select a region · Esc to cancel");
    assert!(s.shows_hint());
    let mut s = editing();
    assert_eq!(s.hint_text(), "");
    assert!(!s.shows_hint());
    s.result_link = Some("l".to_string());
    assert!(s.shows_hint());
    s.render_failed("x");
    assert_eq!(s.hint_text(), "Render error: x");
}

#[test]
fn error_stays_and_selecting_stays_blank() {
    let mut s: S = Session::new(None, Err("boom".to_string()), 4);
    s.begin_stroke([1, 1]);
    s.end_stroke();
    s.undo();
    s.upload_started();
    s.reselect();
    s.end_selection(false);
    assert_eq!(s.error.as_deref(), Some("boom"));
    assert!(s.image.is_none());
    assert_eq!(s.mode, Mode::Selecting);
    assert!(s.annots.is_empty() && s.in_progress.is_none());
}
