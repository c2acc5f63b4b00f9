//! The state of one capture-and-annotate session, and how the user's actions
//! change it.
//!
//! The session starts by selecting a region; once one is selected, drags
//! draw annotations with the chosen tool, colour and width. Uploading and
//! saving report back through a status line. The session is generic over
//! the selection rectangle `R`, the point type `P` and the stroke-width type
//! `W`: nothing here reads a coordinate. What depends on geometry (whether a
//! selection is large enough, whether a point lies inside it) is decided by
//! the caller and handed in.

use vstd::prelude::*;

use crate::editor::{Annot, AnnotView, Shape, ShapeView, Tool};
use crate::text::{concat_str, decimal, opt_view, owned, push_decimal, push_str};

verus! {

/// Whether the user is selecting a region or annotating the selected one.
#[derive(Clone, Copy, PartialEq, Eq, Structural, Debug)]
pub enum Mode {
    Selecting,
    Editing,
}

/// The colours offered by the toolbar, as RGBA.
pub open spec fn palette_spec() -> Seq<[u8; 4]> {
    seq![
        [237u8, 28u8, 36u8, 255u8],
        [255u8, 201u8, 14u8, 255u8],
        [34u8, 177u8, 76u8, 255u8],
        [0u8, 162u8, 232u8, 255u8],
        [255u8, 255u8, 255u8, 255u8],
        [0u8, 0u8, 0u8, 255u8],
    ]
}

/// The colours offered by the toolbar, as RGBA.
pub fn palette() -> (p: [[u8; 4]; 6])
    ensures
        p@ == palette_spec(),
{
    let p = [
        [237u8, 28u8, 36u8, 255u8],
        [255u8, 201u8, 14u8, 255u8],
        [34u8, 177u8, 76u8, 255u8],
        [0u8, 162u8, 232u8, 255u8],
        [255u8, 255u8, 255u8, 255u8],
        [0u8, 0u8, 0u8, 255u8],
    ];
    assert(p@ =~= palette_spec());
    p
}

/// The state of a session.
pub struct Session<R, P, W, I> {
    pub mode: Mode,
    /// The selected region.
    pub sel: Option<R>,
    /// Where the drag that selects a region started.
    pub sel_start: Option<P>,
    /// The finished annotations, oldest first.
    pub annots: Vec<Annot<P, W>>,
    /// The annotation being drawn.
    pub in_progress: Option<Annot<P, W>>,
    pub tool: Tool,
    pub color: [u8; 4],
    pub width: W,
    /// Whether an upload is running.
    pub uploading: bool,
    /// The status line.
    pub status: String,
    /// The link of the last upload.
    pub result_link: Option<String>,
    /// Whether the settings window is open.
    pub show_settings: bool,
    /// The settings window's Client-ID field.
    pub client_id_input: String,
    /// The captured screen, if the capture succeeded.
    pub image: Option<I>,
    /// Why the capture failed, if it did.
    pub error: Option<String>,
}

/// What a [`Session`] holds.
pub struct SessionView<R, P, W, I> {
    pub mode: Mode,
    pub sel: Option<R>,
    pub sel_start: Option<P>,
    pub annots: Seq<AnnotView<P, W>>,
    pub in_progress: Option<AnnotView<P, W>>,
    pub tool: Tool,
    pub color: [u8; 4],
    pub width: W,
    pub uploading: bool,
    pub status: Seq<char>,
    pub result_link: Option<Seq<char>>,
    pub show_settings: bool,
    pub client_id_input: Seq<char>,
    pub image: Option<I>,
    pub error: Option<Seq<char>>,
}

pub open spec fn annot_views<P, W>(s: Seq<Annot<P, W>>) -> Seq<AnnotView<P, W>> {
    s.map_values(|a: Annot<P, W>| a@)
}

pub open spec fn opt_annot_view<P, W>(a: Option<Annot<P, W>>) -> Option<AnnotView<P, W>> {
    match a {
        Some(x) => Some(x@),
        None => None,
    }
}

impl<R, P, W, I> View for Session<R, P, W, I> {
    type V = SessionView<R, P, W, I>;

    open spec fn view(&self) -> SessionView<R, P, W, I> {
        SessionView {
            mode: self.mode,
            sel: self.sel,
            sel_start: self.sel_start,
            annots: annot_views(self.annots@),
            in_progress: opt_annot_view(self.in_progress),
            tool: self.tool,
            color: self.color,
            width: self.width,
            uploading: self.uploading,
            status: self.status@,
            result_link: opt_view(self.result_link),
            show_settings: self.show_settings,
            client_id_input: self.client_id_input@,
            image: self.image,
            error: opt_view(self.error),
        }
    }
}

/// The status after an upload succeeded.
pub open spec fn uploaded_text(deletehash: Option<Seq<char>>) -> Seq<char> {
    match deletehash {
        Some(h) => "Uploaded — link copied. Delete hash: "@ + h,
        None => "Uploaded — link copied to clipboard."@,
    }
}

/// The hint shown while selecting.
pub open spec fn selecting_hint() -> Seq<char> {
    "Drag to select a region · Esc to cancel"@
}

impl<R, P, W, I> SessionView<R, P, W, I> {
    /// A fresh session: selecting, with the arrow tool, the first palette
    /// colour, the settings field filled with the stored Client-ID, and the
    /// captured image or, when the capture failed, its error.
    pub open spec fn initial(
        stored_client_id: Option<Seq<char>>,
        capture: Result<I, Seq<char>>,
        width: W,
    ) -> Self {
        SessionView {
            mode: Mode::Selecting,
            sel: None,
            sel_start: None,
            annots: Seq::empty(),
            in_progress: None,
            tool: Tool::Arrow,
            color: palette_spec()[0],
            width: width,
            uploading: false,
            status: Seq::empty(),
            result_link: None,
            show_settings: false,
            client_id_input: match stored_client_id {
                Some(s) => s,
                None => Seq::empty(),
            },
            image: match capture {
                Ok(img) => Some(img),
                Err(_) => None,
            },
            error: match capture {
                Ok(_) => None,
                Err(e) => Some(e),
            },
        }
    }

    /// Undo: the last finished annotation is dropped.
    pub open spec fn undone(self) -> Self {
        SessionView { annots: if self.annots.len() > 0 { self.annots.drop_last() } else { self.annots }, ..self }
    }

    /// Reselect: back to selecting, with no selection and no annotations.
    pub open spec fn reselected(self) -> Self {
        SessionView { mode: Mode::Selecting, sel: None, annots: Seq::empty(), in_progress: None, ..self }
    }

    pub open spec fn with_tool(self, tool: Tool) -> Self {
        SessionView { tool: tool, ..self }
    }

    pub open spec fn with_color(self, color: [u8; 4]) -> Self {
        SessionView { color: color, ..self }
    }

    /// A selecting drag starts at `at`.
    pub open spec fn selection_begun(self, at: Option<P>) -> Self {
        if self.mode == Mode::Selecting {
            SessionView { sel_start: at, ..self }
        } else {
            self
        }
    }

    /// A selecting drag now covers `r`.
    pub open spec fn selection_resized(self, r: R) -> Self {
        if self.mode == Mode::Selecting {
            SessionView { sel: Some(r), ..self }
        } else {
            self
        }
    }

    /// A selecting drag ends: a selection large enough starts the editing,
    /// any other is dropped.
    pub open spec fn selection_ended(self, large_enough: bool) -> Self {
        if self.mode == Mode::Selecting {
            if self.sel is Some && large_enough {
                SessionView { mode: Mode::Editing, ..self }
            } else {
                SessionView { sel: None, ..self }
            }
        } else {
            self
        }
    }

    /// An editing drag starts at `at`: a new annotation with the current
    /// tool, colour and width.
    pub open spec fn stroke_begun(self, at: P) -> Self {
        if self.mode == Mode::Editing {
            SessionView {
                in_progress: Some(
                    AnnotView {
                        shape: ShapeView::started(self.tool, at),
                        color: self.color,
                        width: self.width,
                    },
                ),
                ..self
            }
        } else {
            self
        }
    }

    /// An editing drag moves on to `to`.
    pub open spec fn stroke_moved(self, to: P) -> Self {
        if self.mode == Mode::Editing && self.in_progress is Some {
            let a = self.in_progress->0;
            SessionView {
                in_progress: Some(AnnotView { shape: a.shape.extended(to), ..a }),
                ..self
            }
        } else {
            self
        }
    }

    /// An editing drag ends: the annotation being drawn is finished.
    pub open spec fn stroke_ended(self) -> Self {
        if self.mode == Mode::Editing {
            match self.in_progress {
                Some(a) => SessionView { annots: self.annots.push(a), in_progress: None, ..self },
                None => self,
            }
        } else {
            self
        }
    }

    /// An upload is asked for with the Client-ID in effect: without one, the
    /// settings open and the status says to set one.
    pub open spec fn upload_requested(self, client_id: Option<Seq<char>>) -> Self {
        if client_id is None {
            SessionView {
                show_settings: true,
                status: "Set an Imgur Client-ID first."@,
                ..self
            }
        } else {
            self
        }
    }

    /// The annotated image could not be rendered.
    pub open spec fn render_failed(self, err: Seq<char>) -> Self {
        SessionView { status: "Render error: "@ + err, ..self }
    }

    /// The upload has started.
    pub open spec fn upload_started(self) -> Self {
        SessionView { uploading: true, status: "Uploading…"@, ..self }
    }

    /// The upload has finished with the link and delete token, or the error's message.
    pub open spec fn upload_finished(
        self,
        result: Result<(Seq<char>, Option<Seq<char>>), Seq<char>>,
    ) -> Self {
        match result {
            Ok((link, deletehash)) => SessionView {
                uploading: false,
                status: uploaded_text(deletehash),
                result_link: Some(link),
                ..self
            },
            Err(e) => SessionView { uploading: false, status: "Upload failed: "@ + e, ..self },
        }
    }

    /// Saving finished, to the displayed path or with the error's message.
    pub open spec fn save_finished(self, result: Result<Seq<char>, Seq<char>>) -> Self {
        match result {
            Ok(path) => SessionView { status: "Saved to "@ + path, ..self },
            Err(e) => SessionView { status: "Save error: "@ + e, ..self },
        }
    }

    /// The settings were saved, or saving them failed; the window closes.
    pub open spec fn settings_saved(self, result: Result<(), Seq<char>>) -> Self {
        match result {
            Ok(_) => SessionView { status: "Client-ID saved."@, show_settings: false, ..self },
            Err(e) => SessionView { status: "Save error: "@ + e, show_settings: false, ..self },
        }
    }

    /// The settings window was cancelled.
    pub open spec fn settings_cancelled(self) -> Self {
        SessionView { show_settings: false, ..self }
    }

    /// The hint line: the status when there is one, else the selecting hint
    /// while selecting, else nothing.
    pub open spec fn hint_text(self) -> Seq<char> {
        if self.status.len() > 0 {
            self.status
        } else if self.mode == Mode::Selecting {
            selecting_hint()
        } else {
            Seq::empty()
        }
    }

    /// The hint area shows when it has a text or a link.
    pub open spec fn shows_hint(self) -> bool {
        self.hint_text().len() > 0 || self.result_link is Some
    }

    /// In editing there is always a selection.
    pub open spec fn consistent(self) -> bool {
        self.mode == Mode::Editing ==> self.sel is Some
    }

    /// There is a captured image exactly when there is no capture error.
    pub open spec fn capture_consistent(self) -> bool {
        self.error is Some <==> self.image is None
    }

    /// While selecting, nothing is drawn and nothing is being drawn.
    pub open spec fn blank_while_selecting(self) -> bool {
        self.mode == Mode::Selecting ==> self.annots.len() == 0 && self.in_progress is None
    }
}

impl<R, P: Copy, W: Copy, I> Session<R, P, W, I> {
    /// A fresh session, with the stored Client-ID, the captured image or the
    /// capture's error, and the initial stroke width.
    pub fn new(stored_client_id: Option<String>, capture: Result<I, String>, width: W) -> (s: Self)
        ensures
            s@ == SessionView::<R, P, W, I>::initial(
                opt_view(stored_client_id),
                match capture {
                    Ok(img) => Ok(img),
                    Err(e) => Err(e@),
                },
                width,
            ),
    {
        let (image, error) = match capture {
            Ok(img) => (Some(img), None),
            Err(e) => (None, Some(e)),
        };
        let client_id_input = match stored_client_id {
            Some(c) => c,
            None => String::new(),
        };
        let p = palette();
        let s = Session {
            mode: Mode::Selecting,
            sel: None,
            sel_start: None,
            annots: Vec::new(),
            in_progress: None,
            tool: Tool::Arrow,
            color: p[0],
            width,
            uploading: false,
            status: String::new(),
            result_link: None,
            show_settings: false,
            client_id_input,
            image,
            error,
        };
        assert(s@.annots =~= Seq::<AnnotView<P, W>>::empty());
        assert(s@.status =~= Seq::<char>::empty());
        s
    }

    /// Drops the last finished annotation.
    pub fn undo(&mut self)
        ensures
            final(self)@ == old(self)@.undone(),
    {
        let ghost before = self.annots@;
        let _ = self.annots.pop();
        assert(annot_views(self.annots@) =~= if before.len() > 0 {
            annot_views(before).drop_last()
        } else {
            annot_views(before)
        });
    }

    /// Back to selecting, with no selection and no annotations.
    pub fn reselect(&mut self)
        ensures
            final(self)@ == old(self)@.reselected(),
    {
        self.mode = Mode::Selecting;
        self.sel = None;
        self.annots.clear();
        self.in_progress = None;
        assert(annot_views(self.annots@) =~= Seq::<AnnotView<P, W>>::empty());
    }

    pub fn select_tool(&mut self, tool: Tool)
        ensures
            final(self)@ == old(self)@.with_tool(tool),
    {
        self.tool = tool;
    }

    pub fn select_color(&mut self, color: [u8; 4])
        ensures
            final(self)@ == old(self)@.with_color(color),
    {
        self.color = color;
    }

    /// A selecting drag starts at `at`, the pointer's position if known.
    pub fn begin_selection(&mut self, at: Option<P>)
        ensures
            final(self)@ == old(self)@.selection_begun(at),
    {
        if self.mode == Mode::Selecting {
            self.sel_start = at;
        }
    }

    /// A selecting drag now covers `r`.
    pub fn resize_selection(&mut self, r: R)
        ensures
            final(self)@ == old(self)@.selection_resized(r),
    {
        if self.mode == Mode::Selecting {
            self.sel = Some(r);
        }
    }

    /// A selecting drag ends; `large_enough` says whether the selection is
    /// large enough to annotate.
    pub fn end_selection(&mut self, large_enough: bool)
        ensures
            final(self)@ == old(self)@.selection_ended(large_enough),
    {
        if self.mode == Mode::Selecting {
            if self.sel.is_some() && large_enough {
                self.mode = Mode::Editing;
            } else {
                self.sel = None;
            }
        }
    }

    /// An editing drag starts at `at`, already clamped to the selection.
    pub fn begin_stroke(&mut self, at: P)
        ensures
            final(self)@ == old(self)@.stroke_begun(at),
    {
        if self.mode == Mode::Editing {
            let shape = Shape::start(self.tool, at);
            self.in_progress = Some(Annot { shape, color: self.color, width: self.width });
        }
    }

    /// An editing drag moves on to `to`, already clamped to the selection.
    pub fn move_stroke(&mut self, to: P)
        ensures
            final(self)@ == old(self)@.stroke_moved(to),
    {
        if self.mode == Mode::Editing {
            match &mut self.in_progress {
                Some(a) => a.shape.extend(to),
                None => {},
            }
        }
    }

    /// An editing drag ends: the annotation being drawn is finished.
    pub fn end_stroke(&mut self)
        ensures
            final(self)@ == old(self)@.stroke_ended(),
    {
        if self.mode == Mode::Editing {
            let ghost before = self.annots@;
            match self.in_progress.take() {
                Some(a) => {
                    self.annots.push(a);
                    assert(annot_views(self.annots@) =~= annot_views(before).push(a@));
                },
                None => {},
            }
        }
    }

    /// An upload is asked for with the Client-ID in effect; the Client-ID
    /// comes back when the upload can go ahead.
    pub fn request_upload(&mut self, client_id: Option<String>) -> (r: Option<String>)
        ensures
            final(self)@ == old(self)@.upload_requested(opt_view(client_id)),
            r == client_id,
    {
        if client_id.is_none() {
            self.show_settings = true;
            self.status = owned("Set an Imgur Client-ID first.");
        }
        client_id
    }

    /// The annotated image could not be rendered; `err` says why.
    pub fn render_failed(&mut self, err: &str)
        ensures
            final(self)@ == old(self)@.render_failed(err@),
    {
        self.status = concat_str("Render error: ", err);
    }

    /// The upload has started.
    pub fn upload_started(&mut self)
        ensures
            final(self)@ == old(self)@.upload_started(),
    {
        self.uploading = true;
        self.status = owned("Uploading…");
    }

    /// The upload has finished, with its result or the error's message; on
    /// success the link comes back to be copied to the clipboard.
    pub fn upload_finished(&mut self, result: Result<crate::imgur::Uploaded, String>) -> (r: Option<
        String,
    >)
        ensures
            final(self)@ == old(self)@.upload_finished(
                match result {
                    Ok(u) => Ok((u.link@, opt_view(u.deletehash))),
                    Err(e) => Err(e@),
                },
            ),
            match result {
                Ok(u) => r == Some(u.link),
                Err(_) => r is None,
            },
    {
        self.uploading = false;
        match result {
            Ok(up) => {
                self.status = match &up.deletehash {
                    Some(h) => concat_str("Uploaded — link copied. Delete hash: ", h.as_str()),
                    None => owned("Uploaded — link copied to clipboard."),
                };
                let link = up.link.clone();
                self.result_link = Some(up.link);
                Some(link)
            },
            Err(e) => {
                self.status = concat_str("Upload failed: ", e.as_str());
                None
            },
        }
    }

    /// Saving finished, to the displayed path or with the error's message.
    pub fn save_finished(&mut self, result: Result<String, String>)
        ensures
            final(self)@ == old(self)@.save_finished(
                match result {
                    Ok(p) => Ok(p@),
                    Err(e) => Err(e@),
                },
            ),
    {
        match result {
            Ok(path) => self.status = concat_str("Saved to ", path.as_str()),
            Err(e) => self.status = concat_str("Save error: ", e.as_str()),
        }
    }

    /// The settings were saved, or saving them failed with the error's message.
    pub fn settings_saved(&mut self, result: Result<(), String>)
        ensures
            final(self)@ == old(self)@.settings_saved(
                match result {
                    Ok(_) => Ok(()),
                    Err(e) => Err(e@),
                },
            ),
    {
        match result {
            Ok(_) => self.status = owned("Client-ID saved."),
            Err(e) => self.status = concat_str("Save error: ", e.as_str()),
        }
        self.show_settings = false;
    }

    /// The settings window was cancelled.
    pub fn settings_cancelled(&mut self)
        ensures
            final(self)@ == old(self)@.settings_cancelled(),
    {
        self.show_settings = false;
    }

    /// The hint line.
    pub fn hint_text(&self) -> (r: String)
        ensures
            r@ == self@.hint_text(),
    {
        if !self.status.as_str().is_empty() {
            self.status.clone()
        } else if self.mode == Mode::Selecting {
            owned("Drag to select a region · Esc to cancel")
        } else {
            String::new()
        }
    }

    /// Whether the hint area shows.
    pub fn shows_hint(&self) -> (r: bool)
        ensures
            r == self@.shows_hint(),
    {
        let t = self.hint_text();
        !t.as_str().is_empty() || self.result_link.is_some()
    }
}

/// The file name under the pictures directory that a saved image gets.
pub open spec fn saved_file_name_spec(pid: u32) -> Seq<char> {
    "linkshot-"@ + decimal(pid as nat) + ".png"@
}

/// The file name under the pictures directory that a saved image gets.
pub fn saved_file_name(pid: u32) -> (r: String)
    ensures
        r@ == saved_file_name_spec(pid),
{
    let mut r = owned("linkshot-");
    push_decimal(&mut r, pid as u64);
    push_str(&mut r, ".png");
    r
}

// ---------------------------------------------------------------------------
// Laws
// ---------------------------------------------------------------------------

/// A selecting drag starts where the pointer is, and a selecting drag that
/// moves makes the selection the rectangle it now covers; in editing, both
/// leave the session as it is.
pub proof fn law_selection_follows_drag<R, P, W, I>(s: SessionView<R, P, W, I>, at: Option<P>, r: R)
    ensures
        s.mode == Mode::Selecting ==> s.selection_begun(at).sel_start == at,
        s.mode == Mode::Selecting ==> s.selection_resized(r).sel == Some(r),
        s.mode == Mode::Editing ==> s.selection_begun(at) == s,
        s.mode == Mode::Editing ==> s.selection_resized(r) == s,
{
}

/// A selecting drag that ends on a selection large enough starts the
/// editing of that selection; one that ends on a smaller selection, or on
/// none, drops it and the user goes on selecting.
pub proof fn law_selection_end<R, P, W, I>(s: SessionView<R, P, W, I>, large_enough: bool)
    requires
        s.mode == Mode::Selecting,
    ensures
        s.sel is Some && large_enough ==> s.selection_ended(large_enough).mode == Mode::Editing
            && s.selection_ended(large_enough).sel == s.sel,
        !(s.sel is Some && large_enough) ==> s.selection_ended(large_enough).mode
            == Mode::Selecting && s.selection_ended(large_enough).sel is None,
        s.selection_ended(large_enough).annots == s.annots,
{
}

/// What the status line says after each outcome: a missing Client-ID opens
/// the settings and asks for one, while a Client-ID lets the upload go on
/// untouched; a render, upload, save or settings outcome is reported with
/// its link text, path or error message.
pub proof fn law_status_reports<R, P, W, I>(
    s: SessionView<R, P, W, I>,
    id: Seq<char>,
    link: Seq<char>,
    hash: Seq<char>,
    path: Seq<char>,
    e: Seq<char>,
)
    ensures
        s.upload_requested(None).show_settings,
        s.upload_requested(None).status == "Set an Imgur Client-ID first."@,
        s.upload_requested(Some(id)) == s,
        s.render_failed(e).status == "Render error: "@ + e,
        s.upload_started().uploading,
        s.upload_started().status == "Uploading…"@,
        s.upload_finished(Ok((link, Some(hash)))).status == "Uploaded — link copied. Delete hash: "@
            + hash,
        s.upload_finished(Ok((link, None))).status == "Uploaded — link copied to clipboard."@,
        s.upload_finished(Err(e)).status == "Upload failed: "@ + e,
        s.save_finished(Ok(path)).status == "Saved to "@ + path,
        s.save_finished(Err(e)).status == "Save error: "@ + e,
        s.settings_saved(Ok(())).status == "Client-ID saved."@,
        !s.settings_saved(Ok(())).show_settings,
        s.settings_saved(Err(e)).status == "Save error: "@ + e,
        !s.settings_saved(Err(e)).show_settings,
        !s.settings_cancelled().show_settings,
{
}

/// Picking a tool or a colour in the toolbar makes it the current one and
/// changes nothing else that is drawn.
pub proof fn law_toolbar_picks<R, P, W, I>(s: SessionView<R, P, W, I>, tool: Tool, color: [u8; 4])
    ensures
        s.with_tool(tool).tool == tool,
        s.with_tool(tool).color == s.color,
        s.with_tool(tool).annots == s.annots,
        s.with_color(color).color == color,
        s.with_color(color).tool == s.tool,
        s.with_color(color).annots == s.annots,
{
}

/// In editing, after picking a tool, a drag from `at` to `to` adds one
/// annotation drawn with that tool from `at` to `to`, in the current colour
/// and width, after the ones already there.
pub proof fn law_picked_tool_draws<R, P, W, I>(s: SessionView<R, P, W, I>, tool: Tool, at: P, to: P)
    requires
        s.mode == Mode::Editing,
    ensures
        ({
            let t = s.with_tool(tool).stroke_begun(at).stroke_moved(to).stroke_ended();
            let a = t.annots.last();
            &&& t.annots.len() == s.annots.len() + 1
            &&& t.annots.drop_last() == s.annots
            &&& a.color == s.color
            &&& a.width == s.width
            &&& t.in_progress is None
            &&& tool == Tool::Line ==> a.shape == ShapeView::Line(at, to)
            &&& tool == Tool::Arrow ==> a.shape == ShapeView::Arrow(at, to)
            &&& tool == Tool::Rect ==> a.shape == ShapeView::Rect(at, to)
            &&& tool == Tool::Pen ==> a.shape == ShapeView::Pen(seq![at, to])
        }),
{
    let t = s.with_tool(tool).stroke_begun(at).stroke_moved(to).stroke_ended();
    assert(t.annots.drop_last() =~= s.annots);
    assert(seq![at].push(to) =~= seq![at, to]);
}

/// Undo takes back the annotation that a completed drag added.
pub proof fn law_undo_takes_back_stroke<R, P, W, I>(s: SessionView<R, P, W, I>, at: P)
    requires
        s.mode == Mode::Editing,
    ensures
        s.stroke_begun(at).stroke_ended().undone().annots == s.annots,
        s.stroke_begun(at).stroke_ended().annots.len() == s.annots.len() + 1,
{
    assert(s.stroke_begun(at).stroke_ended().annots.drop_last() =~= s.annots);
}

/// A finished annotation keeps the tool, colour and width in force when its
/// drag started.
pub proof fn law_stroke_uses_current_style<R, P, W, I>(s: SessionView<R, P, W, I>, at: P, to: P)
    requires
        s.mode == Mode::Editing,
    ensures
        ({
            let a = s.stroke_begun(at).stroke_moved(to).stroke_ended().annots.last();
            &&& a.shape.tool_of() == s.tool
            &&& a.color == s.color
            &&& a.width == s.width
        }),
{
}

/// Nothing is drawn while selecting: drags leave the annotations alone.
pub proof fn law_no_strokes_while_selecting<R, P, W, I>(s: SessionView<R, P, W, I>, at: P, to: P)
    requires
        s.mode == Mode::Selecting,
    ensures
        s.stroke_begun(at).stroke_moved(to).stroke_ended() == s,
{
}

/// After reselecting, there is nothing to undo and nothing drawn until a new
/// region is selected.
pub proof fn law_reselect_starts_over<R, P, W, I>(s: SessionView<R, P, W, I>, at: P, to: P)
    ensures
        s.reselected().annots.len() == 0,
        s.reselected().sel is None,
        s.reselected().undone() == s.reselected(),
        s.reselected().stroke_begun(at).stroke_moved(to).stroke_ended() == s.reselected(),
{
}

/// Editing always has a selection: every action keeps it so.
pub proof fn law_editing_has_selection<R, P, W, I>(
    s: SessionView<R, P, W, I>,
    at: Option<P>,
    p: P,
    r: R,
    large_enough: bool,
    tool: Tool,
    color: [u8; 4],
    client_id: Option<Seq<char>>,
    text: Seq<char>,
    upload: Result<(Seq<char>, Option<Seq<char>>), Seq<char>>,
    saved: Result<Seq<char>, Seq<char>>,
    settings: Result<(), Seq<char>>,
)
    requires
        s.consistent(),
    ensures
        s.undone().consistent(),
        s.reselected().consistent(),
        s.with_tool(tool).consistent(),
        s.with_color(color).consistent(),
        s.selection_begun(at).consistent(),
        s.selection_resized(r).consistent(),
        s.selection_ended(large_enough).consistent(),
        s.stroke_begun(p).consistent(),
        s.stroke_moved(p).consistent(),
        s.stroke_ended().consistent(),
        s.upload_requested(client_id).consistent(),
        s.render_failed(text).consistent(),
        s.upload_started().consistent(),
        s.upload_finished(upload).consistent(),
        s.save_finished(saved).consistent(),
        s.settings_saved(settings).consistent(),
        s.settings_cancelled().consistent(),
{
}

/// Editing starts only from a selecting drag that ends on a selection the
/// caller found large enough; no other action starts it.
pub proof fn law_editing_follows_large_selection<R, P, W, I>(
    s: SessionView<R, P, W, I>,
    at: Option<P>,
    p: P,
    r: R,
    large_enough: bool,
    tool: Tool,
    color: [u8; 4],
    client_id: Option<Seq<char>>,
    text: Seq<char>,
    upload: Result<(Seq<char>, Option<Seq<char>>), Seq<char>>,
    saved: Result<Seq<char>, Seq<char>>,
    settings: Result<(), Seq<char>>,
)
    requires
        s.mode == Mode::Selecting,
    ensures
        s.selection_ended(large_enough).mode == Mode::Editing ==> large_enough && s.sel is Some
            && s.selection_ended(large_enough).sel == s.sel,
        s.undone().mode == Mode::Selecting,
        s.reselected().mode == Mode::Selecting,
        s.with_tool(tool).mode == Mode::Selecting,
        s.with_color(color).mode == Mode::Selecting,
        s.selection_begun(at).mode == Mode::Selecting,
        s.selection_resized(r).mode == Mode::Selecting,
        s.stroke_begun(p).mode == Mode::Selecting,
        s.stroke_moved(p).mode == Mode::Selecting,
        s.stroke_ended().mode == Mode::Selecting,
        s.upload_requested(client_id).mode == Mode::Selecting,
        s.render_failed(text).mode == Mode::Selecting,
        s.upload_started().mode == Mode::Selecting,
        s.upload_finished(upload).mode == Mode::Selecting,
        s.save_finished(saved).mode == Mode::Selecting,
        s.settings_saved(settings).mode == Mode::Selecting,
        s.settings_cancelled().mode == Mode::Selecting,
{
}

/// A fresh session has nothing drawn while selecting, is not editing, and
/// has a captured image exactly when the capture did not fail.
pub proof fn law_fresh_session<R, P, W, I>(
    stored_client_id: Option<Seq<char>>,
    capture: Result<I, Seq<char>>,
    width: W,
)
    ensures
        SessionView::<R, P, W, I>::initial(stored_client_id, capture, width).blank_while_selecting(),
        SessionView::<R, P, W, I>::initial(stored_client_id, capture, width).consistent(),
        SessionView::<R, P, W, I>::initial(stored_client_id, capture, width).capture_consistent(),
        SessionView::<R, P, W, I>::initial(stored_client_id, capture, width).error is Some
            <==> capture is Err,
{
}

/// Nothing is drawn while selecting: every action keeps a selecting session
/// free of annotations, finished or in progress.
pub proof fn law_selecting_has_no_annotations<R, P, W, I>(
    s: SessionView<R, P, W, I>,
    at: Option<P>,
    p: P,
    r: R,
    large_enough: bool,
    tool: Tool,
    color: [u8; 4],
    client_id: Option<Seq<char>>,
    text: Seq<char>,
    upload: Result<(Seq<char>, Option<Seq<char>>), Seq<char>>,
    saved: Result<Seq<char>, Seq<char>>,
    settings: Result<(), Seq<char>>,
)
    requires
        s.blank_while_selecting(),
    ensures
        s.undone().blank_while_selecting(),
        s.reselected().blank_while_selecting(),
        s.with_tool(tool).blank_while_selecting(),
        s.with_color(color).blank_while_selecting(),
        s.selection_begun(at).blank_while_selecting(),
        s.selection_resized(r).blank_while_selecting(),
        s.selection_ended(large_enough).blank_while_selecting(),
        s.stroke_begun(p).blank_while_selecting(),
        s.stroke_moved(p).blank_while_selecting(),
        s.stroke_ended().blank_while_selecting(),
        s.upload_requested(client_id).blank_while_selecting(),
        s.render_failed(text).blank_while_selecting(),
        s.upload_started().blank_while_selecting(),
        s.upload_finished(upload).blank_while_selecting(),
        s.save_finished(saved).blank_while_selecting(),
        s.settings_saved(settings).blank_while_selecting(),
        s.settings_cancelled().blank_while_selecting(),
{
    assert(s.reselected().annots.len() == 0);
    if s.mode == Mode::Selecting {
        assert(s.undone().annots =~= s.annots);
    }
}

/// The captured image and the capture's error are set once, when the
/// session starts, and no action changes them; so there is a captured image
/// exactly when there is no capture error, in every state of the session.
pub proof fn law_capture_fixed<R, P, W, I>(
    s: SessionView<R, P, W, I>,
    at: Option<P>,
    p: P,
    r: R,
    large_enough: bool,
    tool: Tool,
    color: [u8; 4],
    client_id: Option<Seq<char>>,
    text: Seq<char>,
    upload: Result<(Seq<char>, Option<Seq<char>>), Seq<char>>,
    saved: Result<Seq<char>, Seq<char>>,
    settings: Result<(), Seq<char>>,
)
    ensures
        s.undone().error == s.error,
        s.undone().image == s.image,
        s.reselected().error == s.error,
        s.reselected().image == s.image,
        s.with_tool(tool).error == s.error,
        s.with_tool(tool).image == s.image,
        s.with_color(color).error == s.error,
        s.with_color(color).image == s.image,
        s.selection_begun(at).error == s.error,
        s.selection_begun(at).image == s.image,
        s.selection_resized(r).error == s.error,
        s.selection_resized(r).image == s.image,
        s.selection_ended(large_enough).error == s.error,
        s.selection_ended(large_enough).image == s.image,
        s.stroke_begun(p).error == s.error,
        s.stroke_begun(p).image == s.image,
        s.stroke_moved(p).error == s.error,
        s.stroke_moved(p).image == s.image,
        s.stroke_ended().error == s.error,
        s.stroke_ended().image == s.image,
        s.upload_requested(client_id).error == s.error,
        s.upload_requested(client_id).image == s.image,
        s.render_failed(text).error == s.error,
        s.render_failed(text).image == s.image,
        s.upload_started().error == s.error,
        s.upload_started().image == s.image,
        s.upload_finished(upload).error == s.error,
        s.upload_finished(upload).image == s.image,
        s.save_finished(saved).error == s.error,
        s.save_finished(saved).image == s.image,
        s.settings_saved(settings).error == s.error,
        s.settings_saved(settings).image == s.image,
        s.settings_cancelled().error == s.error,
        s.settings_cancelled().image == s.image,
{
}

/// A finished upload, whatever its outcome, is no longer running; a
/// successful one leaves its link to be shown.
pub proof fn law_upload_settles<R, P, W, I>(
    s: SessionView<R, P, W, I>,
    result: Result<(Seq<char>, Option<Seq<char>>), Seq<char>>,
)
    ensures
        !s.upload_started().upload_finished(result).uploading,
        result matches Ok((link, _)) ==> s.upload_finished(result).result_link == Some(link)
            && s.upload_finished(result).shows_hint(),
        result is Err ==> s.upload_finished(result).result_link == s.result_link,
{
    reveal_strlit("Uploaded — link copied. Delete hash: ");
    reveal_strlit("Uploaded — link copied to clipboard.");
}

/// Whatever the status says is what the hint line shows.
pub proof fn law_hint_shows_status<R, P, W, I>(s: SessionView<R, P, W, I>)
    requires
        s.status.len() > 0,
    ensures
        s.hint_text() == s.status,
        s.shows_hint(),
{
}

} // verus!
