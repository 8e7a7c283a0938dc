//! The drafts of the two rows that are made in a dialog: a wait, and a
//! search for a target.

use vstd::prelude::*;
use vstd::string::StringExecFns;
use crate::codec::base64_text;
use crate::editor::{SelectionDetails, clamp_u16, last_ms, spec_clamp_u16};
use crate::model::{
    EventView, KindView, RecordedEvent, RecordedEventKind, SearchAnchor, patch_view, timeline_view,
};
use crate::patch::encode_image_file;
use crate::playback::{held_within, spec_held_within};
use crate::recorder::{first_known, spec_first_known};
use crate::session::{Mode, Session, SessionView};
use crate::text::{parse_u32, parse_u64, spec_parse_u32, spec_parse_u64, trimmed, trimmed_text};
use crate::timeline::in_order;

verus! {

/// The draft of a wait row.
#[derive(Debug, Clone, Copy, PartialEq, Eq, Structural)]
pub struct WaitDraft {
    pub wait_ms: u64,
}

/// The longest wait that a draft takes, in milliseconds.
pub const MAX_WAIT_MS: u64 = 600_000;

impl WaitDraft {
    /// The draft after its text was read as `read`: a number is taken over,
    /// at most `MAX_WAIT_MS`; where none was read the draft stays as it is.
    pub open spec fn wait_ms_set_to(self, read: Option<u64>) -> WaitDraft {
        match read {
            Some(ms) => WaitDraft {
                wait_ms: if ms > MAX_WAIT_MS {
                    MAX_WAIT_MS
                } else {
                    ms
                },
            },
            None => self,
        }
    }

    /// The draft after its text was changed: a number is taken over, at most
    /// `MAX_WAIT_MS`; any other text leaves the draft as it is.
    pub open spec fn wait_ms_changed_to(self, text: Seq<char>) -> WaitDraft {
        self.wait_ms_set_to(spec_parse_u64(text))
    }

    /// Takes over the wait that the text of the draft was read as.
    pub fn wait_ms_set(&mut self, read: Option<u64>)
        ensures
            *final(self) == old(self).wait_ms_set_to(read),
    {
        if let Some(ms) = read {
            self.wait_ms = if ms > MAX_WAIT_MS {
                MAX_WAIT_MS
            } else {
                ms
            };
        }
    }

    /// Reads the text of the draft and takes over the wait.
    pub fn wait_ms_changed(&mut self, text: &str)
        ensures
            *final(self) == old(self).wait_ms_changed_to(text@),
    {
        self.wait_ms_set(parse_u64(text));
    }
}

/// The draft of a search row.
#[derive(Debug)]
pub struct FindTargetDraft {
    pub patch_png_base64: Option<String>,
    pub patch_size: u32,
    /// The match confidence in thousandths.
    pub precision_permille: u16,
    pub timeout_ms: u64,
    pub limit_region: bool,
    pub region_size: u32,
    pub anchor: SearchAnchor,
    /// Whether the draft waits for a click on the screen.
    pub capture_waiting: bool,
    pub capture_left_was_down: bool,
    pub captured_pos: Option<(i32, i32)>,
    pub status: String,
}

/// The mathematical value of a `FindTargetDraft`.
pub struct FindTargetDraftView {
    pub patch_png_base64: Option<Seq<char>>,
    pub patch_size: u32,
    pub precision_permille: u16,
    pub timeout_ms: u64,
    pub limit_region: bool,
    pub region_size: u32,
    pub anchor: SearchAnchor,
    pub capture_waiting: bool,
    pub capture_left_was_down: bool,
    pub captured_pos: Option<(i32, i32)>,
    pub status: Seq<char>,
}

impl View for FindTargetDraft {
    type V = FindTargetDraftView;

    open spec fn view(&self) -> FindTargetDraftView {
        FindTargetDraftView {
            patch_png_base64: patch_view(self.patch_png_base64),
            patch_size: self.patch_size,
            precision_permille: self.precision_permille,
            timeout_ms: self.timeout_ms,
            limit_region: self.limit_region,
            region_size: self.region_size,
            anchor: self.anchor,
            capture_waiting: self.capture_waiting,
            capture_left_was_down: self.capture_left_was_down,
            captured_pos: self.captured_pos,
            status: self.status@,
        }
    }
}

/// One change of a field of a search draft. Texts are what the user typed.
#[derive(Debug)]
pub enum DraftChange {
    PatchSize { text: String },
    /// The confidence in thousandths, or none if what was typed is no number.
    Precision { permille: Option<u16> },
    Timeout { text: String },
    LimitRegion { enabled: bool },
    RegionSize { text: String },
    Anchor { anchor: SearchAnchor },
}

/// One change of a field of a search draft, with what was typed read as a
/// number: none where it is no number.
#[derive(Debug, Clone, Copy, PartialEq, Eq)]
pub enum DraftValue {
    PatchSize { size: Option<u32> },
    /// The confidence in thousandths.
    Precision { permille: Option<u16> },
    Timeout { ms: Option<u64> },
    LimitRegion { enabled: bool },
    RegionSize { size: Option<u32> },
    Anchor { anchor: SearchAnchor },
}

/// What a draft learns while it waits for a click on the screen.
#[derive(Debug)]
pub enum CaptureOutcome {
    /// The image around the pointer at `at`.
    Captured { at: (i32, i32), patch: String },
    Failed { reason: String },
    /// The pointer could not be read.
    NoPointer,
}

/// `value` held within `lo..=hi`.
pub open spec fn spec_held_u32(value: u32, lo: u32, hi: u32) -> u32 {
    if value < lo {
        lo
    } else if value > hi {
        hi
    } else {
        value
    }
}

#[verifier::when_used_as_spec(spec_held_u32)]
pub fn held_u32(value: u32, lo: u32, hi: u32) -> (held: u32)
    ensures
        held == spec_held_u32(value, lo, hi),
{
    if value < lo {
        lo
    } else if value > hi {
        hi
    } else {
        value
    }
}

impl FindTargetDraftView {
    /// The draft after a change that was read. A number is taken over, held
    /// within the range of its field: the patch within 16 to 512 pixels, the
    /// confidence within 0.5 to 0.999, the timeout within 100 ms to 60 s and the
    /// region within 100 to 5000 pixels. Where no number was read, nothing changes.
    pub open spec fn set_to(self, value: DraftValue) -> FindTargetDraftView {
        match value {
            DraftValue::PatchSize { size } => match size {
                Some(size) => FindTargetDraftView { patch_size: spec_held_u32(size, 16, 512), ..self },
                None => self,
            },
            DraftValue::Precision { permille } => match permille {
                Some(p) => FindTargetDraftView {
                    precision_permille: spec_clamp_u16(p, 500, 999),
                    ..self
                },
                None => self,
            },
            DraftValue::Timeout { ms } => match ms {
                Some(ms) => FindTargetDraftView {
                    timeout_ms: spec_held_within(ms, 100, 60_000),
                    ..self
                },
                None => self,
            },
            DraftValue::LimitRegion { enabled } => FindTargetDraftView { limit_region: enabled, ..self },
            DraftValue::RegionSize { size } => match size {
                Some(size) => FindTargetDraftView { region_size: spec_held_u32(size, 100, 5000), ..self },
                None => self,
            },
            DraftValue::Anchor { anchor } => FindTargetDraftView { anchor, ..self },
        }
    }

    /// The draft after a change: the text of the change is read, and what was
    /// read is taken over as `set_to` says. A text that is no number changes
    /// nothing.
    pub open spec fn changed(self, change: DraftChangeView) -> FindTargetDraftView {
        self.set_to(change.read())
    }

    /// The draft once it waits for a click on the screen: its image is
    /// dropped. Where the screen cannot be listened to, it only says so.
    pub open spec fn capture_started(self, supported: bool, left_down: bool) -> FindTargetDraftView {
        let emptied = FindTargetDraftView { patch_png_base64: None, captured_pos: None, ..self };
        if supported {
            FindTargetDraftView {
                capture_waiting: true,
                capture_left_was_down: left_down,
                status: "Click on the screen to capture"@,
                ..emptied
            }
        } else {
            FindTargetDraftView { status: "Capture is Windows-only right now"@, ..emptied }
        }
    }

    /// Whether a sample of the left button ends the wait for a click: the
    /// button was down and is up.
    pub open spec fn click_seen(self, left_down: bool) -> bool {
        self.capture_waiting && self.capture_left_was_down && !left_down
    }

    /// Whether the draft has an image.
    pub open spec fn has_image(self) -> bool {
        self.patch_png_base64 matches Some(patch) && patch.len() > 0
    }

    /// The row that the draft makes, if it has an image: a search at the place
    /// that was captured, else at `current_pos`, stamped as the last row.
    pub open spec fn row(self, stamp: u128, current_pos: Option<(i32, i32)>) -> Option<EventView> {
        match self.patch_png_base64 {
            Some(patch) => if patch.len() == 0 {
                None
            } else {
                Some(
                EventView {
                    ms_from_start: stamp,
                    kind: KindView::FindTarget {
                        patch,
                        patch_size: self.patch_size,
                        precision_permille: self.precision_permille,
                        timeout_ms: self.timeout_ms,
                        search_anchor: self.anchor,
                        search_region_size: if self.limit_region {
                            Some(self.region_size)
                        } else {
                            None
                        },
                    },
                    pos: spec_first_known(self.captured_pos, current_pos),
                    click_meta: None,
                },
            )
            },
            None => None,
        }
    }
}

/// The mathematical value of a `DraftChange`.
pub enum DraftChangeView {
    PatchSize { text: Seq<char> },
    Precision { permille: Option<u16> },
    Timeout { text: Seq<char> },
    LimitRegion { enabled: bool },
    RegionSize { text: Seq<char> },
    Anchor { anchor: SearchAnchor },
}

impl DraftChangeView {
    /// The change with its text read as a number.
    pub open spec fn read(self) -> DraftValue {
        match self {
            DraftChangeView::PatchSize { text } => DraftValue::PatchSize { size: spec_parse_u32(text) },
            DraftChangeView::Precision { permille } => DraftValue::Precision { permille },
            DraftChangeView::Timeout { text } => DraftValue::Timeout { ms: spec_parse_u64(text) },
            DraftChangeView::LimitRegion { enabled } => DraftValue::LimitRegion { enabled },
            DraftChangeView::RegionSize { text } => DraftValue::RegionSize { size: spec_parse_u32(text) },
            DraftChangeView::Anchor { anchor } => DraftValue::Anchor { anchor },
        }
    }
}

impl View for DraftChange {
    type V = DraftChangeView;

    open spec fn view(&self) -> DraftChangeView {
        match *self {
            DraftChange::PatchSize { text } => DraftChangeView::PatchSize { text: text@ },
            DraftChange::Precision { permille } => DraftChangeView::Precision { permille },
            DraftChange::Timeout { text } => DraftChangeView::Timeout { text: text@ },
            DraftChange::LimitRegion { enabled } => DraftChangeView::LimitRegion { enabled },
            DraftChange::RegionSize { text } => DraftChangeView::RegionSize { text: text@ },
            DraftChange::Anchor { anchor } => DraftChangeView::Anchor { anchor },
        }
    }
}

impl FindTargetDraft {
    /// A draft without an image, with the search settings that the editor shows.
    pub fn new(patch_size: u32, details: SelectionDetails) -> (draft: FindTargetDraft)
        ensures
            draft@ == (FindTargetDraftView {
                patch_png_base64: None,
                patch_size,
                precision_permille: details.precision_permille,
                timeout_ms: details.timeout_ms,
                limit_region: details.limit_region,
                region_size: details.region_size,
                anchor: details.anchor,
                capture_waiting: false,
                capture_left_was_down: false,
                captured_pos: None,
                status: Seq::empty(),
            }),
    {
        FindTargetDraft {
            patch_png_base64: None,
            patch_size,
            precision_permille: details.precision_permille,
            timeout_ms: details.timeout_ms,
            limit_region: details.limit_region,
            region_size: details.region_size,
            anchor: details.anchor,
            capture_waiting: false,
            capture_left_was_down: false,
            captured_pos: None,
            status: String::new(),
        }
    }

    /// Changes one field of the draft: reads what was typed and takes it over.
    pub fn change(&mut self, change: DraftChange)
        ensures
            final(self)@ == old(self)@.changed(change@),
    {
        let value = match change {
            DraftChange::PatchSize { text } => DraftValue::PatchSize { size: parse_u32(text.as_str()) },
            DraftChange::Precision { permille } => DraftValue::Precision { permille },
            DraftChange::Timeout { text } => DraftValue::Timeout { ms: parse_u64(text.as_str()) },
            DraftChange::LimitRegion { enabled } => DraftValue::LimitRegion { enabled },
            DraftChange::RegionSize { text } => DraftValue::RegionSize { size: parse_u32(text.as_str()) },
            DraftChange::Anchor { anchor } => DraftValue::Anchor { anchor },
        };
        self.set(value);
    }

    /// Takes over one change of a field that was read: a number is held
    /// within the range of its field, and where none was read nothing changes.
    pub fn set(&mut self, value: DraftValue)
        ensures
            final(self)@ == old(self)@.set_to(value),
    {
        match value {
            DraftValue::PatchSize { size } => {
                if let Some(size) = size {
                    self.patch_size = held_u32(size, 16, 512);
                }
            },
            DraftValue::Precision { permille } => {
                if let Some(p) = permille {
                    self.precision_permille = clamp_u16(p, 500, 999);
                }
            },
            DraftValue::Timeout { ms } => {
                if let Some(ms) = ms {
                    self.timeout_ms = held_within(ms, 100, 60_000);
                }
            },
            DraftValue::LimitRegion { enabled } => {
                self.limit_region = enabled;
            },
            DraftValue::RegionSize { size } => {
                if let Some(size) = size {
                    self.region_size = held_u32(size, 100, 5000);
                }
            },
            DraftValue::Anchor { anchor } => {
                self.anchor = anchor;
            },
        }
    }

    /// Begins to wait for a click on the screen. `supported` says whether the
    /// screen can be listened to, and `left_down` whether the left button is down.
    pub fn start_capture(&mut self, supported: bool, left_down: bool)
        ensures
            final(self)@ == old(self)@.capture_started(supported, left_down),
    {
        self.patch_png_base64 = None;
        self.captured_pos = None;
        if supported {
            self.capture_waiting = true;
            self.capture_left_was_down = left_down;
            self.status = String::from_str("Click on the screen to capture");
        } else {
            self.status = String::from_str("Capture is Windows-only right now");
        }
    }

    /// Takes a sample of the left button while the draft waits for a click,
    /// and says whether the click was seen: the caller is then to capture the
    /// image around the pointer, with the patch size of the draft, and to come
    /// back with `capture_finished`.
    pub fn capture_tick(&mut self, left_down: bool) -> (seen: bool)
        ensures
            seen == old(self)@.click_seen(left_down),
            final(self)@ == if old(self).capture_waiting {
                FindTargetDraftView { capture_left_was_down: left_down, ..old(self)@ }
            } else {
                old(self)@
            },
    {
        if !self.capture_waiting {
            return false;
        }
        let seen = self.capture_left_was_down && !left_down;
        self.capture_left_was_down = left_down;
        seen
    }

    /// Ends the wait for a click with what came of it.
    pub fn capture_finished(&mut self, outcome: CaptureOutcome)
        ensures
            final(self)@ == match outcome {
                CaptureOutcome::Captured { at, patch } => FindTargetDraftView {
                    patch_png_base64: Some(patch@),
                    captured_pos: Some(at),
                    capture_waiting: false,
                    status: "Captured"@,
                    ..old(self)@
                },
                CaptureOutcome::Failed { reason } => FindTargetDraftView {
                    capture_waiting: false,
                    status: "Capture failed: "@ + reason@,
                    ..old(self)@
                },
                CaptureOutcome::NoPointer => FindTargetDraftView {
                    capture_waiting: false,
                    status: "Could not read mouse position"@,
                    ..old(self)@
                },
            },
    {
        self.capture_waiting = false;
        match outcome {
            CaptureOutcome::Captured { at, patch } => {
                self.patch_png_base64 = Some(patch);
                self.captured_pos = Some(at);
                self.status = String::from_str("Captured");
            },
            CaptureOutcome::Failed { reason } => {
                let mut status = String::from_str("Capture failed: ");
                status.append(reason.as_str());
                self.status = status;
            },
            CaptureOutcome::NoPointer => {
                self.status = String::from_str("Could not read mouse position");
            },
        }
    }

    /// The path of the image file that is to be read for the draft, or none,
    /// with a word in the status, if `path` is blank.
    pub fn load_request(&mut self, path: &str) -> (wanted: Option<String>)
        ensures
            match wanted {
                Some(read) => read@ == trimmed_text(path@) && read@.len() > 0 && final(self)@ == old(self)@,
                None => trimmed_text(path@).len() == 0 && final(self)@ == (FindTargetDraftView {
                    status: "Provide a path"@,
                    ..old(self)@
                }),
            },
    {
        self.load_path(String::from_str(trimmed(path)))
    }

    /// The path of the image file that is to be read for the draft, where
    /// `inner` is what was typed without the white space around it: none,
    /// with a word in the status, if it is empty.
    pub fn load_path(&mut self, inner: String) -> (wanted: Option<String>)
        ensures
            match wanted {
                Some(read) => read@ == inner@ && inner@.len() > 0 && final(self)@ == old(self)@,
                None => inner@.len() == 0 && final(self)@ == (FindTargetDraftView {
                    status: "Provide a path"@,
                    ..old(self)@
                }),
            },
    {
        if inner.as_str().is_empty() {
            self.status = String::from_str("Provide a path");
            None
        } else {
            Some(inner)
        }
    }

    /// Takes the bytes of an image file as the image of the draft, placed
    /// where the pointer is. A file that is too large to be held as text is
    /// reported and leaves the draft as it is.
    pub fn loaded(&mut self, file: &Vec<u8>, current_pos: Option<(i32, i32)>)
        ensures
            final(self)@ == if file.len() / 3 >= usize::MAX / 4 {
                FindTargetDraftView { status: "Load failed: file too large"@, ..old(self)@ }
            } else {
                FindTargetDraftView {
                    patch_png_base64: Some(base64_text(file@)),
                    captured_pos: current_pos,
                    capture_waiting: false,
                    status: "Loaded"@,
                    ..old(self)@
                }
            },
    {
        match encode_image_file(file) {
            Some(text) => {
                self.patch_png_base64 = Some(text);
                self.captured_pos = current_pos;
                self.capture_waiting = false;
                self.status = String::from_str("Loaded");
            },
            None => {
                self.status = String::from_str("Load failed: file too large");
            },
        }
    }

    /// Reports that the image file could not be read.
    pub fn load_failed(&mut self, reason: &str)
        ensures
            final(self)@ == (FindTargetDraftView { status: "Load failed: "@ + reason@, ..old(self)@ }),
    {
        let mut status = String::from_str("Load failed: ");
        status.append(reason);
        self.status = status;
    }
}

impl SessionView {
    /// The session with `row` at the end of its timeline.
    pub open spec fn with_row(self, row: EventView, status: Seq<char>) -> SessionView {
        SessionView { events: self.events.push(row), status, ..self }
    }

    /// The stamp that a row made in a dialog gets: that of the last row, or zero.
    pub open spec fn dialog_stamp(self) -> u128 {
        last_ms(self.events)
    }
}

/// A row made in a dialog keeps the order of a timeline: rows in the order
/// of their stamps, with one more row at the end that is stamped as a dialog
/// stamps it, are in that order still.
pub proof fn lemma_dialog_row_keeps_order(session: SessionView, row: EventView, status: Seq<char>)
    requires
        in_order(session.events),
        row.ms_from_start == session.dialog_stamp(),
    ensures
        in_order(session.with_row(row, status).events),
{
    let rows = session.events;
    let out = session.with_row(row, status).events;
    assert forall|i: int, j: int| 0 <= i <= j < out.len() implies (#[trigger] out[i]).ms_from_start <= (
    #[trigger] out[j]).ms_from_start by {
        if j < rows.len() {
            assert(out[i] == rows[i] && out[j] == rows[j]);
        } else if i < rows.len() {
            assert(out[i] == rows[i]);
            assert(rows[i].ms_from_start <= rows[rows.len() - 1].ms_from_start);
        }
    }
}

impl Session {
    fn last_stamp(&self) -> (stamp: u128)
        ensures
            stamp == self@.dialog_stamp(),
    {
        let n = self.events.len();
        assert(timeline_view(self.events@).len() == n);
        if n > 0 {
            self.events[n - 1].ms_from_start
        } else {
            0
        }
    }

    fn push_row(&mut self, row: RecordedEvent, status: String)
        ensures
            final(self)@ == old(self)@.with_row(row@, status@),
    {
        assert(timeline_view(self.events@.push(row)) =~= timeline_view(self.events@).push(row@));
        self.events.push(row);
        self.status = status;
    }

    /// Appends the wait row of a draft, and says whether it did: an idle
    /// session does, a busy one leaves everything as it is.
    pub fn wait_ok(&mut self, draft: WaitDraft) -> (added: bool)
        ensures
            added == (old(self).mode == Mode::Idle),
            final(self)@ == if old(self).mode == Mode::Idle {
                old(self)@.with_row(
                    EventView {
                        ms_from_start: old(self)@.dialog_stamp(),
                        kind: KindView::Wait { ms: draft.wait_ms },
                        pos: None,
                        click_meta: None,
                    },
                    "Added Wait row"@,
                )
            } else {
                old(self)@
            },
    {
        if self.mode != Mode::Idle {
            return false;
        }
        let row = RecordedEvent {
            ms_from_start: self.last_stamp(),
            kind: RecordedEventKind::Wait { ms: draft.wait_ms },
            pos: None,
            click_meta: None,
        };
        self.push_row(row, String::from_str("Added Wait row"));
        true
    }

    /// Appends the search row of a draft, and says whether it did. A busy
    /// session leaves everything as it is; a draft without an image stays
    /// open and says so in its own status.
    pub fn find_target_ok(&mut self, draft: &mut FindTargetDraft) -> (added: bool)
        ensures
            added == (old(self).mode == Mode::Idle && old(draft)@.has_image()),
            added ==> final(self)@.events.last().kind.valid(),
            final(self)@ == if added {
                old(self)@.with_row(
                    old(draft)@.row(old(self)@.dialog_stamp(), old(self).current_pos)->0,
                    "Added Find target row (move only)"@,
                )
            } else {
                old(self)@
            },
            final(draft)@ == if old(self).mode == Mode::Idle && !old(draft)@.has_image() {
                FindTargetDraftView { status: "No image selected"@, ..old(draft)@ }
            } else {
                old(draft)@
            },
    {
        if self.mode != Mode::Idle {
            return false;
        }
        let image = match &draft.patch_png_base64 {
            Some(patch) => if patch.as_str().is_empty() {
                None
            } else {
                Some(patch.clone())
            },
            None => None,
        };
        let patch = match image {
            None => {
                draft.status = String::from_str("No image selected");
                return false;
            },
            Some(patch) => patch,
        };
        let row = RecordedEvent {
            ms_from_start: self.last_stamp(),
            kind: RecordedEventKind::FindTarget {
                patch_png_base64: patch,
                patch_size: draft.patch_size,
                precision_permille: draft.precision_permille,
                timeout_ms: draft.timeout_ms,
                search_anchor: draft.anchor,
                search_region_size: if draft.limit_region {
                    Some(draft.region_size)
                } else {
                    None
                },
            },
            pos: first_known(draft.captured_pos, self.current_pos),
            click_meta: None,
        };
        self.push_row(row, String::from_str("Added Find target row (move only)"));
        true
    }
}

} // verus!
