//! The session: the timeline, the recorder and the editor under one roof, and
//! the commands that the user interface gives them.
//!
//! A session performs nothing outside itself. Where a command needs the
//! screen, a file or the pointer, it says so in what it returns, and the
//! caller comes back with the result.

use vstd::prelude::*;
use vstd::string::StringExecFns;
use crate::editor::{
    EDITOR_PATCH_SIZE, Edit, Editor, EditorView, Setting, aim_of, clamp_u16, jump_status, jump_status_of,
    spec_clamp_u16, spec_clear_selection, spec_insert_below_selected, spec_insert_below_selected_at,
    spec_insert_or_apply, spec_insert_or_apply_at, spec_select_row,
};
use crate::hook::{CapturedClick, button_name, button_name_text};
use crate::model::{EventView, RecordedEvent, patch_view, timeline_view};
use crate::playback::RunStatus;
use crate::recorder::laws::{
    keeps_pace, lemma_stop_keeps_timeline_in_order, lemma_tick_keeps_timeline_in_order,
};
use crate::recorder::{
    RecorderConfig, RecorderState, TickSample, elapsed_ms, moved_at_least, spec_elapsed_ms,
    spec_moved_at_least, spec_stop, spec_tick,
};
use crate::text::{decimal_text, i32_text, trimmed, trimmed_text, usize_text};
use crate::timeline::{
    append_recorded_events_compacting_moves, appended, index_view, materialize_moves_grouped_events,
    materialize_moves_grouped_events_with_row_map, materialized, row_map,
};

verus! {

/// What the session is busy with.
#[derive(Debug, Clone, Copy, PartialEq, Eq, Structural)]
pub enum Mode {
    Idle,
    Recording,
    Playing,
}

/// The state of a session.
#[derive(Debug)]
pub struct Session {
    pub mode: Mode,
    /// The timeline in its editable shape.
    pub events: Vec<RecordedEvent>,
    pub status: String,
    pub editor: Editor,
    pub recorder: RecorderState,
    pub recorder_wait_ms: u16,
    pub recorder_mouse_path_enabled: bool,
    pub recorder_mouse_path_min_delta_px: u16,
    pub find_image_patch_size: u32,
    pub find_image_region_size: u32,
    pub current_pos: Option<(i32, i32)>,
    pub esc_was_down: bool,
    pub ui_scale_percent: u16,
    pub file_path: String,
    pub playback_active_index: Option<usize>,
    pub playback_last_scrolled_index: Option<usize>,
    pub playback_progress_row_map: Vec<usize>,
}

/// The mathematical value of a `Session`.
pub struct SessionView {
    pub mode: Mode,
    pub events: Seq<EventView>,
    pub status: Seq<char>,
    pub editor: EditorView,
    pub recorder: RecorderState,
    pub recorder_wait_ms: u16,
    pub recorder_mouse_path_enabled: bool,
    pub recorder_mouse_path_min_delta_px: u16,
    pub find_image_patch_size: u32,
    pub find_image_region_size: u32,
    pub current_pos: Option<(i32, i32)>,
    pub esc_was_down: bool,
    pub ui_scale_percent: u16,
    pub file_path: Seq<char>,
    pub playback_active_index: Option<usize>,
    pub playback_last_scrolled_index: Option<usize>,
    pub playback_progress_row_map: Seq<usize>,
}

impl View for Session {
    type V = SessionView;

    open spec fn view(&self) -> SessionView {
        SessionView {
            mode: self.mode,
            events: timeline_view(self.events@),
            status: self.status@,
            editor: self.editor@,
            recorder: self.recorder,
            recorder_wait_ms: self.recorder_wait_ms,
            recorder_mouse_path_enabled: self.recorder_mouse_path_enabled,
            recorder_mouse_path_min_delta_px: self.recorder_mouse_path_min_delta_px,
            find_image_patch_size: self.find_image_patch_size,
            find_image_region_size: self.find_image_region_size,
            current_pos: self.current_pos,
            esc_was_down: self.esc_was_down,
            ui_scale_percent: self.ui_scale_percent,
            file_path: self.file_path@,
            playback_active_index: self.playback_active_index,
            playback_last_scrolled_index: self.playback_last_scrolled_index,
            playback_progress_row_map: self.playback_progress_row_map@,
        }
    }
}

impl SessionView {
    /// A session as it starts: idle, with an empty timeline.
    pub open spec fn fresh() -> SessionView {
        SessionView {
            mode: Mode::Idle,
            events: Seq::empty(),
            status: "Ready"@,
            editor: EditorView::fresh(),
            recorder: RecorderState::spec_stopped(),
            recorder_wait_ms: 10,
            recorder_mouse_path_enabled: false,
            recorder_mouse_path_min_delta_px: 0,
            find_image_patch_size: 64,
            find_image_region_size: 600,
            current_pos: None,
            esc_was_down: false,
            ui_scale_percent: 50,
            file_path: "recording.yaml"@,
            playback_active_index: None,
            playback_last_scrolled_index: None,
            playback_progress_row_map: Seq::empty(),
        }
    }

    /// The settings with which the recorder runs.
    pub open spec fn recorder_config(self) -> RecorderConfig {
        RecorderConfig {
            wait_ms: self.recorder_wait_ms,
            click_speed_ms: self.editor.settings.click_speed_ms,
            mouse_move_speed_ms: self.editor.settings.mouse_move_speed_ms,
            click_split_px: self.editor.settings.click_split_px,
            click_max_hold_ms: self.editor.settings.click_max_hold_ms,
            use_find_image: self.editor.settings.use_find_image,
            target_precision_percent: self.editor.settings.target_precision_percent,
            target_timeout_ms: self.editor.settings.target_timeout_ms,
            mouse_path_enabled: self.recorder_mouse_path_enabled,
            mouse_path_min_delta_px: self.recorder_mouse_path_min_delta_px,
        }
    }

    /// The session with nothing of a playback left in it.
    pub open spec fn without_playback(self) -> SessionView {
        SessionView {
            playback_active_index: None,
            playback_last_scrolled_index: None,
            playback_progress_row_map: Seq::empty(),
            ..self
        }
    }
}

/// A scale in percent snapped to one of 25, 50, 75 and 100.
pub open spec fn spec_snapped_ui_scale(percent: u16) -> u16 {
    let held = spec_clamp_u16(percent, 25, 100);
    if held < 38 {
        25
    } else if held < 63 {
        50
    } else if held < 88 {
        75
    } else {
        100
    }
}

#[verifier::when_used_as_spec(spec_snapped_ui_scale)]
pub fn snapped_ui_scale(percent: u16) -> (snapped: u16)
    ensures
        snapped == spec_snapped_ui_scale(percent),
{
    let held = clamp_u16(percent, 25, 100);
    if held < 38 {
        25
    } else if held < 63 {
        50
    } else if held < 88 {
        75
    } else {
        100
    }
}

/// What is reported when recording has stopped.
pub open spec fn stopped_status(count: int) -> Seq<char> {
    "Stopped. "@ + decimal_text(count) + " events recorded."@
}

impl Session {
    /// A session as it starts.
    pub fn new() -> (session: Session)
        ensures
            session@ == SessionView::fresh(),
    {
        let events: Vec<RecordedEvent> = Vec::new();
        assert(timeline_view(events@) =~= Seq::<EventView>::empty());
        Session {
            mode: Mode::Idle,
            events,
            status: String::from_str("Ready"),
            editor: Editor::new(),
            recorder: RecorderState::stopped(),
            recorder_wait_ms: 10,
            recorder_mouse_path_enabled: false,
            recorder_mouse_path_min_delta_px: 0,
            find_image_patch_size: 64,
            find_image_region_size: 600,
            current_pos: None,
            esc_was_down: false,
            ui_scale_percent: 50,
            file_path: String::from_str("recording.yaml"),
            playback_active_index: None,
            playback_last_scrolled_index: None,
            playback_progress_row_map: Vec::new(),
        }
    }

    /// The settings with which the recorder runs.
    pub fn recorder_config(&self) -> (config: RecorderConfig)
        ensures
            config == self@.recorder_config(),
    {
        RecorderConfig {
            wait_ms: self.recorder_wait_ms,
            click_speed_ms: self.editor.settings.click_speed_ms,
            mouse_move_speed_ms: self.editor.settings.mouse_move_speed_ms,
            click_split_px: self.editor.settings.click_split_px,
            click_max_hold_ms: self.editor.settings.click_max_hold_ms,
            use_find_image: self.editor.settings.use_find_image,
            target_precision_percent: self.editor.settings.target_precision_percent,
            target_timeout_ms: self.editor.settings.target_timeout_ms,
            mouse_path_enabled: self.recorder_mouse_path_enabled,
            mouse_path_min_delta_px: self.recorder_mouse_path_min_delta_px,
        }
    }

    fn drop_playback(&mut self)
        ensures
            final(self)@ == old(self)@.without_playback(),
    {
        self.playback_active_index = None;
        self.playback_last_scrolled_index = None;
        self.playback_progress_row_map = Vec::new();
    }

    /// Starts a recording, unless a playback is running: the timeline is
    /// emptied and the recorder starts with its clock at zero. `cursor` is the
    /// pointer, if it could be read. The timeline and the recorder then agree.
    pub fn start_recording(&mut self, cursor: Option<(i32, i32)>)
        ensures
            final(self)@ == if old(self).mode == Mode::Playing {
                old(self)@
            } else {
                SessionView {
                    mode: Mode::Recording,
                    events: Seq::empty(),
                    status: "Recording..."@,
                    recorder_wait_ms: old(self).editor.settings.wait_ms,
                    recorder: old(self).recorder.spec_started(cursor),
                    ..old(self)@
                }
            },
            old(self).mode != Mode::Playing ==> keeps_pace(final(self).recorder, final(self)@.events),
    {
        if self.mode == Mode::Playing {
            return ;
        }
        self.recorder_wait_ms = self.editor.settings.wait_ms;
        self.mode = Mode::Recording;
        self.events = Vec::new();
        assert(timeline_view(self.events@) =~= Seq::<EventView>::empty());
        self.status = String::from_str("Recording...");
        self.recorder.start(cursor);
    }

    /// Feeds one sample to the recorder while a recording runs, and returns
    /// the rows that it makes. The rows carry no image yet and are not yet in
    /// the timeline: `append_recorded` puts them there. Where the timeline
    /// and the recorder agree, they agree again once the rows are appended, so
    /// the timeline of a recording stays in the order of its stamps whatever
    /// the buttons do.
    pub fn tick(&mut self, sample: TickSample) -> (pushed: Vec<RecordedEvent>)
        ensures
            old(self).mode != Mode::Recording ==> final(self)@ == old(self)@ && timeline_view(pushed@)
                == Seq::<EventView>::empty(),
            old(self).mode == Mode::Recording ==> final(self)@ == (SessionView {
                recorder: spec_tick(old(self)@.recorder_config(), old(self).recorder, sample).state,
                ..old(self)@
            }) && timeline_view(pushed@) == spec_tick(
                old(self)@.recorder_config(),
                old(self).recorder,
                sample,
            ).rows,
            keeps_pace(old(self).recorder, old(self)@.events) ==> keeps_pace(
                final(self).recorder,
                appended(old(self)@.events, timeline_view(pushed@)),
            ),
    {
        if self.mode != Mode::Recording {
            let pushed: Vec<RecordedEvent> = Vec::new();
            assert(timeline_view(pushed@) =~= Seq::<EventView>::empty());
            return pushed;
        }
        let config = self.recorder_config();
        proof {
            if keeps_pace(self.recorder, self@.events) {
                lemma_tick_keeps_timeline_in_order(config, self.recorder, self@.events, sample);
            }
        }
        config.tick(&mut self.recorder, sample)
    }

    /// Puts rows that the recorder made into the timeline, and says whether
    /// the list of rows is to be scrolled to its end.
    pub fn append_recorded(&mut self, rows: Vec<RecordedEvent>) -> (changed: bool)
        ensures
            final(self)@ == (SessionView {
                events: appended(old(self)@.events, timeline_view(rows@)),
                ..old(self)@
            }),
            changed == (rows.len() > 0),
    {
        append_recorded_events_compacting_moves(&mut self.events, rows)
    }

    /// The first half of stopping a recording: the recorder is switched off
    /// and what was still pending comes back as rows, for `finish_recording`.
    /// Nothing happens unless a recording runs. Where the timeline and the
    /// recorder agree, they agree again once the rows are appended.
    pub fn stop_recording(&mut self) -> (pushed: Vec<RecordedEvent>)
        ensures
            old(self).mode != Mode::Recording ==> final(self)@ == old(self)@ && timeline_view(pushed@)
                == Seq::<EventView>::empty(),
            old(self).mode == Mode::Recording ==> final(self)@ == (SessionView {
                recorder: spec_stop(old(self)@.recorder_config(), old(self).recorder).state,
                ..old(self)@
            }) && timeline_view(pushed@) == spec_stop(old(self)@.recorder_config(), old(self).recorder).rows,
            keeps_pace(old(self).recorder, old(self)@.events) ==> keeps_pace(
                final(self).recorder,
                appended(old(self)@.events, timeline_view(pushed@)),
            ),
    {
        if self.mode != Mode::Recording {
            let pushed: Vec<RecordedEvent> = Vec::new();
            assert(timeline_view(pushed@) =~= Seq::<EventView>::empty());
            return pushed;
        }
        let config = self.recorder_config();
        proof {
            if keeps_pace(self.recorder, self@.events) {
                lemma_stop_keeps_timeline_in_order(config, self.recorder, self@.events);
            }
        }
        config.stop(&mut self.recorder)
    }

    /// The second half of stopping a recording: the last rows go into the
    /// timeline and the session is idle. Nothing happens unless a recording runs.
    pub fn finish_recording(&mut self, rows: Vec<RecordedEvent>)
        ensures
            final(self)@ == if old(self).mode == Mode::Recording {
                SessionView {
                    mode: Mode::Idle,
                    events: appended(old(self)@.events, timeline_view(rows@)),
                    status: stopped_status(appended(old(self)@.events, timeline_view(rows@)).len() as int),
                    ..old(self)@
                }
            } else {
                old(self)@
            },
    {
        if self.mode != Mode::Recording {
            return ;
        }
        let _ = append_recorded_events_compacting_moves(&mut self.events, rows);
        self.mode = Mode::Idle;
        let mut status = String::from_str("Stopped. ");
        assert(timeline_view(self.events@).len() == self.events.len());
        status.append(usize_text(self.events.len()).as_str());
        status.append(" events recorded.");
        self.status = status;
    }

    /// Stops a playback: the session is idle at once, and the caller is to
    /// cancel the run. Says whether there was a playback to stop.
    pub fn stop_playback(&mut self) -> (cancel: bool)
        ensures
            cancel == (old(self).mode == Mode::Playing),
            final(self)@ == if old(self).mode == Mode::Playing {
                SessionView { mode: Mode::Idle, status: "Playback stopped."@, ..old(self)@.without_playback() }
            } else {
                old(self)@
            },
    {
        if self.mode != Mode::Playing {
            return false;
        }
        self.drop_playback();
        self.mode = Mode::Idle;
        self.status = String::from_str("Playback stopped.");
        true
    }

    /// Empties the timeline, unless a playback is running.
    pub fn clear(&mut self)
        ensures
            final(self)@ == if old(self).mode == Mode::Playing {
                old(self)@
            } else {
                SessionView { events: Seq::empty(), status: "Cleared all events."@, ..old(self)@ }
            },
    {
        if self.mode == Mode::Playing {
            return ;
        }
        self.events = Vec::new();
        assert(timeline_view(self.events@) =~= Seq::<EventView>::empty());
        self.status = String::from_str("Cleared all events.");
    }

    /// Switches path mode on or off.
    pub fn set_mouse_path_enabled(&mut self, enabled: bool)
        ensures
            final(self)@ == (SessionView {
                recorder_mouse_path_enabled: enabled,
                status: if enabled {
                    "Mouse path recording: ON"@
                } else {
                    "Mouse path recording: OFF"@
                },
                ..old(self)@
            }),
    {
        self.recorder_mouse_path_enabled = enabled;
        self.status = if enabled {
            String::from_str("Mouse path recording: ON")
        } else {
            String::from_str("Mouse path recording: OFF")
        };
    }

    /// Sets the least movement that path mode samples, held within 0 to 10 pixels.
    pub fn mouse_path_min_delta_px_changed(&mut self, px: u16)
        ensures
            final(self)@ == (SessionView {
                recorder_mouse_path_min_delta_px: spec_clamp_u16(px, 0, 10),
                ..old(self)@
            }),
    {
        self.recorder_mouse_path_min_delta_px = clamp_u16(px, 0, 10);
    }

    /// Changes one setting of the editor. The wait between rows is also the
    /// wait with which the recorder runs.
    pub fn apply_setting(&mut self, setting: Setting)
        ensures
            final(self)@ == (SessionView {
                editor: EditorView { settings: old(self).editor.settings.applied(setting), ..old(self)@.editor },
                recorder_wait_ms: if setting is WaitMs {
                    old(self).editor.settings.applied(setting).wait_ms
                } else {
                    old(self).recorder_wait_ms
                },
                ..old(self)@
            }),
    {
        self.editor.settings.apply(setting);
        match setting {
            Setting::WaitMs { .. } => {
                self.recorder_wait_ms = self.editor.settings.wait_ms;
            },
            _ => {},
        }
    }

    /// Sets the scale of the user interface to the nearest of its four steps.
    pub fn ui_scale_changed(&mut self, percent: u16)
        ensures
            final(self)@ == (SessionView { ui_scale_percent: spec_snapped_ui_scale(percent), ..old(self)@ }),
    {
        self.ui_scale_percent = snapped_ui_scale(percent);
    }
}

// ---------------------------------------------------------------------------
// Playback
// ---------------------------------------------------------------------------

/// What is reported when a playback has ended.
pub open spec fn playback_status(outcome: RunStatus) -> Seq<char> {
    match outcome {
        RunStatus::Finished => "Playback finished."@,
        RunStatus::Failed { error } => "Playback failed: "@ + error.message_text(),
        _ => "Playback stopped."@,
    }
}

/// The row that a progress value stands for: none for `usize::MAX`, else
/// the value taken through the row map, or itself where the map is too short.
pub open spec fn progress_row(map: Seq<usize>, progress: usize) -> Option<usize> {
    if progress == usize::MAX {
        None
    } else if progress < map.len() {
        Some(map[progress as int])
    } else {
        Some(progress)
    }
}

/// Where the list of rows is scrolled to so that `active` is seen, given how
/// many rows there are and how many fit: the index of the top row and the
/// largest index that the top row can have. There is nothing to scroll
/// without rows; a list that fits stays at its top.
pub open spec fn spec_scroll_top(len: usize, visible_rows: usize, active: usize) -> Option<(usize, usize)> {
    if len == 0 {
        None
    } else if len <= visible_rows {
        Some((0, 1))
    } else {
        let held = if active < len - 1 {
            active as int
        } else {
            len - 1
        };
        let above = if held < visible_rows / 2 {
            0
        } else {
            held - visible_rows / 2
        };
        let max_top = len - visible_rows;
        Some((
            if above < max_top {
                above as usize
            } else {
                max_top as usize
            },
            max_top as usize,
        ))
    }
}

#[verifier::when_used_as_spec(spec_scroll_top)]
pub fn scroll_top(len: usize, visible_rows: usize, active: usize) -> (top: Option<(usize, usize)>)
    ensures
        top == spec_scroll_top(len, visible_rows, active),
        top matches Some(t) ==> t.0 <= t.1 && t.1 >= 1,
{
    if len == 0 {
        None
    } else if len <= visible_rows {
        Some((0, 1))
    } else {
        let held = if active < len - 1 {
            active
        } else {
            len - 1
        };
        let half = visible_rows / 2;
        let above = if held < half {
            0
        } else {
            held - half
        };
        let max_top = len - visible_rows;
        Some((
            if above < max_top {
                above
            } else {
                max_top
            },
            max_top,
        ))
    }
}

fn copy_indices(map: &Vec<usize>) -> (copy: Vec<usize>)
    ensures
        copy@ == map@,
{
    let mut copy: Vec<usize> = Vec::new();
    let mut i: usize = 0;
    while i < map.len()
        invariant
            i <= map.len(),
            copy@ == map@.take(i as int),
        decreases map.len() - i,
    {
        copy.push(map[i]);
        i += 1;
    }
    copy
}

impl Session {
    /// Starts a playback, unless the session is busy or the timeline is
    /// empty: hands out the timeline in its compact shape, and the row map
    /// with which the progress of the run is shown.
    pub fn start_playback(&mut self) -> (run: Option<(Vec<RecordedEvent>, Vec<usize>)>)
        ensures
            match run {
                None => (old(self).mode != Mode::Idle || old(self).events.len() == 0) && final(self)@ == old(
                    self,
                )@,
                Some(compact) => {
                    &&& old(self).mode == Mode::Idle
                    &&& old(self).events.len() > 0
                    &&& timeline_view(compact.0@) == materialized(old(self)@.events)
                    &&& index_view(compact.1@) == row_map(old(self)@.events, 0)
                    &&& final(self)@ == (SessionView {
                        mode: Mode::Playing,
                        status: "Playing (materialized MOVES)..."@,
                        playback_active_index: None,
                        playback_last_scrolled_index: None,
                        playback_progress_row_map: compact.1@,
                        ..old(self)@
                    })
                },
            },
    {
        if self.mode != Mode::Idle || self.events.len() == 0 {
            return None;
        }
        let compact = materialize_moves_grouped_events_with_row_map(&self.events);
        self.mode = Mode::Playing;
        self.status = String::from_str("Playing (materialized MOVES)...");
        self.playback_active_index = None;
        self.playback_last_scrolled_index = None;
        self.playback_progress_row_map = copy_indices(&compact.1);
        Some(compact)
    }

    /// Takes note of how a playback ended: the session is idle again.
    pub fn playback_finished(&mut self, outcome: RunStatus)
        ensures
            final(self)@ == (SessionView {
                mode: Mode::Idle,
                status: playback_status(outcome),
                ..old(self)@.without_playback()
            }),
    {
        self.drop_playback();
        self.mode = Mode::Idle;
        self.status = match outcome {
            RunStatus::Finished => String::from_str("Playback finished."),
            RunStatus::Failed { error } => {
                let mut status = String::from_str("Playback failed: ");
                status.append(error.message().as_str());
                status
            },
            _ => String::from_str("Playback stopped."),
        };
    }

    /// Takes note of the progress of a playback, and says to which row the
    /// list is to be scrolled: to the row that is played, once when it
    /// becomes that row.
    pub fn playback_progress(&mut self, progress: usize) -> (scroll_to: Option<usize>)
        ensures
            ({
                let active = progress_row(old(self).playback_progress_row_map@, progress);
                let moved = old(self).mode == Mode::Playing && active != old(self).playback_active_index;
                let scrolls = moved && active is Some && old(self).playback_last_scrolled_index != active;
                &&& scroll_to == if scrolls {
                    active
                } else {
                    None
                }
                &&& final(self)@ == (SessionView {
                    playback_active_index: if moved {
                        active
                    } else {
                        old(self).playback_active_index
                    },
                    playback_last_scrolled_index: if scrolls {
                        active
                    } else {
                        old(self).playback_last_scrolled_index
                    },
                    ..old(self)@
                })
            }),
    {
        if self.mode != Mode::Playing {
            return None;
        }
        let active = if progress == usize::MAX {
            None
        } else if progress < self.playback_progress_row_map.len() {
            Some(self.playback_progress_row_map[progress])
        } else {
            Some(progress)
        };
        let same = match (active, self.playback_active_index) {
            (Some(a), Some(b)) => a == b,
            (None, None) => true,
            _ => false,
        };
        if same {
            return None;
        }
        self.playback_active_index = active;
        match active {
            Some(row) => {
                let scrolled = match self.playback_last_scrolled_index {
                    Some(last) => last == row,
                    None => false,
                };
                if scrolled {
                    None
                } else {
                    self.playback_last_scrolled_index = Some(row);
                    Some(row)
                }
            },
            None => None,
        }
    }
}

// ---------------------------------------------------------------------------
// Editing
// ---------------------------------------------------------------------------

/// What is reported when the session is too busy for a command.
pub open spec fn busy_status() -> Seq<char> {
    "Stop recording or playback first."@
}

impl SessionView {
    /// The session after an edit.
    pub open spec fn edited(self, edit: Edit) -> SessionView {
        SessionView { editor: edit.editor, events: edit.rows, status: edit.status, ..self }
    }

    /// The session refuses a command because it is busy.
    pub open spec fn busy(self) -> SessionView {
        SessionView { status: busy_status(), ..self }
    }

    /// Whether `index` stands for a row that an idle session can work on; and
    /// the session after the check: busy, or with a selection beyond the end dropped.
    pub open spec fn checked_row(self, index: usize) -> SessionView {
        if self.mode != Mode::Idle {
            self.busy()
        } else if index >= self.events.len() {
            SessionView {
                status: "Selected row no longer exists"@,
                editor: EditorView { selected_index: None, ..self.editor },
                ..self
            }
        } else {
            SessionView {
                editor: spec_select_row(self.editor, self.events, index, self.find_image_region_size),
                ..self
            }
        }
    }
}

/// How a command that may need an image goes on.
#[derive(Debug, Clone, Copy, PartialEq, Eq)]
pub enum Proceed {
    /// The command was refused; the status says why.
    Refused,
    /// The command goes on; the image is to be captured around the point, if
    /// there is one, and handed to the second half of the command.
    Capture { at: Option<(i32, i32, u32)> },
}

impl Session {
    fn refuse_busy(&mut self)
        ensures
            final(self)@ == old(self)@.busy(),
    {
        self.status = String::from_str("Stop recording or playback first.");
    }

    /// Where an image is to be captured before `insert_or_apply` or
    /// `insert_below_selected`: nowhere while the session is busy.
    pub fn insert_capture_request(&self) -> (request: Option<(i32, i32, u32)>)
        ensures
            request == if self.mode == Mode::Idle {
                match self@.editor.parse_editor_xy() {
                    Some(at) => if self.editor.settings.use_find_image {
                        None
                    } else {
                        Some((at.0, at.1, EDITOR_PATCH_SIZE))
                    },
                    None => None,
                }
            } else {
                None
            },
    {
        if self.mode == Mode::Idle {
            self.editor.capture_request()
        } else {
            None
        }
    }

    /// Applies the editor to the selected row, or appends its rows.
    pub fn insert_or_apply(&mut self, captured: Option<String>)
        ensures
            final(self)@ == if old(self).mode != Mode::Idle {
                old(self)@.busy()
            } else {
                old(self)@.edited(
                    spec_insert_or_apply(old(self)@.editor, old(self)@.events, patch_view(captured)),
                )
            },
    {
        let at = self.editor.parse_editor_xy();
        self.insert_or_apply_at(at, captured);
    }

    /// Applies the editor to the selected row, or appends its rows, at the
    /// coordinates that its texts were read as: `at` is `None` when they are
    /// no coordinates.
    pub fn insert_or_apply_at(&mut self, at: Option<(i32, i32)>, captured: Option<String>)
        ensures
            final(self)@ == if old(self).mode != Mode::Idle {
                old(self)@.busy()
            } else {
                old(self)@.edited(
                    spec_insert_or_apply_at(old(self)@.editor, old(self)@.events, at, patch_view(captured)),
                )
            },
    {
        if self.mode != Mode::Idle {
            self.refuse_busy();
            return ;
        }
        self.status = self.editor.insert_or_apply_at(&mut self.events, at, captured);
    }

    /// Inserts the rows of the editor below the selected row.
    pub fn insert_below_selected(&mut self, captured: Option<String>)
        ensures
            final(self)@ == if old(self).mode != Mode::Idle {
                old(self)@.busy()
            } else {
                old(self)@.edited(
                    spec_insert_below_selected(
                        old(self)@.editor,
                        old(self)@.events,
                        patch_view(captured),
                    ),
                )
            },
    {
        let at = self.editor.parse_editor_xy();
        self.insert_below_selected_at(at, captured);
    }

    /// Inserts the rows of the editor below the selected row, at the
    /// coordinates that its texts were read as: `at` is `None` when they are
    /// no coordinates.
    pub fn insert_below_selected_at(&mut self, at: Option<(i32, i32)>, captured: Option<String>)
        ensures
            final(self)@ == if old(self).mode != Mode::Idle {
                old(self)@.busy()
            } else {
                old(self)@.edited(
                    spec_insert_below_selected_at(
                        old(self)@.editor,
                        old(self)@.events,
                        at,
                        patch_view(captured),
                    ),
                )
            },
    {
        if self.mode != Mode::Idle {
            self.refuse_busy();
            return ;
        }
        self.status = self.editor.insert_below_selected_at(&mut self.events, at, captured);
    }

    /// Selects a row, whatever the session is busy with.
    pub fn select_row(&mut self, index: usize)
        ensures
            final(self)@ == (SessionView {
                editor: spec_select_row(
                    old(self)@.editor,
                    old(self)@.events,
                    index,
                    old(self).find_image_region_size,
                ),
                ..old(self)@
            }),
    {
        self.editor.select_row(&self.events, index, self.find_image_region_size);
    }

    /// Deletes the selected row.
    pub fn clear_selection(&mut self)
        ensures
            final(self)@ == if old(self).mode != Mode::Idle {
                old(self)@.busy()
            } else {
                old(self)@.edited(
                    spec_clear_selection(old(self)@.editor, old(self)@.events, old(self).find_image_region_size),
                )
            },
    {
        if self.mode != Mode::Idle {
            self.refuse_busy();
            return ;
        }
        self.status = self.editor.clear_selection(&mut self.events, self.find_image_region_size);
    }

    /// Selects the row at `index` for a command on that row, and says whether
    /// the command can go on: not while the session is busy, and not for a row
    /// that is no longer there.
    pub fn check_row(&mut self, index: usize) -> (ok: bool)
        ensures
            final(self)@ == old(self)@.checked_row(index),
            ok == (old(self).mode == Mode::Idle && index < old(self).events.len()),
    {
        if self.mode != Mode::Idle {
            self.refuse_busy();
            return false;
        }
        assert(timeline_view(self.events@).len() == self.events.len());
        if index >= self.events.len() {
            self.status = String::from_str("Selected row no longer exists");
            self.editor.selected_index = None;
            return false;
        }
        self.editor.select_row(&self.events, index, self.find_image_region_size);
        true
    }

    /// Deletes the row at `index`.
    pub fn row_delete(&mut self, index: usize)
        ensures
            final(self)@ == if old(self).mode == Mode::Idle && index < old(self).events.len() {
                old(self)@.checked_row(index).edited(
                    spec_clear_selection(
                        old(self)@.checked_row(index).editor,
                        old(self)@.events,
                        old(self).find_image_region_size,
                    ),
                )
            } else {
                old(self)@.checked_row(index)
            },
    {
        if self.check_row(index) {
            self.clear_selection();
        }
    }

    /// The first half of cloning the row at `index`: the row is selected, and
    /// `insert_below_selected` is to follow with the image that was captured.
    pub fn row_clone(&mut self, index: usize) -> (proceed: Proceed)
        ensures
            final(self)@ == old(self)@.checked_row(index),
            old(self).mode == Mode::Idle && index < old(self).events.len()
                && !final(self).editor.settings.use_find_image ==> match aim_of(old(self)@.events[index as int]) {
                Some(at) => proceed == (Proceed::Capture { at: Some((at.0, at.1, EDITOR_PATCH_SIZE)) }),
                None => true,
            },
            proceed == if old(self).mode == Mode::Idle && index < old(self).events.len() {
                Proceed::Capture {
                    at: match final(self)@.editor.parse_editor_xy() {
                        Some(at) => if final(self).editor.settings.use_find_image {
                            None
                        } else {
                            Some((at.0, at.1, EDITOR_PATCH_SIZE))
                        },
                        None => None,
                    },
                }
            } else {
                Proceed::Refused
            },
    {
        if self.check_row(index) {
            Proceed::Capture { at: self.editor.capture_request() }
        } else {
            Proceed::Refused
        }
    }

    /// Where the pointer is to jump: to the coordinates of the editor, unless
    /// the session is busy or the texts are no coordinates. `jump_finished` is
    /// to follow.
    pub fn jump_to_xy(&mut self) -> (target: Option<(i32, i32)>)
        ensures
            target == if old(self).mode == Mode::Idle {
                old(self)@.editor.parse_editor_xy()
            } else {
                None
            },
            forall|x: int, y: int|
                i32::MIN <= x <= i32::MAX && i32::MIN <= y <= i32::MAX && old(self).editor.x_text@
                    == #[trigger] decimal_text(x) && old(self).editor.y_text@ == #[trigger] decimal_text(y) && old(
                    self,
                ).mode == Mode::Idle ==> target == Some((x as i32, y as i32)),
            final(self)@ == if old(self).mode != Mode::Idle {
                old(self)@.busy()
            } else if old(self)@.editor.parse_editor_xy() is None {
                SessionView { status: "Invalid X/Y coordinates for jump."@, ..old(self)@ }
            } else {
                old(self)@
            },
    {
        let read = self.editor.parse_editor_xy();
        self.jump_to(read)
    }

    /// Where the pointer is to jump when the texts of the editor were read as
    /// `read`: there, unless the session is busy or nothing was read, which the
    /// status then says. `jump_finished` is to follow.
    pub fn jump_to(&mut self, read: Option<(i32, i32)>) -> (target: Option<(i32, i32)>)
        ensures
            target == if old(self).mode == Mode::Idle {
                read
            } else {
                None
            },
            final(self)@ == if old(self).mode != Mode::Idle {
                old(self)@.busy()
            } else if read is None {
                SessionView { status: "Invalid X/Y coordinates for jump."@, ..old(self)@ }
            } else {
                old(self)@
            },
    {
        if self.mode != Mode::Idle {
            self.refuse_busy();
            return None;
        }
        if read.is_none() {
            self.status = String::from_str("Invalid X/Y coordinates for jump.");
        }
        read
    }

    /// Reports how a jump to `at` went. `failure` says why the pointer could
    /// not be moved, if it could not.
    pub fn jump_finished(&mut self, at: (i32, i32), failure: Option<String>)
        ensures
            final(self)@ == (SessionView {
                status: jump_status(at, patch_view(failure)),
                ..old(self)@
            }),
    {
        self.status = jump_status_of(at, failure);
    }

    /// Jumps to the row at `index`: selects it and says where the pointer is
    /// to go, which is where the row is aimed at if it is aimed anywhere.
    /// `jump_finished` is to follow.
    pub fn row_jump(&mut self, index: usize) -> (target: Option<(i32, i32)>)
        ensures
            old(self).mode == Mode::Idle && index < old(self).events.len() && aim_of(
                old(self)@.events[index as int],
            ) is Some ==> target == aim_of(old(self)@.events[index as int]),
            target == if old(self).mode == Mode::Idle && index < old(self).events.len() {
                old(self)@.checked_row(index).editor.parse_editor_xy()
            } else {
                None
            },
            final(self)@ == if old(self).mode == Mode::Idle && index < old(self).events.len() && old(
                self,
            )@.checked_row(index).editor.parse_editor_xy() is None {
                SessionView { status: "Invalid X/Y coordinates for jump."@, ..old(self)@.checked_row(index) }
            } else {
                old(self)@.checked_row(index)
            },
    {
        if self.check_row(index) {
            self.jump_to_xy()
        } else {
            None
        }
    }
}

// ---------------------------------------------------------------------------
// Picking a point by clicking
// ---------------------------------------------------------------------------

/// The least time between two refreshes of the live preview, in milliseconds.
pub const PREVIEW_INTERVAL_MS: u64 = 180;

/// The least movement of the pointer that refreshes the live preview, in pixels.
pub const LIVE_PREVIEW_DEADZONE_PX: u16 = 2;

/// How the attempt to listen for a click anywhere on the screen went.
#[derive(Debug)]
pub enum HookReply {
    Ready,
    Failed { reason: String },
    /// There is no such listening on this system.
    Unsupported,
}

/// What the escape key asks for.
#[derive(Debug, Clone, Copy, PartialEq, Eq, Structural)]
pub enum EscAction {
    Nothing,
    /// The armed capture was given up: the caller is to disarm the hook.
    DisarmHook,
    /// The caller is to stop the recording or the playback.
    Stop,
}

impl SessionView {
    /// The editor aimed at a point.
    pub open spec fn aimed_at(self, at: (i32, i32)) -> EditorView {
        EditorView { x_text: decimal_text(at.0 as int), y_text: decimal_text(at.1 as int), ..self.editor }
    }

    /// Whether the live preview is due at `now_ms`.
    pub open spec fn preview_due(self, now_ms: u64) -> bool {
        match self.editor.last_preview_at_ms {
            Some(last) => spec_elapsed_ms(now_ms, last) >= PREVIEW_INTERVAL_MS,
            None => true,
        }
    }

    /// Whether the pointer at `at` is far enough from where the live preview
    /// saw it last.
    pub open spec fn preview_moved(self, at: (i32, i32)) -> bool {
        match self.editor.last_preview_pos {
            Some(last) => spec_moved_at_least(last, at, LIVE_PREVIEW_DEADZONE_PX),
            None => true,
        }
    }

    /// The pointer was sampled for the display.
    ///
    /// The position is remembered. In an idle session the live preview runs
    /// when it is due: a pointer that has moved far enough is remembered as
    /// seen, and while a capture is armed the editor follows it; a pointer
    /// that cannot be read is forgotten.
    pub open spec fn pos_ticked(self, cursor: Option<(i32, i32)>, now_ms: u64) -> SessionView {
        let seen = SessionView { current_pos: cursor, ..self };
        if self.mode != Mode::Idle || !self.preview_due(now_ms) {
            seen
        } else {
            let editor = match cursor {
                Some(at) => if self.preview_moved(at) {
                    let followed = if self.editor.capture_armed {
                        self.aimed_at(at)
                    } else {
                        self.editor
                    };
                    EditorView { last_preview_pos: Some(at), ..followed }
                } else {
                    self.editor
                },
                None => EditorView { last_preview_pos: None, ..self.editor },
            };
            SessionView { editor: EditorView { last_preview_at_ms: Some(now_ms), ..editor }, ..seen }
        }
    }

    /// Where the live preview is to be captured at a pointer sample.
    pub open spec fn pos_tick_capture(self, cursor: Option<(i32, i32)>, now_ms: u64) -> Option<(i32, i32, u32)> {
        match cursor {
            Some(at) => if self.mode == Mode::Idle && self.preview_due(now_ms) && self.preview_moved(at)
                && self.editor.capture_armed {
                Some((at.0, at.1, EDITOR_PATCH_SIZE))
            } else {
                None
            },
            None => None,
        }
    }
}

/// What is reported when a click was captured.
pub open spec fn captured_status(click: CapturedClick) -> Seq<char> {
    "Captured "@ + button_name_text(click.button) + " click at ("@ + decimal_text(click.x as int)
        + ", "@ + decimal_text(click.y as int) + ")"@
}

impl Session {
    fn aim_at(&mut self, at: (i32, i32))
        ensures
            final(self)@ == (SessionView { editor: old(self)@.aimed_at(at), ..old(self)@ }),
    {
        self.editor.x_text = i32_text(at.0);
        self.editor.y_text = i32_text(at.1);
    }

    /// Takes a sample of the pointer for the display, and says where the live
    /// preview is to be captured: `live_preview_captured` is then to follow.
    pub fn pos_tick(&mut self, cursor: Option<(i32, i32)>, now_ms: u64) -> (capture: Option<(i32, i32, u32)>)
        ensures
            final(self)@ == old(self)@.pos_ticked(cursor, now_ms),
            capture == old(self)@.pos_tick_capture(cursor, now_ms),
    {
        self.current_pos = cursor;
        if self.mode != Mode::Idle {
            return None;
        }
        let due = match self.editor.last_preview_at_ms {
            Some(last) => elapsed_ms(now_ms, last) >= PREVIEW_INTERVAL_MS,
            None => true,
        };
        if !due {
            return None;
        }
        let mut capture: Option<(i32, i32, u32)> = None;
        match cursor {
            Some(at) => {
                let moved = match self.editor.last_preview_pos {
                    Some(last) => moved_at_least(last, at, LIVE_PREVIEW_DEADZONE_PX),
                    None => true,
                };
                if moved {
                    if self.editor.capture_armed {
                        self.aim_at(at);
                        capture = Some((at.0, at.1, EDITOR_PATCH_SIZE));
                    }
                    self.editor.last_preview_pos = Some(at);
                }
            },
            None => {
                self.editor.last_preview_pos = None;
            },
        }
        self.editor.last_preview_at_ms = Some(now_ms);
        capture
    }

    /// Takes the image of the live preview, if one could be captured. The
    /// editor keeps the image that it has when none could.
    pub fn live_preview_captured(&mut self, patch: Option<String>)
        ensures
            final(self)@ == match patch {
                Some(image) => SessionView {
                    editor: EditorView { static_preview_patch_b64: Some(image@), ..old(self)@.editor },
                    ..old(self)@
                },
                None => old(self)@,
            },
    {
        if let Some(image) = patch {
            self.editor.static_preview_patch_b64 = Some(image);
        }
    }

    /// Takes the image of a point that was picked, or none if it could not
    /// be captured: the editor holds what it is given.
    pub fn picked_preview_captured(&mut self, patch: Option<String>)
        ensures
            final(self)@ == (SessionView {
                editor: EditorView {
                    static_preview_patch_b64: patch_view(patch),
                    ..old(self)@.editor
                },
                ..old(self)@
            }),
    {
        self.editor.static_preview_patch_b64 = patch;
    }

    /// The first half of arming the capture of a click: refused while the
    /// session is busy. Else the editor is aimed at the pointer, if it is
    /// known, and its image is to be captured there (`picked_preview_captured`);
    /// then the caller is to see to the hook and come back with
    /// `get_capture_hook_ensured`.
    pub fn start_get_xy(&mut self) -> (proceed: Proceed)
        ensures
            final(self)@ == if old(self).mode != Mode::Idle {
                old(self)@.busy()
            } else {
                match old(self).current_pos {
                    Some(at) => SessionView { editor: old(self)@.aimed_at(at), ..old(self)@ },
                    None => old(self)@,
                }
            },
            proceed == if old(self).mode != Mode::Idle {
                Proceed::Refused
            } else {
                Proceed::Capture {
                    at: match old(self).current_pos {
                        Some(at) => Some((at.0, at.1, EDITOR_PATCH_SIZE)),
                        None => None,
                    },
                }
            },
    {
        if self.mode != Mode::Idle {
            self.refuse_busy();
            return Proceed::Refused;
        }
        match self.current_pos {
            Some(at) => {
                self.aim_at(at);
                Proceed::Capture { at: Some((at.0, at.1, EDITOR_PATCH_SIZE)) }
            },
            None => Proceed::Capture { at: None },
        }
    }

    /// The second half of arming the capture of a click, and whether the
    /// caller is to arm the hook.
    pub fn get_capture_hook_ensured(&mut self, reply: HookReply) -> (arm: bool)
        ensures
            arm == (reply is Ready),
            final(self)@ == match reply {
                HookReply::Ready => SessionView {
                    editor: EditorView { capture_armed: true, last_capture_button: None, ..old(self)@.editor },
                    status: "GET (X,Y) armed: click Left, Right, or Middle to set coordinates (ESC cancels)."@,
                    ..old(self)@
                },
                HookReply::Failed { reason } => SessionView {
                    status: "GET capture failed: "@ + reason@,
                    ..old(self)@
                },
                HookReply::Unsupported => SessionView {
                    status: "GET (X,Y) capture is currently Windows-only."@,
                    ..old(self)@
                },
            },
    {
        match reply {
            HookReply::Ready => {
                self.editor.capture_armed = true;
                self.editor.last_capture_button = None;
                self.status = String::from_str(
                    "GET (X,Y) armed: click Left, Right, or Middle to set coordinates (ESC cancels).",
                );
                true
            },
            HookReply::Failed { reason } => {
                let mut status = String::from_str("GET capture failed: ");
                status.append(reason.as_str());
                self.status = status;
                false
            },
            HookReply::Unsupported => {
                self.status = String::from_str("GET (X,Y) capture is currently Windows-only.");
                false
            },
        }
    }

    /// Takes a click that the hook captured while the capture was armed: the
    /// editor is aimed at the click and the capture is over. The image at the
    /// click is to be captured and handed to `picked_preview_captured`.
    /// Nothing happens, and nothing is asked for, unless the capture is armed.
    pub fn hook_captured(&mut self, click: CapturedClick) -> (capture: Option<(i32, i32, u32)>)
        ensures
            capture == if old(self).editor.capture_armed {
                Some((click.x, click.y, EDITOR_PATCH_SIZE))
            } else {
                None
            },
            final(self)@ == if old(self).editor.capture_armed {
                SessionView {
                    editor: EditorView {
                        capture_armed: false,
                        last_capture_button: Some(click.button),
                        ..old(self)@.aimed_at((click.x, click.y))
                    },
                    status: captured_status(click),
                    ..old(self)@
                }
            } else {
                old(self)@
            },
    {
        if !self.editor.capture_armed {
            return None;
        }
        self.aim_at((click.x, click.y));
        self.editor.capture_armed = false;
        self.editor.last_capture_button = Some(click.button);
        let mut status = String::from_str("Captured ");
        status.append(button_name(click.button));
        status.append(" click at (");
        status.append(i32_text(click.x).as_str());
        status.append(", ");
        status.append(i32_text(click.y).as_str());
        status.append(")");
        self.status = status;
        Some((click.x, click.y, EDITOR_PATCH_SIZE))
    }

    /// Takes a sample of the escape key. A fresh press gives up an armed
    /// capture, or else stops what the session is busy with. The press is
    /// remembered only when it asked for nothing.
    pub fn esc_key(&mut self, down: bool) -> (action: EscAction)
        ensures
            ({
                let fresh = down && !old(self).esc_was_down;
                &&& action == if fresh && old(self).editor.capture_armed {
                    EscAction::DisarmHook
                } else if fresh && old(self).mode != Mode::Idle {
                    EscAction::Stop
                } else {
                    EscAction::Nothing
                }
                &&& final(self)@ == if fresh && old(self).editor.capture_armed {
                    SessionView {
                        editor: EditorView { capture_armed: false, ..old(self)@.editor },
                        status: "GET (X,Y) canceled."@,
                        ..old(self)@
                    }
                } else if fresh && old(self).mode != Mode::Idle {
                    old(self)@
                } else {
                    SessionView { esc_was_down: down, ..old(self)@ }
                }
            }),
    {
        if down && !self.esc_was_down {
            if self.editor.capture_armed {
                self.editor.capture_armed = false;
                self.status = String::from_str("GET (X,Y) canceled.");
                return EscAction::DisarmHook;
            }
            if self.mode != Mode::Idle {
                return EscAction::Stop;
            }
        }
        self.esc_was_down = down;
        EscAction::Nothing
    }
}

// ---------------------------------------------------------------------------
// Files
// ---------------------------------------------------------------------------

/// What is reported when a timeline was saved.
pub open spec fn saved_status(count: int, path: Seq<char>) -> Seq<char> {
    "Saved "@ + decimal_text(count) + " events to "@ + path
}

/// The report of a saved timeline of `count` rows.
pub fn saved_status_of(count: usize, path: &str) -> (status: String)
    ensures
        status@ == saved_status(count as int, path@),
{
    let mut status = String::from_str("Saved ");
    status.append(usize_text(count).as_str());
    status.append(" events to ");
    status.append(path);
    status
}

impl Session {
    pub fn file_path_changed(&mut self, path: String)
        ensures
            final(self)@ == (SessionView { file_path: path@, ..old(self)@ }),
    {
        self.file_path = path;
    }

    /// Begins to save: hands out the path and the timeline in its compact
    /// shape, for the caller to write. Refused without a path.
    pub fn save_to_file(&mut self) -> (job: Option<(String, Vec<RecordedEvent>)>)
        ensures
            match job {
                None => trimmed_text(old(self)@.file_path).len() == 0 && final(self)@ == (SessionView {
                    status: "Please provide a file path."@,
                    ..old(self)@
                }),
                Some(write) => {
                    &&& write.0@ == trimmed_text(old(self)@.file_path)
                    &&& write.0@.len() > 0
                    &&& timeline_view(write.1@) == materialized(old(self)@.events)
                    &&& final(self)@ == (SessionView {
                        status: "Saving to "@ + write.0@ + " (materializing MOVES from MOVE samples)..."@,
                        ..old(self)@
                    })
                },
            },
    {
        let path = String::from_str(trimmed(self.file_path.as_str()));
        self.save_to(path)
    }

    /// Begins to save to `path`, the path of the session without the white
    /// space around it: hands out the path and the timeline in its compact
    /// shape, for the caller to write. Refused when the path is empty.
    pub fn save_to(&mut self, path: String) -> (job: Option<(String, Vec<RecordedEvent>)>)
        ensures
            match job {
                None => path@.len() == 0 && final(self)@ == (SessionView {
                    status: "Please provide a file path."@,
                    ..old(self)@
                }),
                Some(write) => {
                    &&& write.0@ == path@
                    &&& path@.len() > 0
                    &&& timeline_view(write.1@) == materialized(old(self)@.events)
                    &&& final(self)@ == (SessionView {
                        status: "Saving to "@ + path@ + " (materializing MOVES from MOVE samples)..."@,
                        ..old(self)@
                    })
                },
            },
    {
        if path.as_str().is_empty() {
            self.status = String::from_str("Please provide a file path.");
            return None;
        }
        let events = materialize_moves_grouped_events(&self.events);
        let mut status = String::from_str("Saving to ");
        status.append(path.as_str());
        status.append(" (materializing MOVES from MOVE samples)...");
        self.status = status;
        Some((path, events))
    }

    /// Begins to load: hands out the path for the caller to read. Refused
    /// while the session is busy, and without a path.
    pub fn load_from_file(&mut self) -> (path: Option<String>)
        ensures
            match path {
                None => final(self)@ == (SessionView {
                    status: if old(self).mode != Mode::Idle {
                        "Stop recording or playback before loading."@
                    } else {
                        "Please provide a file path."@
                    },
                    ..old(self)@
                }) && (old(self).mode != Mode::Idle || trimmed_text(old(self)@.file_path).len() == 0),
                Some(read) => {
                    &&& old(self).mode == Mode::Idle
                    &&& read@ == trimmed_text(old(self)@.file_path)
                    &&& read@.len() > 0
                    &&& final(self)@ == (SessionView { status: "Loading from "@ + read@ + "..."@, ..old(self)@ })
                },
            },
    {
        let path = String::from_str(trimmed(self.file_path.as_str()));
        self.load_from(path)
    }

    /// Begins to load from `path`, the path of the session without the white
    /// space around it: hands it out for the caller to read. Refused while the
    /// session is busy, and when the path is empty.
    pub fn load_from(&mut self, path: String) -> (wanted: Option<String>)
        ensures
            match wanted {
                None => final(self)@ == (SessionView {
                    status: if old(self).mode != Mode::Idle {
                        "Stop recording or playback before loading."@
                    } else {
                        "Please provide a file path."@
                    },
                    ..old(self)@
                }) && (old(self).mode != Mode::Idle || path@.len() == 0),
                Some(read) => {
                    &&& old(self).mode == Mode::Idle
                    &&& read@ == path@
                    &&& path@.len() > 0
                    &&& final(self)@ == (SessionView { status: "Loading from "@ + path@ + "..."@, ..old(self)@ })
                },
            },
    {
        if self.mode != Mode::Idle {
            self.status = String::from_str("Stop recording or playback before loading.");
            return None;
        }
        if path.as_str().is_empty() {
            self.status = String::from_str("Please provide a file path.");
            return None;
        }
        let mut status = String::from_str("Loading from ");
        status.append(path.as_str());
        status.append("...");
        self.status = status;
        Some(path)
    }

    /// Reports what the caller has to say: that a file was saved, or why it
    /// could not be saved or loaded. The timeline stays as it is.
    pub fn report(&mut self, message: String)
        ensures
            final(self)@ == (SessionView { status: message@, ..old(self)@ }),
    {
        self.status = message;
    }

    /// Takes a timeline that was loaded in place of the present one.
    pub fn file_loaded(&mut self, events: Vec<RecordedEvent>)
        ensures
            final(self)@ == (SessionView {
                events: timeline_view(events@),
                status: "Loaded "@ + decimal_text(events.len() as int) + " events."@,
                ..old(self)@
            }),
    {
        let mut status = String::from_str("Loaded ");
        status.append(usize_text(events.len()).as_str());
        status.append(" events.");
        self.events = events;
        self.status = status;
    }
}

} // verus!
