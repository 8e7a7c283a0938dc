//! The editor: the settings with which rows are made, and the operations that
//! insert, change, select and delete rows of a timeline.

use vstd::prelude::*;
use vstd::string::StringExecFns;
use crate::model::{
    ClickEdgeMode, ClickListMeta, ClickTarget, EventView, KindView, MouseButton, RecordedEvent,
    RecordedEventKind, SearchAnchor, copy_patch, patch_view, timeline_view,
};
use crate::recorder::{advanced, spec_advanced};
use crate::text::{decimal_text, i32_text, parse_i32, spec_parse_i32, usize_text};
use crate::timeline::in_order;
use crate::timeline::laws::all_valid;

verus! {

/// `value` held within `lo..=hi`.
pub open spec fn spec_clamp_u16(value: u16, lo: u16, hi: u16) -> u16 {
    if value < lo {
        lo
    } else if value > hi {
        hi
    } else {
        value
    }
}

#[verifier::when_used_as_spec(spec_clamp_u16)]
pub fn clamp_u16(value: u16, lo: u16, hi: u16) -> (held: u16)
    ensures
        held == spec_clamp_u16(value, lo, hi),
{
    if value < lo {
        lo
    } else if value > hi {
        hi
    } else {
        value
    }
}

/// The settings with which the editor makes rows.
#[derive(Debug, Clone, Copy, PartialEq, Eq, Structural)]
pub struct EditorSettings {
    pub wait_ms: u16,
    pub click_speed_ms: u16,
    pub mouse_move_speed_ms: u16,
    pub click_split_px: u16,
    pub click_max_hold_ms: u16,
    pub target_precision_percent: u16,
    pub target_timeout_ms: u16,
    pub click_target: ClickTarget,
    pub left_mode: ClickEdgeMode,
    pub right_mode: ClickEdgeMode,
    pub middle_mode: ClickEdgeMode,
    pub use_find_image: bool,
}

/// One change of a setting, as it comes from a control.
#[derive(Debug, Clone, Copy, PartialEq, Eq, Structural)]
pub enum Setting {
    WaitMs { ms: u16 },
    ClickSpeedMs { ms: u16 },
    MouseMoveSpeedMs { ms: u16 },
    ClickSplitPx { px: u16 },
    ClickMaxHoldMs { ms: u16 },
    TargetPrecision { percent: u16 },
    TargetTimeoutMs { ms: u16 },
    UseFindImage { enabled: bool },
    Target { target: ClickTarget },
    LeftMode { mode: ClickEdgeMode },
    RightMode { mode: ClickEdgeMode },
    MiddleMode { mode: ClickEdgeMode },
}

/// The time in which the pointer moves to a row, as it is set whenever the
/// target or its mode changes.
pub const DEFAULT_MOUSE_MOVE_SPEED_MS: u16 = 20;

/// The side of the patch that the editor captures for a row.
pub const EDITOR_PATCH_SIZE: u32 = 128;

impl EditorSettings {
    pub open spec fn spec_default() -> EditorSettings {
        EditorSettings {
            wait_ms: 20,
            click_speed_ms: 20,
            mouse_move_speed_ms: 20,
            click_split_px: 10,
            click_max_hold_ms: 50,
            target_precision_percent: 90,
            target_timeout_ms: 2000,
            click_target: ClickTarget::Left,
            left_mode: ClickEdgeMode::Auto,
            right_mode: ClickEdgeMode::Auto,
            middle_mode: ClickEdgeMode::Auto,
            use_find_image: false,
        }
    }

    /// The mode of the button that the editor is aimed at.
    pub open spec fn spec_active_editor_mode(self) -> ClickEdgeMode {
        match self.click_target {
            ClickTarget::Left => self.left_mode,
            ClickTarget::Right => self.right_mode,
            ClickTarget::Middle => self.middle_mode,
        }
    }

    #[verifier::when_used_as_spec(spec_active_editor_mode)]
    pub fn active_editor_mode(self) -> (mode: ClickEdgeMode)
        ensures
            mode == self.spec_active_editor_mode(),
    {
        match self.click_target {
            ClickTarget::Left => self.left_mode,
            ClickTarget::Right => self.right_mode,
            ClickTarget::Middle => self.middle_mode,
        }
    }

    /// A move speed snapped to the nearest multiple of five and held within 5 to 500.
    pub open spec fn spec_snapped_move_speed(ms: u16) -> u16 {
        let padded: int = if ms + 2 > u16::MAX {
            u16::MAX as int
        } else {
            ms + 2
        };
        spec_clamp_u16((padded / 5 * 5) as u16, 5, 500)
    }

    #[verifier::when_used_as_spec(spec_snapped_move_speed)]
    pub fn snapped_move_speed(ms: u16) -> (snapped: u16)
        ensures
            snapped == EditorSettings::spec_snapped_move_speed(ms),
    {
        let padded: u16 = if ms > u16::MAX - 2 {
            u16::MAX
        } else {
            ms + 2
        };
        clamp_u16(padded / 5 * 5, 5, 500)
    }

    /// The settings after a change. Every value is held within its range; the
    /// mode of a button changes only while the editor is aimed at that button,
    /// and the click speed only while the mode in use is a click. A change of
    /// the target or of its mode puts the move speed back to its default.
    pub open spec fn applied(self, setting: Setting) -> EditorSettings {
        match setting {
            Setting::WaitMs { ms } => EditorSettings { wait_ms: spec_clamp_u16(ms, 0, 300), ..self },
            Setting::ClickSpeedMs { ms } => if self.spec_active_editor_mode() == ClickEdgeMode::Up
                || self.spec_active_editor_mode() == ClickEdgeMode::Down {
                self
            } else {
                EditorSettings { click_speed_ms: spec_clamp_u16(ms, 0, 100), ..self }
            },
            Setting::MouseMoveSpeedMs { ms } => EditorSettings {
                mouse_move_speed_ms: EditorSettings::spec_snapped_move_speed(ms),
                ..self
            },
            Setting::ClickSplitPx { px } => EditorSettings { click_split_px: spec_clamp_u16(px, 0, 20), ..self },
            Setting::ClickMaxHoldMs { ms } => EditorSettings {
                click_max_hold_ms: spec_clamp_u16(ms, 0, 100),
                ..self
            },
            Setting::TargetPrecision { percent } => EditorSettings {
                target_precision_percent: spec_clamp_u16(percent, 50, 100),
                ..self
            },
            Setting::TargetTimeoutMs { ms } => EditorSettings {
                target_timeout_ms: spec_clamp_u16(ms, 200, 10000),
                ..self
            },
            Setting::UseFindImage { enabled } => EditorSettings { use_find_image: enabled, ..self },
            Setting::Target { target } => EditorSettings {
                click_target: target,
                mouse_move_speed_ms: DEFAULT_MOUSE_MOVE_SPEED_MS,
                ..self
            },
            Setting::LeftMode { mode } => if self.click_target == ClickTarget::Left {
                EditorSettings { left_mode: mode, mouse_move_speed_ms: DEFAULT_MOUSE_MOVE_SPEED_MS, ..self }
            } else {
                self
            },
            Setting::RightMode { mode } => if self.click_target == ClickTarget::Right {
                EditorSettings { right_mode: mode, mouse_move_speed_ms: DEFAULT_MOUSE_MOVE_SPEED_MS, ..self }
            } else {
                self
            },
            Setting::MiddleMode { mode } => if self.click_target == ClickTarget::Middle {
                EditorSettings { middle_mode: mode, mouse_move_speed_ms: DEFAULT_MOUSE_MOVE_SPEED_MS, ..self }
            } else {
                self
            },
        }
    }

    /// Changes one setting.
    pub fn apply(&mut self, setting: Setting)
        ensures
            *final(self) == old(self).applied(setting),
    {
        match setting {
            Setting::WaitMs { ms } => {
                self.wait_ms = clamp_u16(ms, 0, 300);
            },
            Setting::ClickSpeedMs { ms } => {
                let mode = self.active_editor_mode();
                if !(mode == ClickEdgeMode::Up || mode == ClickEdgeMode::Down) {
                    self.click_speed_ms = clamp_u16(ms, 0, 100);
                }
            },
            Setting::MouseMoveSpeedMs { ms } => {
                self.mouse_move_speed_ms = EditorSettings::snapped_move_speed(ms);
            },
            Setting::ClickSplitPx { px } => {
                self.click_split_px = clamp_u16(px, 0, 20);
            },
            Setting::ClickMaxHoldMs { ms } => {
                self.click_max_hold_ms = clamp_u16(ms, 0, 100);
            },
            Setting::TargetPrecision { percent } => {
                self.target_precision_percent = clamp_u16(percent, 50, 100);
            },
            Setting::TargetTimeoutMs { ms } => {
                self.target_timeout_ms = clamp_u16(ms, 200, 10000);
            },
            Setting::UseFindImage { enabled } => {
                self.use_find_image = enabled;
            },
            Setting::Target { target } => {
                self.click_target = target;
                self.mouse_move_speed_ms = DEFAULT_MOUSE_MOVE_SPEED_MS;
            },
            Setting::LeftMode { mode } => {
                if self.click_target == ClickTarget::Left {
                    self.left_mode = mode;
                    self.mouse_move_speed_ms = DEFAULT_MOUSE_MOVE_SPEED_MS;
                }
            },
            Setting::RightMode { mode } => {
                if self.click_target == ClickTarget::Right {
                    self.right_mode = mode;
                    self.mouse_move_speed_ms = DEFAULT_MOUSE_MOVE_SPEED_MS;
                }
            },
            Setting::MiddleMode { mode } => {
                if self.click_target == ClickTarget::Middle {
                    self.middle_mode = mode;
                    self.mouse_move_speed_ms = DEFAULT_MOUSE_MOVE_SPEED_MS;
                }
            },
        }
    }

    /// The match confidence of the settings in thousandths.
    pub open spec fn precision_permille(self) -> u16 {
        if self.target_precision_percent > 6553 {
            u16::MAX
        } else {
            (self.target_precision_percent * 10) as u16
        }
    }

    /// The settings that the editor stores beside a row it makes.
    pub open spec fn spec_current_click_list_meta(self) -> ClickListMeta {
        ClickListMeta {
            left_mode: self.left_mode,
            right_mode: self.right_mode,
            middle_mode: self.middle_mode,
            wait_ms: self.wait_ms,
            click_speed_ms: self.click_speed_ms,
            mouse_move_speed_ms: self.mouse_move_speed_ms,
            use_find_image: self.use_find_image,
            target_precision_permille: self.precision_permille(),
            target_timeout_ms: self.target_timeout_ms as u64,
        }
    }

    #[verifier::when_used_as_spec(spec_current_click_list_meta)]
    pub fn current_click_list_meta(self) -> (meta: ClickListMeta)
        ensures
            meta == self.spec_current_click_list_meta(),
    {
        ClickListMeta {
            left_mode: self.left_mode,
            right_mode: self.right_mode,
            middle_mode: self.middle_mode,
            wait_ms: self.wait_ms,
            click_speed_ms: self.click_speed_ms,
            mouse_move_speed_ms: self.mouse_move_speed_ms,
            use_find_image: self.use_find_image,
            target_precision_permille: if self.target_precision_percent > 6553 {
                u16::MAX
            } else {
                self.target_precision_percent * 10
            },
            target_timeout_ms: self.target_timeout_ms as u64,
        }
    }

    /// Whether no button has a mode of its own.
    pub open spec fn all_auto(self) -> bool {
        self.left_mode == ClickEdgeMode::Auto && self.right_mode == ClickEdgeMode::Auto && self.middle_mode
            == ClickEdgeMode::Auto
    }
}

impl Default for EditorSettings {
    fn default() -> (settings: EditorSettings)
        ensures
            settings == EditorSettings::spec_default(),
    {
        EditorSettings {
            wait_ms: 20,
            click_speed_ms: 20,
            mouse_move_speed_ms: 20,
            click_split_px: 10,
            click_max_hold_ms: 50,
            target_precision_percent: 90,
            target_timeout_ms: 2000,
            click_target: ClickTarget::Left,
            left_mode: ClickEdgeMode::Auto,
            right_mode: ClickEdgeMode::Auto,
            middle_mode: ClickEdgeMode::Auto,
            use_find_image: false,
        }
    }
}

/// The action that a mode of its own asks of `button`: none for `Auto`, a
/// press for `Down`, a release for `Up` and a click for `Double`.
pub open spec fn kind_for_mode(button: MouseButton, mode: ClickEdgeMode, patch: Option<Seq<char>>) -> Seq<KindView> {
    match mode {
        ClickEdgeMode::Auto => Seq::empty(),
        ClickEdgeMode::Down => seq![KindView::ButtonDown { button, patch }],
        ClickEdgeMode::Up => seq![KindView::ButtonUp { button, patch }],
        ClickEdgeMode::Double => seq![KindView::ButtonClick { button, patch }],
    }
}

/// The actions that the editor inserts: a click of the target while no button
/// has a mode of its own, else one action for each button that has one, left
/// before right before middle. Each action carries `patch`.
pub open spec fn spec_event_kinds(settings: EditorSettings, patch: Option<Seq<char>>) -> Seq<KindView> {
    if settings.all_auto() {
        seq![KindView::ButtonClick { button: settings.click_target.spec_button(), patch }]
    } else {
        kind_for_mode(MouseButton::Left, settings.left_mode, patch) + kind_for_mode(
            MouseButton::Right,
            settings.right_mode,
            patch,
        ) + kind_for_mode(MouseButton::Middle, settings.middle_mode, patch)
    }
}

/// The view of a list of actions.
pub open spec fn kinds_view(kinds: Seq<RecordedEventKind>) -> Seq<KindView> {
    kinds.map_values(|kind: RecordedEventKind| kind@)
}

fn push_kind_for_mode(
    kinds: &mut Vec<RecordedEventKind>,
    button: MouseButton,
    mode: ClickEdgeMode,
    patch: &Option<String>,
)
    ensures
        kinds_view(final(kinds)@) == kinds_view(old(kinds)@) + kind_for_mode(button, mode, patch_view(*patch)),
{
    let ghost before = kinds_view(kinds@);
    match mode {
        ClickEdgeMode::Auto => {
            assert(before =~= before + kind_for_mode(button, mode, patch_view(*patch)));
        },
        ClickEdgeMode::Down => {
            let kind = RecordedEventKind::ButtonDown { button, patch_png_base64: copy_patch(patch) };
            assert(kinds_view(kinds@.push(kind)) =~= before + kind_for_mode(button, mode, patch_view(*patch)));
            kinds.push(kind);
        },
        ClickEdgeMode::Up => {
            let kind = RecordedEventKind::ButtonUp { button, patch_png_base64: copy_patch(patch) };
            assert(kinds_view(kinds@.push(kind)) =~= before + kind_for_mode(button, mode, patch_view(*patch)));
            kinds.push(kind);
        },
        ClickEdgeMode::Double => {
            let kind = RecordedEventKind::ButtonClick { button, patch_png_base64: copy_patch(patch) };
            assert(kinds_view(kinds@.push(kind)) =~= before + kind_for_mode(button, mode, patch_view(*patch)));
            kinds.push(kind);
        },
    }
}

/// The actions that the editor inserts with its present settings.
pub fn event_kinds_from_editor_modes(settings: &EditorSettings, patch: Option<String>) -> (kinds: Vec<
    RecordedEventKind,
>)
    ensures
        kinds_view(kinds@) == spec_event_kinds(*settings, patch_view(patch)),
        kinds.len() >= 1,
{
    let mut kinds: Vec<RecordedEventKind> = Vec::new();
    assert(kinds_view(kinds@) =~= Seq::<KindView>::empty());
    if settings.left_mode == ClickEdgeMode::Auto && settings.right_mode == ClickEdgeMode::Auto
        && settings.middle_mode == ClickEdgeMode::Auto {
        let kind = RecordedEventKind::ButtonClick {
            button: settings.click_target.button(),
            patch_png_base64: patch,
        };
        assert(kinds_view(kinds@.push(kind)) =~= seq![kind@]);
        kinds.push(kind);
        return kinds;
    }
    push_kind_for_mode(&mut kinds, MouseButton::Left, settings.left_mode, &patch);
    push_kind_for_mode(&mut kinds, MouseButton::Right, settings.right_mode, &patch);
    push_kind_for_mode(&mut kinds, MouseButton::Middle, settings.middle_mode, &patch);
    assert(kinds_view(kinds@) =~= spec_event_kinds(*settings, patch_view(patch)));
    assert(kinds_view(kinds@).len() == kinds.len());
    kinds
}

// ---------------------------------------------------------------------------
// The editor
// ---------------------------------------------------------------------------

/// What the editor shows of the selected row.
#[derive(Debug, Clone, Copy, PartialEq, Eq, Structural)]
pub struct SelectionDetails {
    pub wait_ms: u64,
    pub precision_permille: u16,
    pub timeout_ms: u64,
    pub limit_region: bool,
    pub region_size: u32,
    pub anchor: SearchAnchor,
}

impl SelectionDetails {
    pub open spec fn spec_default() -> SelectionDetails {
        SelectionDetails {
            wait_ms: 1000,
            precision_permille: 920,
            timeout_ms: 2000,
            limit_region: true,
            region_size: 600,
            anchor: SearchAnchor::RecordedClick,
        }
    }
}

/// The state of the editor.
#[derive(Debug)]
pub struct Editor {
    pub settings: EditorSettings,
    /// The coordinates at which rows are made, as text.
    pub x_text: String,
    pub y_text: String,
    /// The image that rows made by image search carry.
    pub static_preview_patch_b64: Option<String>,
    /// Whether the next click anywhere sets the coordinates.
    pub capture_armed: bool,
    pub last_capture_button: Option<MouseButton>,
    pub last_preview_at_ms: Option<u64>,
    pub last_preview_pos: Option<(i32, i32)>,
    pub selected_index: Option<usize>,
    pub details: SelectionDetails,
}

/// The mathematical value of an `Editor`.
pub struct EditorView {
    pub settings: EditorSettings,
    pub x_text: Seq<char>,
    pub y_text: Seq<char>,
    pub static_preview_patch_b64: Option<Seq<char>>,
    pub capture_armed: bool,
    pub last_capture_button: Option<MouseButton>,
    pub last_preview_at_ms: Option<u64>,
    pub last_preview_pos: Option<(i32, i32)>,
    pub selected_index: Option<usize>,
    pub details: SelectionDetails,
}

impl View for Editor {
    type V = EditorView;

    open spec fn view(&self) -> EditorView {
        EditorView {
            settings: self.settings,
            x_text: self.x_text@,
            y_text: self.y_text@,
            static_preview_patch_b64: patch_view(self.static_preview_patch_b64),
            capture_armed: self.capture_armed,
            last_capture_button: self.last_capture_button,
            last_preview_at_ms: self.last_preview_at_ms,
            last_preview_pos: self.last_preview_pos,
            selected_index: self.selected_index,
            details: self.details,
        }
    }
}

/// An editor after an operation, the timeline after it, and what the
/// operation reports.
pub struct Edit {
    pub editor: EditorView,
    pub rows: Seq<EventView>,
    pub status: Seq<char>,
}

impl EditorView {
    /// The editor as it starts: default settings, aimed at (0, 0), nothing selected.
    pub open spec fn fresh() -> EditorView {
        EditorView {
            settings: EditorSettings::spec_default(),
            x_text: "0"@,
            y_text: "0"@,
            static_preview_patch_b64: None,
            capture_armed: false,
            last_capture_button: None,
            last_preview_at_ms: None,
            last_preview_pos: None,
            selected_index: None,
            details: SelectionDetails::spec_default(),
        }
    }

    /// The coordinates of the editor, if both texts are numbers.
    pub open spec fn parse_editor_xy(self) -> Option<(i32, i32)> {
        match (spec_parse_i32(self.x_text), spec_parse_i32(self.y_text)) {
            (Some(x), Some(y)) => Some((x, y)),
            _ => None,
        }
    }

    /// Nothing changes but the report.
    pub open spec fn refuse(self, rows: Seq<EventView>, status: Seq<char>) -> Edit {
        Edit { editor: self, rows, status }
    }
}

/// Whether two actions are the same thing done to the same button.
pub open spec fn same_action(a: KindView, b: KindView) -> bool {
    match (a, b) {
        (KindView::ButtonDown { button: x, .. }, KindView::ButtonDown { button: y, .. }) => x == y,
        (KindView::ButtonUp { button: x, .. }, KindView::ButtonUp { button: y, .. }) => x == y,
        (KindView::ButtonClick { button: x, .. }, KindView::ButtonClick { button: y, .. }) => x == y,
        _ => false,
    }
}

/// The index in `kinds`, from `from` on, of the first action that is the same
/// as `selected`; `kinds.len()` if there is none.
pub open spec fn first_same_action(kinds: Seq<KindView>, selected: KindView, from: int) -> int
    decreases kinds.len() - from,
{
    if from < 0 || from >= kinds.len() {
        kinds.len() as int
    } else if same_action(kinds[from], selected) {
        from
    } else {
        first_same_action(kinds, selected, from + 1)
    }
}

/// The action that takes the place of `selected`: the first of `kinds` that is
/// the same action, else the first of all. It keeps the image of a button row
/// that it replaces.
pub open spec fn replacement_kind(kinds: Seq<KindView>, selected: KindView) -> KindView
    recommends
        kinds.len() > 0,
{
    let found = first_same_action(kinds, selected, 0);
    let chosen = if found < kinds.len() {
        kinds[found]
    } else {
        kinds[0]
    };
    if selected.is_button() {
        chosen.with_patch(selected.patch())
    } else {
        chosen
    }
}

/// The row at `index` after the editor was applied to it: a `Move` goes to
/// the point, a polyline ends at the point, any other row becomes the
/// replacement action at the point. The row keeps its stamp and takes the settings.
pub open spec fn applied_row(row: EventView, at: (i32, i32), kinds: Seq<KindView>, meta: ClickListMeta) -> EventView {
    let kind = match row.kind {
        KindView::Move { .. } => KindView::Move { x: at.0, y: at.1 },
        KindView::Moves { points } => KindView::Moves {
            points: if points.len() > 0 {
                points.update(points.len() - 1, at)
            } else {
                seq![at]
            },
        },
        other => replacement_kind(kinds, other),
    };
    EventView { kind, pos: Some(at), click_meta: Some(meta), ..row }
}

/// What applying the editor to the row at `index` reports.
pub open spec fn applied_status(rows: Seq<EventView>, index: usize) -> Seq<char> {
    if index < rows.len() && rows[index as int].kind is Move {
        "Updated move at row "@ + decimal_text(index as int)
    } else if index < rows.len() && rows[index as int].kind is Moves {
        "Updated moves at row "@ + decimal_text(index as int)
    } else {
        "Updated selected row (single-row apply)"@
    }
}

/// A stamp held at or below the stamp of the row that follows, if there is one.
pub open spec fn spec_capped(stamp: u128, cap: Option<u128>) -> u128 {
    match cap {
        Some(limit) => if stamp > limit {
            limit
        } else {
            stamp
        },
        None => stamp,
    }
}

#[verifier::when_used_as_spec(spec_capped)]
pub fn capped(stamp: u128, cap: Option<u128>) -> (held: u128)
    ensures
        held == spec_capped(stamp, cap),
{
    match cap {
        Some(limit) => if stamp > limit {
            limit
        } else {
            stamp
        },
        None => stamp,
    }
}

/// The stamp of the `k`-th row that the editor inserts after a row stamped
/// `base_ms`: `base_ms + 1 + k`, but never later than `cap`, the stamp of the
/// row that follows.
pub open spec fn new_stamp(base_ms: u128, cap: Option<u128>, k: int) -> u128 {
    let plain = base_ms + 1 + k;
    spec_capped(
        if plain > u128::MAX {
            u128::MAX
        } else {
            plain as u128
        },
        cap,
    )
}

/// The rows that the editor inserts: one for each action, at the point, with
/// the settings, stamped one after the other from `base_ms + 1` on and never
/// later than `cap`.
pub open spec fn new_rows(
    kinds: Seq<KindView>,
    base_ms: u128,
    cap: Option<u128>,
    at: (i32, i32),
    meta: ClickListMeta,
) -> Seq<EventView> {
    Seq::new(
        kinds.len(),
        |k: int|
            EventView {
                ms_from_start: new_stamp(base_ms, cap, k),
                kind: kinds[k],
                pos: Some(at),
                click_meta: Some(meta),
            },
    )
}

/// The stamp of the row below the row at `index`, if there is one.
pub open spec fn stamp_below(rows: Seq<EventView>, index: int) -> Option<u128> {
    if 0 <= index + 1 < rows.len() {
        Some(rows[index + 1].ms_from_start)
    } else {
        None
    }
}

/// The stamp of the last row, or zero.
pub open spec fn last_ms(rows: Seq<EventView>) -> u128 {
    if rows.len() > 0 {
        rows.last().ms_from_start
    } else {
        0
    }
}

/// Insert or apply at `at`, the coordinates that the texts of the editor were
/// read as.
///
/// Texts that are no coordinates are refused, and so is an insertion by image
/// while the editor holds no image. With a row selected the editor is applied
/// to that row, which keeps its stamp; a selection beyond the end changes
/// nothing. With none selected the rows of the editor are appended, stamped
/// after the last row, and the first of them is selected.
pub open spec fn spec_insert_or_apply_at(
    editor: EditorView,
    rows: Seq<EventView>,
    at: Option<(i32, i32)>,
    captured: Option<Seq<char>>,
) -> Edit {
    match at {
        None => editor.refuse(rows, "Invalid X/Y coordinates."@),
        Some(at) => if editor.settings.use_find_image && editor.static_preview_patch_b64 is None {
            editor.refuse(rows, "Press GET (X,Y) to capture or select a target image first."@)
        } else {
            let patch = if editor.settings.use_find_image {
                editor.static_preview_patch_b64
            } else {
                captured
            };
            let kinds = spec_event_kinds(editor.settings, patch);
            let meta = editor.settings.spec_current_click_list_meta();
            match editor.selected_index {
                Some(index) => Edit {
                    editor,
                    rows: if index < rows.len() {
                        rows.update(index as int, applied_row(rows[index as int], at, kinds, meta))
                    } else {
                        rows
                    },
                    status: applied_status(rows, index),
                },
                None => Edit {
                    editor: EditorView { selected_index: Some(rows.len() as usize), ..editor },
                    rows: rows + new_rows(kinds, last_ms(rows), None, at, meta),
                    status: "Inserted click row."@,
                },
            }
        },
    }
}

/// Insert or apply at the coordinates of the editor.
pub open spec fn spec_insert_or_apply(editor: EditorView, rows: Seq<EventView>, captured: Option<Seq<char>>) -> Edit {
    spec_insert_or_apply_at(editor, rows, editor.parse_editor_xy(), captured)
}

/// Insert below the selected row at `at`, the coordinates that the texts of
/// the editor were read as.
///
/// Refused without a selection, with a selection beyond the end, with texts
/// that are no coordinates, and by image while the editor holds no image.
/// Else the rows of the editor are inserted below the selected row and the
/// first of them is selected. They are stamped upwards from the stamp of the
/// selected row, but never later than the row that follows them, so that a
/// timeline in the order of its stamps stays in that order.
pub open spec fn spec_insert_below_selected_at(
    editor: EditorView,
    rows: Seq<EventView>,
    at: Option<(i32, i32)>,
    captured: Option<Seq<char>>,
) -> Edit {
    match editor.selected_index {
        None => editor.refuse(rows, "Select a row first to insert below"@),
        Some(index) => if index >= rows.len() {
            EditorView { selected_index: None, ..editor }.refuse(rows, "Selected row no longer exists"@)
        } else {
            match at {
                None => editor.refuse(rows, "Invalid X/Y coordinates."@),
                Some(at) => if editor.settings.use_find_image && editor.static_preview_patch_b64 is None {
                    editor.refuse(rows, "Press GET (X,Y) to capture or select a target image first."@)
                } else {
                    let patch = if editor.settings.use_find_image {
                        editor.static_preview_patch_b64
                    } else {
                        captured
                    };
                    let kinds = spec_event_kinds(editor.settings, patch);
                    let meta = editor.settings.spec_current_click_list_meta();
                    Edit {
                        editor: EditorView { selected_index: Some((index + 1) as usize), ..editor },
                        rows: rows.subrange(0, index + 1) + new_rows(
                            kinds,
                            rows[index as int].ms_from_start,
                            stamp_below(rows, index as int),
                            at,
                            meta,
                        ) + rows.subrange(index + 1, rows.len() as int),
                        status: "Inserted "@ + decimal_text(kinds.len() as int) + " row(s) below selected (multi-row)"@,
                    }
                },
            }
        },
    }
}

/// Insert below the selected row at the coordinates of the editor.
pub open spec fn spec_insert_below_selected(
    editor: EditorView,
    rows: Seq<EventView>,
    captured: Option<Seq<char>>,
) -> Edit {
    spec_insert_below_selected_at(editor, rows, editor.parse_editor_xy(), captured)
}

fn same_action_of(a: &RecordedEventKind, b: &RecordedEventKind) -> (same: bool)
    ensures
        same == same_action(a@, b@),
{
    match (a, b) {
        (RecordedEventKind::ButtonDown { button: x, .. }, RecordedEventKind::ButtonDown { button: y, .. }) => *x
            == *y,
        (RecordedEventKind::ButtonUp { button: x, .. }, RecordedEventKind::ButtonUp { button: y, .. }) => *x == *y,
        (RecordedEventKind::ButtonClick { button: x, .. }, RecordedEventKind::ButtonClick { button: y, .. }) => *x
            == *y,
        _ => false,
    }
}

fn find_same_action(kinds: &Vec<RecordedEventKind>, selected: &RecordedEventKind) -> (found: usize)
    ensures
        found == first_same_action(kinds_view(kinds@), selected@, 0),
        found <= kinds.len(),
{
    let mut k: usize = 0;
    while k < kinds.len()
        invariant
            k <= kinds.len(),
            first_same_action(kinds_view(kinds@), selected@, 0) == first_same_action(
                kinds_view(kinds@),
                selected@,
                k as int,
            ),
        decreases kinds.len() - k,
    {
        assert(kinds_view(kinds@)[k as int] == kinds[k as int]@);
        if same_action_of(&kinds[k], selected) {
            return k;
        }
        k += 1;
    }
    k
}

fn kind_with_patch(kind: RecordedEventKind, patch: Option<String>) -> (out: RecordedEventKind)
    ensures
        out@ == kind@.with_patch(patch_view(patch)),
{
    match kind {
        RecordedEventKind::ButtonDown { button, .. } => RecordedEventKind::ButtonDown {
            button,
            patch_png_base64: patch,
        },
        RecordedEventKind::ButtonUp { button, .. } => RecordedEventKind::ButtonUp { button, patch_png_base64: patch },
        RecordedEventKind::ButtonClick { button, .. } => RecordedEventKind::ButtonClick {
            button,
            patch_png_base64: patch,
        },
        other => other,
    }
}

/// The image that an action carries, if any.
pub fn kind_patch(kind: &RecordedEventKind) -> (patch: Option<String>)
    ensures
        patch_view(patch) == kind@.patch(),
{
    match kind {
        RecordedEventKind::FindTarget { patch_png_base64, .. } => Some(patch_png_base64.clone()),
        RecordedEventKind::ButtonDown { patch_png_base64, .. } => copy_patch(patch_png_base64),
        RecordedEventKind::ButtonUp { patch_png_base64, .. } => copy_patch(patch_png_base64),
        RecordedEventKind::ButtonClick { patch_png_base64, .. } => copy_patch(patch_png_base64),
        _ => None,
    }
}

fn is_button_kind(kind: &RecordedEventKind) -> (is_button: bool)
    ensures
        is_button == kind@.is_button(),
{
    match kind {
        RecordedEventKind::ButtonDown { .. } => true,
        RecordedEventKind::ButtonUp { .. } => true,
        RecordedEventKind::ButtonClick { .. } => true,
        _ => false,
    }
}

fn replacement_of(kinds: &Vec<RecordedEventKind>, selected: &RecordedEventKind) -> (out: RecordedEventKind)
    requires
        kinds.len() > 0,
    ensures
        out@ == replacement_kind(kinds_view(kinds@), selected@),
{
    let found = find_same_action(kinds, selected);
    let chosen = if found < kinds.len() {
        assert(kinds_view(kinds@)[found as int] == kinds[found as int]@);
        kinds[found].clone()
    } else {
        assert(kinds_view(kinds@)[0] == kinds[0]@);
        kinds[0].clone()
    };
    if is_button_kind(selected) {
        kind_with_patch(chosen, kind_patch(selected))
    } else {
        chosen
    }
}

fn applied_row_of(row: RecordedEvent, at: (i32, i32), kinds: &Vec<RecordedEventKind>, meta: ClickListMeta) -> (out:
    RecordedEvent)
    requires
        kinds.len() > 0,
    ensures
        out@ == applied_row(row@, at, kinds_view(kinds@), meta),
{
    let RecordedEvent { ms_from_start, kind, .. } = row;
    let kind = match kind {
        RecordedEventKind::Move { .. } => RecordedEventKind::Move { x: at.0, y: at.1 },
        RecordedEventKind::Moves { points } => {
            let mut points = points;
            if points.len() > 0 {
                let last = points.len() - 1;
                points.set(last, at);
            } else {
                points.push(at);
                assert(points@ =~= seq![at]);
            }
            RecordedEventKind::Moves { points }
        },
        other => replacement_of(kinds, &other),
    };
    RecordedEvent { ms_from_start, kind, pos: Some(at), click_meta: Some(meta) }
}

fn insert_rows(
    events: &mut Vec<RecordedEvent>,
    insert_at: usize,
    kinds: &Vec<RecordedEventKind>,
    base_ms: u128,
    cap: Option<u128>,
    at: (i32, i32),
    meta: ClickListMeta,
)
    requires
        insert_at <= old(events).len(),
    ensures
        timeline_view(final(events)@) == timeline_view(old(events)@).subrange(0, insert_at as int) + new_rows(
            kinds_view(kinds@),
            base_ms,
            cap,
            at,
            meta,
        ) + timeline_view(old(events)@).subrange(insert_at as int, old(events).len() as int),
{
    let ghost rows = timeline_view(events@);
    let ghost wanted = new_rows(kinds_view(kinds@), base_ms, cap, at, meta);
    let ghost head = rows.subrange(0, insert_at as int);
    let ghost tail = rows.subrange(insert_at as int, rows.len() as int);
    let first_ms = advanced(base_ms, 1);
    let mut k: usize = 0;
    assert(timeline_view(events@) =~= head + wanted.take(0) + tail);
    while k < kinds.len()
        invariant
            k <= kinds.len(),
            insert_at <= old(events).len(),
            events.len() == old(events).len() + k,
            rows == timeline_view(old(events)@),
            wanted == new_rows(kinds_view(kinds@), base_ms, cap, at, meta),
            head == rows.subrange(0, insert_at as int),
            tail == rows.subrange(insert_at as int, rows.len() as int),
            first_ms == spec_advanced(base_ms, 1),
            timeline_view(events@) == head + wanted.take(k as int) + tail,
        decreases kinds.len() - k,
    {
        let row = RecordedEvent {
            ms_from_start: capped(advanced(first_ms, k as u128), cap),
            kind: kinds[k].clone(),
            pos: Some(at),
            click_meta: Some(meta),
        };
        proof {
            assert(kinds_view(kinds@)[k as int] == kinds[k as int]@);
            assert(row@ == wanted[k as int]);
            assert(timeline_view(events@.insert(insert_at + k, row)) =~= timeline_view(events@).insert(
                insert_at + k,
                row@,
            ));
            assert((head + wanted.take(k as int) + tail).insert(insert_at + k, wanted[k as int]) =~= head
                + wanted.take(k + 1) + tail);
        }
        events.insert(insert_at + k, row);
        k += 1;
    }
    assert(wanted.take(kinds.len() as int) =~= wanted);
}

impl Editor {
    /// The editor as it starts.
    pub fn new() -> (editor: Editor)
        ensures
            editor@ == EditorView::fresh(),
    {
        Editor {
            settings: EditorSettings::default(),
            x_text: String::from_str("0"),
            y_text: String::from_str("0"),
            static_preview_patch_b64: None,
            capture_armed: false,
            last_capture_button: None,
            last_preview_at_ms: None,
            last_preview_pos: None,
            selected_index: None,
            details: SelectionDetails {
                wait_ms: 1000,
                precision_permille: 920,
                timeout_ms: 2000,
                limit_region: true,
                region_size: 600,
                anchor: SearchAnchor::RecordedClick,
            },
        }
    }

    /// The coordinates of the editor, if both texts are numbers. Texts that
    /// are the decimal texts of two coordinates, as `select_row` writes them,
    /// are read as those coordinates.
    pub fn parse_editor_xy(&self) -> (at: Option<(i32, i32)>)
        ensures
            at == self@.parse_editor_xy(),
            forall|x: int, y: int|
                i32::MIN <= x <= i32::MAX && i32::MIN <= y <= i32::MAX && self.x_text@ == #[trigger] decimal_text(x)
                    && self.y_text@ == #[trigger] decimal_text(y) ==> at == Some((x as i32, y as i32)),
    {
        let x = parse_i32(self.x_text.as_str());
        let y = parse_i32(self.y_text.as_str());
        match (x, y) {
            (Some(x), Some(y)) => Some((x, y)),
            _ => None,
        }
    }

    /// Where an image is to be captured before `insert_or_apply` or
    /// `insert_below_selected` is called: at the coordinates of the editor,
    /// unless rows are made by image search or the texts are no coordinates.
    pub fn capture_request(&self) -> (request: Option<(i32, i32, u32)>)
        ensures
            request == match self@.parse_editor_xy() {
                Some(at) => if self.settings.use_find_image {
                    None
                } else {
                    Some((at.0, at.1, EDITOR_PATCH_SIZE))
                },
                None => None,
            },
            forall|x: int, y: int|
                i32::MIN <= x <= i32::MAX && i32::MIN <= y <= i32::MAX && self.x_text@ == #[trigger] decimal_text(x)
                    && self.y_text@ == #[trigger] decimal_text(y) && !self.settings.use_find_image ==> request
                    == Some((x as i32, y as i32, EDITOR_PATCH_SIZE)),
    {
        match self.parse_editor_xy() {
            Some(at) => if self.settings.use_find_image {
                None
            } else {
                Some((at.0, at.1, EDITOR_PATCH_SIZE))
            },
            None => None,
        }
    }

    /// Applies the editor to the selected row, or appends its rows when none
    /// is selected. `captured` is the image captured at the coordinates of the
    /// editor, if there is one.
    pub fn insert_or_apply(&mut self, events: &mut Vec<RecordedEvent>, captured: Option<String>) -> (status: String)
        ensures
            (Edit { editor: final(self)@, rows: timeline_view(final(events)@), status: status@ })
                == spec_insert_or_apply(old(self)@, timeline_view(old(events)@), patch_view(captured)),
    {
        let at = self.parse_editor_xy();
        self.insert_or_apply_at(events, at, captured)
    }

    /// Applies the editor to the selected row, or appends its rows when none
    /// is selected, at the coordinates that its texts were read as: `at` is
    /// `None` when they are no coordinates.
    pub fn insert_or_apply_at(
        &mut self,
        events: &mut Vec<RecordedEvent>,
        at: Option<(i32, i32)>,
        captured: Option<String>,
    ) -> (status: String)
        ensures
            (Edit { editor: final(self)@, rows: timeline_view(final(events)@), status: status@ })
                == spec_insert_or_apply_at(old(self)@, timeline_view(old(events)@), at, patch_view(captured)),
    {
        let ghost rows = timeline_view(events@);
        let at = match at {
            None => {
                return String::from_str("Invalid X/Y coordinates.");
            },
            Some(at) => at,
        };
        if self.settings.use_find_image && self.static_preview_patch_b64.is_none() {
            return String::from_str("Press GET (X,Y) to capture or select a target image first.");
        }
        let patch = if self.settings.use_find_image {
            copy_patch(&self.static_preview_patch_b64)
        } else {
            captured
        };
        let kinds = event_kinds_from_editor_modes(&self.settings, patch);
        let meta = self.settings.current_click_list_meta();
        match self.selected_index {
            Some(index) => {
                if index >= events.len() {
                    return String::from_str("Updated selected row (single-row apply)");
                }
                let is_move = match &events[index].kind {
                    RecordedEventKind::Move { .. } => true,
                    _ => false,
                };
                let is_moves = match &events[index].kind {
                    RecordedEventKind::Moves { .. } => true,
                    _ => false,
                };
                let row = events.remove(index);
                let applied = applied_row_of(row, at, &kinds, meta);
                proof {
                    assert(timeline_view(events@.insert(index as int, applied)) =~= rows.update(
                        index as int,
                        applied@,
                    ));
                }
                events.insert(index, applied);
                if is_move {
                    let mut status = String::from_str("Updated move at row ");
                    status.append(usize_text(index).as_str());
                    status
                } else if is_moves {
                    let mut status = String::from_str("Updated moves at row ");
                    status.append(usize_text(index).as_str());
                    status
                } else {
                    String::from_str("Updated selected row (single-row apply)")
                }
            },
            None => {
                let insert_at = events.len();
                let base_ms = if insert_at > 0 {
                    events[insert_at - 1].ms_from_start
                } else {
                    0
                };
                insert_rows(events, insert_at, &kinds, base_ms, None, at, meta);
                proof {
                    assert(rows.subrange(0, insert_at as int) =~= rows);
                    assert(rows.subrange(insert_at as int, rows.len() as int) =~= Seq::<EventView>::empty());
                    assert(timeline_view(events@) =~= rows + new_rows(kinds_view(kinds@), base_ms, None, at, meta));
                }
                self.selected_index = Some(insert_at);
                String::from_str("Inserted click row.")
            },
        }
    }

    /// Inserts the rows of the editor below the selected row. `captured` is
    /// the image captured at the coordinates of the editor, if there is one.
    pub fn insert_below_selected(&mut self, events: &mut Vec<RecordedEvent>, captured: Option<String>) -> (status:
        String)
        ensures
            (Edit { editor: final(self)@, rows: timeline_view(final(events)@), status: status@ })
                == spec_insert_below_selected(old(self)@, timeline_view(old(events)@), patch_view(captured)),
    {
        let at = self.parse_editor_xy();
        self.insert_below_selected_at(events, at, captured)
    }

    /// Inserts the rows of the editor below the selected row, at the
    /// coordinates that its texts were read as: `at` is `None` when they are
    /// no coordinates.
    pub fn insert_below_selected_at(
        &mut self,
        events: &mut Vec<RecordedEvent>,
        at: Option<(i32, i32)>,
        captured: Option<String>,
    ) -> (status: String)
        ensures
            (Edit { editor: final(self)@, rows: timeline_view(final(events)@), status: status@ })
                == spec_insert_below_selected_at(
                old(self)@,
                timeline_view(old(events)@),
                at,
                patch_view(captured),
            ),
    {
        let index = match self.selected_index {
            None => {
                return String::from_str("Select a row first to insert below");
            },
            Some(index) => index,
        };
        if index >= events.len() {
            self.selected_index = None;
            return String::from_str("Selected row no longer exists");
        }
        let at = match at {
            None => {
                return String::from_str("Invalid X/Y coordinates.");
            },
            Some(at) => at,
        };
        if self.settings.use_find_image && self.static_preview_patch_b64.is_none() {
            return String::from_str("Press GET (X,Y) to capture or select a target image first.");
        }
        let patch = if self.settings.use_find_image {
            copy_patch(&self.static_preview_patch_b64)
        } else {
            captured
        };
        let kinds = event_kinds_from_editor_modes(&self.settings, patch);
        let meta = self.settings.current_click_list_meta();
        let base_ms = events[index].ms_from_start;
        let cap = if index + 1 < events.len() {
            Some(events[index + 1].ms_from_start)
        } else {
            None
        };
        insert_rows(events, index + 1, &kinds, base_ms, cap, at, meta);
        self.selected_index = Some(index + 1);
        let mut status = String::from_str("Inserted ");
        status.append(usize_text(kinds.len()).as_str());
        status.append(" row(s) below selected (multi-row)");
        proof {
            assert(kinds_view(kinds@).len() == kinds.len());
        }
        status
    }
}

// ---------------------------------------------------------------------------
// Selecting
// ---------------------------------------------------------------------------

/// The target that stands for a button.
pub open spec fn spec_target_of(button: MouseButton) -> ClickTarget {
    match button {
        MouseButton::Left => ClickTarget::Left,
        MouseButton::Right => ClickTarget::Right,
        MouseButton::Middle => ClickTarget::Middle,
    }
}

#[verifier::when_used_as_spec(spec_target_of)]
pub fn target_of(button: MouseButton) -> (target: ClickTarget)
    ensures
        target == spec_target_of(button),
{
    match button {
        MouseButton::Left => ClickTarget::Left,
        MouseButton::Right => ClickTarget::Right,
        MouseButton::Middle => ClickTarget::Middle,
    }
}

/// A confidence in thousandths as a percentage: held within 50 to 100 and
/// rounded to the nearest whole.
pub open spec fn spec_percent_of(permille: u16) -> u16 {
    ((spec_clamp_u16(permille, 500, 1000) + 5) / 10) as u16
}

#[verifier::when_used_as_spec(spec_percent_of)]
pub fn percent_of(permille: u16) -> (percent: u16)
    ensures
        percent == spec_percent_of(permille),
{
    (clamp_u16(permille, 500, 1000) + 5) / 10
}

/// Where the editor is aimed at when a row is selected: the last point of a
/// polyline, else the position of the row.
pub open spec fn aim_of(row: EventView) -> Option<(i32, i32)> {
    match row.kind {
        KindView::Moves { points } => if points.len() > 0 {
            Some(points.last())
        } else {
            row.pos
        },
        _ => row.pos,
    }
}

/// The settings after a row was selected.
///
/// A button row aims the editor at its button, with the mode that the row
/// stands for and no image search. The move speed goes back to its default.
/// Then the settings of the row, where it has any, are taken over, each held
/// within its range.
pub open spec fn selected_settings(settings: EditorSettings, row: EventView) -> EditorSettings {
    let auto = ClickListMeta::spec_default();
    let aimed = match row.kind {
        KindView::ButtonDown { button, .. } => Some((button, ClickEdgeMode::Down)),
        KindView::ButtonUp { button, .. } => Some((button, ClickEdgeMode::Up)),
        KindView::ButtonClick { button, .. } => Some(
            (
                button,
                match row.click_meta {
                    Some(meta) => meta.spec_mode_of(button),
                    None => ClickEdgeMode::Auto,
                },
            ),
        ),
        _ => None,
    };
    let by_kind = match aimed {
        Some(pair) => EditorSettings {
            use_find_image: false,
            click_target: spec_target_of(pair.0),
            left_mode: auto.spec_with_mode(pair.0, pair.1).left_mode,
            right_mode: auto.spec_with_mode(pair.0, pair.1).right_mode,
            middle_mode: auto.spec_with_mode(pair.0, pair.1).middle_mode,
            ..settings
        },
        None => settings,
    };
    match row.click_meta {
        Some(meta) => EditorSettings {
            left_mode: meta.left_mode,
            right_mode: meta.right_mode,
            middle_mode: meta.middle_mode,
            wait_ms: meta.wait_ms,
            click_speed_ms: spec_clamp_u16(meta.click_speed_ms, 0, 100),
            mouse_move_speed_ms: spec_clamp_u16(meta.mouse_move_speed_ms, 5, 500),
            target_precision_percent: spec_percent_of(meta.target_precision_permille),
            target_timeout_ms: if meta.target_timeout_ms < 200 {
                200
            } else if meta.target_timeout_ms > 10000 {
                10000
            } else {
                meta.target_timeout_ms as u16
            },
            use_find_image: meta.use_find_image,
            ..by_kind
        },
        None => EditorSettings { mouse_move_speed_ms: DEFAULT_MOUSE_MOVE_SPEED_MS, ..by_kind },
    }
}

/// What the editor shows of a row once it is selected.
pub open spec fn selected_details(details: SelectionDetails, row: EventView, region_default: u32) -> SelectionDetails {
    match row.kind {
        KindView::Wait { ms } => SelectionDetails { wait_ms: ms, ..details },
        KindView::FindTarget { precision_permille, timeout_ms, search_anchor, search_region_size, .. } => SelectionDetails {
            wait_ms: match row.click_meta {
                Some(meta) => meta.wait_ms as u64,
                None => details.wait_ms,
            },
            precision_permille,
            timeout_ms,
            anchor: search_anchor,
            limit_region: search_region_size is Some,
            region_size: match search_region_size {
                Some(size) => size,
                None => region_default,
            },
        },
        _ => SelectionDetails {
            wait_ms: match row.click_meta {
                Some(meta) => meta.wait_ms as u64,
                None => details.wait_ms,
            },
            ..details
        },
    }
}

/// Selecting the row at `index`. An index beyond the end is selected and
/// changes nothing else. Else the editor is aimed where the row is, holds the
/// image of the row, and takes its settings.
pub open spec fn spec_select_row(
    editor: EditorView,
    rows: Seq<EventView>,
    index: usize,
    region_default: u32,
) -> EditorView {
    if index >= rows.len() {
        EditorView { selected_index: Some(index), ..editor }
    } else {
        let row = rows[index as int];
        EditorView {
            selected_index: Some(index),
            x_text: match aim_of(row) {
                Some(at) => decimal_text(at.0 as int),
                None => editor.x_text,
            },
            y_text: match aim_of(row) {
                Some(at) => decimal_text(at.1 as int),
                None => editor.y_text,
            },
            static_preview_patch_b64: row.kind.patch(),
            settings: selected_settings(editor.settings, row),
            details: selected_details(editor.details, row, region_default),
            ..editor
        }
    }
}

fn aim_of_row(row: &RecordedEvent) -> (aim: Option<(i32, i32)>)
    ensures
        aim == aim_of(row@),
{
    match &row.kind {
        RecordedEventKind::Moves { points } => if points.len() > 0 {
            Some(points[points.len() - 1])
        } else {
            row.pos
        },
        _ => row.pos,
    }
}

fn settings_after_select(settings: EditorSettings, row: &RecordedEvent) -> (out: EditorSettings)
    ensures
        out == selected_settings(settings, row@),
{
    let mut out = settings;
    let aimed = match &row.kind {
        RecordedEventKind::ButtonDown { button, .. } => Some((*button, ClickEdgeMode::Down)),
        RecordedEventKind::ButtonUp { button, .. } => Some((*button, ClickEdgeMode::Up)),
        RecordedEventKind::ButtonClick { button, .. } => Some(
            (
                *button,
                match row.click_meta {
                    Some(meta) => meta.mode_of(*button),
                    None => ClickEdgeMode::Auto,
                },
            ),
        ),
        _ => None,
    };
    if let Some((button, mode)) = aimed {
        let modes = ClickListMeta::default().with_mode(button, mode);
        out.use_find_image = false;
        out.click_target = target_of(button);
        out.left_mode = modes.left_mode;
        out.right_mode = modes.right_mode;
        out.middle_mode = modes.middle_mode;
    }
    out.mouse_move_speed_ms = DEFAULT_MOUSE_MOVE_SPEED_MS;
    if let Some(meta) = row.click_meta {
        out.left_mode = meta.left_mode;
        out.right_mode = meta.right_mode;
        out.middle_mode = meta.middle_mode;
        out.wait_ms = meta.wait_ms;
        out.click_speed_ms = clamp_u16(meta.click_speed_ms, 0, 100);
        out.mouse_move_speed_ms = clamp_u16(meta.mouse_move_speed_ms, 5, 500);
        out.target_precision_percent = percent_of(meta.target_precision_permille);
        out.target_timeout_ms = if meta.target_timeout_ms < 200 {
            200
        } else if meta.target_timeout_ms > 10000 {
            10000
        } else {
            meta.target_timeout_ms as u16
        };
        out.use_find_image = meta.use_find_image;
    }
    out
}

fn details_after_select(details: SelectionDetails, row: &RecordedEvent, region_default: u32) -> (out:
    SelectionDetails)
    ensures
        out == selected_details(details, row@, region_default),
{
    let mut out = details;
    if let Some(meta) = row.click_meta {
        out.wait_ms = meta.wait_ms as u64;
    }
    match &row.kind {
        RecordedEventKind::Wait { ms } => {
            out.wait_ms = *ms;
            out
        },
        RecordedEventKind::FindTarget {
            precision_permille,
            timeout_ms,
            search_anchor,
            search_region_size,
            ..
        } => {
            out.precision_permille = *precision_permille;
            out.timeout_ms = *timeout_ms;
            out.anchor = *search_anchor;
            out.limit_region = search_region_size.is_some();
            out.region_size = match search_region_size {
                Some(size) => *size,
                None => region_default,
            };
            out
        },
        _ => out,
    }
}

impl Editor {
    /// Selects the row at `index`. `region_default` is the size of the search
    /// region that is shown for a search without one.
    pub fn select_row(&mut self, events: &Vec<RecordedEvent>, index: usize, region_default: u32)
        ensures
            final(self)@ == spec_select_row(old(self)@, timeline_view(events@), index, region_default),
    {
        self.selected_index = Some(index);
        if index >= events.len() {
            return ;
        }
        let row = &events[index];
        if let Some(at) = aim_of_row(row) {
            self.x_text = i32_text(at.0);
            self.y_text = i32_text(at.1);
        }
        self.static_preview_patch_b64 = kind_patch(&row.kind);
        self.settings = settings_after_select(self.settings, row);
        self.details = details_after_select(self.details, row, region_default);
    }
}

// ---------------------------------------------------------------------------
// Deleting
// ---------------------------------------------------------------------------

/// The index at which the run of `Move` rows around `index` begins.
pub open spec fn run_start(rows: Seq<EventView>, index: int) -> int
    decreases index,
{
    if 0 < index <= rows.len() && rows[index - 1].kind is Move {
        run_start(rows, index - 1)
    } else {
        index
    }
}

/// The index at which the run of `Move` rows around `index` ends.
pub open spec fn run_stop(rows: Seq<EventView>, index: int) -> int
    decreases rows.len() - index,
{
    if 0 <= index && index + 1 < rows.len() && rows[index + 1].kind is Move {
        run_stop(rows, index + 1)
    } else {
        index
    }
}

/// The first and the last row that leave when the row at `index` is deleted:
/// a `Move` takes the whole run of samples around it along.
pub open spec fn deleted_span(rows: Seq<EventView>, index: int) -> (int, int) {
    if rows[index].kind is Move {
        (run_start(rows, index), run_stop(rows, index))
    } else {
        (index, index)
    }
}

/// What deleting reports: the number of samples of a run, or the row.
pub open spec fn deleted_status(count: int, index: int) -> Seq<char> {
    if count > 1 {
        "Deleted MOVES row ("@ + decimal_text(count) + " points)"@
    } else {
        "Deleted row "@ + decimal_text(index)
    }
}

/// Deleting the selected row.
///
/// Refused without a selection; a selection beyond the end is dropped. Else
/// the row leaves, with its whole run if it is a sample, and the row that
/// now stands in its place, or the last row, is selected. With no row left,
/// nothing is selected.
pub open spec fn spec_clear_selection(editor: EditorView, rows: Seq<EventView>, region_default: u32) -> Edit {
    match editor.selected_index {
        None => editor.refuse(rows, "Select a row first to delete"@),
        Some(index) => if index >= rows.len() {
            EditorView { selected_index: None, ..editor }.refuse(rows, "Selected row no longer exists"@)
        } else {
            let span = deleted_span(rows, index as int);
            let kept = rows.subrange(0, span.0) + rows.subrange(span.1 + 1, rows.len() as int);
            let status = deleted_status(span.1 - span.0 + 1, index as int);
            if kept.len() == 0 {
                Edit { editor: EditorView { selected_index: None, ..editor }, rows: kept, status }
            } else {
                let next = if index < kept.len() {
                    index
                } else {
                    (kept.len() - 1) as usize
                };
                Edit { editor: spec_select_row(editor, kept, next, region_default), rows: kept, status }
            }
        },
    }
}

proof fn lemma_run_bounds(rows: Seq<EventView>, index: int)
    requires
        0 <= index < rows.len(),
    ensures
        0 <= run_start(rows, index) <= index,
        index <= run_stop(rows, index) < rows.len(),
{
    lemma_run_start_bounds(rows, index);
    lemma_run_stop_bounds(rows, index);
}

proof fn lemma_run_start_bounds(rows: Seq<EventView>, index: int)
    requires
        0 <= index < rows.len(),
    ensures
        0 <= run_start(rows, index) <= index,
    decreases index,
{
    if 0 < index && rows[index - 1].kind is Move {
        lemma_run_start_bounds(rows, index - 1);
    }
}

proof fn lemma_run_stop_bounds(rows: Seq<EventView>, index: int)
    requires
        0 <= index < rows.len(),
    ensures
        index <= run_stop(rows, index) < rows.len(),
    decreases rows.len() - index,
{
    if index + 1 < rows.len() && rows[index + 1].kind is Move {
        lemma_run_stop_bounds(rows, index + 1);
    }
}

fn is_move_at(events: &Vec<RecordedEvent>, index: usize) -> (is_move: bool)
    requires
        index < events.len(),
    ensures
        is_move == (timeline_view(events@)[index as int].kind is Move),
{
    match &events[index].kind {
        RecordedEventKind::Move { .. } => true,
        _ => false,
    }
}

fn span_of(events: &Vec<RecordedEvent>, index: usize) -> (span: (usize, usize))
    requires
        index < events.len(),
    ensures
        (span.0 as int, span.1 as int) == deleted_span(timeline_view(events@), index as int),
        span.0 <= index <= span.1 < events.len(),
{
    let ghost rows = timeline_view(events@);
    proof {
        lemma_run_bounds(rows, index as int);
    }
    if !is_move_at(events, index) {
        return (index, index);
    }
    let mut start = index;
    while start > 0 && is_move_at(events, start - 1)
        invariant
            start <= index < events.len(),
            rows == timeline_view(events@),
            run_start(rows, index as int) == run_start(rows, start as int),
        decreases start,
    {
        start -= 1;
    }
    let mut end = index;
    while end + 1 < events.len() && is_move_at(events, end + 1)
        invariant
            index <= end < events.len(),
            rows == timeline_view(events@),
            run_stop(rows, index as int) == run_stop(rows, end as int),
        decreases events.len() - end,
    {
        end += 1;
    }
    (start, end)
}

fn remove_span(events: &mut Vec<RecordedEvent>, start: usize, end: usize)
    requires
        start <= end < old(events).len(),
    ensures
        timeline_view(final(events)@) == timeline_view(old(events)@).subrange(0, start as int) + timeline_view(
            old(events)@,
        ).subrange(end + 1, old(events).len() as int),
{
    let ghost rows = timeline_view(events@);
    let count = end - start + 1;
    let mut k: usize = 0;
    assert(rows =~= rows.subrange(0, start as int) + rows.subrange(start as int, rows.len() as int));
    while k < count
        invariant
            k <= count,
            count == end - start + 1,
            start <= end < old(events).len(),
            rows == timeline_view(old(events)@),
            events.len() == old(events).len() - k,
            timeline_view(events@) == rows.subrange(0, start as int) + rows.subrange(
                start + k,
                rows.len() as int,
            ),
        decreases count - k,
    {
        proof {
            assert(timeline_view(events@.remove(start as int)) =~= timeline_view(events@).remove(start as int));
            assert((rows.subrange(0, start as int) + rows.subrange(start + k, rows.len() as int)).remove(
                start as int,
            ) =~= rows.subrange(0, start as int) + rows.subrange(start + k + 1, rows.len() as int));
        }
        let _ = events.remove(start);
        k += 1;
    }
}

impl Editor {
    /// Deletes the selected row, and with a sample its whole run.
    pub fn clear_selection(&mut self, events: &mut Vec<RecordedEvent>, region_default: u32) -> (status: String)
        ensures
            (Edit { editor: final(self)@, rows: timeline_view(final(events)@), status: status@ })
                == spec_clear_selection(old(self)@, timeline_view(old(events)@), region_default),
    {
        let index = match self.selected_index {
            None => {
                return String::from_str("Select a row first to delete");
            },
            Some(index) => index,
        };
        if index >= events.len() {
            self.selected_index = None;
            return String::from_str("Selected row no longer exists");
        }
        let span = span_of(events, index);
        let removed = span.1 - span.0 + 1;
        remove_span(events, span.0, span.1);
        let status = if removed > 1 {
            let mut status = String::from_str("Deleted MOVES row (");
            status.append(usize_text(removed).as_str());
            status.append(" points)");
            status
        } else {
            let mut status = String::from_str("Deleted row ");
            status.append(usize_text(index).as_str());
            status
        };
        if events.len() == 0 {
            self.selected_index = None;
        } else {
            let next = if index < events.len() {
                index
            } else {
                events.len() - 1
            };
            self.select_row(events, next, region_default);
        }
        status
    }
}

// ---------------------------------------------------------------------------
// Jumping
// ---------------------------------------------------------------------------

/// What is reported when the pointer was sent to a point, or could not be.
pub open spec fn jump_status(at: (i32, i32), failure: Option<Seq<char>>) -> Seq<char> {
    match failure {
        None => "Jumped mouse to ("@ + decimal_text(at.0 as int) + ", "@ + decimal_text(at.1 as int) + ")"@,
        Some(reason) => "Jump failed: "@ + reason,
    }
}

/// The report of a jump to `at`. `failure` says why the pointer could not be
/// moved, if it could not.
pub fn jump_status_of(at: (i32, i32), failure: Option<String>) -> (status: String)
    ensures
        status@ == jump_status(at, patch_view(failure)),
{
    match failure {
        None => {
            let mut status = String::from_str("Jumped mouse to (");
            status.append(i32_text(at.0).as_str());
            status.append(", ");
            status.append(i32_text(at.1).as_str());
            status.append(")");
            status
        },
        Some(reason) => {
            let mut status = String::from_str("Jump failed: ");
            status.append(reason.as_str());
            status
        },
    }
}

// ---------------------------------------------------------------------------
// Laws
// ---------------------------------------------------------------------------

/// The actions of the editor are button actions, one at least.
proof fn lemma_event_kinds_are_buttons(settings: EditorSettings, patch: Option<Seq<char>>)
    ensures
        spec_event_kinds(settings, patch).len() >= 1,
        forall|k: int|
            0 <= k < spec_event_kinds(settings, patch).len() ==> (#[trigger] spec_event_kinds(
                settings,
                patch,
            )[k]).is_button(),
{
    let kinds = spec_event_kinds(settings, patch);
    if !settings.all_auto() {
        let left = kind_for_mode(MouseButton::Left, settings.left_mode, patch);
        let right = kind_for_mode(MouseButton::Right, settings.right_mode, patch);
        let middle = kind_for_mode(MouseButton::Middle, settings.middle_mode, patch);
        assert forall|k: int| 0 <= k < kinds.len() implies (#[trigger] kinds[k]).is_button() by {
            if k < left.len() {
                assert(kinds[k] == left[k]);
            } else if k < left.len() + right.len() {
                assert(kinds[k] == right[k - left.len()]);
            } else {
                assert(kinds[k] == middle[k - left.len() - right.len()]);
            }
        }
    }
}

/// Editing keeps rows valid: when every polyline of the timeline has at
/// least two points and every search has an image, the same holds after the
/// editor was applied, after it inserted rows, and after a row was deleted.
pub proof fn lemma_edits_keep_all_valid(
    editor: EditorView,
    rows: Seq<EventView>,
    captured: Option<Seq<char>>,
    region_default: u32,
)
    requires
        all_valid(rows),
    ensures
        all_valid(spec_insert_or_apply(editor, rows, captured).rows),
        all_valid(spec_insert_below_selected(editor, rows, captured).rows),
        all_valid(spec_clear_selection(editor, rows, region_default).rows),
{
    let patch = if editor.settings.use_find_image {
        editor.static_preview_patch_b64
    } else {
        captured
    };
    let kinds = spec_event_kinds(editor.settings, patch);
    lemma_event_kinds_are_buttons(editor.settings, patch);
    let applied = spec_insert_or_apply(editor, rows, captured).rows;
    assert forall|i: int| 0 <= i < applied.len() implies (#[trigger] applied[i]).kind.valid() by {
        if i < rows.len() {
            assert(rows[i].kind.valid());
            if applied[i] != rows[i] {
                let found = first_same_action(kinds, rows[i].kind, 0);
                lemma_first_same_action_bounds(kinds, rows[i].kind, 0);
                assert(kinds[0].is_button());
                if found < kinds.len() {
                    assert(kinds[found].is_button());
                }
            }
        } else {
            assert(kinds[i - rows.len()].is_button());
        }
    }
    let below = spec_insert_below_selected(editor, rows, captured).rows;
    assert forall|i: int| 0 <= i < below.len() implies (#[trigger] below[i]).kind.valid() by {
        if below != rows {
            let index = editor.selected_index->0 as int;
            if i <= index {
                assert(below[i] == rows[i]);
            } else if i <= index + kinds.len() {
                assert(kinds[i - index - 1].is_button());
            } else {
                assert(below[i] == rows[i - kinds.len()]);
            }
        }
    }
    let kept = spec_clear_selection(editor, rows, region_default).rows;
    assert forall|i: int| 0 <= i < kept.len() implies (#[trigger] kept[i]).kind.valid() by {
        if kept != rows {
            let index = editor.selected_index->0 as int;
            lemma_run_bounds(rows, index);
            let span = deleted_span(rows, index);
            if i < span.0 {
                assert(kept[i] == rows[i]);
            } else {
                assert(kept[i] == rows[i + (span.1 - span.0 + 1)]);
            }
        }
    }
}

/// The stamps of inserted rows rise with the rows, begin no earlier than
/// the row above them and end no later than the row below.
proof fn lemma_new_stamps_in_order(base_ms: u128, cap: Option<u128>, j: int, k: int)
    requires
        0 <= j <= k,
        cap matches Some(limit) ==> base_ms <= limit,
    ensures
        base_ms <= new_stamp(base_ms, cap, j) <= new_stamp(base_ms, cap, k),
        cap matches Some(limit) ==> new_stamp(base_ms, cap, k) <= limit,
{
}

/// Rows in order, with rows in order put between the rows before `at` and the
/// rows from `at` on, are in order when the new rows are stamped no earlier
/// than the row above them and no later than the row below.
proof fn lemma_inserted_in_order(rows: Seq<EventView>, at: int, block: Seq<EventView>)
    requires
        0 <= at <= rows.len(),
        in_order(rows),
        in_order(block),
        forall|k: int|
            0 <= k < block.len() && at > 0 ==> rows[at - 1].ms_from_start <= (#[trigger] block[k]).ms_from_start,
        forall|k: int|
            0 <= k < block.len() && at < rows.len() ==> (#[trigger] block[k]).ms_from_start
                <= rows[at].ms_from_start,
    ensures
        in_order(rows.subrange(0, at) + block + rows.subrange(at, rows.len() as int)),
{
    let out = rows.subrange(0, at) + block + rows.subrange(at, rows.len() as int);
    assert forall|i: int| 0 <= i < out.len() implies (if i < at {
        out[i] == rows[i]
    } else if i < at + block.len() {
        out[i] == block[i - at]
    } else {
        out[i] == rows[i - block.len()]
    }) by {}
    assert forall|i: int, j: int| 0 <= i <= j < out.len() implies (#[trigger] out[i]).ms_from_start <= (
    #[trigger] out[j]).ms_from_start by {
        let a = if i < at {
            rows[i]
        } else if i < at + block.len() {
            block[i - at]
        } else {
            rows[i - block.len()]
        };
        let b = if j < at {
            rows[j]
        } else if j < at + block.len() {
            block[j - at]
        } else {
            rows[j - block.len()]
        };
        assert(out[i] == a && out[j] == b);
        if i < at {
            assert(rows[i].ms_from_start <= rows[at - 1].ms_from_start);
        }
        if j >= at + block.len() {
            assert(rows[at].ms_from_start <= rows[j - block.len()].ms_from_start);
        }
        if i < at && j >= at + block.len() {
            assert(rows[i].ms_from_start <= rows[j - block.len()].ms_from_start);
        }
    }
}

/// Editing keeps the order of a timeline: when its rows stand in the order
/// of their stamps, they still do after the editor was applied to a row,
/// after it appended rows or inserted them below the selected row, and after
/// a row was deleted. It holds whatever the texts of the editor were read as.
pub proof fn lemma_edits_keep_order(
    editor: EditorView,
    rows: Seq<EventView>,
    at: Option<(i32, i32)>,
    captured: Option<Seq<char>>,
    region_default: u32,
)
    requires
        in_order(rows),
    ensures
        in_order(spec_insert_or_apply_at(editor, rows, at, captured).rows),
        in_order(spec_insert_below_selected_at(editor, rows, at, captured).rows),
        in_order(spec_insert_or_apply(editor, rows, captured).rows),
        in_order(spec_insert_below_selected(editor, rows, captured).rows),
        in_order(spec_clear_selection(editor, rows, region_default).rows),
{
    lemma_insert_or_apply_keeps_order(editor, rows, at, captured);
    lemma_insert_or_apply_keeps_order(editor, rows, editor.parse_editor_xy(), captured);
    lemma_insert_below_keeps_order(editor, rows, at, captured);
    lemma_insert_below_keeps_order(editor, rows, editor.parse_editor_xy(), captured);
    let kept = spec_clear_selection(editor, rows, region_default).rows;
    if kept != rows {
        let index = editor.selected_index->0 as int;
        lemma_run_bounds(rows, index);
        let span = deleted_span(rows, index);
        assert forall|i: int, j: int| 0 <= i <= j < kept.len() implies (#[trigger] kept[i]).ms_from_start <= (
        #[trigger] kept[j]).ms_from_start by {
            let gap = span.1 - span.0 + 1;
            let a = if i < span.0 {
                rows[i]
            } else {
                rows[i + gap]
            };
            let b = if j < span.0 {
                rows[j]
            } else {
                rows[j + gap]
            };
            assert(kept[i] == a && kept[j] == b);
        }
    }
}

proof fn lemma_insert_or_apply_keeps_order(
    editor: EditorView,
    rows: Seq<EventView>,
    at: Option<(i32, i32)>,
    captured: Option<Seq<char>>,
)
    requires
        in_order(rows),
    ensures
        in_order(spec_insert_or_apply_at(editor, rows, at, captured).rows),
{
    let out = spec_insert_or_apply_at(editor, rows, at, captured).rows;
    if out != rows {
        let patch = if editor.settings.use_find_image {
            editor.static_preview_patch_b64
        } else {
            captured
        };
        let kinds = spec_event_kinds(editor.settings, patch);
        let meta = editor.settings.spec_current_click_list_meta();
        match editor.selected_index {
            Some(index) => {
                assert forall|i: int, j: int| 0 <= i <= j < out.len() implies (#[trigger] out[i]).ms_from_start <= (
                #[trigger] out[j]).ms_from_start by {
                    assert(out[i].ms_from_start == rows[i].ms_from_start);
                    assert(out[j].ms_from_start == rows[j].ms_from_start);
                }
            },
            None => {
                let block = new_rows(kinds, last_ms(rows), None, at->0, meta);
                lemma_new_rows_in_order(kinds, last_ms(rows), None, at->0, meta);
                let end = rows.len() as int;
                assert forall|k: int| 0 <= k < block.len() && end > 0 implies rows[end - 1].ms_from_start <= (
                #[trigger] block[k]).ms_from_start by {
                    lemma_new_stamps_in_order(last_ms(rows), None, k, k);
                }
                lemma_inserted_in_order(rows, end, block);
                assert(rows.subrange(0, end) =~= rows);
                assert(rows.subrange(end, end) =~= Seq::<EventView>::empty());
                assert(rows.subrange(0, end) + block + rows.subrange(end, end) =~= rows + block);
            },
        }
    }
}

proof fn lemma_insert_below_keeps_order(
    editor: EditorView,
    rows: Seq<EventView>,
    at: Option<(i32, i32)>,
    captured: Option<Seq<char>>,
)
    requires
        in_order(rows),
    ensures
        in_order(spec_insert_below_selected_at(editor, rows, at, captured).rows),
{
    let out = spec_insert_below_selected_at(editor, rows, at, captured).rows;
    if out != rows {
        let index = editor.selected_index->0 as int;
        let patch = if editor.settings.use_find_image {
            editor.static_preview_patch_b64
        } else {
            captured
        };
        let kinds = spec_event_kinds(editor.settings, patch);
        let meta = editor.settings.spec_current_click_list_meta();
        let base_ms = rows[index].ms_from_start;
        let cap = stamp_below(rows, index);
        if index + 1 < rows.len() {
            assert(rows[index].ms_from_start <= rows[index + 1].ms_from_start);
        }
        let block = new_rows(kinds, base_ms, cap, at->0, meta);
        lemma_new_rows_in_order(kinds, base_ms, cap, at->0, meta);
        assert forall|k: int| 0 <= k < block.len() implies rows[index].ms_from_start <= (
        #[trigger] block[k]).ms_from_start by {
            lemma_new_stamps_in_order(base_ms, cap, k, k);
        }
        assert forall|k: int| 0 <= k < block.len() && index + 1 < rows.len() implies (
        #[trigger] block[k]).ms_from_start <= rows[index + 1].ms_from_start by {
            lemma_new_stamps_in_order(base_ms, cap, k, k);
        }
        lemma_inserted_in_order(rows, index + 1, block);
    }
}

/// Inserted rows stand in the order of their stamps.
proof fn lemma_new_rows_in_order(
    kinds: Seq<KindView>,
    base_ms: u128,
    cap: Option<u128>,
    at: (i32, i32),
    meta: ClickListMeta,
)
    requires
        cap matches Some(limit) ==> base_ms <= limit,
    ensures
        in_order(new_rows(kinds, base_ms, cap, at, meta)),
{
    let block = new_rows(kinds, base_ms, cap, at, meta);
    assert forall|i: int, j: int| 0 <= i <= j < block.len() implies (#[trigger] block[i]).ms_from_start <= (
    #[trigger] block[j]).ms_from_start by {
        lemma_new_stamps_in_order(base_ms, cap, i, j);
    }
}

proof fn lemma_first_same_action_bounds(kinds: Seq<KindView>, selected: KindView, from: int)
    requires
        0 <= from,
    ensures
        from <= first_same_action(kinds, selected, from) || first_same_action(kinds, selected, from)
            == kinds.len(),
        0 <= first_same_action(kinds, selected, from) <= kinds.len(),
    decreases kinds.len() - from,
{
    if from < kinds.len() && !same_action(kinds[from], selected) {
        lemma_first_same_action_bounds(kinds, selected, from + 1);
    }
}

} // verus!
