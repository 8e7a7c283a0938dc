//! The timeline entry and the small enumerations it is built from.

use vstd::prelude::*;

verus! {

/// How a button row is replayed: one click, an isolated press, an isolated
/// release, or two clicks in quick succession.
#[derive(Debug, Clone, Copy, PartialEq, Eq, Structural)]
pub enum ClickEdgeMode {
    Auto,
    Down,
    Up,
    Double,
}

impl ClickEdgeMode {
    pub open spec fn label_text(self) -> Seq<char> {
        match self {
            ClickEdgeMode::Auto => "single"@,
            ClickEdgeMode::Down => "down"@,
            ClickEdgeMode::Up => "up"@,
            ClickEdgeMode::Double => "double"@,
        }
    }

    /// The word shown for this mode.
    pub fn label(self) -> (s: &'static str)
        ensures
            s@ == self.label_text(),
    {
        match self {
            ClickEdgeMode::Auto => "single",
            ClickEdgeMode::Down => "down",
            ClickEdgeMode::Up => "up",
            ClickEdgeMode::Double => "double",
        }
    }
}

/// The button an editor operation is aimed at.
#[derive(Debug, Clone, Copy, PartialEq, Eq, Structural)]
pub enum ClickTarget {
    Left,
    Right,
    Middle,
}

impl ClickTarget {
    pub open spec fn label_text(self) -> Seq<char> {
        match self {
            ClickTarget::Left => "Left click"@,
            ClickTarget::Right => "Right click"@,
            ClickTarget::Middle => "Middle click"@,
        }
    }

    /// The caption shown for this target.
    pub fn label(self) -> (s: &'static str)
        ensures
            s@ == self.label_text(),
    {
        match self {
            ClickTarget::Left => "Left click",
            ClickTarget::Right => "Right click",
            ClickTarget::Middle => "Middle click",
        }
    }

    /// The physical button behind this target.
    pub open spec fn spec_button(self) -> MouseButton {
        match self {
            ClickTarget::Left => MouseButton::Left,
            ClickTarget::Right => MouseButton::Right,
            ClickTarget::Middle => MouseButton::Middle,
        }
    }

    #[verifier::when_used_as_spec(spec_button)]
    pub fn button(self) -> (b: MouseButton)
        ensures
            b == self.spec_button(),
    {
        match self {
            ClickTarget::Left => MouseButton::Left,
            ClickTarget::Right => MouseButton::Right,
            ClickTarget::Middle => MouseButton::Middle,
        }
    }
}

#[derive(Debug, Clone, Copy, PartialEq, Eq, Structural)]
pub enum MouseButton {
    Left,
    Right,
    Middle,
}

/// Where an image search is centred.
#[derive(Debug, Clone, Copy, PartialEq, Eq, Structural)]
pub enum SearchAnchor {
    RecordedClick,
    CurrentMouse,
    LastFound,
}

impl SearchAnchor {
    pub open spec fn label_text(self) -> Seq<char> {
        match self {
            SearchAnchor::RecordedClick => "Recorded"@,
            SearchAnchor::CurrentMouse => "Mouse"@,
            SearchAnchor::LastFound => "Last found"@,
        }
    }

    /// The caption shown for this anchor policy.
    pub fn label(self) -> (s: &'static str)
        ensures
            s@ == self.label_text(),
    {
        match self {
            SearchAnchor::RecordedClick => "Recorded",
            SearchAnchor::CurrentMouse => "Mouse",
            SearchAnchor::LastFound => "Last found",
        }
    }
}

/// Settings stored beside a row so that it can be replayed, and edited again,
/// exactly as it was produced. The match confidence is kept in thousandths.
#[derive(Debug, Clone, Copy, PartialEq, Eq, Structural)]
pub struct ClickListMeta {
    pub left_mode: ClickEdgeMode,
    pub right_mode: ClickEdgeMode,
    pub middle_mode: ClickEdgeMode,
    pub wait_ms: u16,
    pub click_speed_ms: u16,
    pub mouse_move_speed_ms: u16,
    pub use_find_image: bool,
    pub target_precision_permille: u16,
    pub target_timeout_ms: u64,
}

impl ClickListMeta {
    pub open spec fn spec_default() -> ClickListMeta {
        ClickListMeta {
            left_mode: ClickEdgeMode::Auto,
            right_mode: ClickEdgeMode::Auto,
            middle_mode: ClickEdgeMode::Auto,
            wait_ms: 20,
            click_speed_ms: 20,
            mouse_move_speed_ms: 150,
            use_find_image: false,
            target_precision_permille: 900,
            target_timeout_ms: 2000,
        }
    }

    /// The edge mode recorded for `button`.
    pub open spec fn spec_mode_of(self, button: MouseButton) -> ClickEdgeMode {
        match button {
            MouseButton::Left => self.left_mode,
            MouseButton::Right => self.right_mode,
            MouseButton::Middle => self.middle_mode,
        }
    }

    #[verifier::when_used_as_spec(spec_mode_of)]
    pub fn mode_of(self, button: MouseButton) -> (m: ClickEdgeMode)
        ensures
            m == self.spec_mode_of(button),
    {
        match button {
            MouseButton::Left => self.left_mode,
            MouseButton::Right => self.right_mode,
            MouseButton::Middle => self.middle_mode,
        }
    }

    /// The same settings with the edge mode of `button` replaced.
    pub open spec fn spec_with_mode(self, button: MouseButton, mode: ClickEdgeMode) -> ClickListMeta {
        match button {
            MouseButton::Left => ClickListMeta { left_mode: mode, ..self },
            MouseButton::Right => ClickListMeta { right_mode: mode, ..self },
            MouseButton::Middle => ClickListMeta { middle_mode: mode, ..self },
        }
    }

    #[verifier::when_used_as_spec(spec_with_mode)]
    pub fn with_mode(self, button: MouseButton, mode: ClickEdgeMode) -> (m: ClickListMeta)
        ensures
            m == self.spec_with_mode(button, mode),
    {
        let mut meta = self;
        match button {
            MouseButton::Left => meta.left_mode = mode,
            MouseButton::Right => meta.right_mode = mode,
            MouseButton::Middle => meta.middle_mode = mode,
        }
        meta
    }
}

impl Default for ClickListMeta {
    fn default() -> (m: ClickListMeta)
        ensures
            m == ClickListMeta::spec_default(),
    {
        ClickListMeta {
            left_mode: ClickEdgeMode::Auto,
            right_mode: ClickEdgeMode::Auto,
            middle_mode: ClickEdgeMode::Auto,
            wait_ms: 20,
            click_speed_ms: 20,
            mouse_move_speed_ms: 150,
            use_find_image: false,
            target_precision_permille: 900,
            target_timeout_ms: 2000,
        }
    }
}

/// What a row does. Images are PNG files in base64 text; the match confidence
/// of a `FindTarget` is kept in thousandths.
#[derive(Debug, PartialEq, Eq)]
#[allow(inconsistent_fields)]
pub enum RecordedEventKind {
    Move { x: i32, y: i32 },
    Moves { points: Vec<(i32, i32)> },
    Wait { ms: u64 },
    FindTarget {
        patch_png_base64: String,
        patch_size: u32,
        precision_permille: u16,
        timeout_ms: u64,
        search_anchor: SearchAnchor,
        search_region_size: Option<u32>,
    },
    ButtonDown { button: MouseButton, patch_png_base64: Option<String> },
    ButtonUp { button: MouseButton, patch_png_base64: Option<String> },
    ButtonClick { button: MouseButton, patch_png_base64: Option<String> },
}

/// The mathematical value of a `RecordedEventKind`.
#[allow(inconsistent_fields)]
pub enum KindView {
    Move { x: i32, y: i32 },
    Moves { points: Seq<(i32, i32)> },
    Wait { ms: u64 },
    FindTarget {
        patch: Seq<char>,
        patch_size: u32,
        precision_permille: u16,
        timeout_ms: u64,
        search_anchor: SearchAnchor,
        search_region_size: Option<u32>,
    },
    ButtonDown { button: MouseButton, patch: Option<Seq<char>> },
    ButtonUp { button: MouseButton, patch: Option<Seq<char>> },
    ButtonClick { button: MouseButton, patch: Option<Seq<char>> },
}

impl KindView {
    /// Whether this is one of the three button actions.
    pub open spec fn is_button(self) -> bool {
        self is ButtonDown || self is ButtonUp || self is ButtonClick
    }

    /// The button of a button action.
    pub open spec fn button(self) -> MouseButton
        recommends
            self.is_button(),
    {
        match self {
            KindView::ButtonDown { button, .. } => button,
            KindView::ButtonUp { button, .. } => button,
            KindView::ButtonClick { button, .. } => button,
            _ => MouseButton::Left,
        }
    }

    /// The reference image that the action carries, if any.
    pub open spec fn patch(self) -> Option<Seq<char>> {
        match self {
            KindView::FindTarget { patch, .. } => Some(patch),
            KindView::ButtonDown { patch, .. } => patch,
            KindView::ButtonUp { patch, .. } => patch,
            KindView::ButtonClick { patch, .. } => patch,
            _ => None,
        }
    }

    /// The same action carrying `patch` as its image. Only button actions change.
    pub open spec fn with_patch(self, patch: Option<Seq<char>>) -> KindView {
        match self {
            KindView::ButtonDown { button, .. } => KindView::ButtonDown { button, patch },
            KindView::ButtonUp { button, .. } => KindView::ButtonUp { button, patch },
            KindView::ButtonClick { button, .. } => KindView::ButtonClick { button, patch },
            other => other,
        }
    }

    /// A polyline has at least two points and a search has an image to look for.
    pub open spec fn valid(self) -> bool {
        match self {
            KindView::Moves { points } => points.len() >= 2,
            KindView::FindTarget { patch, .. } => patch.len() > 0,
            _ => true,
        }
    }
}

/// The view of an optional image.
pub open spec fn patch_view(patch: Option<String>) -> Option<Seq<char>> {
    match patch {
        Some(text) => Some(text@),
        None => None,
    }
}

impl View for RecordedEventKind {
    type V = KindView;

    open spec fn view(&self) -> KindView {
        match *self {
            RecordedEventKind::Move { x, y } => KindView::Move { x, y },
            RecordedEventKind::Moves { points } => KindView::Moves { points: points@ },
            RecordedEventKind::Wait { ms } => KindView::Wait { ms },
            RecordedEventKind::FindTarget {
                patch_png_base64,
                patch_size,
                precision_permille,
                timeout_ms,
                search_anchor,
                search_region_size,
            } => KindView::FindTarget {
                patch: patch_png_base64@,
                patch_size,
                precision_permille,
                timeout_ms,
                search_anchor,
                search_region_size,
            },
            RecordedEventKind::ButtonDown { button, patch_png_base64 } => KindView::ButtonDown {
                button,
                patch: patch_view(patch_png_base64),
            },
            RecordedEventKind::ButtonUp { button, patch_png_base64 } => KindView::ButtonUp {
                button,
                patch: patch_view(patch_png_base64),
            },
            RecordedEventKind::ButtonClick { button, patch_png_base64 } => KindView::ButtonClick {
                button,
                patch: patch_view(patch_png_base64),
            },
        }
    }
}

/// A copy of a list of points.
pub fn copy_points(points: &Vec<(i32, i32)>) -> (copy: Vec<(i32, i32)>)
    ensures
        copy@ == points@,
{
    let mut copy: Vec<(i32, i32)> = Vec::new();
    let mut i: usize = 0;
    while i < points.len()
        invariant
            i <= points.len(),
            copy@ == points@.take(i as int),
        decreases points.len() - i,
    {
        copy.push(points[i]);
        i += 1;
    }
    copy
}

/// A copy of an optional image.
pub fn copy_patch(patch: &Option<String>) -> (copy: Option<String>)
    ensures
        patch_view(copy) == patch_view(*patch),
{
    match patch {
        Some(text) => Some(text.clone()),
        None => None,
    }
}

impl Clone for RecordedEventKind {
    fn clone(&self) -> (copy: RecordedEventKind)
        ensures
            copy@ == self@,
    {
        match self {
            RecordedEventKind::Move { x, y } => RecordedEventKind::Move { x: *x, y: *y },
            RecordedEventKind::Moves { points } => RecordedEventKind::Moves {
                points: copy_points(points),
            },
            RecordedEventKind::Wait { ms } => RecordedEventKind::Wait { ms: *ms },
            RecordedEventKind::FindTarget {
                patch_png_base64,
                patch_size,
                precision_permille,
                timeout_ms,
                search_anchor,
                search_region_size,
            } => RecordedEventKind::FindTarget {
                patch_png_base64: patch_png_base64.clone(),
                patch_size: *patch_size,
                precision_permille: *precision_permille,
                timeout_ms: *timeout_ms,
                search_anchor: *search_anchor,
                search_region_size: *search_region_size,
            },
            RecordedEventKind::ButtonDown { button, patch_png_base64 } => {
                RecordedEventKind::ButtonDown {
                    button: *button,
                    patch_png_base64: copy_patch(patch_png_base64),
                }
            },
            RecordedEventKind::ButtonUp { button, patch_png_base64 } => {
                RecordedEventKind::ButtonUp {
                    button: *button,
                    patch_png_base64: copy_patch(patch_png_base64),
                }
            },
            RecordedEventKind::ButtonClick { button, patch_png_base64 } => {
                RecordedEventKind::ButtonClick {
                    button: *button,
                    patch_png_base64: copy_patch(patch_png_base64),
                }
            },
        }
    }
}

/// One row of a timeline.
#[derive(Debug, PartialEq, Eq)]
pub struct RecordedEvent {
    /// Offset on the recorder's own clock; it orders rows and is no wall time.
    pub ms_from_start: u128,
    pub kind: RecordedEventKind,
    pub pos: Option<(i32, i32)>,
    pub click_meta: Option<ClickListMeta>,
}

/// The mathematical value of a `RecordedEvent`.
pub struct EventView {
    pub ms_from_start: u128,
    pub kind: KindView,
    pub pos: Option<(i32, i32)>,
    pub click_meta: Option<ClickListMeta>,
}

impl View for RecordedEvent {
    type V = EventView;

    open spec fn view(&self) -> EventView {
        EventView {
            ms_from_start: self.ms_from_start,
            kind: self.kind@,
            pos: self.pos,
            click_meta: self.click_meta,
        }
    }
}

impl Clone for RecordedEvent {
    fn clone(&self) -> (copy: RecordedEvent)
        ensures
            copy@ == self@,
    {
        RecordedEvent {
            ms_from_start: self.ms_from_start,
            kind: self.kind.clone(),
            pos: self.pos,
            click_meta: self.click_meta,
        }
    }
}

/// The rows of a timeline as mathematical values, in order.
pub open spec fn timeline_view(events: Seq<RecordedEvent>) -> Seq<EventView> {
    events.map_values(|e: RecordedEvent| e@)
}

} // verus!
