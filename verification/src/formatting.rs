//! The two captions of a row in the list of a timeline, and the position at
//! which the pointer is once the row has been played.

use vstd::prelude::*;
use vstd::string::StringExecFns;
use crate::model::{
    ClickEdgeMode, ClickListMeta, EventView, KindView, MouseButton, RecordedEvent,
    RecordedEventKind,
};
use crate::recorder::{first_known, spec_first_known};
use crate::text::{decimal_text, i32_text, u64_text, usize_text};

verus! {

/// "wait N ms", with the wait of the settings or zero.
pub open spec fn wait_value(meta: Option<ClickListMeta>) -> Seq<char> {
    let wait_ms = match meta {
        Some(m) => m.wait_ms as int,
        None => 0,
    };
    "wait "@ + decimal_text(wait_ms) + " ms"@
}

/// "move N ms | wait N ms" for a row with settings, else only the wait.
pub open spec fn move_value(meta: Option<ClickListMeta>) -> Seq<char> {
    match meta {
        Some(m) => "move "@ + decimal_text(m.mouse_move_speed_ms as int) + " ms | "@ + wait_value(meta),
        None => wait_value(meta),
    }
}

/// "(x,y)".
pub open spec fn point_text(at: (i32, i32)) -> Seq<char> {
    "("@ + decimal_text(at.0 as int) + ","@ + decimal_text(at.1 as int) + ")"@
}

/// Where a button row gets its position from: the image, a point, or nothing.
pub open spec fn source_text(meta: Option<ClickListMeta>, pos: Option<(i32, i32)>) -> Seq<char> {
    if meta is Some && meta->0.use_find_image {
        "TARGET"@
    } else {
        match pos {
            Some(at) => point_text(at),
            None => "(X,Y)"@,
        }
    }
}

pub open spec fn mode_tag_text(mode: ClickEdgeMode) -> Seq<char> {
    match mode {
        ClickEdgeMode::Auto => "CLICK"@,
        ClickEdgeMode::Down => "DOWN"@,
        ClickEdgeMode::Up => "UP"@,
        ClickEdgeMode::Double => "DOUBLE"@,
    }
}

pub open spec fn button_tag_text(button: MouseButton) -> Seq<char> {
    match button {
        MouseButton::Left => "LEFT"@,
        MouseButton::Right => "RIGHT"@,
        MouseButton::Middle => "MIDDLE"@,
    }
}

/// "BUTTON:MODE|D:Nms|source" for a button row: the mode of the settings, or
/// the one that the kind of the row implies, and the click speed of the
/// settings, or twenty.
pub open spec fn click_action_text(
    button: MouseButton,
    default_mode: ClickEdgeMode,
    meta: Option<ClickListMeta>,
    pos: Option<(i32, i32)>,
) -> Seq<char> {
    let mode = match meta {
        Some(m) => m.spec_mode_of(button),
        None => default_mode,
    };
    let duration = match meta {
        Some(m) => m.click_speed_ms as int,
        None => 20,
    };
    button_tag_text(button) + ":"@ + mode_tag_text(mode) + "|D:"@ + decimal_text(duration) + "ms|"@
        + source_text(meta, pos)
}

/// The caption of what a row does.
pub open spec fn action_text(row: EventView, prev_pos: Option<(i32, i32)>) -> Seq<char> {
    let at = spec_first_known(row.pos, prev_pos);
    match row.kind {
        KindView::Move { x, y } => "MOVE|"@ + point_text((x, y)),
        KindView::Moves { .. } => "MOVES|(X,Y)"@,
        KindView::Wait { .. } => "WAIT"@,
        KindView::FindTarget { .. } => "FIND|TARGET"@,
        KindView::ButtonDown { button, .. } => click_action_text(button, ClickEdgeMode::Down, row.click_meta, at),
        KindView::ButtonUp { button, .. } => click_action_text(button, ClickEdgeMode::Up, row.click_meta, at),
        KindView::ButtonClick { button, .. } => click_action_text(button, ClickEdgeMode::Auto, row.click_meta, at),
    }
}

/// The caption of the timing of a row.
pub open spec fn value_text(row: EventView) -> Seq<char> {
    match row.kind {
        KindView::Move { .. } => move_value(row.click_meta),
        KindView::Moves { points } => decimal_text(points.len() as int) + " pts | "@ + move_value(row.click_meta),
        KindView::Wait { ms } => "wait "@ + decimal_text(ms as int) + " ms"@,
        _ => wait_value(row.click_meta),
    }
}

/// Where the pointer is after a row: at its point, at the last point of its
/// polyline, at its position, or where it was before.
pub open spec fn pos_after(row: EventView, prev_pos: Option<(i32, i32)>) -> Option<(i32, i32)> {
    match row.kind {
        KindView::Move { x, y } => Some((x, y)),
        KindView::Moves { points } => if points.len() > 0 {
            Some(points.last())
        } else {
            prev_pos
        },
        KindView::Wait { .. } => prev_pos,
        _ => spec_first_known(row.pos, prev_pos),
    }
}

fn wait_value_of(meta: &Option<ClickListMeta>) -> (text: String)
    ensures
        text@ == wait_value(*meta),
{
    let wait_ms: u64 = match meta {
        Some(m) => m.wait_ms as u64,
        None => 0,
    };
    let mut text = String::from_str("wait ");
    text.append(u64_text(wait_ms).as_str());
    text.append(" ms");
    text
}

fn move_value_of(meta: &Option<ClickListMeta>) -> (text: String)
    ensures
        text@ == move_value(*meta),
{
    match meta {
        Some(m) => {
            let mut text = String::from_str("move ");
            text.append(u64_text(m.mouse_move_speed_ms as u64).as_str());
            text.append(" ms | ");
            text.append(wait_value_of(meta).as_str());
            text
        },
        None => wait_value_of(meta),
    }
}

fn point_text_of(at: (i32, i32)) -> (text: String)
    ensures
        text@ == point_text(at),
{
    let mut text = String::from_str("(");
    text.append(i32_text(at.0).as_str());
    text.append(",");
    text.append(i32_text(at.1).as_str());
    text.append(")");
    text
}

fn source_text_of(meta: &Option<ClickListMeta>, pos: Option<(i32, i32)>) -> (text: String)
    ensures
        text@ == source_text(*meta, pos),
{
    let by_image = match meta {
        Some(m) => m.use_find_image,
        None => false,
    };
    if by_image {
        String::from_str("TARGET")
    } else {
        match pos {
            Some(at) => point_text_of(at),
            None => String::from_str("(X,Y)"),
        }
    }
}

fn mode_tag(mode: ClickEdgeMode) -> (tag: &'static str)
    ensures
        tag@ == mode_tag_text(mode),
{
    match mode {
        ClickEdgeMode::Auto => "CLICK",
        ClickEdgeMode::Down => "DOWN",
        ClickEdgeMode::Up => "UP",
        ClickEdgeMode::Double => "DOUBLE",
    }
}

fn button_tag(button: MouseButton) -> (tag: &'static str)
    ensures
        tag@ == button_tag_text(button),
{
    match button {
        MouseButton::Left => "LEFT",
        MouseButton::Right => "RIGHT",
        MouseButton::Middle => "MIDDLE",
    }
}

fn click_action(
    button: MouseButton,
    default_mode: ClickEdgeMode,
    meta: &Option<ClickListMeta>,
    pos: Option<(i32, i32)>,
) -> (text: String)
    ensures
        text@ == click_action_text(button, default_mode, *meta, pos),
{
    let mode = match meta {
        Some(m) => m.mode_of(button),
        None => default_mode,
    };
    let duration: u64 = match meta {
        Some(m) => m.click_speed_ms as u64,
        None => 20,
    };
    let mut text = String::from_str(button_tag(button));
    text.append(":");
    text.append(mode_tag(mode));
    text.append("|D:");
    text.append(u64_text(duration).as_str());
    text.append("ms|");
    text.append(source_text_of(meta, pos).as_str());
    text
}

/// The caption of what a row does, the caption of its timing, and the
/// position of the pointer after it, given the position before it.
pub fn format_event_with_prev(ev: &RecordedEvent, prev_pos: Option<(i32, i32)>) -> (caption: (
    String,
    String,
    Option<(i32, i32)>,
))
    ensures
        caption.0@ == action_text(ev@, prev_pos),
        caption.1@ == value_text(ev@),
        caption.2 == pos_after(ev@, prev_pos),
{
    let at = first_known(ev.pos, prev_pos);
    match &ev.kind {
        RecordedEventKind::Move { x, y } => {
            let mut action = String::from_str("MOVE|");
            action.append(point_text_of((*x, *y)).as_str());
            (action, move_value_of(&ev.click_meta), Some((*x, *y)))
        },
        RecordedEventKind::Moves { points } => {
            let mut value = usize_text(points.len());
            value.append(" pts | ");
            value.append(move_value_of(&ev.click_meta).as_str());
            let pos = if points.len() > 0 {
                Some(points[points.len() - 1])
            } else {
                prev_pos
            };
            (String::from_str("MOVES|(X,Y)"), value, pos)
        },
        RecordedEventKind::Wait { ms } => {
            let mut value = String::from_str("wait ");
            value.append(u64_text(*ms).as_str());
            value.append(" ms");
            (String::from_str("WAIT"), value, prev_pos)
        },
        RecordedEventKind::FindTarget { .. } => (
            String::from_str("FIND|TARGET"),
            wait_value_of(&ev.click_meta),
            at,
        ),
        RecordedEventKind::ButtonDown { button, .. } => (
            click_action(*button, ClickEdgeMode::Down, &ev.click_meta, at),
            wait_value_of(&ev.click_meta),
            at,
        ),
        RecordedEventKind::ButtonUp { button, .. } => (
            click_action(*button, ClickEdgeMode::Up, &ev.click_meta, at),
            wait_value_of(&ev.click_meta),
            at,
        ),
        RecordedEventKind::ButtonClick { button, .. } => (
            click_action(*button, ClickEdgeMode::Auto, &ev.click_meta, at),
            wait_value_of(&ev.click_meta),
            at,
        ),
    }
}

} // verus!
