//! The commands of the input dispatcher. Each one decides, from its
//! arguments and the current monitor enumeration, the input actions to
//! synthesize, in order; the caller performs them against the
//! input-synthesis service and stops at the first that fails.
use vstd::prelude::*;
use vstd::string::StrSliceExecFns;

use crate::error::ControlError;
use crate::keys::{parse, parse_spec, KeyId, KeySpec};
use crate::monitor::{
    find_by_id, global_to_local, global_to_local_spec, local_to_global, local_to_global_spec,
    lookup, MonitorInfo, Point,
};

verus! {

#[derive(PartialEq, Eq, Structural, Clone, Copy, Debug)]
pub enum MouseButton {
    Left,
    Right,
}

/// One discrete input event.
#[derive(PartialEq, Eq, Debug)]
pub enum InputAction {
    /// Moves the cursor to a desktop-global position.
    MoveTo(Point),
    /// Presses and releases a mouse button where the cursor stands.
    Click(MouseButton),
    /// Presses and releases a key.
    KeyClick(KeyId),
    /// Inserts text as the keyboard layout types it.
    Text(String),
}

/// The button that a name stands for: `left` or `right`, nothing else.
pub open spec fn button_of(side: Seq<char>) -> Option<MouseButton> {
    if side == "left"@ {
        Some(MouseButton::Left)
    } else if side == "right"@ {
        Some(MouseButton::Right)
    } else {
        None
    }
}

/// The actions of a result, as a sequence.
pub open spec fn actions_of(r: Result<Vec<InputAction>, ControlError>) -> Result<Seq<InputAction>, ControlError> {
    match r {
        Ok(v) => Ok(v@),
        Err(e) => Err(e),
    }
}

/// Moving the cursor to point `p` of monitor `id`: one absolute move to the
/// desktop-global point.
pub open spec fn move_plan(ms: Seq<MonitorInfo>, id: Seq<char>, p: Point) -> Result<Seq<InputAction>, ControlError> {
    match lookup(ms, id) {
        None => Err(ControlError::MonitorNotFound),
        Some(m) => match local_to_global_spec(m, p) {
            None => Err(ControlError::OutOfRange),
            Some(g) => Ok(seq![InputAction::MoveTo(g)]),
        },
    }
}

/// Clicking on monitor `id`: a move first where both coordinates are
/// given, then the click; with no point, the click alone where the cursor
/// stands.
pub open spec fn click_plan(
    ms: Seq<MonitorInfo>,
    id: Seq<char>,
    side: Seq<char>,
    x: Option<i32>,
    y: Option<i32>,
) -> Result<Seq<InputAction>, ControlError> {
    match lookup(ms, id) {
        None => Err(ControlError::MonitorNotFound),
        Some(m) => match button_of(side) {
            None => Err(ControlError::InvalidButton),
            Some(b) => match (x, y) {
                (Some(x), Some(y)) => match local_to_global_spec(m, Point { x, y }) {
                    None => Err(ControlError::OutOfRange),
                    Some(g) => Ok(seq![InputAction::MoveTo(g), InputAction::Click(b)]),
                },
                _ => Ok(seq![InputAction::Click(b)]),
            },
        },
    }
}

/// Pressing a parsed key spec: a press and release of the modifier, if any,
/// then a press and release of the key. The modifier is not held.
pub open spec fn key_plan(ks: KeySpec) -> Seq<InputAction> {
    match ks.modifier {
        Some(m) => seq![InputAction::KeyClick(m), InputAction::KeyClick(ks.primary)],
        None => seq![InputAction::KeyClick(ks.primary)],
    }
}

fn text_equals(a: &str, b: &str) -> (r: bool)
    ensures
        r == (a@ == b@),
{
    let n = a.unicode_len();
    if n != b.unicode_len() {
        return false;
    }
    let mut i: usize = 0;
    while i < n
        invariant
            n == a@.len(),
            n == b@.len(),
            i <= n,
            forall|j: int| 0 <= j < i ==> a@[j] == b@[j],
        decreases n - i,
    {
        if a.get_char(i) != b.get_char(i) {
            return false;
        }
        i = i + 1;
    }
    assert(a@ =~= b@);
    true
}

/// Reads a mouse button name: `left` or `right`.
pub fn parse_button(side: &str) -> (r: Result<MouseButton, ControlError>)
    ensures
        match button_of(side@) {
            Some(b) => r == Ok::<MouseButton, ControlError>(b),
            None => r matches Err(ControlError::InvalidButton),
        },
{
    if text_equals(side, "left") {
        Ok(MouseButton::Left)
    } else if text_equals(side, "right") {
        Ok(MouseButton::Right)
    } else {
        Err(ControlError::InvalidButton)
    }
}

/// Moves the cursor to point (`x`, `y`) of a monitor.
pub fn move_cursor(monitors: &Vec<MonitorInfo>, monitor_id: &str, x: i32, y: i32) -> (r: Result<
    Vec<InputAction>,
    ControlError,
>)
    ensures
        actions_of(r) == move_plan(monitors@, monitor_id@, Point { x, y }),
{
    let m = find_by_id(monitors, monitor_id)?;
    match local_to_global(&m, Point { x, y }) {
        None => Err(ControlError::OutOfRange),
        Some(g) => {
            let v = vec![InputAction::MoveTo(g)];
            assert(v@ =~= seq![InputAction::MoveTo(g)]);
            Ok(v)
        },
    }
}

/// Clicks a mouse button on a monitor, first moving to point (`x`, `y`)
/// of it where both coordinates are given.
pub fn click(
    monitors: &Vec<MonitorInfo>,
    monitor_id: &str,
    side: &str,
    x: Option<i32>,
    y: Option<i32>,
) -> (r: Result<Vec<InputAction>, ControlError>)
    ensures
        actions_of(r) == click_plan(monitors@, monitor_id@, side@, x, y),
{
    let m = find_by_id(monitors, monitor_id)?;
    let b = parse_button(side)?;
    match (x, y) {
        (Some(x), Some(y)) => match local_to_global(&m, Point { x, y }) {
            None => Err(ControlError::OutOfRange),
            Some(g) => {
                let v = vec![InputAction::MoveTo(g), InputAction::Click(b)];
                assert(v@ =~= seq![InputAction::MoveTo(g), InputAction::Click(b)]);
                Ok(v)
            },
        },
        _ => {
            let v = vec![InputAction::Click(b)];
            assert(v@ =~= seq![InputAction::Click(b)]);
            Ok(v)
        },
    }
}

/// The cursor's position on a monitor, from its desktop-global position.
pub fn cursor_position(monitor: &MonitorInfo, global: Point) -> (r: Result<Point, ControlError>)
    ensures
        match global_to_local_spec(*monitor, global) {
            Some(p) => r == Ok::<Point, ControlError>(p),
            None => r matches Err(ControlError::OutOfRange),
        },
{
    match global_to_local(monitor, global) {
        Some(p) => Ok(p),
        None => Err(ControlError::OutOfRange),
    }
}

/// Types a text: one insertion of the whole text.
pub fn type_text(text: String) -> (r: Vec<InputAction>)
    ensures
        r@ == seq![InputAction::Text(text)],
{
    let ghost t = text;
    let v = vec![InputAction::Text(text)];
    assert(v@ =~= seq![InputAction::Text(t)]);
    v
}

/// Presses the keys of a key spec such as `"ctrl+s"`: the modifier, if
/// any, then the key, each pressed and released on its own.
pub fn press_key(spec: &str) -> (r: Result<Vec<InputAction>, ControlError>)
    ensures
        match parse_spec(spec@) {
            Ok(ks) => actions_of(r) == Ok::<Seq<InputAction>, ControlError>(key_plan(ks)),
            Err(n) => r matches Err(ControlError::UnknownKey(s)) && s@ == n,
        },
{
    let ks = parse(spec)?;
    let v = match ks.modifier {
        Some(m) => vec![InputAction::KeyClick(m), InputAction::KeyClick(ks.primary)],
        None => vec![InputAction::KeyClick(ks.primary)],
    };
    assert(v@ =~= key_plan(ks));
    Ok(v)
}


/// A click with no point, or with one coordinate only, is the click alone:
/// the cursor does not move. A click with a point is a move to that point,
/// then the click, in that order.
pub proof fn lemma_click_moves_only_with_point(
    ms: Seq<MonitorInfo>,
    id: Seq<char>,
    side: Seq<char>,
    x: Option<i32>,
    y: Option<i32>,
)
    requires
        lookup(ms, id) is Some,
        button_of(side) is Some,
    ensures
        !(x is Some && y is Some) ==> click_plan(ms, id, side, x, y) == Ok::<
            Seq<InputAction>,
            ControlError,
        >(seq![InputAction::Click(button_of(side)->0)]),
        x is Some && y is Some && local_to_global_spec(lookup(ms, id)->0, Point { x: x->0, y: y->0 })
            is Some ==> click_plan(ms, id, side, x, y) == Ok::<Seq<InputAction>, ControlError>(
            seq![
                InputAction::MoveTo(
                    local_to_global_spec(lookup(ms, id)->0, Point { x: x->0, y: y->0 })->0,
                ),
                InputAction::Click(button_of(side)->0),
            ],
        ),
{
}

/// A key spec with a modifier is two discrete press-and-release events,
/// the modifier's and then the key's; without one it is the key's alone.
pub proof fn lemma_key_plan_discrete_clicks(ks: KeySpec)
    ensures
        ks.modifier is Some ==> key_plan(ks).len() == 2 && key_plan(ks)[0] == InputAction::KeyClick(
            ks.modifier->0,
        ) && key_plan(ks)[1] == InputAction::KeyClick(ks.primary),
        ks.modifier is None ==> key_plan(ks).len() == 1 && key_plan(ks)[0] == InputAction::KeyClick(
            ks.primary,
        ),
{
}

} // verus!
