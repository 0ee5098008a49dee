use vstd::prelude::*;

verus! {

/// What the pointer did.
#[allow(non_camel_case_types)]
#[derive(Clone, Copy, Debug, PartialEq, Eq)]
pub enum MouseAction {
    DOWN,
    UP,
    MOVE,
}

} // verus!

verus! {

/// What the pointer did and where, the place in double-precision bit
/// patterns.
#[derive(Clone, Copy, Debug, PartialEq, Eq)]
pub struct MouseEvent {
    pub action: MouseAction,
    pub x: u64,
    pub y: u64,
}

/// What is known of the pointer: where it was last, how far it moved last,
/// where the gesture under way began and whether a button is down. Places
/// and distances are double-precision bit patterns.
#[derive(Clone, Copy, Debug, PartialEq, Eq)]
pub struct MouseService {
    pub last_x: u64,
    pub last_y: u64,
    pub delta_x: u64,
    pub delta_y: u64,
    pub gesture_start_x: u64,
    pub gesture_start_y: u64,
    pub is_down: bool,
}

impl MouseService {
    /// A pointer at the origin that has not moved and is not down.
    pub fn new() -> (service: MouseService)
        ensures
            service == (MouseService {
                last_x: 0,
                last_y: 0,
                delta_x: 0,
                delta_y: 0,
                gesture_start_x: 0,
                gesture_start_y: 0,
                is_down: false,
            }),
    {
        MouseService {
            last_x: 0,
            last_y: 0,
            delta_x: 0,
            delta_y: 0,
            gesture_start_x: 0,
            gesture_start_y: 0,
            is_down: false,
        }
    }

    /// A button went down: a gesture begins where the pointer was last. The
    /// event to tell the handlers of comes back.
    pub fn handle_mouse_down(&mut self) -> (event: MouseEvent)
        ensures
            *final(self) == (MouseService {
                is_down: true,
                gesture_start_x: old(self).last_x,
                gesture_start_y: old(self).last_y,
                ..*old(self)
            }),
            event == (MouseEvent { action: MouseAction::DOWN, x: old(self).last_x, y: old(self).last_y }),
    {
        self.is_down = true;
        self.gesture_start_x = self.last_x;
        self.gesture_start_y = self.last_y;
        MouseEvent { action: MouseAction::DOWN, x: self.last_x, y: self.last_y }
    }

    /// The button went up. The event to tell the handlers of comes back.
    pub fn handle_mouse_up(&mut self) -> (event: MouseEvent)
        ensures
            *final(self) == (MouseService { is_down: false, ..*old(self) }),
            event == (MouseEvent { action: MouseAction::UP, x: old(self).last_x, y: old(self).last_y }),
    {
        self.is_down = false;
        MouseEvent { action: MouseAction::UP, x: self.last_x, y: self.last_y }
    }

    /// The pointer moved to `x` and `y`, by `delta_x` and `delta_y` from
    /// where it was last; the caller forms the two differences. The event to
    /// tell the handlers of comes back.
    pub fn handle_mouse_move(&mut self, x: u64, y: u64, delta_x: u64, delta_y: u64) -> (event:
        MouseEvent)
        ensures
            *final(self) == (MouseService { last_x: x, last_y: y, delta_x, delta_y, ..*old(self) }),
            event == (MouseEvent { action: MouseAction::MOVE, x, y }),
    {
        self.delta_x = delta_x;
        self.delta_y = delta_y;
        self.last_x = x;
        self.last_y = y;
        MouseEvent { action: MouseAction::MOVE, x, y }
    }

    /// Forgets how far the pointer moved last.
    pub fn clear_deltas(&mut self)
        ensures
            *final(self) == (MouseService { delta_x: 0, delta_y: 0, ..*old(self) }),
    {
        self.delta_x = 0;
        self.delta_y = 0;
    }
}

} // verus!
