//! The single physical button: press types and release-time classification.
use vstd::prelude::*;

verus! {

/// A press held at least this many milliseconds is a long press.
pub const LONG_PRESS_MS: u64 = 500;

/// A press held longer than this many milliseconds is ignored on release.
pub const MAX_LONG_PRESS_MS: u64 = 2000;

/// Type of button press: short or long.
#[derive(Debug, Clone, Copy, PartialEq, Eq, Structural)]
pub enum ButtonPressType {
    Short,
    Long,
}

/// Button actions.
#[derive(Debug, Clone, Copy, PartialEq, Eq, Structural)]
pub enum Button {
    Button1(ButtonPressType),
}

/// Display text of a press type.
pub open spec fn press_display(p: ButtonPressType) -> Seq<char> {
    match p {
        ButtonPressType::Short => "Short Press"@,
        ButtonPressType::Long => "Long Press"@,
    }
}

impl ButtonPressType {
    /// `Short Press` or `Long Press`.
    pub fn to_string(&self) -> (s: String)
        ensures
            s@ == press_display(*self),
    {
        match self {
            ButtonPressType::Short => String::from_str("Short Press"),
            ButtonPressType::Long => String::from_str("Long Press"),
        }
    }
}

impl Button {
    /// Whether a short press was detected.
    pub fn is_short_press(&self) -> (b: bool)
        ensures
            b == (*self == Button::Button1(ButtonPressType::Short)),
    {
        match self {
            Button::Button1(ButtonPressType::Short) => true,
            _ => false,
        }
    }

    /// Whether a long press was detected.
    pub fn is_long_press(&self) -> (b: bool)
        ensures
            b == (*self == Button::Button1(ButtonPressType::Long)),
    {
        match self {
            Button::Button1(ButtonPressType::Long) => true,
            _ => false,
        }
    }

    /// `Button 1 (<press>)`.
    pub fn to_string(&self) -> (s: String)
        ensures
            s@ == (match *self {
                Button::Button1(p) => "Button 1 ("@ + press_display(p) + ")"@,
            }),
    {
        match self {
            Button::Button1(p) => {
                let mut s = String::from_str("Button 1 (");
                s.append(p.to_string().as_str());
                s.append(")");
                s
            },
        }
    }
}

/// The press reported when the button is sampled at `now`: on release after being held since
/// `start`, short below [`LONG_PRESS_MS`] milliseconds, long up to [`MAX_LONG_PRESS_MS`]
/// milliseconds, nothing for a longer hold; nothing while held or when not pressed.
pub open spec fn press_on_sample(start: Option<u64>, is_pressed: bool, now: u64) -> Option<
    ButtonPressType,
> {
    match start {
        Some(t) => if is_pressed {
            None
        } else if (if now >= t { now - t } else { 0 }) < LONG_PRESS_MS {
            Some(ButtonPressType::Short)
        } else if (if now >= t { now - t } else { 0 }) <= MAX_LONG_PRESS_MS {
            Some(ButtonPressType::Long)
        } else {
            None
        },
        None => None,
    }
}

/// When the current press started, after sampling the button at `now`.
pub open spec fn press_start_after(start: Option<u64>, is_pressed: bool, now: u64) -> Option<u64> {
    if is_pressed {
        match start {
            Some(t) => Some(t),
            None => Some(now),
        }
    } else {
        None
    }
}

/// State of a button, tracking when the current press began (milliseconds).
pub struct ButtonState {
    pressed_at: Option<u64>,
}

impl ButtonState {
    /// When the press in progress started, if the button is held.
    pub closed spec fn press_start(&self) -> Option<u64> {
        self.pressed_at
    }

    /// Samples the button at `now`; on release returns the press type (none for a hold beyond
    /// [`MAX_LONG_PRESS_MS`]).
    pub fn poll(&mut self, is_pressed: bool, now: u64) -> (r: Option<ButtonPressType>)
        ensures
            r == press_on_sample(old(self).press_start(), is_pressed, now),
            final(self).press_start() == press_start_after(old(self).press_start(), is_pressed, now),
    {
        if is_pressed {
            if self.pressed_at.is_none() {
                self.pressed_at = Some(now);
            }
            None
        } else {
            match self.pressed_at {
                Some(pressed_at) => {
                    self.pressed_at = None;
                    let duration = if now >= pressed_at { now - pressed_at } else { 0 };
                    if duration < LONG_PRESS_MS {
                        Some(ButtonPressType::Short)
                    } else if duration <= MAX_LONG_PRESS_MS {
                        Some(ButtonPressType::Long)
                    } else {
                        None
                    }
                },
                None => None,
            }
        }
    }

    /// Samples the button at `now`; when the release completes a press, calls `on_press` with
    /// the press type.
    pub fn update<F: FnOnce(ButtonPressType)>(&mut self, is_pressed: bool, now: u64, on_press: F)
        requires
            forall|t: ButtonPressType|
                press_on_sample(old(self).press_start(), is_pressed, now) == Some(t)
                    ==> #[trigger] on_press.requires((t,)),
        ensures
            final(self).press_start() == press_start_after(old(self).press_start(), is_pressed, now),
            forall|t: ButtonPressType|
                press_on_sample(old(self).press_start(), is_pressed, now) == Some(t)
                    ==> #[trigger] on_press.ensures((t,), ()),
    {
        if let Some(press_type) = self.poll(is_pressed, now) {
            on_press(press_type);
        }
    }
}

impl Default for ButtonState {
    fn default() -> (s: Self)
        ensures
            s.press_start() == None::<u64>,
    {
        ButtonState { pressed_at: None }
    }
}

} // verus!
