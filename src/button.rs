use vstd::prelude::*;

verus! {

/// The platform-independent button vocabulary used at the session boundary.
#[derive(Clone, Copy, Debug, PartialEq, Eq, Structural, Hash)]
pub enum ButtonType {
    A,
    B,
    Up,
    Down,
    Left,
    Right,
    Select,
    Start,
    L,
    R,
}

/// The two hosted handhelds.
#[derive(Clone, Copy, Debug, PartialEq, Eq, Structural, Hash)]
pub enum Platform {
    /// The 8-bit handheld: eight buttons, no shoulder buttons.
    Handheld8,
    /// The 32-bit handheld: all ten buttons.
    Handheld32,
}

/// The buttons of the 8-bit core's joypad.
#[derive(Clone, Copy, Debug, PartialEq, Eq, Structural, Hash)]
pub enum GbButton {
    A,
    B,
    Up,
    Down,
    Left,
    Right,
    Select,
    Start,
}

/// The keys of the 32-bit core's keypad.
#[derive(Clone, Copy, Debug, PartialEq, Eq, Structural, Hash)]
pub enum GbaKey {
    A,
    B,
    Up,
    Down,
    Left,
    Right,
    Select,
    Start,
    L,
    R,
}

/// Screen width of the 8-bit handheld.
pub const GB_WIDTH: usize = 160;

/// Screen height of the 8-bit handheld.
pub const GB_HEIGHT: usize = 144;

/// Screen width of the 32-bit handheld.
pub const GBA_WIDTH: usize = 240;

/// Screen height of the 32-bit handheld.
pub const GBA_HEIGHT: usize = 160;

/// Screen width of a platform, in pixels.
pub open spec fn width_of(p: Platform) -> nat {
    match p {
        Platform::Handheld8 => GB_WIDTH as nat,
        Platform::Handheld32 => GBA_WIDTH as nat,
    }
}

/// Screen height of a platform, in pixels.
pub open spec fn height_of(p: Platform) -> nat {
    match p {
        Platform::Handheld8 => GB_HEIGHT as nat,
        Platform::Handheld32 => GBA_HEIGHT as nat,
    }
}

/// The buttons a platform physically has.
pub open spec fn supports(p: Platform, b: ButtonType) -> bool {
    match p {
        Platform::Handheld8 => !(b == ButtonType::L || b == ButtonType::R),
        Platform::Handheld32 => true,
    }
}

/// The joypad button that a canonical button drives on the 8-bit core;
/// `None` for the shoulder buttons, which that handheld does not have.
pub open spec fn gb_button_of(b: ButtonType) -> Option<GbButton> {
    match b {
        ButtonType::A => Some(GbButton::A),
        ButtonType::B => Some(GbButton::B),
        ButtonType::Up => Some(GbButton::Up),
        ButtonType::Down => Some(GbButton::Down),
        ButtonType::Left => Some(GbButton::Left),
        ButtonType::Right => Some(GbButton::Right),
        ButtonType::Select => Some(GbButton::Select),
        ButtonType::Start => Some(GbButton::Start),
        ButtonType::L => None,
        ButtonType::R => None,
    }
}

/// The keypad key that a canonical button drives on the 32-bit core.
pub open spec fn gba_key_of(b: ButtonType) -> GbaKey {
    match b {
        ButtonType::A => GbaKey::A,
        ButtonType::B => GbaKey::B,
        ButtonType::Up => GbaKey::Up,
        ButtonType::Down => GbaKey::Down,
        ButtonType::Left => GbaKey::Left,
        ButtonType::Right => GbaKey::Right,
        ButtonType::Select => GbaKey::Select,
        ButtonType::Start => GbaKey::Start,
        ButtonType::L => GbaKey::L,
        ButtonType::R => GbaKey::R,
    }
}

impl Platform {
    /// Screen width in pixels.
    pub fn width(&self) -> (r: usize)
        ensures
            r == width_of(*self),
    {
        match self {
            Platform::Handheld8 => GB_WIDTH,
            Platform::Handheld32 => GBA_WIDTH,
        }
    }

    /// Screen height in pixels.
    pub fn height(&self) -> (r: usize)
        ensures
            r == height_of(*self),
    {
        match self {
            Platform::Handheld8 => GB_HEIGHT,
            Platform::Handheld32 => GBA_HEIGHT,
        }
    }

    /// Length of a converted frame: three bytes for each pixel of the screen.
    pub fn frame_len(&self) -> (r: usize)
        ensures
            r == width_of(*self) * height_of(*self) * 3,
    {
        match self {
            Platform::Handheld8 => GB_WIDTH * GB_HEIGHT * 3,
            Platform::Handheld32 => GBA_WIDTH * GBA_HEIGHT * 3,
        }
    }

    /// Whether this platform has the button.
    pub fn supports(&self, b: ButtonType) -> (r: bool)
        ensures
            r == supports(*self, b),
    {
        match self {
            Platform::Handheld8 => match b {
                ButtonType::L | ButtonType::R => false,
                _ => true,
            },
            Platform::Handheld32 => true,
        }
    }
}

/// Maps a canonical button onto the 8-bit core's joypad. The shoulder
/// buttons map to `None`: the session drops them without touching the core.
pub fn gb_button(b: ButtonType) -> (r: Option<GbButton>)
    ensures
        r == gb_button_of(b),
        r.is_some() == supports(Platform::Handheld8, b),
{
    match b {
        ButtonType::A => Some(GbButton::A),
        ButtonType::B => Some(GbButton::B),
        ButtonType::Up => Some(GbButton::Up),
        ButtonType::Down => Some(GbButton::Down),
        ButtonType::Left => Some(GbButton::Left),
        ButtonType::Right => Some(GbButton::Right),
        ButtonType::Select => Some(GbButton::Select),
        ButtonType::Start => Some(GbButton::Start),
        // The 8-bit handheld has no shoulder buttons: drop them on purpose.
        ButtonType::L => None,
        ButtonType::R => None,
    }
}

/// Maps a canonical button onto the 32-bit core's keypad; every button has a key.
pub fn gba_key(b: ButtonType) -> (r: GbaKey)
    ensures
        r == gba_key_of(b),
{
    match b {
        ButtonType::A => GbaKey::A,
        ButtonType::B => GbaKey::B,
        ButtonType::Up => GbaKey::Up,
        ButtonType::Down => GbaKey::Down,
        ButtonType::Left => GbaKey::Left,
        ButtonType::Right => GbaKey::Right,
        ButtonType::Select => GbaKey::Select,
        ButtonType::Start => GbaKey::Start,
        ButtonType::L => GbaKey::L,
        ButtonType::R => GbaKey::R,
    }
}

/// The 8-bit core's control state after a session forwards `(b, pressed)`:
/// the mapped button takes the new value, a dropped button leaves it as it was.
pub open spec fn gb_press(store: Map<GbButton, bool>, b: ButtonType, pressed: bool) -> Map<
    GbButton,
    bool,
> {
    match gb_button_of(b) {
        Some(k) => store.insert(k, pressed),
        None => store,
    }
}

/// The 32-bit core's control state after a session forwards `(b, pressed)`.
pub open spec fn gba_press(store: Map<GbaKey, bool>, b: ButtonType, pressed: bool) -> Map<
    GbaKey,
    bool,
> {
    store.insert(gba_key_of(b), pressed)
}

/// Setting a button to the same value twice leaves the control state as
/// setting it once does, on both platforms.
pub proof fn lemma_press_idempotent(
    gb: Map<GbButton, bool>,
    gba: Map<GbaKey, bool>,
    b: ButtonType,
    pressed: bool,
)
    ensures
        gb_press(gb_press(gb, b, pressed), b, pressed) == gb_press(gb, b, pressed),
        gba_press(gba_press(gba, b, pressed), b, pressed) == gba_press(gba, b, pressed),
{
    assert(gba_press(gba_press(gba, b, pressed), b, pressed) =~= gba_press(gba, b, pressed));
    match gb_button_of(b) {
        Some(k) => {
            assert(gb_press(gb_press(gb, b, pressed), b, pressed) =~= gb_press(gb, b, pressed));
        },
        None => {},
    }
}

/// On the 8-bit handheld the shoulder buttons are accepted and change nothing.
pub proof fn lemma_gb_shoulder_dropped(store: Map<GbButton, bool>, b: ButtonType, pressed: bool)
    requires
        b == ButtonType::L || b == ButtonType::R,
    ensures
        gb_press(store, b, pressed) == store,
        gb_button_of(b).is_none(),
{
}

/// On the 32-bit handheld every one of the ten buttons has a key of its own:
/// setting a button gives its key the new value and leaves every other
/// button's key as it was.
pub proof fn lemma_gba_keys_independent(store: Map<GbaKey, bool>, b: ButtonType, pressed: bool)
    ensures
        gba_press(store, b, pressed).contains_key(gba_key_of(b)),
        gba_press(store, b, pressed)[gba_key_of(b)] == pressed,
        forall|c: ButtonType|
            c != b ==> gba_key_of(c) != gba_key_of(b) && (store.contains_key(gba_key_of(c))
                ==> gba_press(store, b, pressed)[gba_key_of(c)] == store[gba_key_of(c)]),
{
}

} // verus!
