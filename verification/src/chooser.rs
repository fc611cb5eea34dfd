//! The zone chooser's selection state and key handling. Rendering, pointer hit
//! testing and directional geometry belong to the overlay that drives it.

use vstd::prelude::*;
use crate::layout::{Direction, ZoneId};

verus! {

/// A key press, as the chooser reads it.
#[derive(Debug, Clone, Copy, PartialEq, Eq, Structural)]
pub enum KeyInput {
    Escape,
    Enter,
    Left,
    Right,
    Up,
    Down,
    /// Any other key, with the first character of the text it produces, if any.
    Text(Option<char>),
}

/// The value of an ASCII decimal digit.
pub open spec fn digit_value(c: char) -> Option<u32> {
    if '0' <= c && c <= '9' {
        Some((c as u32 - '0' as u32) as u32)
    } else {
        None
    }
}

/// `char::to_digit(10)`.
pub fn decimal_digit(c: char) -> (r: Option<u32>)
    ensures
        r == digit_value(c),
{
    if '0' <= c && c <= '9' {
        Some(c as u32 - '0' as u32)
    } else {
        None
    }
}

/// The chooser's state: the zones on offer (by id, in layout order), the one
/// highlighted, whether the chooser is done, and the zone confirmed, if any.
#[derive(Debug)]
pub struct ZoneChooser {
    zones: Vec<ZoneId>,
    selected: usize,
    exit: bool,
    confirmed: Option<ZoneId>,
}

/// The model of the chooser.
pub struct ChooserSpec {
    pub zones: Seq<ZoneId>,
    pub selected: nat,
    pub exit: bool,
    pub confirmed: Option<ZoneId>,
}

impl View for ZoneChooser {
    type V = ChooserSpec;

    closed spec fn view(&self) -> ChooserSpec {
        ChooserSpec {
            zones: self.zones@,
            selected: self.selected as nat,
            exit: self.exit,
            confirmed: self.confirmed,
        }
    }
}

/// The chooser after confirming zone `index`: an index outside the zones changes nothing.
pub open spec fn after_choose(s: ChooserSpec, index: nat) -> ChooserSpec {
    if index < s.zones.len() {
        ChooserSpec { selected: index, confirmed: Some(s.zones[index as int]), exit: true, ..s }
    } else {
        s
    }
}

/// What a key does: Escape closes without a choice, Enter confirms the highlighted
/// zone, a digit from 1 to 9 confirms that zone, arrows leave the state to the
/// directional move, and any other key does nothing.
pub open spec fn after_key(s: ChooserSpec, key: KeyInput) -> ChooserSpec {
    match key {
        KeyInput::Escape => ChooserSpec { exit: true, ..s },
        KeyInput::Enter => after_choose(s, s.selected),
        KeyInput::Text(Some(c)) => match digit_value(c) {
            Some(d) => if d > 0 {
                after_choose(s, (d - 1) as nat)
            } else {
                s
            },
            None => s,
        },
        _ => s,
    }
}

/// The direction an arrow key asks for.
pub open spec fn key_direction(key: KeyInput) -> Option<Direction> {
    match key {
        KeyInput::Left => Some(Direction::Left),
        KeyInput::Right => Some(Direction::Right),
        KeyInput::Up => Some(Direction::Up),
        KeyInput::Down => Some(Direction::Down),
        _ => None,
    }
}

impl ZoneChooser {
    /// A chooser over no zones, highlighting the first one.
    pub fn new() -> (r: Self)
        ensures
            r@.zones.len() == 0,
            r@.selected == 0,
            !r@.exit,
            r@.confirmed is None,
    {
        ZoneChooser { zones: Vec::new(), selected: 0, exit: false, confirmed: None }
    }

    /// Replaces the zones on offer; a highlight that no longer fits goes back to the first zone.
    pub fn set_zones(&mut self, zones: Vec<ZoneId>)
        ensures
            final(self)@ == (ChooserSpec {
                zones: zones@,
                selected: if old(self)@.selected >= zones@.len() {
                    0
                } else {
                    old(self)@.selected
                },
                ..old(self)@
            }),
    {
        self.zones = zones;
        if self.selected >= self.zones.len() {
            self.selected = 0;
        }
    }

    pub fn selected(&self) -> (r: usize)
        ensures
            r == self@.selected,
    {
        self.selected
    }

    pub fn exit(&self) -> (r: bool)
        ensures
            r == self@.exit,
    {
        self.exit
    }

    pub fn confirmed(&self) -> (r: &Option<ZoneId>)
        ensures
            *r == self@.confirmed,
    {
        &self.confirmed
    }

    pub fn zones(&self) -> (r: &Vec<ZoneId>)
        ensures
            r@ == self@.zones,
    {
        &self.zones
    }

    /// Closes the chooser without a choice.
    pub fn close(&mut self)
        ensures
            final(self)@ == (ChooserSpec { exit: true, ..old(self)@ }),
    {
        self.exit = true;
    }

    /// Confirms zone `index` and closes the chooser; an index outside the zones is ignored.
    pub fn choose_index(&mut self, index: usize)
        ensures
            final(self)@ == after_choose(old(self)@, index as nat),
    {
        if index < self.zones.len() {
            self.selected = index;
            self.confirmed = Some(self.zones[index].clone());
            self.exit = true;
        }
    }

    /// Highlights zone `index` (the pointer moved over it, or a directional move
    /// landed on it) and tells whether the highlight changed.
    pub fn highlight(&mut self, index: usize) -> (r: bool)
        requires
            index < old(self)@.zones.len(),
        ensures
            r == (index != old(self)@.selected),
            final(self)@ == (ChooserSpec { selected: index as nat, ..old(self)@ }),
    {
        if index != self.selected {
            self.selected = index;
            true
        } else {
            false
        }
    }

    /// Handles a key. Arrow keys return the direction to move the highlight in (the
    /// caller then redraws); every other key is handled here and returns `None`.
    pub fn handle_key(&mut self, key: KeyInput) -> (r: Option<Direction>)
        ensures
            r == key_direction(key),
            final(self)@ == after_key(old(self)@, key),
    {
        match key {
            KeyInput::Escape => {
                self.exit = true;
                None
            },
            KeyInput::Enter => {
                let selected = self.selected;
                self.choose_index(selected);
                None
            },
            KeyInput::Left => Some(Direction::Left),
            KeyInput::Right => Some(Direction::Right),
            KeyInput::Up => Some(Direction::Up),
            KeyInput::Down => Some(Direction::Down),
            KeyInput::Text(text) => {
                match text {
                    Some(c) => match decimal_digit(c) {
                        Some(digit) => {
                            if digit > 0 {
                                self.choose_index((digit - 1) as usize);
                            }
                        },
                        None => {},
                    },
                    None => {},
                }
                None
            },
        }
    }
}

} // verus!
verus! {

/// Failures of the Wayland overlay.
#[derive(Debug, Clone)]
pub enum OverlayError {
    Wayland(String),
}

} // verus!
