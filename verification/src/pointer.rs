use vstd::prelude::*;

verus! {

/// The pointing device's state for one frame, together with the previous
/// frame's state, from which edge events (clicks) are derived. Coordinates
/// are in interface pixels; the host translates from device coordinates.
pub struct Pointer {
    /// The previous frame's pointer, if one was recorded.
    pub previous: Option<Box<Pointer>>,
    /// The raw device position.
    pub real: (i32, i32),
    /// The position in interface coordinates.
    pub location: (i32, i32),
    /// Whether the primary button is down.
    pub button: bool,
    /// Whether the secondary button is down.
    pub alt_button: bool,
}

impl Pointer {
    /// A click happens on the frame the primary button goes down.
    pub open spec fn spec_clicked(self) -> bool {
        match self.previous {
            Some(pointer) => self.button && !pointer.button,
            None => self.button,
        }
    }

    /// A click of the secondary button, on the frame it goes down.
    pub open spec fn spec_alt_clicked(self) -> bool {
        match self.previous {
            Some(pointer) => self.alt_button && !pointer.alt_button,
            None => self.alt_button,
        }
    }

    /// Whether the primary button went down this frame.
    pub fn clicked(&self) -> (r: bool)
        ensures
            r == self.spec_clicked(),
    {
        match &self.previous {
            Some(pointer) => self.button && !pointer.button,
            None => self.button,
        }
    }

    /// Whether the secondary button went down this frame.
    pub fn alt_clicked(&self) -> (r: bool)
        ensures
            r == self.spec_alt_clicked(),
    {
        match &self.previous {
            Some(pointer) => self.alt_button && !pointer.alt_button,
            None => self.alt_button,
        }
    }

    /// Records the current state as the previous frame's state; only one
    /// frame of history is kept.
    pub fn swap(&mut self)
        ensures
            final(self).real == old(self).real,
            final(self).location == old(self).location,
            final(self).button == old(self).button,
            final(self).alt_button == old(self).alt_button,
            final(self).previous matches Some(b) && *b == (Pointer {
                previous: None,
                real: old(self).real,
                location: old(self).location,
                button: old(self).button,
                alt_button: old(self).alt_button,
            }),
    {
        let snapshot = Pointer {
            previous: None,
            real: self.real,
            location: self.location,
            button: self.button,
            alt_button: self.alt_button,
        };
        self.previous = Some(Box::new(snapshot));
    }

    /// A copy of this pointer shifted by the given offset, used to hit-test
    /// inside translated interface containers.
    pub fn teleport(&self, location: (i32, i32)) -> (r: Pointer)
        requires
            i32::MIN <= self.location.0 + location.0 <= i32::MAX,
            i32::MIN <= self.location.1 + location.1 <= i32::MAX,
        ensures
            r.previous == self.previous,
            r.real == self.real,
            r.location.0 == self.location.0 + location.0,
            r.location.1 == self.location.1 + location.1,
            r.button == self.button,
            r.alt_button == self.alt_button,
    {
        let mut returned: Pointer = self.clone();
        returned.location.0 = returned.location.0 + location.0;
        returned.location.1 = returned.location.1 + location.1;
        returned
    }

    /// Whether the pointer lies inside the axis-aligned box at `position`
    /// with extent `size`.
    pub fn in_region(&self, position: (i32, i32), size: (i32, i32)) -> (r: bool)
        ensures
            r == self.spec_in_region(position, size),
    {
        (self.location.0 as i64) >= (position.0 as i64) && (self.location.0 as i64) < (position.0
            as i64) + (size.0 as i64) && (self.location.1 as i64) >= (position.1 as i64) && (
        self.location.1 as i64) < (position.1 as i64) + (size.1 as i64)
    }

    /// Containment in the axis-aligned box at `position` with extent `size`.
    pub open spec fn spec_in_region(self, position: (i32, i32), size: (i32, i32)) -> bool {
        &&& self.location.0 >= position.0
        &&& self.location.0 < position.0 + size.0
        &&& self.location.1 >= position.1
        &&& self.location.1 < position.1 + size.1
    }
}

impl Clone for Pointer {
    /// A clone keeps the whole pointer, history included.
    fn clone(&self) -> (r: Pointer)
        ensures
            r == *self,
        decreases *self,
    {
        Pointer {
            previous: match &self.previous {
                Some(b) => Some(Box::new((**b).clone())),
                None => None,
            },
            real: self.real,
            location: self.location,
            button: self.button,
            alt_button: self.alt_button,
        }
    }
}

impl Default for Pointer {
    /// A pointer at the origin with no buttons down and no history.
    fn default() -> (p: Pointer)
        ensures
            p == (Pointer {
                previous: None,
                real: (0, 0),
                location: (0, 0),
                button: false,
                alt_button: false,
            }),
    {
        Pointer { previous: None, real: (0, 0), location: (0, 0), button: false, alt_button: false }
    }
}

} // verus!
