use vstd::prelude::*;
use crate::audio::ClipId;
use crate::pointer::Pointer;

verus! {

/// An event produced by an interface element during a frame.
#[derive(PartialEq, Eq, Structural, Debug, Clone)]
pub enum UIEvent {
    /// A button identified by its value was clicked, optionally with the
    /// clip the host should play.
    ButtonClick(usize, Option<ClipId>),
}

/// Horizontal alignment of a piece of content.
#[derive(PartialEq, Eq, Structural, Debug, Clone)]
pub enum Alignment {
    /// Start-aligned within the given width.
    Start(i32),
    /// Centered.
    Center,
}

/// What an interface element displays; drawing is the host's business.
#[derive(Debug)]
pub enum ContentElement {
    /// A text label with an alignment.
    Text(String, Alignment),
    /// A sprite, by atlas position and size.
    Sprite((i32, i32), (i32, i32)),
    /// Nothing.
    Empty,
}

/// The trim drawn around a label.
#[derive(PartialEq, Eq, Structural, Debug, Clone)]
pub enum LabelTrim {
    /// Rounded corners.
    Round,
    /// An ornate trim.
    Glorious,
    /// The trim of a back-navigation label.
    Return,
}

/// The colour theme of a label.
#[derive(PartialEq, Eq, Structural, Debug, Clone)]
pub enum LabelTheme {
    /// The ordinary theme.
    Default,
    /// A call-to-action theme.
    Action,
    /// A bright theme.
    Bright,
    /// A greyed-out theme; disabled buttons never click.
    Disabled,
}

/// A clickable button. Its geometry is in interface pixels.
#[derive(Debug)]
pub struct ButtonElement {
    /// Top-left corner.
    pub position: (i32, i32),
    /// Extent.
    pub size: (i32, i32),
    /// The value reported when the button is clicked.
    pub value: usize,
    /// The trim drawn around the button.
    pub trim: LabelTrim,
    /// The colour theme; a `Disabled` button never clicks.
    pub class: LabelTheme,
    /// What the button displays.
    pub content: ContentElement,
    /// Whether the button is drawn as selected.
    pub selected: bool,
}

impl ButtonElement {
    /// Creates a button, initially unselected.
    pub fn new(
        position: (i32, i32),
        size: (i32, i32),
        value: usize,
        trim: LabelTrim,
        class: LabelTheme,
        content: ContentElement,
    ) -> (b: ButtonElement)
        ensures
            b.position == position,
            b.size == size,
            b.value == value,
            b.trim == trim,
            b.class == class,
            b.selected == false,
    {
        ButtonElement { position, size, value, trim, class, content, selected: false }
    }

    /// The pointer rests on the button.
    pub open spec fn spec_hovered(self, pointer: Pointer) -> bool {
        pointer.spec_in_region(self.position, self.size)
    }

    /// The button is clicked: hovered, the primary button went down this
    /// frame, and the button is not disabled.
    pub open spec fn spec_clicked(self, pointer: Pointer) -> bool {
        self.spec_hovered(pointer) && pointer.spec_clicked() && self.class != LabelTheme::Disabled
    }

    /// The clip to play when this button clicks.
    pub open spec fn spec_clip_id(self) -> Option<ClipId> {
        match self.trim {
            LabelTrim::Round => Some(ClipId::ClickForward),
            LabelTrim::Glorious => Some(ClipId::ClickForward),
            LabelTrim::Return => Some(ClipId::ClickBack),
        }
    }

    /// The event this button yields for a pointer state, if any.
    pub open spec fn spec_event(self, pointer: Pointer) -> Option<UIEvent> {
        if self.spec_clicked(pointer) {
            Some(UIEvent::ButtonClick(self.value, self.spec_clip_id()))
        } else {
            None
        }
    }

    fn hovered(&self, pointer: &Pointer) -> (r: bool)
        ensures
            r == self.spec_hovered(*pointer),
    {
        pointer.in_region(self.position, self.size)
    }

    fn clicked(&self, pointer: &Pointer) -> (r: bool)
        ensures
            r == self.spec_clicked(*pointer),
    {
        let enabled: bool = match self.class {
            LabelTheme::Disabled => false,
            _ => true,
        };
        self.hovered(pointer) && pointer.clicked() && enabled
    }

    fn clip_id(&self) -> (r: Option<ClipId>)
        ensures
            r == self.spec_clip_id(),
    {
        match self.trim {
            LabelTrim::Round => Some(ClipId::ClickForward),
            LabelTrim::Glorious => Some(ClipId::ClickForward),
            LabelTrim::Return => Some(ClipId::ClickBack),
        }
    }

    /// One frame of interaction: yields a click event when the button is
    /// clicked; the button itself does not change.
    pub fn tick(&mut self, pointer: &Pointer) -> (r: Option<UIEvent>)
        ensures
            *final(self) == *old(self),
            r == old(self).spec_event(*pointer),
    {
        if self.clicked(pointer) {
            Some(UIEvent::ButtonClick(self.value, self.clip_id()))
        } else {
            None
        }
    }
}

/// A button that must be clicked twice: the first click arms it, the second
/// fires it, and a click elsewhere disarms it.
#[derive(Debug)]
pub struct ConfirmButtonElement {
    /// The underlying button; `selected` marks the armed state.
    pub button: ButtonElement,
}

impl ConfirmButtonElement {
    /// Creates a confirm button, initially disarmed.
    pub fn new(
        position: (i32, i32),
        size: (i32, i32),
        value: usize,
        trim: LabelTrim,
        class: LabelTheme,
        content: ContentElement,
    ) -> (b: ConfirmButtonElement)
        ensures
            b.button.position == position,
            b.button.size == size,
            b.button.value == value,
            b.button.trim == trim,
            b.button.class == class,
            b.button.selected == false,
    {
        ConfirmButtonElement {
            button: ButtonElement::new(position, size, value, trim, class, content),
        }
    }

    /// One frame of interaction: a click on an armed button fires it, a
    /// click on a disarmed button arms it, and a click elsewhere disarms it.
    pub fn tick(&mut self, pointer: &Pointer) -> (r: Option<UIEvent>)
        ensures
            !pointer.spec_clicked() ==> (*final(self) == *old(self) && r is None),
            pointer.spec_clicked() && old(self).button.spec_clicked(*pointer) && old(self).button.selected ==> (*final(self) == *old(self) && r == Some(
                UIEvent::ButtonClick(old(self).button.value, old(self).button.spec_clip_id()),
            )),
            pointer.spec_clicked() && old(self).button.spec_clicked(*pointer) && !old(self).button.selected ==> (final(self).button == (ButtonElement {
                selected: true,
                ..old(self).button
            }) && r is None),
            pointer.spec_clicked() && !old(self).button.spec_clicked(*pointer) ==> (final(self).button == (ButtonElement { selected: false, ..old(self).button }) && r is None),
    {
        if pointer.clicked() {
            if self.button.clicked(pointer) {
                if self.button.selected {
                    Some(UIEvent::ButtonClick(self.button.value, self.button.clip_id()))
                } else {
                    self.button.selected = true;
                    None
                }
            } else {
                self.button.selected = false;
                None
            }
        } else {
            None
        }
    }
}

/// A button that flips between selected and unselected on each click.
#[derive(Debug)]
pub struct ToggleButtonElement {
    /// The underlying button; `selected` is the toggle state.
    pub button: ButtonElement,
}

impl ToggleButtonElement {
    /// Creates a toggle button, initially off.
    pub fn new(
        position: (i32, i32),
        size: (i32, i32),
        value: usize,
        trim: LabelTrim,
        class: LabelTheme,
        content: ContentElement,
    ) -> (b: ToggleButtonElement)
        ensures
            b.button.position == position,
            b.button.size == size,
            b.button.value == value,
            b.button.trim == trim,
            b.button.class == class,
            b.button.selected == false,
    {
        ToggleButtonElement {
            button: ButtonElement::new(position, size, value, trim, class, content),
        }
    }

    /// Whether the toggle is on.
    pub fn selected(&self) -> (r: bool)
        ensures
            r == self.button.selected,
    {
        self.button.selected
    }

    /// Sets the toggle state directly.
    pub fn set_selected(&mut self, selected: bool)
        ensures
            final(self).button == (ButtonElement { selected, ..old(self).button }),
    {
        self.button.selected = selected;
    }

    /// Flips the toggle state.
    pub fn toggle(&mut self)
        ensures
            final(self).button == (ButtonElement {
                selected: !old(self).button.selected,
                ..old(self).button
            }),
    {
        self.button.selected = !self.button.selected;
    }

    /// One frame of interaction: a click flips the toggle and reports it.
    pub fn tick(&mut self, pointer: &Pointer) -> (r: Option<UIEvent>)
        ensures
            old(self).button.spec_clicked(*pointer) ==> (final(self).button == (ButtonElement {
                selected: !old(self).button.selected,
                ..old(self).button
            }) && r == Some(
                UIEvent::ButtonClick(old(self).button.value, old(self).button.spec_clip_id()),
            )),
            !old(self).button.spec_clicked(*pointer) ==> (*final(self) == *old(self) && r is None),
    {
        if self.button.clicked(pointer) {
            self.toggle();
            Some(UIEvent::ButtonClick(self.button.value, self.button.clip_id()))
        } else {
            None
        }
    }
}

/// The selection state of one button in a group after a frame: selected
/// exactly when its value is the group's value.
pub open spec fn spec_group_button(b: ButtonElement, group_value: usize) -> ButtonElement {
    ButtonElement { selected: group_value == b.value, ..b }
}

/// The state of a button group after ticking the first `n` buttons against
/// a pointer: the group's value, the buttons, and the last event.
pub open spec fn spec_group_upto(
    bs: Seq<ButtonElement>,
    p: Pointer,
    value0: usize,
    n: int,
) -> (usize, Seq<ButtonElement>, Option<UIEvent>)
    decreases n,
{
    if n <= 0 {
        (value0, bs, None)
    } else {
        let prev = spec_group_upto(bs, p, value0, n - 1);
        let b = prev.1[n - 1];
        let picked = b.spec_event(p) is Some;
        let value = if picked {
            b.value
        } else {
            prev.0
        };
        let event = if picked {
            b.spec_event(p)
        } else {
            prev.2
        };
        (value, prev.1.update(n - 1, spec_group_button(b, value)), event)
    }
}

/// A row of buttons of which exactly one is selected: clicking one selects
/// it and reports its value.
#[derive(Debug)]
pub struct ButtonGroupElement {
    /// Top-left corner; the buttons' positions are relative to it.
    pub position: (i32, i32),
    /// The buttons of the group.
    pub buttons: Vec<ButtonElement>,
    /// The value of the currently selected button.
    pub value: usize,
}

impl ButtonGroupElement {
    /// Creates a button group with the given selected value.
    pub fn new(position: (i32, i32), buttons: Vec<ButtonElement>, value: usize) -> (g:
        ButtonGroupElement)
        ensures
            g.position == position,
            g.buttons == buttons,
            g.value == value,
    {
        ButtonGroupElement { position, buttons, value }
    }

    /// One frame of interaction: each button is hit-tested against the
    /// pointer translated into the group's frame; a clicked button becomes
    /// the group's value, and every button's selection is refreshed against
    /// the value current when it was visited.
    pub fn tick(&mut self, pointer: &Pointer) -> (r: Option<UIEvent>)
        requires
            i32::MIN <= pointer.location.0 - old(self).position.0 <= i32::MAX,
            i32::MIN <= pointer.location.1 - old(self).position.1 <= i32::MAX,
            i32::MIN < old(self).position.0,
            i32::MIN < old(self).position.1,
        ensures
            final(self).position == old(self).position,
            ({
                let folded = spec_group_upto(
                    old(self).buttons@,
                    Pointer {
                        location: (
                            (pointer.location.0 - old(self).position.0) as i32,
                            (pointer.location.1 - old(self).position.1) as i32,
                        ),
                        ..*pointer
                    },
                    old(self).value,
                    old(self).buttons@.len() as int,
                );
                final(self).value == folded.0 && final(self).buttons@ == folded.1 && r == folded.2
            }),
    {
        let local: Pointer = pointer.teleport((-self.position.0, -self.position.1));
        let ghost lp: Pointer = Pointer {
            location: (
                (pointer.location.0 - self.position.0) as i32,
                (pointer.location.1 - self.position.1) as i32,
            ),
            ..*pointer
        };
        proof {
            assert(local == lp);
        }
        let mut event: Option<UIEvent> = None;
        let n: usize = self.buttons.len();
        let mut i: usize = 0;
        while i < n
            invariant
                0 <= i <= n,
                n == self.buttons@.len(),
                self.position == old(self).position,
                ({
                    let folded = spec_group_upto(old(self).buttons@, lp, old(self).value, i as int);
                    self.value == folded.0 && self.buttons@ == folded.1 && event == folded.2
                }),
                forall|k: int|
                    i <= k < n ==> #[trigger] self.buttons@[k] == old(self).buttons@[k],
                local == lp,
            decreases n - i,
        {
            let clicked_event: Option<UIEvent> = self.buttons[i].tick(&local);
            match clicked_event {
                Some(child_event) => {
                    self.value = self.buttons[i].value;
                    event = Some(child_event);
                },
                None => {},
            }
            let selected: bool = self.value == self.buttons[i].value;
            let ghost bs0: Seq<ButtonElement> = self.buttons@;
            self.buttons[i].selected = selected;
            proof {
                let folded_prev = spec_group_upto(
                    old(self).buttons@,
                    lp,
                    old(self).value,
                    i as int,
                );
                let b = folded_prev.1[i as int];
                assert(b == bs0[i as int]);
                assert(self.buttons@ =~= bs0.update(i as int, spec_group_button(b, self.value)));
            }
            i = i + 1;
        }
        event
    }
}

} // verus!
