//! The collapsible: a region that a trigger opens and closes.

use vstd::prelude::*;
use crate::components::base::render_as::RenderAs;
use crate::utils::class_names::{class_list, cn, parts_view};

verus! {

/// The class that every collapsible has.
pub const COLLAPSIBLE_CLASSES: &'static str = "w-full";

/// The classes of a trigger that renders as a button of its own.
pub const TRIGGER_BUTTON_CLASSES: &'static str =
    "flex w-full items-center gap-2 rounded-md text-sm transition-colors hover:bg-accent hover:text-accent-foreground";

/// The classes that mark a trigger whose collapsible is open.
pub const TRIGGER_OPEN_CLASSES: &'static str =
    "data-[state=open]:bg-accent data-[state=open]:text-accent-foreground";

/// The classes that every collapsible content has.
pub const CONTENT_CLASSES: &'static str = "overflow-hidden transition-all duration-200";

/// The inline style of the content of an open collapsible.
pub const CONTENT_STYLE_OPEN: &'static str = "max-height: 1000px; opacity: 1;";

/// The inline style of the content of a closed collapsible.
pub const CONTENT_STYLE_CLOSED: &'static str = "max-height: 0px; opacity: 0;";

/// The state that a collapsible shares with its trigger and its content.
#[derive(Clone, Copy, Debug, PartialEq, Eq, Structural)]
pub struct CollapsibleContext {
    pub is_open: bool,
}

/// The value of the `data-state` attribute for an element that is open or
/// closed.
pub open spec fn open_state_text(is_open: bool) -> Seq<char> {
    if is_open {
        "open"@
    } else {
        "closed"@
    }
}

impl CollapsibleContext {
    /// The state of a collapsible that has just been made.
    pub fn new(default_open: bool) -> (context: CollapsibleContext)
        ensures
            context.is_open == default_open,
    {
        CollapsibleContext { is_open: default_open }
    }

    /// What a click on the trigger does: an open collapsible closes, a
    /// closed one opens.
    pub fn toggle(&mut self)
        ensures
            final(self).is_open == !old(self).is_open,
    {
        self.is_open = !self.is_open;
    }

    /// The value of the `data-state` attribute.
    pub fn data_state(&self) -> (state: &'static str)
        ensures
            state@ == open_state_text(self.is_open),
    {
        if self.is_open {
            "open"
        } else {
            "closed"
        }
    }

    /// The value of the trigger's `aria-expanded` attribute.
    pub fn aria_expanded(&self) -> (expanded: bool)
        ensures
            expanded == self.is_open,
    {
        self.is_open
    }

    /// The value of the content's `aria-hidden` attribute.
    pub fn aria_hidden(&self) -> (hidden: bool)
        ensures
            hidden == !self.is_open,
    {
        !self.is_open
    }

    /// The inline style of the content.
    pub fn content_style(&self) -> (style: &'static str)
        ensures
            style@ == if self.is_open {
                CONTENT_STYLE_OPEN@
            } else {
                CONTENT_STYLE_CLOSED@
            },
    {
        if self.is_open {
            CONTENT_STYLE_OPEN
        } else {
            CONTENT_STYLE_CLOSED
        }
    }
}

/// Builds the class attribute of a collapsible.
pub fn collapsible_class(extra: &str) -> (classes: String)
    ensures
        classes@ == class_list(seq![COLLAPSIBLE_CLASSES@, extra@]),
{
    let parts = [COLLAPSIBLE_CLASSES, extra];
    assert(parts_view(parts@) =~= seq![COLLAPSIBLE_CLASSES@, extra@]);
    cn(&parts)
}

/// The parts of a trigger's class attribute: a trigger that is a container
/// around its child has only the classes that mark it open, one that is a
/// button of its own has the button's classes before them.
pub open spec fn trigger_class_parts(render_as: RenderAs, extra: Seq<char>) -> Seq<Seq<char>> {
    match render_as {
        RenderAs::Container => seq![TRIGGER_OPEN_CLASSES@, extra],
        RenderAs::Control => seq![TRIGGER_BUTTON_CLASSES@, TRIGGER_OPEN_CLASSES@, extra],
    }
}

/// Builds the class attribute of a collapsible's trigger.
pub fn collapsible_trigger_class(render_as: RenderAs, extra: &str) -> (classes: String)
    ensures
        classes@ == class_list(trigger_class_parts(render_as, extra@)),
{
    match render_as {
        RenderAs::Container => {
            let parts = [TRIGGER_OPEN_CLASSES, extra];
            assert(parts_view(parts@) =~= trigger_class_parts(render_as, extra@));
            cn(&parts)
        },
        RenderAs::Control => {
            let parts = [TRIGGER_BUTTON_CLASSES, TRIGGER_OPEN_CLASSES, extra];
            assert(parts_view(parts@) =~= trigger_class_parts(render_as, extra@));
            cn(&parts)
        },
    }
}

/// Builds the class attribute of a collapsible's content.
pub fn collapsible_content_class(extra: &str) -> (classes: String)
    ensures
        classes@ == class_list(seq![CONTENT_CLASSES@, extra@]),
{
    let parts = [CONTENT_CLASSES, extra];
    assert(parts_view(parts@) =~= seq![CONTENT_CLASSES@, extra@]);
    cn(&parts)
}

} // verus!
