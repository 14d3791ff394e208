//! The sidebar: its open and collapsed states, the attribute values of its
//! parts and their class lists.

use vstd::prelude::*;
use crate::utils::class_names::{class_list, cn, parts_view};
use crate::utils::text::str_eq;

verus! {

/// Whether the sidebar is shown in full.
#[derive(Clone, Copy, Debug, PartialEq, Eq, Structural)]
pub enum SidebarState {
    Expanded,
    Collapsed,
}

/// The state that an open or closed sidebar is in.
pub open spec fn state_of_open(open: bool) -> SidebarState {
    if open {
        SidebarState::Expanded
    } else {
        SidebarState::Collapsed
    }
}

impl SidebarState {
    /// The value of the `data-state` attribute.
    pub open spec fn text(self) -> Seq<char> {
        match self {
            SidebarState::Expanded => "expanded"@,
            SidebarState::Collapsed => "collapsed"@,
        }
    }

    /// The value of the `data-state` attribute.
    pub fn as_str(self) -> (text: &'static str)
        ensures
            text@ == self.text(),
    {
        match self {
            SidebarState::Expanded => "expanded",
            SidebarState::Collapsed => "collapsed",
        }
    }
}

/// What the sidebar's provider shares with the parts below it.
///
/// The provider keeps a flag of its own. Where the caller hands it a
/// readable flag, that one decides whether the sidebar is open, and the
/// provider's own flag only records what was last asked for. Where the
/// caller hands it a setter, every change is forwarded to it.
#[derive(Clone, Copy, Debug, PartialEq, Eq, Structural)]
pub struct SidebarContext {
    /// The provider's own flag.
    pub is_open: bool,
    /// The caller's flag as last read, where the caller gave one.
    pub controlled: Option<bool>,
    /// Whether the caller gave a setter.
    pub has_setter: bool,
}

impl SidebarContext {
    /// Whether the sidebar is open.
    pub open spec fn open_now(self) -> bool {
        match self.controlled {
            Some(value) => value,
            None => self.is_open,
        }
    }

    /// The context of a provider that has just been made.
    pub fn new(default_open: bool, open: Option<bool>, has_setter: bool) -> (context:
        SidebarContext)
        ensures
            context == (SidebarContext { is_open: default_open, controlled: open, has_setter }),
    {
        SidebarContext { is_open: default_open, controlled: open, has_setter }
    }

    /// Whether the sidebar is open.
    pub fn open(&self) -> (open: bool)
        ensures
            open == self.open_now(),
    {
        match self.controlled {
            Some(value) => value,
            None => self.is_open,
        }
    }

    /// The state of the sidebar.
    pub fn state(&self) -> (state: SidebarState)
        ensures
            state == state_of_open(self.open_now()),
    {
        if self.open() {
            SidebarState::Expanded
        } else {
            SidebarState::Collapsed
        }
    }

    /// Asks for the sidebar to be open or closed. The provider's own flag
    /// takes the value; the result is what the caller's setter is to be
    /// given, where there is one.
    pub fn set_open(&mut self, value: bool) -> (forwarded: Option<bool>)
        ensures
            *final(self) == (SidebarContext { is_open: value, ..*old(self) }),
            forwarded == if old(self).has_setter {
                Some(value)
            } else {
                None
            },
    {
        self.is_open = value;
        if self.has_setter {
            Some(value)
        } else {
            None
        }
    }

    /// What a click on the trigger does: asks for the opposite of the
    /// provider's own flag.
    pub fn toggle_sidebar(&mut self) -> (forwarded: Option<bool>)
        ensures
            *final(self) == (SidebarContext { is_open: !old(self).is_open, ..*old(self) }),
            forwarded == if old(self).has_setter {
                Some(!old(self).is_open)
            } else {
                None
            },
    {
        let value = !self.is_open;
        self.set_open(value)
    }

    /// Takes note of a new value of the caller's flag. A provider that was
    /// given no flag is not affected.
    pub fn observe(&mut self, value: bool)
        ensures
            *final(self) == (SidebarContext {
                controlled: if old(self).controlled is Some {
                    Some(value)
                } else {
                    None
                },
                ..*old(self)
            }),
    {
        if self.controlled.is_some() {
            self.controlled = Some(value);
        }
    }
}

/// The side of the page that the sidebar stands on.
#[derive(Clone, Copy, Debug, PartialEq, Eq, Structural)]
pub enum SidebarSide {
    Left,
    Right,
}

impl Default for SidebarSide {
    fn default() -> (side: SidebarSide)
        ensures
            side == SidebarSide::Left,
    {
        SidebarSide::Left
    }
}

impl SidebarSide {
    /// The value of the `data-side` attribute.
    pub open spec fn text(self) -> Seq<char> {
        match self {
            SidebarSide::Left => "left"@,
            SidebarSide::Right => "right"@,
        }
    }

    /// The value of the `data-side` attribute.
    pub fn as_str(self) -> (text: &'static str)
        ensures
            text@ == self.text(),
    {
        match self {
            SidebarSide::Left => "left",
            SidebarSide::Right => "right",
        }
    }
}

/// How the sidebar sits in the page.
#[derive(Clone, Copy, Debug, PartialEq, Eq, Structural)]
pub enum SidebarVariant {
    Sidebar,
    Floating,
    Inset,
}

impl Default for SidebarVariant {
    fn default() -> (variant: SidebarVariant)
        ensures
            variant == SidebarVariant::Sidebar,
    {
        SidebarVariant::Sidebar
    }
}

impl SidebarVariant {
    /// The value of the `data-variant` attribute.
    pub open spec fn text(self) -> Seq<char> {
        match self {
            SidebarVariant::Sidebar => "sidebar"@,
            SidebarVariant::Floating => "floating"@,
            SidebarVariant::Inset => "inset"@,
        }
    }

    /// Whether the sidebar stands free of the page's edge, with padding
    /// around it.
    pub open spec fn padded(self) -> bool {
        self == SidebarVariant::Floating || self == SidebarVariant::Inset
    }

    /// The value of the `data-variant` attribute.
    pub fn as_str(self) -> (text: &'static str)
        ensures
            text@ == self.text(),
    {
        match self {
            SidebarVariant::Sidebar => "sidebar",
            SidebarVariant::Floating => "floating",
            SidebarVariant::Inset => "inset",
        }
    }

    /// Whether the sidebar stands free of the page's edge, with padding
    /// around it.
    pub fn is_padded(self) -> (padded: bool)
        ensures
            padded == self.padded(),
    {
        match self {
            SidebarVariant::Sidebar => false,
            SidebarVariant::Floating | SidebarVariant::Inset => true,
        }
    }
}

/// What is left of a collapsed sidebar.
#[derive(Clone, Copy, Debug, PartialEq, Eq, Structural)]
pub enum SidebarCollapsible {
    /// It slides out of the page.
    Offcanvas,
    /// It shrinks to a strip of icons.
    Icon,
    /// It does not collapse.
    Fixed,
}

impl Default for SidebarCollapsible {
    fn default() -> (collapsible: SidebarCollapsible)
        ensures
            collapsible == SidebarCollapsible::Offcanvas,
    {
        SidebarCollapsible::Offcanvas
    }
}

impl SidebarCollapsible {
    /// The name of this way of collapsing.
    pub open spec fn text(self) -> Seq<char> {
        match self {
            SidebarCollapsible::Offcanvas => "offcanvas"@,
            SidebarCollapsible::Icon => "icon"@,
            SidebarCollapsible::Fixed => "none"@,
        }
    }

    /// The name of this way of collapsing.
    pub fn as_str(self) -> (text: &'static str)
        ensures
            text@ == self.text(),
    {
        match self {
            SidebarCollapsible::Offcanvas => "offcanvas",
            SidebarCollapsible::Icon => "icon",
            SidebarCollapsible::Fixed => "none",
        }
    }
}

/// The value of the `data-collapsible` attribute: the way of collapsing
/// while the sidebar is collapsed, and nothing while it is expanded.
pub fn data_collapsible(state: SidebarState, collapsible: SidebarCollapsible) -> (text:
    &'static str)
    ensures
        text@ == if state == SidebarState::Collapsed {
            collapsible.text()
        } else {
            Seq::<char>::empty()
        },
{
    match state {
        SidebarState::Collapsed => collapsible.as_str(),
        SidebarState::Expanded => {
            proof {
                reveal_strlit("");
            }
            assert(""@ =~= Seq::<char>::empty());
            ""
        },
    }
}

/// The value of the `data-slot` attribute of the provider's wrapper.
pub const WRAPPER_SLOT: &'static str = "sidebar-wrapper";

/// The custom property that holds the width of the expanded sidebar.
pub const WIDTH_PROPERTY: &'static str = "--sidebar-width";

/// The width of the expanded sidebar.
pub const WIDTH: &'static str = "16rem";

/// The custom property that holds the width of the strip of icons.
pub const ICON_WIDTH_PROPERTY: &'static str = "--sidebar-width-icon";

/// The width of the strip of icons.
pub const ICON_WIDTH: &'static str = "3rem";

/// The classes of the provider's wrapper.
pub const WRAPPER_CLASSES: &'static str = "group/sidebar-wrapper has-data-[variant=inset]:bg-sidebar flex min-h-svh w-full";

/// The classes of the sidebar's outermost element.
pub const ROOT_CLASSES: &'static str = "group peer text-sidebar-foreground hidden md:block";

/// The classes of the gap that keeps the sidebar's place in the page.
pub const GAP_CLASSES: &'static str = "relative w-(--sidebar-width) bg-transparent transition-[width] duration-200 ease-linear";

/// The class that closes the gap of a sidebar that slid out.
pub const GAP_OFFCANVAS_CLASSES: &'static str = "group-data-[collapsible=offcanvas]:w-0";

/// The class that turns the gap of a sidebar on the right.
pub const GAP_RIGHT_CLASSES: &'static str = "group-data-[side=right]:rotate-180";

/// The width of the gap of a padded sidebar that shrank to icons.
pub const GAP_ICON_PADDED_CLASSES: &'static str = "group-data-[collapsible=icon]:w-[calc(var(--sidebar-width-icon)+(--spacing(4)))]";

/// The width of the gap of a sidebar that shrank to icons.
pub const GAP_ICON_CLASSES: &'static str = "group-data-[collapsible=icon]:w-(--sidebar-width-icon)";

/// The classes of the container that holds the sidebar in place.
pub const CONTAINER_CLASSES: &'static str = "fixed inset-y-0 z-10 hidden h-svh w-(--sidebar-width) transition-[left,right,width] duration-200 ease-linear md:flex";

/// The classes of the container of a sidebar on the left.
pub const CONTAINER_LEFT_CLASSES: &'static str = "left-0 group-data-[collapsible=offcanvas]:left-[calc(var(--sidebar-width)*-1)]";

/// The classes of the container of a sidebar on the right.
pub const CONTAINER_RIGHT_CLASSES: &'static str = "right-0 group-data-[collapsible=offcanvas]:right-[calc(var(--sidebar-width)*-1)]";

/// The classes of the container of a padded sidebar.
pub const CONTAINER_PADDED_CLASSES: &'static str = "p-2 group-data-[collapsible=icon]:w-[calc(var(--sidebar-width-icon)+(--spacing(4))+2px)]";

/// The classes of the container of a sidebar at the page's edge.
pub const CONTAINER_EDGE_CLASSES: &'static str = "group-data-[collapsible=icon]:w-(--sidebar-width-icon) group-data-[side=left]:border-r group-data-[side=right]:border-l";

/// The classes of the element that holds the sidebar's children.
pub const INNER_CLASSES: &'static str = "bg-sidebar group-data-[variant=floating]:border-sidebar-border flex h-full w-full flex-col group-data-[variant=floating]:rounded-lg group-data-[variant=floating]:border group-data-[variant=floating]:shadow-sm";

/// The class of the button that opens and closes the sidebar.
pub const TRIGGER_CLASSES: &'static str = "size-7";

/// What a screen reader says of the trigger.
pub const TRIGGER_LABEL: &'static str = "Toggle Sidebar";

/// Builds the class attribute of the provider's wrapper.
pub fn sidebar_wrapper_class(extra: &str) -> (classes: String)
    ensures
        classes@ == class_list(seq![WRAPPER_CLASSES@, extra@]),
{
    let parts = [WRAPPER_CLASSES, extra];
    assert(parts_view(parts@) =~= seq![WRAPPER_CLASSES@, extra@]);
    cn(&parts)
}

/// The parts of the class attribute of the sidebar's gap.
pub open spec fn gap_class_parts(variant: SidebarVariant) -> Seq<Seq<char>> {
    seq![
        GAP_CLASSES@,
        GAP_OFFCANVAS_CLASSES@,
        GAP_RIGHT_CLASSES@,
        if variant.padded() {
            GAP_ICON_PADDED_CLASSES@
        } else {
            GAP_ICON_CLASSES@
        },
    ]
}

/// Builds the class attribute of the sidebar's gap.
pub fn sidebar_gap_class(variant: SidebarVariant) -> (classes: String)
    ensures
        classes@ == class_list(gap_class_parts(variant)),
{
    let width = if variant.is_padded() {
        GAP_ICON_PADDED_CLASSES
    } else {
        GAP_ICON_CLASSES
    };
    let parts = [GAP_CLASSES, GAP_OFFCANVAS_CLASSES, GAP_RIGHT_CLASSES, width];
    assert(parts_view(parts@) =~= gap_class_parts(variant));
    cn(&parts)
}

/// The parts of the class attribute of the sidebar's container.
pub open spec fn container_class_parts(
    side: SidebarSide,
    variant: SidebarVariant,
    extra: Seq<char>,
) -> Seq<Seq<char>> {
    seq![
        CONTAINER_CLASSES@,
        if side == SidebarSide::Left {
            CONTAINER_LEFT_CLASSES@
        } else {
            CONTAINER_RIGHT_CLASSES@
        },
        if variant.padded() {
            CONTAINER_PADDED_CLASSES@
        } else {
            CONTAINER_EDGE_CLASSES@
        },
        extra,
    ]
}

/// Builds the class attribute of the sidebar's container.
pub fn sidebar_container_class(side: SidebarSide, variant: SidebarVariant, extra: &str) -> (classes:
    String)
    ensures
        classes@ == class_list(container_class_parts(side, variant, extra@)),
{
    let placed = match side {
        SidebarSide::Left => CONTAINER_LEFT_CLASSES,
        SidebarSide::Right => CONTAINER_RIGHT_CLASSES,
    };
    let framed = if variant.is_padded() {
        CONTAINER_PADDED_CLASSES
    } else {
        CONTAINER_EDGE_CLASSES
    };
    let parts = [CONTAINER_CLASSES, placed, framed, extra];
    assert(parts_view(parts@) =~= container_class_parts(side, variant, extra@));
    cn(&parts)
}

/// Builds the class attribute of the button that opens and closes the
/// sidebar.
pub fn sidebar_trigger_class(extra: &str) -> (classes: String)
    ensures
        classes@ == class_list(seq![TRIGGER_CLASSES@, extra@]),
{
    let parts = [TRIGGER_CLASSES, extra];
    assert(parts_view(parts@) =~= seq![TRIGGER_CLASSES@, extra@]);
    cn(&parts)
}

/// The parts of a sidebar that differ only in their element, their slot
/// names and their classes.
#[derive(Clone, Copy, Debug, PartialEq, Eq, Structural)]
pub enum SidebarSlot {
    Inset,
    Header,
    Footer,
    Content,
    Group,
    Menu,
    MenuItem,
    GroupLabel,
    MenuSub,
    MenuSubItem,
}

/// The classes of the `Inset` part.
pub const INSET_CLASSES: &'static str = "bg-background relative flex w-full flex-1 flex-col";

/// The classes by which the `Inset` part follows the sidebar's variant.
pub const INSET_VARIANT_CLASSES: &'static str = "md:peer-data-[variant=inset]:m-2 md:peer-data-[variant=inset]:ml-0 md:peer-data-[variant=inset]:rounded-xl md:peer-data-[variant=inset]:shadow-sm md:peer-data-[variant=inset]:peer-data-[state=collapsed]:ml-2";

/// The classes of the `Header` part.
pub const HEADER_CLASSES: &'static str = "flex flex-col gap-2 p-2";

/// The classes of the `Footer` part.
pub const FOOTER_CLASSES: &'static str = "flex flex-col gap-2 p-2";

/// The classes of the `Content` part.
pub const CONTENT_CLASSES: &'static str = "flex min-h-0 flex-1 flex-col gap-2 overflow-auto group-data-[collapsible=icon]:overflow-hidden";

/// The classes of the `Group` part.
pub const GROUP_CLASSES: &'static str = "relative flex w-full min-w-0 flex-col p-2";

/// The classes of the `Menu` part.
pub const MENU_CLASSES: &'static str = "flex w-full min-w-0 flex-col gap-1";

/// The classes of the `MenuItem` part.
pub const MENU_ITEM_CLASSES: &'static str = "group/menu-item relative";

/// The classes of the `GroupLabel` part.
pub const GROUP_LABEL_CLASSES: &'static str = "cn-sidebar-group-label flex shrink-0 items-center outline-hidden [&>svg]:shrink-0";

/// The classes of the `MenuSub` part.
pub const MENU_SUB_CLASSES: &'static str = "cn-sidebar-menu-sub flex min-w-0 flex-col";

/// The classes of the `MenuSubItem` part.
pub const MENU_SUB_ITEM_CLASSES: &'static str = "group/menu-sub-item relative";

impl SidebarSlot {
    /// The value of the part's `data-slot` attribute.
    pub open spec fn slot_text(self) -> Seq<char> {
        match self {
            SidebarSlot::Inset => "sidebar-inset"@,
            SidebarSlot::Header => "sidebar-header"@,
            SidebarSlot::Footer => "sidebar-footer"@,
            SidebarSlot::Content => "sidebar-content"@,
            SidebarSlot::Group => "sidebar-group"@,
            SidebarSlot::Menu => "sidebar-menu"@,
            SidebarSlot::MenuItem => "sidebar-menu-item"@,
            SidebarSlot::GroupLabel => "sidebar-group-label"@,
            SidebarSlot::MenuSub => "sidebar-menu-sub"@,
            SidebarSlot::MenuSubItem => "sidebar-menu-sub-item"@,
        }
    }

    /// The value of the part's `data-sidebar` attribute, where it has one.
    pub open spec fn sidebar_text(self) -> Option<Seq<char>> {
        match self {
            SidebarSlot::Inset => None,
            SidebarSlot::Header => Some("header"@),
            SidebarSlot::Footer => Some("footer"@),
            SidebarSlot::Content => Some("content"@),
            SidebarSlot::Group => Some("group"@),
            SidebarSlot::Menu => Some("menu"@),
            SidebarSlot::MenuItem => Some("menu-item"@),
            SidebarSlot::GroupLabel => Some("group-label"@),
            SidebarSlot::MenuSub => Some("menu-sub"@),
            SidebarSlot::MenuSubItem => Some("menu-sub-item"@),
        }
    }

    /// The classes that the part always has.
    pub open spec fn own_classes(self) -> Seq<Seq<char>> {
        match self {
            SidebarSlot::Inset => seq![INSET_CLASSES@, INSET_VARIANT_CLASSES@],
            SidebarSlot::Header => seq![HEADER_CLASSES@],
            SidebarSlot::Footer => seq![FOOTER_CLASSES@],
            SidebarSlot::Content => seq![CONTENT_CLASSES@],
            SidebarSlot::Group => seq![GROUP_CLASSES@],
            SidebarSlot::Menu => seq![MENU_CLASSES@],
            SidebarSlot::MenuItem => seq![MENU_ITEM_CLASSES@],
            SidebarSlot::GroupLabel => seq![GROUP_LABEL_CLASSES@],
            SidebarSlot::MenuSub => seq![MENU_SUB_CLASSES@],
            SidebarSlot::MenuSubItem => seq![MENU_SUB_ITEM_CLASSES@],
        }
    }

    /// The value of the part's `data-slot` attribute.
    pub fn data_slot(self) -> (text: &'static str)
        ensures
            text@ == self.slot_text(),
    {
        match self {
            SidebarSlot::Inset => "sidebar-inset",
            SidebarSlot::Header => "sidebar-header",
            SidebarSlot::Footer => "sidebar-footer",
            SidebarSlot::Content => "sidebar-content",
            SidebarSlot::Group => "sidebar-group",
            SidebarSlot::Menu => "sidebar-menu",
            SidebarSlot::MenuItem => "sidebar-menu-item",
            SidebarSlot::GroupLabel => "sidebar-group-label",
            SidebarSlot::MenuSub => "sidebar-menu-sub",
            SidebarSlot::MenuSubItem => "sidebar-menu-sub-item",
        }
    }

    /// The value of the part's `data-sidebar` attribute, where it has one.
    pub fn data_sidebar(self) -> (text: Option<&'static str>)
        ensures
            match text {
                Some(name) => self.sidebar_text() == Some(name@),
                None => self.sidebar_text() is None,
            },
    {
        match self {
            SidebarSlot::Inset => None,
            SidebarSlot::Header => Some("header"),
            SidebarSlot::Footer => Some("footer"),
            SidebarSlot::Content => Some("content"),
            SidebarSlot::Group => Some("group"),
            SidebarSlot::Menu => Some("menu"),
            SidebarSlot::MenuItem => Some("menu-item"),
            SidebarSlot::GroupLabel => Some("group-label"),
            SidebarSlot::MenuSub => Some("menu-sub"),
            SidebarSlot::MenuSubItem => Some("menu-sub-item"),
        }
    }

    /// Builds the part's class attribute: its own classes, then the
    /// caller's.
    pub fn class(self, extra: &str) -> (classes: String)
        ensures
            classes@ == class_list(self.own_classes().push(extra@)),
    {
        match self {
            SidebarSlot::Inset => {
                let parts = [INSET_CLASSES, INSET_VARIANT_CLASSES, extra];
                assert(parts_view(parts@) =~= self.own_classes().push(extra@));
                cn(&parts)
            },
            SidebarSlot::Header => {
                let parts = [HEADER_CLASSES, extra];
                assert(parts_view(parts@) =~= self.own_classes().push(extra@));
                cn(&parts)
            },
            SidebarSlot::Footer => {
                let parts = [FOOTER_CLASSES, extra];
                assert(parts_view(parts@) =~= self.own_classes().push(extra@));
                cn(&parts)
            },
            SidebarSlot::Content => {
                let parts = [CONTENT_CLASSES, extra];
                assert(parts_view(parts@) =~= self.own_classes().push(extra@));
                cn(&parts)
            },
            SidebarSlot::Group => {
                let parts = [GROUP_CLASSES, extra];
                assert(parts_view(parts@) =~= self.own_classes().push(extra@));
                cn(&parts)
            },
            SidebarSlot::Menu => {
                let parts = [MENU_CLASSES, extra];
                assert(parts_view(parts@) =~= self.own_classes().push(extra@));
                cn(&parts)
            },
            SidebarSlot::MenuItem => {
                let parts = [MENU_ITEM_CLASSES, extra];
                assert(parts_view(parts@) =~= self.own_classes().push(extra@));
                cn(&parts)
            },
            SidebarSlot::GroupLabel => {
                let parts = [GROUP_LABEL_CLASSES, extra];
                assert(parts_view(parts@) =~= self.own_classes().push(extra@));
                cn(&parts)
            },
            SidebarSlot::MenuSub => {
                let parts = [MENU_SUB_CLASSES, extra];
                assert(parts_view(parts@) =~= self.own_classes().push(extra@));
                cn(&parts)
            },
            SidebarSlot::MenuSubItem => {
                let parts = [MENU_SUB_ITEM_CLASSES, extra];
                assert(parts_view(parts@) =~= self.own_classes().push(extra@));
                cn(&parts)
            },
        }
    }
}

/// The looks a menu button can have.
#[derive(Clone, Copy, Debug, PartialEq, Eq, Structural)]
pub enum SidebarMenuButtonVariant {
    Default,
    Outline,
    /// No background until hovered.
    Transparent,
    Subtle,
}

impl Default for SidebarMenuButtonVariant {
    fn default() -> (variant: SidebarMenuButtonVariant)
        ensures
            variant == SidebarMenuButtonVariant::Default,
    {
        SidebarMenuButtonVariant::Default
    }
}

/// The sizes a menu button can have.
#[derive(Clone, Copy, Debug, PartialEq, Eq, Structural)]
pub enum SidebarMenuButtonSize {
    Default,
    Sm,
    Lg,
    Icon,
}

impl Default for SidebarMenuButtonSize {
    fn default() -> (size: SidebarMenuButtonSize)
        ensures
            size == SidebarMenuButtonSize::Default,
    {
        SidebarMenuButtonSize::Default
    }
}

/// The classes that every menu button has.
pub const MENU_BUTTON_CLASSES: &'static str = "inline-flex items-center justify-center whitespace-nowrap rounded-md text-sm font-medium ring-offset-background transition-colors focus-visible:outline-none focus-visible:ring-2 focus-visible:ring-ring focus-visible:ring-offset-2 disabled:pointer-events-none disabled:opacity-50 gap-2";

/// The classes of a menu button of the `Default` variant.
pub const MENU_BUTTON_DEFAULT: &'static str = "bg-transparent hover:bg-accent hover:text-accent-foreground";

/// The classes of a menu button of the `Outline` variant.
pub const MENU_BUTTON_OUTLINE: &'static str = "border border-input bg-transparent hover:bg-accent hover:text-accent-foreground";

/// The classes of a menu button of the `Transparent` variant.
pub const MENU_BUTTON_TRANSPARENT: &'static str = "hover:bg-accent hover:text-accent-foreground";

/// The classes of a menu button of the `Subtle` variant.
pub const MENU_BUTTON_SUBTLE: &'static str = "text-muted-foreground hover:text-foreground";

/// The classes of a menu button of the `Default` size.
pub const MENU_BUTTON_SIZE_DEFAULT: &'static str = "h-9 px-3 py-2";

/// The classes of a menu button of the `Sm` size.
pub const MENU_BUTTON_SIZE_SM: &'static str = "h-8 px-2 text-xs";

/// The classes of a menu button of the `Lg` size.
pub const MENU_BUTTON_SIZE_LG: &'static str = "h-10 px-4";

/// The classes of a menu button of the `Icon` size.
pub const MENU_BUTTON_SIZE_ICON: &'static str = "h-9 w-9";

/// The classes that mark the button of the current page.
pub const ACTIVE_CLASSES: &'static str = "bg-accent text-accent-foreground";

/// The value of the `data-slot` attribute of a menu button.
pub const MENU_BUTTON_SLOT: &'static str = "sidebar-menu-button";

/// The value of the `data-sidebar` attribute of a menu button.
pub const MENU_BUTTON_NAME: &'static str = "menu-button";

impl SidebarMenuButtonVariant {
    /// The classes that the variant stands for.
    pub open spec fn class_text(self) -> Seq<char> {
        match self {
            SidebarMenuButtonVariant::Default => MENU_BUTTON_DEFAULT@,
            SidebarMenuButtonVariant::Outline => MENU_BUTTON_OUTLINE@,
            SidebarMenuButtonVariant::Transparent => MENU_BUTTON_TRANSPARENT@,
            SidebarMenuButtonVariant::Subtle => MENU_BUTTON_SUBTLE@,
        }
    }

    /// The classes that the variant stands for.
    pub fn classes(self) -> (classes: &'static str)
        ensures
            classes@ == self.class_text(),
    {
        match self {
            SidebarMenuButtonVariant::Default => MENU_BUTTON_DEFAULT,
            SidebarMenuButtonVariant::Outline => MENU_BUTTON_OUTLINE,
            SidebarMenuButtonVariant::Transparent => MENU_BUTTON_TRANSPARENT,
            SidebarMenuButtonVariant::Subtle => MENU_BUTTON_SUBTLE,
        }
    }
}

impl SidebarMenuButtonSize {
    /// The classes that the size stands for.
    pub open spec fn class_text(self) -> Seq<char> {
        match self {
            SidebarMenuButtonSize::Default => MENU_BUTTON_SIZE_DEFAULT@,
            SidebarMenuButtonSize::Sm => MENU_BUTTON_SIZE_SM@,
            SidebarMenuButtonSize::Lg => MENU_BUTTON_SIZE_LG@,
            SidebarMenuButtonSize::Icon => MENU_BUTTON_SIZE_ICON@,
        }
    }

    /// The value of the `data-size` attribute: the size's name in lower
    /// case.
    pub open spec fn text(self) -> Seq<char> {
        match self {
            SidebarMenuButtonSize::Default => "default"@,
            SidebarMenuButtonSize::Sm => "sm"@,
            SidebarMenuButtonSize::Lg => "lg"@,
            SidebarMenuButtonSize::Icon => "icon"@,
        }
    }

    /// The classes that the size stands for.
    pub fn classes(self) -> (classes: &'static str)
        ensures
            classes@ == self.class_text(),
    {
        match self {
            SidebarMenuButtonSize::Default => MENU_BUTTON_SIZE_DEFAULT,
            SidebarMenuButtonSize::Sm => MENU_BUTTON_SIZE_SM,
            SidebarMenuButtonSize::Lg => MENU_BUTTON_SIZE_LG,
            SidebarMenuButtonSize::Icon => MENU_BUTTON_SIZE_ICON,
        }
    }

    /// The value of the `data-size` attribute.
    pub fn data_size(self) -> (text: &'static str)
        ensures
            text@ == self.text(),
    {
        match self {
            SidebarMenuButtonSize::Default => "default",
            SidebarMenuButtonSize::Sm => "sm",
            SidebarMenuButtonSize::Lg => "lg",
            SidebarMenuButtonSize::Icon => "icon",
        }
    }
}

/// The classes that mark an active button, and nothing for one that is not
/// active.
pub open spec fn active_class_text(is_active: bool) -> Seq<char> {
    if is_active {
        ACTIVE_CLASSES@
    } else {
        Seq::empty()
    }
}

/// The classes that mark an active button, and nothing for one that is not
/// active.
pub fn active_classes(is_active: bool) -> (classes: &'static str)
    ensures
        classes@ == active_class_text(is_active),
{
    if is_active {
        ACTIVE_CLASSES
    } else {
        proof {
            reveal_strlit("");
        }
        assert(""@ =~= Seq::<char>::empty());
        ""
    }
}

/// The value of the `data-active` attribute.
pub fn data_active(is_active: bool) -> (text: &'static str)
    ensures
        text@ == if is_active {
            "true"@
        } else {
            "false"@
        },
{
    if is_active {
        "true"
    } else {
        "false"
    }
}

/// The parts of a menu button's class attribute.
pub open spec fn menu_button_class_parts(
    variant: SidebarMenuButtonVariant,
    size: SidebarMenuButtonSize,
    is_active: bool,
    extra: Seq<char>,
) -> Seq<Seq<char>> {
    seq![
        MENU_BUTTON_CLASSES@,
        variant.class_text(),
        size.class_text(),
        active_class_text(is_active),
        extra,
    ]
}

/// Builds the class attribute of a menu button.
pub fn sidebar_menu_button_class(
    variant: SidebarMenuButtonVariant,
    size: SidebarMenuButtonSize,
    is_active: bool,
    extra: &str,
) -> (classes: String)
    ensures
        classes@ == class_list(menu_button_class_parts(variant, size, is_active, extra@)),
{
    let parts = [
        MENU_BUTTON_CLASSES,
        variant.classes(),
        size.classes(),
        active_classes(is_active),
        extra,
    ];
    assert(parts_view(parts@) =~= menu_button_class_parts(variant, size, is_active, extra@));
    cn(&parts)
}

/// The classes that every button of a nested menu has.
pub const SUB_BUTTON_CLASSES: &'static str = "cn-sidebar-menu-sub-button flex min-w-0 -translate-x-px items-center overflow-hidden outline-hidden group-data-[collapsible=icon]:hidden disabled:pointer-events-none disabled:opacity-50 aria-disabled:pointer-events-none aria-disabled:opacity-50 [&>span:last-child]:truncate [&>svg]:shrink-0";

/// The text size of a small button of a nested menu.
pub const SUB_BUTTON_SMALL: &'static str = "text-xs";

/// The text size of any other button of a nested menu.
pub const SUB_BUTTON_MEDIUM: &'static str = "text-sm";

/// The value of the `data-slot` attribute of a button of a nested menu.
pub const SUB_BUTTON_SLOT: &'static str = "sidebar-menu-sub-button";

/// The value of the `data-sidebar` attribute of a button of a nested menu.
pub const SUB_BUTTON_NAME: &'static str = "menu-sub-button";

/// The text size of a button of a nested menu: small for the size `sm`,
/// medium for `md` and for anything else.
pub open spec fn sub_button_size_text(size: Seq<char>) -> Seq<char> {
    if size == "sm"@ {
        SUB_BUTTON_SMALL@
    } else {
        SUB_BUTTON_MEDIUM@
    }
}

/// The text size of a button of a nested menu.
pub fn sub_button_size_class(size: &str) -> (classes: &'static str)
    ensures
        classes@ == sub_button_size_text(size@),
{
    if str_eq(size, "sm") {
        SUB_BUTTON_SMALL
    } else {
        SUB_BUTTON_MEDIUM
    }
}

/// The parts of the class attribute of a button of a nested menu.
pub open spec fn sub_button_class_parts(size: Seq<char>, is_active: bool, extra: Seq<char>) -> Seq<
    Seq<char>,
> {
    seq![SUB_BUTTON_CLASSES@, sub_button_size_text(size), active_class_text(is_active), extra]
}

/// Builds the class attribute of a button of a nested menu.
pub fn sidebar_menu_sub_button_class(size: &str, is_active: bool, extra: &str) -> (classes:
    String)
    ensures
        classes@ == class_list(sub_button_class_parts(size@, is_active, extra@)),
{
    let parts = [
        SUB_BUTTON_CLASSES,
        sub_button_size_class(size),
        active_classes(is_active),
        extra,
    ];
    assert(parts_view(parts@) =~= sub_button_class_parts(size@, is_active, extra@));
    cn(&parts)
}

} // verus!
