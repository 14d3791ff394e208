//! The component catalogue's navigation: its tree of entries and the rules
//! by which the tree is shown.

use vstd::prelude::*;
use vstd::string::*;
use crate::components::base::icons::sized_class_text;
pub use crate::components::base::icons::Icon;
use crate::utils::class_names::parts_view;
use crate::utils::text::str_eq;

verus! {

/// One entry of the navigation tree: a link, or a menu of further entries.
#[derive(Debug, PartialEq, Eq)]
pub struct NavItem {
    pub title: &'static str,
    pub icon: Option<Icon>,
    pub url: Option<&'static str>,
    /// The permissions that a user needs, all of them, to see the entry.
    pub permissions: Vec<&'static str>,
    pub items: Option<Vec<NavItem>>,
}

/// A labelled group of entries.
#[derive(Debug, PartialEq, Eq)]
pub struct NavGroup {
    pub label: &'static str,
    pub items: Vec<NavItem>,
}

/// The navigation tree.
#[derive(Debug, PartialEq, Eq)]
pub struct SidebarNavConfig {
    pub groups: Vec<NavGroup>,
}

/// The outline of an optional icon.
pub open spec fn icon_path(icon: Option<Icon>) -> Option<Seq<char>> {
    match icon {
        Some(given) => Some(given.path@),
        None => None,
    }
}

/// The same optional text as a mathematical value.
pub open spec fn url_view(url: Option<&'static str>) -> Option<Seq<char>> {
    match url {
        Some(text) => Some(text@),
        None => None,
    }
}

/// Whether an entry asks for the empty permission and no other, which every
/// user of the catalogue has.
pub open spec fn open_to_all(item: NavItem) -> bool {
    item.permissions@.len() == 1 && item.permissions@[0]@.len() == 0
}

/// Whether an entry is a link with the given title, icon and address, open
/// to all.
pub open spec fn is_link(
    item: NavItem,
    title: Seq<char>,
    icon: Option<Seq<char>>,
    url: Seq<char>,
) -> bool {
    &&& item.title@ == title
    &&& icon_path(item.icon) == icon
    &&& url_view(item.url) == Some(url)
    &&& open_to_all(item)
    &&& item.items is None
}

/// Whether an entry is a menu with the given title and icon, open to all,
/// that has no address of its own and holds one plain link for each of the
/// given pages, in their order. A page is a title and an address.
pub open spec fn is_menu(
    item: NavItem,
    title: Seq<char>,
    icon: Option<Seq<char>>,
    pages: Seq<(Seq<char>, Seq<char>)>,
) -> bool {
    &&& item.title@ == title
    &&& icon_path(item.icon) == icon
    &&& item.url is None
    &&& open_to_all(item)
    &&& item.items matches Some(children) && children@.len() == pages.len() && forall|i: int|
        0 <= i < pages.len() ==> is_link(#[trigger] children@[i], pages[i].0, None, pages[i].1)
}

/// The pages of the component catalogue, each with its title and address,
/// in the order of the menu.
pub open spec fn component_pages() -> Seq<(Seq<char>, Seq<char>)> {
    seq![
        ("Accordion"@, "/components/accordion"@),
        ("Alert"@, "/components/alert"@),
        ("Alert Dialog"@, "/components/alert-dialog"@),
        ("Aspect Ratio"@, "/components/aspect-ratio"@),
        ("Avatar"@, "/components/avatar"@),
        ("Badge"@, "/components/badge"@),
        ("Breadcrumb"@, "/components/breadcrumb"@),
        ("Button"@, "/components/button"@),
        ("Card"@, "/components/card"@),
        ("Checkbox"@, "/components/checkbox"@),
        ("Collapsible"@, "/components/collapsible"@),
        ("Dialog"@, "/components/dialog"@),
        ("Drawer"@, "/components/drawer"@),
        ("Dropdown Menu"@, "/components/dropdown-menu"@),
        ("Hover Card"@, "/components/hover-card"@),
        ("Input"@, "/components/input"@),
        ("Label"@, "/components/label"@),
        ("Pagination"@, "/components/pagination"@),
        ("Popover"@, "/components/popover"@),
        ("Progress"@, "/components/progress"@),
        ("Skeleton"@, "/components/skeleton"@),
        ("Radio Group"@, "/components/radio-group"@),
        ("Scroll Area"@, "/components/scroll-area"@),
        ("Select List"@, "/components/select-list"@),
        ("Separator"@, "/components/separator"@),
        ("Slider"@, "/components/slider"@),
        ("Switch"@, "/components/switch"@),
        ("Table"@, "/components/table"@),
        ("Tabs"@, "/components/tabs"@),
        ("Textarea"@, "/components/textarea"@),
        ("Toast"@, "/components/toast"@),
        ("Toggle"@, "/components/toggle"@),
        ("Toggle Group"@, "/components/toggle-group"@),
        ("Tooltip"@, "/components/tooltip"@),
    ]
}

/// The permissions of an entry that is open to all.
fn open_permissions() -> (permissions: Vec<&'static str>)
    ensures
        permissions@.len() == 1,
        permissions@[0]@.len() == 0,
{
    proof {
        reveal_strlit("");
    }
    let mut permissions: Vec<&'static str> = Vec::new();
    permissions.push("");
    permissions
}

/// A link that is open to all.
fn link(title: &'static str, icon: Option<Icon>, url: &'static str) -> (item: NavItem)
    ensures
        is_link(item, title@, icon_path(icon), url@),
{
    NavItem { title, icon, url: Some(url), permissions: open_permissions(), items: None }
}

/// The links to the pages of the component catalogue.
fn component_links() -> (links: Vec<NavItem>)
    ensures
        links@.len() == component_pages().len(),
        forall|i: int|
            0 <= i < links@.len() ==> is_link(
                #[trigger] links@[i],
                component_pages()[i].0,
                None,
                component_pages()[i].1,
            ),
{
    let mut links: Vec<NavItem> = Vec::new();
    links.push(link("Accordion", None, "/components/accordion"));
    links.push(link("Alert", None, "/components/alert"));
    links.push(link("Alert Dialog", None, "/components/alert-dialog"));
    links.push(link("Aspect Ratio", None, "/components/aspect-ratio"));
    links.push(link("Avatar", None, "/components/avatar"));
    links.push(link("Badge", None, "/components/badge"));
    links.push(link("Breadcrumb", None, "/components/breadcrumb"));
    links.push(link("Button", None, "/components/button"));
    links.push(link("Card", None, "/components/card"));
    links.push(link("Checkbox", None, "/components/checkbox"));
    links.push(link("Collapsible", None, "/components/collapsible"));
    links.push(link("Dialog", None, "/components/dialog"));
    links.push(link("Drawer", None, "/components/drawer"));
    links.push(link("Dropdown Menu", None, "/components/dropdown-menu"));
    links.push(link("Hover Card", None, "/components/hover-card"));
    links.push(link("Input", None, "/components/input"));
    links.push(link("Label", None, "/components/label"));
    links.push(link("Pagination", None, "/components/pagination"));
    links.push(link("Popover", None, "/components/popover"));
    links.push(link("Progress", None, "/components/progress"));
    links.push(link("Skeleton", None, "/components/skeleton"));
    links.push(link("Radio Group", None, "/components/radio-group"));
    links.push(link("Scroll Area", None, "/components/scroll-area"));
    links.push(link("Select List", None, "/components/select-list"));
    links.push(link("Separator", None, "/components/separator"));
    links.push(link("Slider", None, "/components/slider"));
    links.push(link("Switch", None, "/components/switch"));
    links.push(link("Table", None, "/components/table"));
    links.push(link("Tabs", None, "/components/tabs"));
    links.push(link("Textarea", None, "/components/textarea"));
    links.push(link("Toast", None, "/components/toast"));
    links.push(link("Toggle", None, "/components/toggle"));
    links.push(link("Toggle Group", None, "/components/toggle-group"));
    links.push(link("Tooltip", None, "/components/tooltip"));
    links
}

impl SidebarNavConfig {
    /// The navigation tree of the component catalogue: one group without a
    /// label that holds the links to the home page and to the installation
    /// guide, and the menu of the components.
    pub fn new() -> (config: SidebarNavConfig)
        ensures
            config.groups@.len() == 1,
            config.groups@[0].label@.len() == 0,
            config.groups@[0].items@.len() == 3,
            is_link(config.groups@[0].items@[0], "Home"@, Some(Icon::HOME@), "/"@),
            is_link(config.groups@[0].items@[1], "Installation"@, Some(Icon::SQUARE_LIBRARY@), "/installation"@),
            is_menu(config.groups@[0].items@[2], "Components"@, Some(Icon::BINOCULARS@), component_pages()),
    {
        proof {
            reveal_strlit("");
        }
        let mut items: Vec<NavItem> = Vec::new();
        items.push(link("Home", Some(Icon::new(Icon::HOME)), "/"));
        items.push(link("Installation", Some(Icon::new(Icon::SQUARE_LIBRARY)), "/installation"));
        items.push(
            NavItem {
                title: "Components",
                icon: Some(Icon::new(Icon::BINOCULARS)),
                url: None,
                permissions: open_permissions(),
                items: Some(component_links()),
            },
        );
        let mut groups: Vec<NavGroup> = Vec::new();
        groups.push(NavGroup { label: "", items });
        SidebarNavConfig { groups }
    }
}

/// The path of the page that is shown.
pub const ACTIVE_PATH: &'static str = "/";

/// The class that hides a group while the sidebar is a strip of icons.
pub const HIDDEN_IN_STRIP: &'static str = "group-data-[collapsible=icon]:hidden";

/// The size class of an icon of the navigation.
pub const NAV_ICON_SIZE: &'static str = "size-4";

/// Builds the class attribute of an icon of the navigation: the size class,
/// a space, and the caller's classes.
pub fn nav_icon_class(extra: &str) -> (classes: String)
    ensures
        classes@ == sized_class_text(NAV_ICON_SIZE@, extra@),
{
    let mut classes = String::from_str(NAV_ICON_SIZE);
    classes.append(" ");
    classes.append(extra);
    classes
}

/// The permissions of a user of the catalogue: the empty permission alone.
pub fn user_permissions() -> (granted: Vec<&'static str>)
    ensures
        granted@.len() == 1,
        granted@[0]@.len() == 0,
{
    open_permissions()
}

/// Whether an address is that of the page that is shown. An entry without
/// an address is never active.
pub open spec fn leads_to(url: Option<&'static str>, active_path: Seq<char>) -> bool {
    url_view(url) == Some(active_path)
}

/// Whether an entry's address is that of the page that is shown.
pub fn is_active(url: Option<&'static str>, active_path: &str) -> (active: bool)
    ensures
        active == leads_to(url, active_path@),
{
    match url {
        Some(address) => str_eq(address, active_path),
        None => false,
    }
}

/// Whether one of the entries leads to the page that is shown.
pub open spec fn any_leads_to(items: Seq<NavItem>, active_path: Seq<char>) -> bool {
    exists|i: int| 0 <= i < items.len() && leads_to((#[trigger] items[i]).url, active_path)
}

/// Whether one of a menu's entries leads to the page that is shown.
pub fn is_active_parent(items: &Vec<NavItem>, active_path: &str) -> (active: bool)
    ensures
        active == any_leads_to(items@, active_path@),
{
    let mut i: usize = 0;
    while i < items.len()
        invariant
            i <= items@.len(),
            forall|k: int| 0 <= k < i ==> !leads_to((#[trigger] items@[k]).url, active_path@),
        decreases items@.len() - i,
    {
        if is_active(items[i].url, active_path) {
            return true;
        }
        i += 1;
    }
    false
}

/// Whether a menu is shown open at first: a menu is, if one of its entries
/// leads to the page that is shown; a link never is.
pub fn opens_by_default(item: &NavItem, active_path: &str) -> (open: bool)
    ensures
        open == match item.items {
            Some(children) => any_leads_to(children@, active_path@),
            None => false,
        },
{
    match &item.items {
        Some(children) => is_active_parent(children, active_path),
        None => false,
    }
}

/// Whether every permission that is required is among those granted.
pub open spec fn permits(required: Seq<Seq<char>>, granted: Seq<Seq<char>>) -> bool {
    forall|i: int| 0 <= i < required.len() ==> granted.contains(#[trigger] required[i])
}

/// Whether a permission is among those granted.
fn is_granted(wanted: &str, granted: &[&str]) -> (found: bool)
    ensures
        found == parts_view(granted@).contains(wanted@),
{
    let mut j: usize = 0;
    while j < granted.len()
        invariant
            j <= granted@.len(),
            forall|k: int| 0 <= k < j ==> #[trigger] parts_view(granted@)[k] != wanted@,
        decreases granted@.len() - j,
    {
        if str_eq(granted[j], wanted) {
            assert(parts_view(granted@)[j as int] == wanted@);
            return true;
        }
        j += 1;
    }
    false
}

/// Whether a user with the given permissions has every permission that is
/// required.
pub fn has_permission(required: &[&str], user_permissions: &[&str]) -> (allowed: bool)
    ensures
        allowed == permits(parts_view(required@), parts_view(user_permissions@)),
{
    let mut i: usize = 0;
    while i < required.len()
        invariant
            i <= required@.len(),
            forall|k: int|
                0 <= k < i ==> parts_view(user_permissions@).contains(
                    #[trigger] parts_view(required@)[k],
                ),
        decreases required@.len() - i,
    {
        if !is_granted(required[i], user_permissions) {
            assert(!parts_view(user_permissions@).contains(parts_view(required@)[i as int]));
            return false;
        }
        i += 1;
    }
    true
}

/// The class of a group by its place in the tree: the second group is
/// hidden while the sidebar is a strip of icons, every other group has no
/// class of its own.
pub fn group_class(group_index: usize) -> (classes: &'static str)
    ensures
        classes@ == if group_index == 1 {
            HIDDEN_IN_STRIP@
        } else {
            Seq::<char>::empty()
        },
{
    if group_index == 1 {
        HIDDEN_IN_STRIP
    } else {
        proof {
            reveal_strlit("");
        }
        assert(""@ =~= Seq::<char>::empty());
        ""
    }
}

/// The test that a user with the given permissions may see an entry.
pub open spec fn visible_to(granted: Seq<Seq<char>>) -> spec_fn(NavItem) -> bool {
    |item: NavItem| permits(parts_view(item.permissions@), granted)
}

/// The entries that a user with the given permissions may see, in order.
pub fn visible_items(items: Vec<NavItem>, user_permissions: &[&str]) -> (shown: Vec<NavItem>)
    ensures
        shown@ == items@.filter(visible_to(parts_view(user_permissions@))),
{
    let ghost all = items@;
    let ghost granted = parts_view(user_permissions@);
    let mut shown: Vec<NavItem> = Vec::new();
    proof {
        reveal(Seq::filter);
    }
    for item in it: items
        invariant
            it.seq() == all,
            granted == parts_view(user_permissions@),
            shown@ == all.take(it.index() as int).filter(visible_to(granted)),
    {
        proof {
            reveal(Seq::filter);
            let next = all.take(it.index() + 1);
            assert(next.drop_last() =~= all.take(it.index() as int));
            assert(next.last() == item);
        }
        if has_permission(item.permissions.as_slice(), user_permissions) {
            shown.push(item);
        }
    }
    proof {
        assert(all.take(all.len() as int) =~= all);
    }
    shown
}

} // verus!
