//! The application's navigation menu: its entries and their groups.

use vstd::prelude::*;
use crate::utils::text::str_eq;

verus! {

/// One entry of the navigation menu.
#[derive(Clone, Copy, Debug, PartialEq, Eq)]
pub struct NavMenuItem {
    pub id: &'static str,
    pub label: &'static str,
    /// The path data of the entry's icon.
    pub icon: &'static str,
    pub href: &'static str,
    pub badge: Option<&'static str>,
    pub group: &'static str,
}

/// The group of the entries that lead to the application's pages.
pub const MAIN_GROUP: &'static str = "main";

/// The group of the entries that lead to the user's own pages.
pub const SETTINGS_GROUP: &'static str = "settings";

/// The icon of the `dashboard` entry.
pub const DASHBOARD_ICON: &'static str = "M3 12l2-2m0 0l7-7 7 7M5 10v10a1 1 0 001 1h3m10-11l2 2m-2-2v10a1 1 0 01-1 1h-3m-6 0a1 1 0 001-1v-4a1 1 0 011-1h2a1 1 0 011 1v4a1 1 0 001 1m-6 0h6";

/// The icon of the `projects` entry.
pub const PROJECTS_ICON: &'static str = "M19 11H5m14 0a2 2 0 012 2v6a2 2 0 01-2 2H5a2 2 0 01-2-2v-6a2 2 0 012-2m14 0V9a2 2 0 00-2-2M5 11V9a2 2 0 012-2m0 0V5a2 2 0 012-2h6a2 2 0 012 2v2M7 7h10";

/// The icon of the `tasks` entry.
pub const TASKS_ICON: &'static str = "M9 5H7a2 2 0 00-2 2v12a2 2 0 002 2h10a2 2 0 002-2V7a2 2 0 00-2-2h-2M9 5a2 2 0 002 2h2a2 2 0 002-2M9 5a2 2 0 012-2h2a2 2 0 012 2m-6 9l2 2 4-4";

/// The icon of the `calendar` entry.
pub const CALENDAR_ICON: &'static str = "M8 7V3m8 4V3m-9 8h10M5 21h14a2 2 0 002-2V7a2 2 0 00-2-2H5a2 2 0 00-2 2v12a2 2 0 002 2z";

/// The icon of the `profile` entry.
pub const PROFILE_ICON: &'static str = "M16 7a4 4 0 11-8 0 4 4 0 018 0zM12 14a7 7 0 00-7 7h14a7 7 0 00-7-7z";

/// The icon of the `settings` entry.
pub const SETTINGS_ICON: &'static str = "M10.325 4.317c.426-1.756 2.924-1.756 3.35 0a1.724 1.724 0 002.573 1.066c1.543-.94 3.31.826 2.37 2.37a1.724 1.724 0 001.065 2.572c1.756.426 1.756 2.924 0 3.35a1.724 1.724 0 00-1.066 2.573c.94 1.543-.826 3.31-2.37 2.37a1.724 1.724 0 00-2.572 1.065c-.426 1.756-2.924 1.756-3.35 0a1.724 1.724 0 00-2.573-1.066c-1.543.94-3.31-.826-2.37-2.37a1.724 1.724 0 00-1.065-2.572c-1.756-.426-1.756-2.924 0-3.35a1.724 1.724 0 001.066-2.573c-.94-1.543.826-3.31 2.37-2.37.996.608 2.296.07 2.572-1.065z";

/// The icon of the `help` entry.
pub const HELP_ICON: &'static str = "M18.364 5.636l-3.536 3.536m0 5.656l3.536 3.536M9.172 9.172L5.636 5.636m3.536 9.192l-3.536 3.536M21 12a9 9 0 11-18 0 9 9 0 0118 0zm-5 0a4 4 0 11-8 0 4 4 0 018 0z";

/// The same optional text as a mathematical value.
pub open spec fn badge_view(badge: Option<&'static str>) -> Option<Seq<char>> {
    match badge {
        Some(text) => Some(text@),
        None => None,
    }
}

/// Whether an entry has the given identifier, label, icon, address, badge
/// and group.
pub open spec fn is_entry(
    item: NavMenuItem,
    id: Seq<char>,
    label: Seq<char>,
    icon: Seq<char>,
    href: Seq<char>,
    badge: Option<Seq<char>>,
    group: Seq<char>,
) -> bool {
    &&& item.id@ == id
    &&& item.label@ == label
    &&& item.icon@ == icon
    &&& item.href@ == href
    &&& badge_view(item.badge) == badge
    &&& item.group@ == group
}

/// The entries of the navigation menu, in the order in which they are
/// shown.
pub fn nav_menu_items() -> (menu: Vec<NavMenuItem>)
    ensures
        menu@.len() == 7,
        is_entry(menu@[0], "dashboard"@, "Dashboard"@, DASHBOARD_ICON@, "/dashboard"@, None, MAIN_GROUP@),
        is_entry(menu@[1], "projects"@, "Projects"@, PROJECTS_ICON@, "/projects"@, Some("12"@), MAIN_GROUP@),
        is_entry(menu@[2], "tasks"@, "Tasks"@, TASKS_ICON@, "/tasks"@, Some("5"@), MAIN_GROUP@),
        is_entry(menu@[3], "calendar"@, "Calendar"@, CALENDAR_ICON@, "/calendar"@, None, MAIN_GROUP@),
        is_entry(menu@[4], "profile"@, "Profile"@, PROFILE_ICON@, "/profile"@, None, SETTINGS_GROUP@),
        is_entry(menu@[5], "settings"@, "Settings"@, SETTINGS_ICON@, "/settings"@, None, SETTINGS_GROUP@),
        is_entry(menu@[6], "help"@, "Help & Support"@, HELP_ICON@, "/help"@, None, SETTINGS_GROUP@),
{
    let mut menu: Vec<NavMenuItem> = Vec::new();
    menu.push(
        NavMenuItem {
            id: "dashboard",
            label: "Dashboard",
            icon: DASHBOARD_ICON,
            href: "/dashboard",
            badge: None,
            group: MAIN_GROUP,
        },
    );
    menu.push(
        NavMenuItem {
            id: "projects",
            label: "Projects",
            icon: PROJECTS_ICON,
            href: "/projects",
            badge: Some("12"),
            group: MAIN_GROUP,
        },
    );
    menu.push(
        NavMenuItem {
            id: "tasks",
            label: "Tasks",
            icon: TASKS_ICON,
            href: "/tasks",
            badge: Some("5"),
            group: MAIN_GROUP,
        },
    );
    menu.push(
        NavMenuItem {
            id: "calendar",
            label: "Calendar",
            icon: CALENDAR_ICON,
            href: "/calendar",
            badge: None,
            group: MAIN_GROUP,
        },
    );
    menu.push(
        NavMenuItem {
            id: "profile",
            label: "Profile",
            icon: PROFILE_ICON,
            href: "/profile",
            badge: None,
            group: SETTINGS_GROUP,
        },
    );
    menu.push(
        NavMenuItem {
            id: "settings",
            label: "Settings",
            icon: SETTINGS_ICON,
            href: "/settings",
            badge: None,
            group: SETTINGS_GROUP,
        },
    );
    menu.push(
        NavMenuItem {
            id: "help",
            label: "Help & Support",
            icon: HELP_ICON,
            href: "/help",
            badge: None,
            group: SETTINGS_GROUP,
        },
    );
    menu
}

/// The test that an entry belongs to a group.
pub open spec fn in_group(group: Seq<char>) -> spec_fn(NavMenuItem) -> bool {
    |item: NavMenuItem| item.group@ == group
}

/// The entries of a menu that belong to a group, in the menu's order.
pub open spec fn group_of(menu: Seq<NavMenuItem>, group: Seq<char>) -> Seq<NavMenuItem> {
    menu.filter(in_group(group))
}

/// Picks the entries of a menu that belong to a group, in the menu's order.
pub fn items_in_group(menu: &Vec<NavMenuItem>, group: &str) -> (picked: Vec<NavMenuItem>)
    ensures
        picked@ == group_of(menu@, group@),
{
    let mut picked: Vec<NavMenuItem> = Vec::new();
    let mut i: usize = 0;
    proof {
        reveal(Seq::filter);
    }
    while i < menu.len()
        invariant
            i <= menu@.len(),
            picked@ == group_of(menu@.take(i as int), group@),
        decreases menu@.len() - i,
    {
        let item = menu[i];
        if str_eq(item.group, group) {
            picked.push(item);
        }
        proof {
            reveal(Seq::filter);
            let next = menu@.take(i as int + 1);
            assert(next.drop_last() =~= menu@.take(i as int));
            assert(next.last() == item);
        }
        i += 1;
    }
    proof {
        assert(menu@.take(i as int) =~= menu@);
    }
    picked
}

} // verus!
