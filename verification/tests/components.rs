use dashboard::components::base::button::{
    base_classes, button_class, size_classes, variant_classes, ButtonSize, ButtonVariant,
};
use dashboard::components::base::collapsible::{
    collapsible_class, collapsible_content_class, collapsible_trigger_class, CollapsibleContext,
};
use dashboard::components::base::icons::{icon_content, icon_view_class, Icon, IconContent};
use dashboard::components::base::render_as::RenderAs;
use dashboard::components::base::sidebar::{
    active_classes, data_active, data_collapsible, sidebar_container_class, sidebar_gap_class,
    sidebar_menu_button_class, sidebar_menu_sub_button_class, sidebar_trigger_class,
    sidebar_wrapper_class, sub_button_size_class, SidebarCollapsible, SidebarContext,
    SidebarMenuButtonSize, SidebarMenuButtonVariant, SidebarSide, SidebarSlot, SidebarState,
    SidebarVariant,
};

#[test]
fn a_button_has_the_classes_of_its_variant_and_size() {
    assert_eq!(base_classes(), "inline-flex items-center justify-center gap-2 whitespace-nowrap rounded-md text-sm font-medium transition-all disabled:pointer-events-none disabled:opacity-50 [&_svg]:pointer-events-none [&_svg:not([class*='size-'])]:size-4 shrink-0 [&_svg]:shrink-0 outline-none focus-visible:border-ring focus-visible:ring-ring/50 focus-visible:ring-[3px] aria-invalid:ring-destructive/20 dark:aria-invalid:ring-destructive/40 aria-invalid:border-destructive");
    assert_eq!(variant_classes(ButtonVariant::Default), "bg-primary text-primary-foreground shadow-xs hover:bg-primary/90");
    assert_eq!(variant_classes(ButtonVariant::Destructive), "bg-destructive text-white shadow-xs hover:bg-destructive/90 focus-visible:ring-destructive/20 dark:focus-visible:ring-destructive/40 dark:bg-destructive/60");
    assert_eq!(variant_classes(ButtonVariant::Outline), "border bg-background shadow-xs hover:bg-accent hover:text-accent-foreground dark:bg-input/30 dark:border-input dark:hover:bg-input/50");
    assert_eq!(variant_classes(ButtonVariant::Secondary), "bg-secondary text-secondary-foreground shadow-xs hover:bg-secondary/80");
    assert_eq!(variant_classes(ButtonVariant::Transparent), "hover:bg-accent hover:text-accent-foreground dark:hover:bg-accent/50");
    assert_eq!(variant_classes(ButtonVariant::Link), "text-primary underline-offset-4 hover:underline");
    assert_eq!(size_classes(ButtonSize::Default), "h-9 px-4 py-2 has-[>svg]:px-3");
    assert_eq!(size_classes(ButtonSize::Sm), "h-8 rounded-md gap-1.5 px-3 has-[>svg]:px-2.5");
    assert_eq!(size_classes(ButtonSize::Lg), "h-10 rounded-md px-6 has-[>svg]:px-4");
    assert_eq!(size_classes(ButtonSize::Icon), "size-9");
}

#[test]
fn a_button_class_joins_base_variant_size_and_extra() {
    assert_eq!(
        button_class(ButtonVariant::Outline, ButtonSize::Default, ""),
        "inline-flex items-center justify-center gap-2 whitespace-nowrap rounded-md text-sm font-medium transition-all disabled:pointer-events-none disabled:opacity-50 [&_svg]:pointer-events-none [&_svg:not([class*='size-'])]:size-4 shrink-0 [&_svg]:shrink-0 outline-none focus-visible:border-ring focus-visible:ring-ring/50 focus-visible:ring-[3px] aria-invalid:ring-destructive/20 dark:aria-invalid:ring-destructive/40 aria-invalid:border-destructive border bg-background shadow-xs hover:bg-accent hover:text-accent-foreground dark:bg-input/30 dark:border-input dark:hover:bg-input/50 h-9 px-4 py-2 has-[>svg]:px-3"
    );
    assert_eq!(
        button_class(ButtonVariant::Transparent, ButtonSize::Icon, "size-7"),
        "inline-flex items-center justify-center gap-2 whitespace-nowrap rounded-md text-sm font-medium transition-all disabled:pointer-events-none disabled:opacity-50 [&_svg]:pointer-events-none [&_svg:not([class*='size-'])]:size-4 shrink-0 [&_svg]:shrink-0 outline-none focus-visible:border-ring focus-visible:ring-ring/50 focus-visible:ring-[3px] aria-invalid:ring-destructive/20 dark:aria-invalid:ring-destructive/40 aria-invalid:border-destructive hover:bg-accent hover:text-accent-foreground dark:hover:bg-accent/50 size-9 size-7"
    );
    assert_eq!(
        button_class(ButtonVariant::Link, ButtonSize::Lg, "mt-4 w-full"),
        "inline-flex items-center justify-center gap-2 whitespace-nowrap rounded-md text-sm font-medium transition-all disabled:pointer-events-none disabled:opacity-50 [&_svg]:pointer-events-none [&_svg:not([class*='size-'])]:size-4 shrink-0 [&_svg]:shrink-0 outline-none focus-visible:border-ring focus-visible:ring-ring/50 focus-visible:ring-[3px] aria-invalid:ring-destructive/20 dark:aria-invalid:ring-destructive/40 aria-invalid:border-destructive text-primary underline-offset-4 hover:underline h-10 rounded-md px-6 has-[>svg]:px-4 mt-4 w-full"
    );
}

#[test]
fn a_button_class_is_made_of_its_parts_for_every_variant_and_size() {
    let variants = [
        ButtonVariant::Default,
        ButtonVariant::Destructive,
        ButtonVariant::Outline,
        ButtonVariant::Secondary,
        ButtonVariant::Transparent,
        ButtonVariant::Link,
    ];
    let sizes = [ButtonSize::Default, ButtonSize::Sm, ButtonSize::Lg, ButtonSize::Icon];
    for variant in variants {
        for size in sizes {
            let fixed = format!(
                "{} {} {}",
                base_classes(),
                variant_classes(variant),
                size_classes(size)
            );
            assert_eq!(button_class(variant, size, ""), fixed);
            assert_eq!(button_class(variant, size, "x y"), format!("{} x y", fixed));
        }
    }
}

#[test]
fn buttons_default_to_the_default_variant_and_size() {
    assert_eq!(ButtonVariant::default(), ButtonVariant::Default);
    assert_eq!(ButtonSize::default(), ButtonSize::Default);
}

#[test]
fn a_collapsible_opens_and_closes() {
    let mut context = CollapsibleContext::new(false);
    assert!(!context.is_open);
    assert_eq!(context.data_state(), "closed");
    assert!(!context.aria_expanded());
    assert!(context.aria_hidden());
    assert_eq!(context.content_style(), "max-height: 0px; opacity: 0;");
    context.toggle();
    assert!(context.is_open);
    assert_eq!(context.data_state(), "open");
    assert!(context.aria_expanded());
    assert!(!context.aria_hidden());
    assert_eq!(context.content_style(), "max-height: 1000px; opacity: 1;");
    context.toggle();
    assert_eq!(context, CollapsibleContext::new(false));
    assert!(CollapsibleContext::new(true).is_open);
}

#[test]
fn a_part_is_a_control_unless_the_caller_says_otherwise() {
    assert_eq!(RenderAs::default(), RenderAs::Control);
    assert!(RenderAs::Container.is_container());
    assert!(!RenderAs::Control.is_container());
}

#[test]
fn the_parts_of_a_collapsible_have_their_classes() {
    assert_eq!(collapsible_class(""), "w-full");
    assert_eq!(collapsible_class("group/collapsible"), "w-full group/collapsible");
    assert_eq!(collapsible_trigger_class(RenderAs::Container, ""), "data-[state=open]:bg-accent data-[state=open]:text-accent-foreground");
    assert_eq!(collapsible_trigger_class(RenderAs::Container, "px-2"), "data-[state=open]:bg-accent data-[state=open]:text-accent-foreground px-2");
    assert_eq!(collapsible_trigger_class(RenderAs::Control, ""), "flex w-full items-center gap-2 rounded-md text-sm transition-colors hover:bg-accent hover:text-accent-foreground data-[state=open]:bg-accent data-[state=open]:text-accent-foreground");
    assert_eq!(collapsible_trigger_class(RenderAs::Control, "px-2"), "flex w-full items-center gap-2 rounded-md text-sm transition-colors hover:bg-accent hover:text-accent-foreground data-[state=open]:bg-accent data-[state=open]:text-accent-foreground px-2");
    assert_eq!(collapsible_content_class(""), "overflow-hidden transition-all duration-200");
    assert_eq!(collapsible_content_class("pl-4"), "overflow-hidden transition-all duration-200 pl-4");
}

#[test]
fn icons_hold_their_outlines() {
    assert_eq!(Icon::HOME, "M3 12l2-2m0 0l7-7 7 7M5 10v10a1 1 0 001 1h3m10-11l2 2m-2-2v10a1 1 0 01-1 1h-3m-6 0a1 1 0 001-1v-4a1 1 0 011-1h2a1 1 0 011 1v4a1 1 0 001 1m-6 0h6");
    assert_eq!(Icon::CHEVRON_RIGHT, "M9 18l6-6-6-6");
    assert_eq!(Icon::ARROW_RIGHT, "M5 12h14m-7-7l7 7-7 7");
    assert_eq!(Icon::LIST, "M4 6h16M4 10h16M4 14h16M4 18h16");
    assert_eq!(Icon::PACKAGE_MINUS, "M20 7l-8-4-8 4m16 0l-8 4m8-4v10l-8 4m0-10L4 7m8 4v10M4 7v10l8 4m5-11h-6");
    assert_eq!(Icon::new(Icon::USER).path, "M16 7a4 4 0 11-8 0 4 4 0 018 0zM12 14a7 7 0 00-7 7h14a7 7 0 00-7-7z");
}

#[test]
fn an_icon_view_draws_the_icon_before_the_children() {
    let home = Icon::new(Icon::HOME);
    assert_eq!(icon_content(Some(home), true), IconContent::Path(Icon::HOME));
    assert_eq!(icon_content(Some(home), false), IconContent::Path(Icon::HOME));
    assert_eq!(icon_content(None, true), IconContent::Children);
    assert_eq!(icon_content(None, false), IconContent::Empty);
}

#[test]
fn an_icon_view_keeps_the_space_after_its_size() {
    assert_eq!(icon_view_class(""), "size-5 ");
    assert_eq!(icon_view_class("ml-auto"), "size-5 ml-auto");
}

#[test]
fn a_sidebar_of_its_own_follows_its_own_flag() {
    let mut context = SidebarContext::new(true, None, false);
    assert!(context.open());
    assert_eq!(context.state(), SidebarState::Expanded);
    assert_eq!(context.toggle_sidebar(), None);
    assert!(!context.open());
    assert_eq!(context.state(), SidebarState::Collapsed);
    assert_eq!(context.set_open(true), None);
    assert_eq!(context.state(), SidebarState::Expanded);
    context.observe(false);
    assert_eq!(context, SidebarContext { is_open: true, controlled: None, has_setter: false });
}

#[test]
fn a_controlled_sidebar_follows_the_callers_flag() {
    let mut context = SidebarContext::new(true, Some(false), true);
    assert!(!context.open());
    assert_eq!(context.state(), SidebarState::Collapsed);
    assert_eq!(context.toggle_sidebar(), Some(false));
    assert_eq!(context, SidebarContext { is_open: false, controlled: Some(false), has_setter: true });
    assert_eq!(context.toggle_sidebar(), Some(true));
    assert!(context.is_open);
    assert!(!context.open());
    context.observe(true);
    assert!(context.open());
    assert_eq!(context.state(), SidebarState::Expanded);
    assert_eq!(context.set_open(false), Some(false));
    assert!(context.open());
}

#[test]
fn the_sidebar_attributes_are_spelled_in_lower_case() {
    assert_eq!(SidebarState::Expanded.as_str(), "expanded");
    assert_eq!(SidebarState::Collapsed.as_str(), "collapsed");
    assert_eq!(SidebarSide::Left.as_str(), "left");
    assert_eq!(SidebarSide::Right.as_str(), "right");
    assert_eq!(SidebarVariant::Sidebar.as_str(), "sidebar");
    assert_eq!(SidebarVariant::Floating.as_str(), "floating");
    assert_eq!(SidebarVariant::Inset.as_str(), "inset");
    assert_eq!(SidebarCollapsible::Offcanvas.as_str(), "offcanvas");
    assert_eq!(SidebarCollapsible::Icon.as_str(), "icon");
    assert_eq!(SidebarCollapsible::Fixed.as_str(), "none");
    assert_eq!(SidebarMenuButtonSize::Default.data_size(), "default");
    assert_eq!(SidebarMenuButtonSize::Sm.data_size(), "sm");
    assert_eq!(SidebarMenuButtonSize::Lg.data_size(), "lg");
    assert_eq!(SidebarMenuButtonSize::Icon.data_size(), "icon");
    assert_eq!(data_active(true), "true");
    assert_eq!(data_active(false), "false");
}

#[test]
fn the_way_of_collapsing_shows_only_while_collapsed() {
    assert_eq!(data_collapsible(SidebarState::Collapsed, SidebarCollapsible::Icon), "icon");
    assert_eq!(data_collapsible(SidebarState::Collapsed, SidebarCollapsible::Offcanvas), "offcanvas");
    assert_eq!(data_collapsible(SidebarState::Collapsed, SidebarCollapsible::Fixed), "none");
    assert_eq!(data_collapsible(SidebarState::Expanded, SidebarCollapsible::Icon), "");
    assert_eq!(data_collapsible(SidebarState::Expanded, SidebarCollapsible::Offcanvas), "");
}

#[test]
fn the_sidebar_defaults_are_left_sidebar_and_offcanvas() {
    assert_eq!(SidebarSide::default(), SidebarSide::Left);
    assert_eq!(SidebarVariant::default(), SidebarVariant::Sidebar);
    assert_eq!(SidebarCollapsible::default(), SidebarCollapsible::Offcanvas);
    assert_eq!(SidebarMenuButtonVariant::default(), SidebarMenuButtonVariant::Default);
    assert_eq!(SidebarMenuButtonSize::default(), SidebarMenuButtonSize::Default);
}

#[test]
fn padded_variants_are_floating_and_inset() {
    assert!(!SidebarVariant::Sidebar.is_padded());
    assert!(SidebarVariant::Floating.is_padded());
    assert!(SidebarVariant::Inset.is_padded());
}

#[test]
fn the_frame_of_the_sidebar_has_its_classes() {
    assert_eq!(sidebar_wrapper_class(""), "group/sidebar-wrapper has-data-[variant=inset]:bg-sidebar flex min-h-svh w-full");
    assert_eq!(sidebar_wrapper_class("dark"), "group/sidebar-wrapper has-data-[variant=inset]:bg-sidebar flex min-h-svh w-full dark");
    assert_eq!(sidebar_gap_class(SidebarVariant::Sidebar), "relative w-(--sidebar-width) bg-transparent transition-[width] duration-200 ease-linear group-data-[collapsible=offcanvas]:w-0 group-data-[side=right]:rotate-180 group-data-[collapsible=icon]:w-(--sidebar-width-icon)");
    assert_eq!(sidebar_gap_class(SidebarVariant::Floating), "relative w-(--sidebar-width) bg-transparent transition-[width] duration-200 ease-linear group-data-[collapsible=offcanvas]:w-0 group-data-[side=right]:rotate-180 group-data-[collapsible=icon]:w-[calc(var(--sidebar-width-icon)+(--spacing(4)))]");
    assert_eq!(sidebar_gap_class(SidebarVariant::Inset), "relative w-(--sidebar-width) bg-transparent transition-[width] duration-200 ease-linear group-data-[collapsible=offcanvas]:w-0 group-data-[side=right]:rotate-180 group-data-[collapsible=icon]:w-[calc(var(--sidebar-width-icon)+(--spacing(4)))]");
    assert_eq!(
        sidebar_container_class(SidebarSide::Left, SidebarVariant::Sidebar, "bg-sidebar"),
        "fixed inset-y-0 z-10 hidden h-svh w-(--sidebar-width) transition-[left,right,width] duration-200 ease-linear md:flex left-0 group-data-[collapsible=offcanvas]:left-[calc(var(--sidebar-width)*-1)] group-data-[collapsible=icon]:w-(--sidebar-width-icon) group-data-[side=left]:border-r group-data-[side=right]:border-l bg-sidebar"
    );
    assert_eq!(
        sidebar_container_class(SidebarSide::Right, SidebarVariant::Inset, ""),
        "fixed inset-y-0 z-10 hidden h-svh w-(--sidebar-width) transition-[left,right,width] duration-200 ease-linear md:flex right-0 group-data-[collapsible=offcanvas]:right-[calc(var(--sidebar-width)*-1)] p-2 group-data-[collapsible=icon]:w-[calc(var(--sidebar-width-icon)+(--spacing(4))+2px)]"
    );
    assert_eq!(sidebar_trigger_class(""), "size-7");
    assert_eq!(sidebar_trigger_class("md:hidden"), "size-7 md:hidden");
}

#[test]
fn the_parts_of_the_sidebar_have_their_slots_and_classes() {
    assert_eq!(SidebarSlot::Inset.data_slot(), "sidebar-inset");
    assert_eq!(SidebarSlot::Inset.data_sidebar(), None);
    assert_eq!(SidebarSlot::Inset.class(""), "bg-background relative flex w-full flex-1 flex-col md:peer-data-[variant=inset]:m-2 md:peer-data-[variant=inset]:ml-0 md:peer-data-[variant=inset]:rounded-xl md:peer-data-[variant=inset]:shadow-sm md:peer-data-[variant=inset]:peer-data-[state=collapsed]:ml-2");
    assert_eq!(SidebarSlot::Inset.class("mt-auto"), "bg-background relative flex w-full flex-1 flex-col md:peer-data-[variant=inset]:m-2 md:peer-data-[variant=inset]:ml-0 md:peer-data-[variant=inset]:rounded-xl md:peer-data-[variant=inset]:shadow-sm md:peer-data-[variant=inset]:peer-data-[state=collapsed]:ml-2 mt-auto");
    assert_eq!(SidebarSlot::Header.data_slot(), "sidebar-header");
    assert_eq!(SidebarSlot::Header.data_sidebar(), Some("header"));
    assert_eq!(SidebarSlot::Header.class(""), "flex flex-col gap-2 p-2");
    assert_eq!(SidebarSlot::Header.class("mt-auto"), "flex flex-col gap-2 p-2 mt-auto");
    assert_eq!(SidebarSlot::Footer.data_slot(), "sidebar-footer");
    assert_eq!(SidebarSlot::Footer.data_sidebar(), Some("footer"));
    assert_eq!(SidebarSlot::Footer.class(""), "flex flex-col gap-2 p-2");
    assert_eq!(SidebarSlot::Footer.class("mt-auto"), "flex flex-col gap-2 p-2 mt-auto");
    assert_eq!(SidebarSlot::Content.data_slot(), "sidebar-content");
    assert_eq!(SidebarSlot::Content.data_sidebar(), Some("content"));
    assert_eq!(SidebarSlot::Content.class(""), "flex min-h-0 flex-1 flex-col gap-2 overflow-auto group-data-[collapsible=icon]:overflow-hidden");
    assert_eq!(SidebarSlot::Content.class("mt-auto"), "flex min-h-0 flex-1 flex-col gap-2 overflow-auto group-data-[collapsible=icon]:overflow-hidden mt-auto");
    assert_eq!(SidebarSlot::Group.data_slot(), "sidebar-group");
    assert_eq!(SidebarSlot::Group.data_sidebar(), Some("group"));
    assert_eq!(SidebarSlot::Group.class(""), "relative flex w-full min-w-0 flex-col p-2");
    assert_eq!(SidebarSlot::Group.class("mt-auto"), "relative flex w-full min-w-0 flex-col p-2 mt-auto");
    assert_eq!(SidebarSlot::Menu.data_slot(), "sidebar-menu");
    assert_eq!(SidebarSlot::Menu.data_sidebar(), Some("menu"));
    assert_eq!(SidebarSlot::Menu.class(""), "flex w-full min-w-0 flex-col gap-1");
    assert_eq!(SidebarSlot::Menu.class("mt-auto"), "flex w-full min-w-0 flex-col gap-1 mt-auto");
    assert_eq!(SidebarSlot::MenuItem.data_slot(), "sidebar-menu-item");
    assert_eq!(SidebarSlot::MenuItem.data_sidebar(), Some("menu-item"));
    assert_eq!(SidebarSlot::MenuItem.class(""), "group/menu-item relative");
    assert_eq!(SidebarSlot::MenuItem.class("mt-auto"), "group/menu-item relative mt-auto");
    assert_eq!(SidebarSlot::GroupLabel.data_slot(), "sidebar-group-label");
    assert_eq!(SidebarSlot::GroupLabel.data_sidebar(), Some("group-label"));
    assert_eq!(SidebarSlot::GroupLabel.class(""), "cn-sidebar-group-label flex shrink-0 items-center outline-hidden [&>svg]:shrink-0");
    assert_eq!(SidebarSlot::GroupLabel.class("mt-auto"), "cn-sidebar-group-label flex shrink-0 items-center outline-hidden [&>svg]:shrink-0 mt-auto");
    assert_eq!(SidebarSlot::MenuSub.data_slot(), "sidebar-menu-sub");
    assert_eq!(SidebarSlot::MenuSub.data_sidebar(), Some("menu-sub"));
    assert_eq!(SidebarSlot::MenuSub.class(""), "cn-sidebar-menu-sub flex min-w-0 flex-col");
    assert_eq!(SidebarSlot::MenuSub.class("mt-auto"), "cn-sidebar-menu-sub flex min-w-0 flex-col mt-auto");
    assert_eq!(SidebarSlot::MenuSubItem.data_slot(), "sidebar-menu-sub-item");
    assert_eq!(SidebarSlot::MenuSubItem.data_sidebar(), Some("menu-sub-item"));
    assert_eq!(SidebarSlot::MenuSubItem.class(""), "group/menu-sub-item relative");
    assert_eq!(SidebarSlot::MenuSubItem.class("mt-auto"), "group/menu-sub-item relative mt-auto");
}

#[test]
fn a_menu_button_has_the_classes_of_its_variant_size_and_state() {
    assert_eq!(SidebarMenuButtonVariant::Default.classes(), "bg-transparent hover:bg-accent hover:text-accent-foreground");
    assert_eq!(SidebarMenuButtonVariant::Outline.classes(), "border border-input bg-transparent hover:bg-accent hover:text-accent-foreground");
    assert_eq!(SidebarMenuButtonVariant::Transparent.classes(), "hover:bg-accent hover:text-accent-foreground");
    assert_eq!(SidebarMenuButtonVariant::Subtle.classes(), "text-muted-foreground hover:text-foreground");
    assert_eq!(SidebarMenuButtonSize::Default.classes(), "h-9 px-3 py-2");
    assert_eq!(SidebarMenuButtonSize::Sm.classes(), "h-8 px-2 text-xs");
    assert_eq!(SidebarMenuButtonSize::Lg.classes(), "h-10 px-4");
    assert_eq!(SidebarMenuButtonSize::Icon.classes(), "h-9 w-9");
    assert_eq!(active_classes(true), "bg-accent text-accent-foreground");
    assert_eq!(active_classes(false), "");
    assert_eq!(
        sidebar_menu_button_class(
            SidebarMenuButtonVariant::Default,
            SidebarMenuButtonSize::Default,
            false,
            ""
        ),
        "inline-flex items-center justify-center whitespace-nowrap rounded-md text-sm font-medium ring-offset-background transition-colors focus-visible:outline-none focus-visible:ring-2 focus-visible:ring-ring focus-visible:ring-offset-2 disabled:pointer-events-none disabled:opacity-50 gap-2 bg-transparent hover:bg-accent hover:text-accent-foreground h-9 px-3 py-2"
    );
    assert_eq!(
        sidebar_menu_button_class(
            SidebarMenuButtonVariant::Outline,
            SidebarMenuButtonSize::Lg,
            true,
            "w-full"
        ),
        "inline-flex items-center justify-center whitespace-nowrap rounded-md text-sm font-medium ring-offset-background transition-colors focus-visible:outline-none focus-visible:ring-2 focus-visible:ring-ring focus-visible:ring-offset-2 disabled:pointer-events-none disabled:opacity-50 gap-2 border border-input bg-transparent hover:bg-accent hover:text-accent-foreground h-10 px-4 bg-accent text-accent-foreground w-full"
    );
}

#[test]
fn a_button_of_a_nested_menu_is_small_only_when_asked() {
    assert_eq!(sub_button_size_class("sm"), "text-xs");
    assert_eq!(sub_button_size_class("md"), "text-sm");
    assert_eq!(sub_button_size_class("lg"), "text-sm");
    assert_eq!(sub_button_size_class(""), "text-sm");
    assert_eq!(sidebar_menu_sub_button_class("md", false, ""), "cn-sidebar-menu-sub-button flex min-w-0 -translate-x-px items-center overflow-hidden outline-hidden group-data-[collapsible=icon]:hidden disabled:pointer-events-none disabled:opacity-50 aria-disabled:pointer-events-none aria-disabled:opacity-50 [&>span:last-child]:truncate [&>svg]:shrink-0 text-sm");
    assert_eq!(sidebar_menu_sub_button_class("sm", true, "pl-6"), "cn-sidebar-menu-sub-button flex min-w-0 -translate-x-px items-center overflow-hidden outline-hidden group-data-[collapsible=icon]:hidden disabled:pointer-events-none disabled:opacity-50 aria-disabled:pointer-events-none aria-disabled:opacity-50 [&>span:last-child]:truncate [&>svg]:shrink-0 text-xs bg-accent text-accent-foreground pl-6");
}
