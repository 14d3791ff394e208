//! The button: its variants, its sizes and the classes they stand for.

use vstd::prelude::*;
use vstd::string::*;

verus! {

/// The looks a button can have.
#[derive(Clone, Copy, Debug, PartialEq, Eq, Structural)]
pub enum ButtonVariant {
    Default,
    Destructive,
    Outline,
    Secondary,
    /// No background until hovered.
    Transparent,
    Link,
}

impl Default for ButtonVariant {
    fn default() -> (variant: ButtonVariant)
        ensures
            variant == ButtonVariant::Default,
    {
        ButtonVariant::Default
    }
}

/// The sizes a button can have.
#[derive(Clone, Copy, Debug, PartialEq, Eq, Structural)]
pub enum ButtonSize {
    Default,
    Sm,
    Lg,
    Icon,
}

impl Default for ButtonSize {
    fn default() -> (size: ButtonSize)
        ensures
            size == ButtonSize::Default,
    {
        ButtonSize::Default
    }
}

/// The classes that every button has.
pub const BASE_CLASSES: &'static str = "inline-flex items-center justify-center gap-2 whitespace-nowrap rounded-md text-sm font-medium transition-all disabled:pointer-events-none disabled:opacity-50 [&_svg]:pointer-events-none [&_svg:not([class*='size-'])]:size-4 shrink-0 [&_svg]:shrink-0 outline-none focus-visible:border-ring focus-visible:ring-ring/50 focus-visible:ring-[3px] aria-invalid:ring-destructive/20 dark:aria-invalid:ring-destructive/40 aria-invalid:border-destructive";

/// The classes of the `Default` variant.
pub const VARIANT_DEFAULT: &'static str = "bg-primary text-primary-foreground shadow-xs hover:bg-primary/90";

/// The classes of the `Destructive` variant.
pub const VARIANT_DESTRUCTIVE: &'static str = "bg-destructive text-white shadow-xs hover:bg-destructive/90 focus-visible:ring-destructive/20 dark:focus-visible:ring-destructive/40 dark:bg-destructive/60";

/// The classes of the `Outline` variant.
pub const VARIANT_OUTLINE: &'static str = "border bg-background shadow-xs hover:bg-accent hover:text-accent-foreground dark:bg-input/30 dark:border-input dark:hover:bg-input/50";

/// The classes of the `Secondary` variant.
pub const VARIANT_SECONDARY: &'static str = "bg-secondary text-secondary-foreground shadow-xs hover:bg-secondary/80";

/// The classes of the `Transparent` variant.
pub const VARIANT_TRANSPARENT: &'static str = "hover:bg-accent hover:text-accent-foreground dark:hover:bg-accent/50";

/// The classes of the `Link` variant.
pub const VARIANT_LINK: &'static str = "text-primary underline-offset-4 hover:underline";

/// The classes of the `Default` size.
pub const SIZE_DEFAULT: &'static str = "h-9 px-4 py-2 has-[>svg]:px-3";

/// The classes of the `Sm` size.
pub const SIZE_SM: &'static str = "h-8 rounded-md gap-1.5 px-3 has-[>svg]:px-2.5";

/// The classes of the `Lg` size.
pub const SIZE_LG: &'static str = "h-10 rounded-md px-6 has-[>svg]:px-4";

/// The classes of the `Icon` size.
pub const SIZE_ICON: &'static str = "size-9";

/// The classes that every button has.
pub fn base_classes() -> (classes: &'static str)
    ensures
        classes@ == BASE_CLASSES@,
{
    BASE_CLASSES
}

/// The classes that a variant stands for.
pub open spec fn variant_class_text(variant: ButtonVariant) -> Seq<char> {
    match variant {
        ButtonVariant::Default => VARIANT_DEFAULT@,
        ButtonVariant::Destructive => VARIANT_DESTRUCTIVE@,
        ButtonVariant::Outline => VARIANT_OUTLINE@,
        ButtonVariant::Secondary => VARIANT_SECONDARY@,
        ButtonVariant::Transparent => VARIANT_TRANSPARENT@,
        ButtonVariant::Link => VARIANT_LINK@,
    }
}

/// The classes that a size stands for.
pub open spec fn size_class_text(size: ButtonSize) -> Seq<char> {
    match size {
        ButtonSize::Default => SIZE_DEFAULT@,
        ButtonSize::Sm => SIZE_SM@,
        ButtonSize::Lg => SIZE_LG@,
        ButtonSize::Icon => SIZE_ICON@,
    }
}

/// The classes that a variant stands for.
pub fn variant_classes(variant: ButtonVariant) -> (classes: &'static str)
    ensures
        classes@ == variant_class_text(variant),
{
    match variant {
        ButtonVariant::Default => VARIANT_DEFAULT,
        ButtonVariant::Destructive => VARIANT_DESTRUCTIVE,
        ButtonVariant::Outline => VARIANT_OUTLINE,
        ButtonVariant::Secondary => VARIANT_SECONDARY,
        ButtonVariant::Transparent => VARIANT_TRANSPARENT,
        ButtonVariant::Link => VARIANT_LINK,
    }
}

/// The classes that a size stands for.
pub fn size_classes(size: ButtonSize) -> (classes: &'static str)
    ensures
        classes@ == size_class_text(size),
{
    match size {
        ButtonSize::Default => SIZE_DEFAULT,
        ButtonSize::Sm => SIZE_SM,
        ButtonSize::Lg => SIZE_LG,
        ButtonSize::Icon => SIZE_ICON,
    }
}

/// The class attribute of a button: the base classes, the variant's and the
/// size's, each separated from the next by one space, and after one more
/// space the caller's own classes where there are any.
pub open spec fn button_class_text(variant: ButtonVariant, size: ButtonSize, extra: Seq<char>) -> Seq<
    char,
> {
    let fixed = BASE_CLASSES@ + " "@ + variant_class_text(variant) + " "@ + size_class_text(size);
    if extra.len() == 0 {
        fixed
    } else {
        fixed + " "@ + extra
    }
}

/// Builds the class attribute of a button.
pub fn button_class(variant: ButtonVariant, size: ButtonSize, extra: &str) -> (classes: String)
    ensures
        classes@ == button_class_text(variant, size, extra@),
{
    let mut classes = String::new();
    classes.append(base_classes());
    classes.append(" ");
    classes.append(variant_classes(variant));
    classes.append(" ");
    classes.append(size_classes(size));
    if !extra.is_empty() {
        classes.append(" ");
        classes.append(extra);
    }
    assert(classes@ =~= button_class_text(variant, size, extra@));
    classes
}

/// The value of the `data-slot` attribute of a button.
pub const BUTTON_SLOT: &'static str = "button";

} // verus!
