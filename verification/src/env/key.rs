//! The keys under which the theme environment stores colours.

use vstd::prelude::*;

verus! {

/// A key of the theme environment that names a colour.
///
/// The first twelve belong to the material palette; the rest are keys of the
/// host's stock theme that the palette overrides.
#[derive(Clone, Copy, Debug, PartialEq, Eq, Structural)]
pub enum Key {
    Primary,
    PrimaryVariant,
    Secondary,
    SecondaryVariant,
    Background,
    Surface,
    Error,
    OnPrimary,
    OnSecondary,
    OnBackground,
    OnSurface,
    OnError,
    BorderDark,
    BorderLight,
    WindowBackgroundColor,
    CursorColor,
    BackgroundDark,
    BackgroundLight,
    LabelColor,
}

/// How many keys there are.
pub const KEY_COUNT: usize = 19;

pub const PRIMARY: Key = Key::Primary;
pub const PRIMARY_VARIANT: Key = Key::PrimaryVariant;
pub const SECONDARY: Key = Key::Secondary;
pub const SECONDARY_VARIANT: Key = Key::SecondaryVariant;
pub const BACKGROUND: Key = Key::Background;
pub const SURFACE: Key = Key::Surface;
pub const ERROR: Key = Key::Error;
pub const ON_PRIMARY: Key = Key::OnPrimary;
pub const ON_SECONDARY: Key = Key::OnSecondary;
pub const ON_BACKGROUND: Key = Key::OnBackground;
pub const ON_SURFACE: Key = Key::OnSurface;
pub const ON_ERROR: Key = Key::OnError;

impl Key {
    /// The position of the key in the order of declaration.
    pub open spec fn ordinal(self) -> int {
        match self {
            Key::Primary => 0,
            Key::PrimaryVariant => 1,
            Key::Secondary => 2,
            Key::SecondaryVariant => 3,
            Key::Background => 4,
            Key::Surface => 5,
            Key::Error => 6,
            Key::OnPrimary => 7,
            Key::OnSecondary => 8,
            Key::OnBackground => 9,
            Key::OnSurface => 10,
            Key::OnError => 11,
            Key::BorderDark => 12,
            Key::BorderLight => 13,
            Key::WindowBackgroundColor => 14,
            Key::CursorColor => 15,
            Key::BackgroundDark => 16,
            Key::BackgroundLight => 17,
            Key::LabelColor => 18,
        }
    }

    /// The string by which the host's environment knows the key.
    pub open spec fn spec_name(self) -> Seq<char> {
        match self {
            Key::Primary => "druid-components.material.color.primary"@,
            Key::PrimaryVariant => "druid-components.material.color.primary-variant-color"@,
            Key::Secondary => "druid-components.material.color.secondary"@,
            Key::SecondaryVariant => "druid-components.material.color.secondary-variant"@,
            Key::Background => "druid-components.material.color.background"@,
            Key::Surface => "druid-components.material.color.surface"@,
            Key::Error => "druid-components.material.color.error"@,
            Key::OnPrimary => "druid-components.material.color.on-primary"@,
            Key::OnSecondary => "druid-components.material.color.on-secondary"@,
            Key::OnBackground => "druid-components.material.color.on-background"@,
            Key::OnSurface => "druid-components.material.color.on-surface"@,
            Key::OnError => "druid-components.material.color.on-error"@,
            Key::BorderDark => "org.linebender.druid.theme.border_dark"@,
            Key::BorderLight => "org.linebender.druid.theme.border_light"@,
            Key::WindowBackgroundColor => "org.linebender.druid.theme.window_background_color"@,
            Key::CursorColor => "org.linebender.druid.theme.cursor_color"@,
            Key::BackgroundDark => "org.linebender.druid.theme.background_dark"@,
            Key::BackgroundLight => "org.linebender.druid.theme.background_light"@,
            Key::LabelColor => "org.linebender.druid.theme.label_color"@,
        }
    }

    /// The position of the key in the order of declaration.
    pub fn index(self) -> (i: usize)
        ensures
            i == self.ordinal(),
            i < KEY_COUNT,
    {
        match self {
            Key::Primary => 0,
            Key::PrimaryVariant => 1,
            Key::Secondary => 2,
            Key::SecondaryVariant => 3,
            Key::Background => 4,
            Key::Surface => 5,
            Key::Error => 6,
            Key::OnPrimary => 7,
            Key::OnSecondary => 8,
            Key::OnBackground => 9,
            Key::OnSurface => 10,
            Key::OnError => 11,
            Key::BorderDark => 12,
            Key::BorderLight => 13,
            Key::WindowBackgroundColor => 14,
            Key::CursorColor => 15,
            Key::BackgroundDark => 16,
            Key::BackgroundLight => 17,
            Key::LabelColor => 18,
        }
    }

    /// The key at a position, if there is one.
    pub fn from_index(i: usize) -> (key: Option<Key>)
        ensures
            i < KEY_COUNT ==> key is Some && key->0.ordinal() == i,
            i >= KEY_COUNT ==> key is None,
    {
        match i {
            0 => Some(Key::Primary),
            1 => Some(Key::PrimaryVariant),
            2 => Some(Key::Secondary),
            3 => Some(Key::SecondaryVariant),
            4 => Some(Key::Background),
            5 => Some(Key::Surface),
            6 => Some(Key::Error),
            7 => Some(Key::OnPrimary),
            8 => Some(Key::OnSecondary),
            9 => Some(Key::OnBackground),
            10 => Some(Key::OnSurface),
            11 => Some(Key::OnError),
            12 => Some(Key::BorderDark),
            13 => Some(Key::BorderLight),
            14 => Some(Key::WindowBackgroundColor),
            15 => Some(Key::CursorColor),
            16 => Some(Key::BackgroundDark),
            17 => Some(Key::BackgroundLight),
            18 => Some(Key::LabelColor),
            _ => None,
        }
    }

    /// The string by which the host's environment knows the key.
    pub fn name(self) -> (s: &'static str)
        ensures
            s@ == self.spec_name(),
    {
        match self {
            Key::Primary => "druid-components.material.color.primary",
            Key::PrimaryVariant => "druid-components.material.color.primary-variant-color",
            Key::Secondary => "druid-components.material.color.secondary",
            Key::SecondaryVariant => "druid-components.material.color.secondary-variant",
            Key::Background => "druid-components.material.color.background",
            Key::Surface => "druid-components.material.color.surface",
            Key::Error => "druid-components.material.color.error",
            Key::OnPrimary => "druid-components.material.color.on-primary",
            Key::OnSecondary => "druid-components.material.color.on-secondary",
            Key::OnBackground => "druid-components.material.color.on-background",
            Key::OnSurface => "druid-components.material.color.on-surface",
            Key::OnError => "druid-components.material.color.on-error",
            Key::BorderDark => "org.linebender.druid.theme.border_dark",
            Key::BorderLight => "org.linebender.druid.theme.border_light",
            Key::WindowBackgroundColor => "org.linebender.druid.theme.window_background_color",
            Key::CursorColor => "org.linebender.druid.theme.cursor_color",
            Key::BackgroundDark => "org.linebender.druid.theme.background_dark",
            Key::BackgroundLight => "org.linebender.druid.theme.background_light",
            Key::LabelColor => "org.linebender.druid.theme.label_color",
        }
    }
}

} // verus!
