//! Colours, the material colour table and the palette of a theme.

use vstd::prelude::*;
use crate::env::key::Key;
use crate::env::theme::Env;
use crate::env::theme::EnvView;

verus! {

pub const RED_50: u32 = 0xFFEBEEFF;
pub const RED_100: u32 = 0xFFCDD2FF;
pub const RED_200: u32 = 0xEF9A9AFF;
pub const RED_300: u32 = 0xE57373FF;
pub const RED_400: u32 = 0xEF5350FF;
pub const RED_500: u32 = 0xF44336FF;
pub const RED_600: u32 = 0xE53935FF;
pub const RED_700: u32 = 0xD32F2FFF;
pub const RED_800: u32 = 0xC62828FF;
pub const RED_900: u32 = 0xB71C1CFF;

/// Opaque black.
pub const BLACK: u32 = 0x000000FF;

/// Opaque white.
pub const WHITE: u32 = 0xFFFFFFFF;

/// A colour.
#[derive(Clone, Copy, Debug, PartialEq, Eq, Structural)]
pub enum Color {
    /// Red, green, blue and alpha, eight bits each, red in the highest byte.
    Rgba32(u32),
}


impl Color {
    /// The four channels as one number.
    pub open spec fn rgba(self) -> u32 {
        match self {
            Color::Rgba32(rgba) => rgba,
        }
    }

    /// The four channels as one number.
    pub fn as_rgba_u32(&self) -> (rgba: u32)
        ensures
            rgba == self.rgba(),
    {
        match *self {
            Color::Rgba32(rgba) => rgba,
        }
    }
}

/// The colour of a text cursor that shows on `background`: black on opaque
/// white, white on anything else.
pub open spec fn cursor_on(background: Color) -> Color {
    if background == Color::Rgba32(WHITE) {
        Color::Rgba32(BLACK)
    } else {
        Color::Rgba32(WHITE)
    }
}

/// The colour of a text cursor that shows on `background`.
pub fn cursor_color_on(background: Color) -> (cursor: Color)
    ensures
        cursor == cursor_on(background),
{
    if background.as_rgba_u32() == WHITE {
        Color::Rgba32(BLACK)
    } else {
        Color::Rgba32(WHITE)
    }
}

/// The twelve colours of a material theme.
#[derive(Clone, Copy, Debug, PartialEq, Eq, Structural)]
pub struct ColorEnv {
    pub primary: Color,
    pub primary_variant: Color,
    pub secondary: Color,
    pub secondary_variant: Color,
    pub background: Color,
    pub surface: Color,
    pub error: Color,
    pub on_primary: Color,
    pub on_secondary: Color,
    pub on_background: Color,
    pub on_surface: Color,
    pub on_error: Color,
}

impl ColorEnv {
    /// The colour that [`ColorEnv::setup_env`] stores under `key`: the
    /// palette's own colour under each of its keys, and fixed colours of a
    /// light theme under the keys of the host's stock theme.
    pub open spec fn entry(self, key: Key) -> Color {
        match key {
            Key::Primary => self.primary,
            Key::PrimaryVariant => self.primary_variant,
            Key::Secondary => self.secondary,
            Key::SecondaryVariant => self.secondary_variant,
            Key::Background => self.background,
            Key::Surface => self.surface,
            Key::Error => self.error,
            Key::OnPrimary => self.on_primary,
            Key::OnSecondary => self.on_secondary,
            Key::OnBackground => self.on_background,
            Key::OnSurface => self.on_surface,
            Key::OnError => self.on_error,
            Key::BorderDark => Color::Rgba32(0x222222FF),
            Key::BorderLight => Color::Rgba32(0x444444FF),
            Key::WindowBackgroundColor => Color::Rgba32(0xFFFFFFFF),
            Key::CursorColor => cursor_on(Color::Rgba32(0xFFFFFFFF)),
            Key::BackgroundDark => Color::Rgba32(0xFFFFFFFF),
            Key::BackgroundLight => Color::Rgba32(0x000000FF),
            Key::LabelColor => Color::Rgba32(0x000000FF),
        }
    }

    /// A palette with the four given brand colours (primary, its variant,
    /// secondary, its variant) and the stock colours for the rest.
    pub fn new(config: (Color, Color, Color, Color)) -> (palette: Self)
        ensures
            palette == (ColorEnv {
                primary: config.0,
                primary_variant: config.1,
                secondary: config.2,
                secondary_variant: config.3,
                background: Color::Rgba32(0xFFFFFFFF),
                surface: Color::Rgba32(0xFFFFFFFF),
                error: Color::Rgba32(0xB00020FF),
                on_primary: Color::Rgba32(0xFFFFFFFF),
                on_secondary: Color::Rgba32(0x000000FF),
                on_background: Color::Rgba32(0x000000FF),
                on_surface: Color::Rgba32(0x000000FF),
                on_error: Color::Rgba32(0xFFFFFFFF),
            }),
    {
        ColorEnv {
            primary: config.0,
            primary_variant: config.1,
            secondary: config.2,
            secondary_variant: config.3,
            background: Color::Rgba32(0xFFFFFFFF),
            surface: Color::Rgba32(0xFFFFFFFF),
            error: Color::Rgba32(0xB00020FF),
            on_primary: Color::Rgba32(0xFFFFFFFF),
            on_secondary: Color::Rgba32(0x000000FF),
            on_background: Color::Rgba32(0x000000FF),
            on_surface: Color::Rgba32(0x000000FF),
            on_error: Color::Rgba32(0xFFFFFFFF),
        }
    }

    /// The baseline material palette: purple and teal.
    pub fn default() -> (palette: Self)
        ensures
            palette == (ColorEnv {
                primary: Color::Rgba32(0x6200EEFF),
                primary_variant: Color::Rgba32(0x3700B3FF),
                secondary: Color::Rgba32(0x03DAC6FF),
                secondary_variant: Color::Rgba32(0x018786FF),
                background: Color::Rgba32(0xFFFFFFFF),
                surface: Color::Rgba32(0xFFFFFFFF),
                error: Color::Rgba32(0xB00020FF),
                on_primary: Color::Rgba32(0xFFFFFFFF),
                on_secondary: Color::Rgba32(0x000000FF),
                on_background: Color::Rgba32(0x000000FF),
                on_surface: Color::Rgba32(0x000000FF),
                on_error: Color::Rgba32(0xFFFFFFFF),
            }),
    {
        ColorEnv::new(
            (
                Color::Rgba32(0x6200EEFF),
                Color::Rgba32(0x3700B3FF),
                Color::Rgba32(0x03DAC6FF),
                Color::Rgba32(0x018786FF),
            ),
        )
    }

    /// Replaces the surface colour.
    pub fn with_surface_color(self, config: Color) -> (palette: Self)
        ensures
            palette == (ColorEnv { surface: config, ..self }),
    {
        let mut palette = self;
        palette.surface = config;
        palette
    }

    /// Replaces the background colour.
    pub fn with_background_color(self, config: Color) -> (palette: Self)
        ensures
            palette == (ColorEnv { background: config, ..self }),
    {
        let mut palette = self;
        palette.background = config;
        palette
    }

    /// Replaces the error colour.
    pub fn with_error_color(self, config: Color) -> (palette: Self)
        ensures
            palette == (ColorEnv { error: config, ..self }),
    {
        let mut palette = self;
        palette.error = config;
        palette
    }

    /// Replaces the five colours of what is drawn on top of primary,
    /// secondary, background, surface and error, in that order.
    pub fn with_on_color(self, config: (Color, Color, Color, Color, Color)) -> (palette: Self)
        ensures
            palette == (ColorEnv {
                on_primary: config.0,
                on_secondary: config.1,
                on_background: config.2,
                on_surface: config.3,
                on_error: config.4,
                ..self
            }),
    {
        let mut palette = self;
        palette.on_primary = config.0;
        palette.on_secondary = config.1;
        palette.on_background = config.2;
        palette.on_surface = config.3;
        palette.on_error = config.4;
        palette
    }

    /// Writes the theme into `env`: afterwards every key holds the colour
    /// that [`ColorEnv::entry`] gives it, and the rest is untouched.
    pub fn setup_env(self, env: &mut Env)
        ensures
            final(env)@ == (EnvView {
                colors: Map::new(|key: Key| true, |key: Key| self.entry(key)),
                ..old(env)@
            }),
    {
        env.set(Key::BorderDark, Color::Rgba32(0x222222FF));
        env.set(Key::BorderLight, Color::Rgba32(0x444444FF));
        env.set(Key::WindowBackgroundColor, Color::Rgba32(0xFFFFFFFF));
        let window_background = env.get(Key::WindowBackgroundColor);
        env.set(Key::CursorColor, cursor_color_on(window_background));
        env.set(Key::BackgroundDark, Color::Rgba32(0xFFFFFFFF));
        env.set(Key::BackgroundLight, Color::Rgba32(0x000000FF));
        env.set(Key::LabelColor, Color::Rgba32(0x000000FF));
        env.set(Key::Primary, self.primary);
        env.set(Key::PrimaryVariant, self.primary_variant);
        env.set(Key::Secondary, self.secondary);
        env.set(Key::SecondaryVariant, self.secondary_variant);
        env.set(Key::Background, self.background);
        env.set(Key::Surface, self.surface);
        env.set(Key::Error, self.error);
        env.set(Key::OnPrimary, self.on_primary);
        env.set(Key::OnSecondary, self.on_secondary);
        env.set(Key::OnBackground, self.on_background);
        env.set(Key::OnSurface, self.on_surface);
        env.set(Key::OnError, self.on_error);
        assert(env@.colors =~= Map::new(|key: Key| true, |key: Key| self.entry(key)));
    }
}

} // verus!
