//! Themes: light and dark, what a theme consists of, and which one is active.
use crate::material::WindowBackgroundAppearance;
use crate::text::{position_of, texts};
use vstd::prelude::*;

verus! {

/// The name of the dark theme that is active at first.
pub fn default_dark_theme() -> (r: &'static str)
    ensures
        r@ == "One Dark"@,
{
    "One Dark"
}

/// The appearance of the theme.
#[derive(Debug, PartialEq, Eq, Clone, Copy, Structural)]
pub enum Appearance {
    /// A light appearance.
    Light,
    /// A dark appearance.
    Dark,
}

/// How the system shows windows.
#[derive(Debug, PartialEq, Eq, Clone, Copy, Structural)]
pub enum WindowAppearance {
    Light,
    VibrantLight,
    Dark,
    VibrantDark,
}

impl Appearance {
    /// Returns whether the appearance is light.
    pub fn is_light(&self) -> (r: bool)
        ensures
            r == (*self == Appearance::Light),
    {
        match self {
            Self::Light => true,
            Self::Dark => false,
        }
    }

    /// The one of two values that is meant for the appearance.
    pub fn pick<A>(self, light: A, dark: A) -> (r: A)
        ensures
            r == (if self == Appearance::Light {
                light
            } else {
                dark
            }),
    {
        match self {
            Self::Light => light,
            Self::Dark => dark,
        }
    }
}

impl From<WindowAppearance> for Appearance {
    fn from(value: WindowAppearance) -> (r: Self) {
        match value {
            WindowAppearance::Dark | WindowAppearance::VibrantDark => Appearance::Dark,
            WindowAppearance::Light | WindowAppearance::VibrantLight => Appearance::Light,
        }
    }
}

impl vstd::std_specs::convert::FromSpecImpl<WindowAppearance> for Appearance {
    open spec fn obeys_from_spec() -> bool {
        true
    }

    open spec fn from_spec(value: WindowAppearance) -> Self {
        match value {
            WindowAppearance::Dark => Appearance::Dark,
            WindowAppearance::VibrantDark => Appearance::Dark,
            WindowAppearance::Light => Appearance::Light,
            WindowAppearance::VibrantLight => Appearance::Light,
        }
    }
}

/// The appearance of the system.
#[derive(Debug, Clone, Copy, PartialEq, Eq, Structural)]
pub struct SystemAppearance(pub Appearance);

impl Default for SystemAppearance {
    fn default() -> (r: Self)
        ensures
            r == SystemAppearance(Appearance::Dark),
    {
        SystemAppearance(Appearance::Dark)
    }
}

impl SystemAppearance {
    /// The appearance of a system that shows its windows in the given way.
    pub fn init(window: WindowAppearance) -> (r: Self)
        ensures
            r.0 == (if window == WindowAppearance::Dark || window == WindowAppearance::VibrantDark {
                Appearance::Dark
            } else {
                Appearance::Light
            }),
    {
        SystemAppearance(Appearance::from(window))
    }
}

/// The colours and other styles of a theme, in groups: those of the system, the
/// accents, those of the users, those of the surface, those of the syntax and
/// those that tell a state.
#[derive(Clone, Debug)]
pub struct ThemeStyles<Y, A, P, C, X, S> {
    pub window_background_appearance: WindowBackgroundAppearance,
    pub system: Y,
    pub accents: A,
    pub player: P,
    pub colors: C,
    pub syntax: X,
    pub status: S,
}

/// A theme is the primary mechanism for defining the appearance of the UI.
#[derive(Clone, Debug)]
pub struct Theme<Y, A, P, C, X, S> {
    /// The unique identifier for the theme.
    pub id: String,
    /// The name of the theme.
    pub name: String,
    /// The appearance of the theme (light or dark).
    pub appearance: Appearance,
    /// The colors and other styles for the theme.
    pub styles: ThemeStyles<Y, A, P, C, X, S>,
}

impl<Y, A, P, C, X, S> Theme<Y, A, P, C, X, S> {
    /// The colours of the system.
    pub fn system(&self) -> (r: &Y)
        ensures
            *r == self.styles.system,
    {
        &self.styles.system
    }

    /// The accents.
    pub fn accents(&self) -> (r: &A)
        ensures
            *r == self.styles.accents,
    {
        &self.styles.accents
    }

    /// The colours of the users.
    pub fn players(&self) -> (r: &P)
        ensures
            *r == self.styles.player,
    {
        &self.styles.player
    }

    /// The colours of the surface.
    pub fn colors(&self) -> (r: &C)
        ensures
            *r == self.styles.colors,
    {
        &self.styles.colors
    }

    /// The colours of the syntax.
    pub fn syntax(&self) -> (r: &X)
        ensures
            *r == self.styles.syntax,
    {
        &self.styles.syntax
    }

    /// The colours that tell a state.
    pub fn status(&self) -> (r: &S)
        ensures
            *r == self.styles.status,
    {
        &self.styles.status
    }

    /// Whether the theme is light or dark.
    pub fn appearance(&self) -> (r: Appearance)
        ensures
            r == self.appearance,
    {
        self.appearance
    }

    /// How the system draws the background of windows.
    pub fn window_background_appearance(&self) -> (r: WindowBackgroundAppearance)
        ensures
            r == self.styles.window_background_appearance,
    {
        self.styles.window_background_appearance
    }
}

/// The active theme and the active icons.
#[derive(Clone, Debug)]
pub struct GlobalTheme<T, I> {
    theme: T,
    icon_theme: I,
}

impl<T, I> GlobalTheme<T, I> {
    /// The active theme.
    pub closed spec fn spec_theme(&self) -> T {
        self.theme
    }

    /// The active icons.
    pub closed spec fn spec_icon_theme(&self) -> I {
        self.icon_theme
    }

    /// Makes a theme and icons active.
    pub fn new(theme: T, icon_theme: I) -> (r: Self)
        ensures
            r.spec_theme() == theme,
            r.spec_icon_theme() == icon_theme,
    {
        GlobalTheme { theme, icon_theme }
    }

    /// Makes another theme active; the icons stay.
    pub fn update_theme(&mut self, theme: T)
        ensures
            final(self).spec_theme() == theme,
            final(self).spec_icon_theme() == old(self).spec_icon_theme(),
    {
        self.theme = theme;
    }

    /// Makes other icons active; the theme stays.
    pub fn update_icon_theme(&mut self, icon_theme: I)
        ensures
            final(self).spec_icon_theme() == icon_theme,
            final(self).spec_theme() == old(self).spec_theme(),
    {
        self.icon_theme = icon_theme;
    }

    /// The active theme.
    pub fn theme(&self) -> (r: &T)
        ensures
            *r == self.spec_theme(),
    {
        &self.theme
    }

    /// The active icons.
    pub fn icon_theme(&self) -> (r: &I)
        ensures
            *r == self.spec_icon_theme(),
    {
        &self.icon_theme
    }
}

/// The place of the theme that is active at first among those that are known:
/// the usual dark one, or the first where that is not known.
pub fn first_theme(names: &Vec<String>) -> (r: usize)
    requires
        names.len() > 0,
    ensures
        r < names.len(),
        texts(names@).contains("One Dark"@) ==> names@[r as int]@ == "One Dark"@
            && forall|k: int| 0 <= k < r ==> (#[trigger] names@[k])@ != "One Dark"@,
        !texts(names@).contains("One Dark"@) ==> r == 0,
{
    match position_of(names, "One Dark") {
        Some(i) => {
            assert(texts(names@)[i as int] == "One Dark"@);
            i
        },
        None => 0,
    }
}

/// A window is dark where its appearance is, vibrant or not, and light
/// otherwise.
pub proof fn vibrant_windows_keep_their_side(w: WindowAppearance)
    ensures
        <Appearance as vstd::std_specs::convert::FromSpec<WindowAppearance>>::from_spec(w) is Dark
            <==> w is Dark || w is VibrantDark,
        <Appearance as vstd::std_specs::convert::FromSpec<WindowAppearance>>::from_spec(w) is Light
            <==> w is Light || w is VibrantLight,
{
}

} // verus!
