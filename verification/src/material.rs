//! Window materials: which colour of a theme becomes what where the window is
//! made of a translucent material. Strengths and densities are given in
//! thousandths; mixing the colours is left to whoever holds them.
use vstd::prelude::*;

verus! {

/// What the background of a window is made of.
#[derive(Clone, Copy, Debug, PartialEq, Eq, Structural)]
pub enum WindowBackgroundMaterial {
    /// What the theme says.
    Theme,
    Acrylic,
    Mica,
    MicaAlt,
}

/// How the system draws the background of a window.
#[derive(Clone, Copy, Debug, PartialEq, Eq, Structural)]
pub enum WindowBackgroundAppearance {
    Opaque,
    Transparent,
    Blurred,
    MicaBackdrop,
    MicaAltBackdrop,
}

/// How the system draws the background of a window of a material, where the
/// theme asks for `own`.
pub open spec fn material_appearance(
    material: WindowBackgroundMaterial,
    own: WindowBackgroundAppearance,
) -> WindowBackgroundAppearance {
    match material {
        WindowBackgroundMaterial::Theme => own,
        WindowBackgroundMaterial::Acrylic => WindowBackgroundAppearance::Blurred,
        WindowBackgroundMaterial::Mica => WindowBackgroundAppearance::MicaBackdrop,
        WindowBackgroundMaterial::MicaAlt => WindowBackgroundAppearance::MicaAltBackdrop,
    }
}

/// How the system draws the background of a window of a material.
pub fn window_background_appearance_for(
    material: WindowBackgroundMaterial,
    own: WindowBackgroundAppearance,
) -> (r: WindowBackgroundAppearance)
    ensures
        r == material_appearance(material, own),
{
    match material {
        WindowBackgroundMaterial::Theme => own,
        WindowBackgroundMaterial::Acrylic => WindowBackgroundAppearance::Blurred,
        WindowBackgroundMaterial::Mica => WindowBackgroundAppearance::MicaBackdrop,
        WindowBackgroundMaterial::MicaAlt => WindowBackgroundAppearance::MicaAltBackdrop,
    }
}

/// The material in force: other systems than Windows know none but the theme's.
pub open spec fn material_in_force(
    chosen: WindowBackgroundMaterial,
    on_windows: bool,
) -> WindowBackgroundMaterial {
    if on_windows {
        chosen
    } else {
        WindowBackgroundMaterial::Theme
    }
}

/// The material in force.
pub fn current_window_background_material(chosen: WindowBackgroundMaterial, on_windows: bool) -> (r:
    WindowBackgroundMaterial)
    ensures
        r == material_in_force(chosen, on_windows),
{
    if on_windows {
        chosen
    } else {
        WindowBackgroundMaterial::Theme
    }
}

/// The material and the opacity in force, where `usual` is the opacity that
/// holds on other systems than Windows.
pub fn window_material_theme_overrides<O>(
    chosen: WindowBackgroundMaterial,
    opacity: O,
    usual: O,
    on_windows: bool,
) -> (r: (WindowBackgroundMaterial, O))
    ensures
        r.0 == material_in_force(chosen, on_windows),
        r.1 == (if on_windows {
            opacity
        } else {
            usual
        }),
{
    if on_windows {
        (chosen, opacity)
    } else {
        (WindowBackgroundMaterial::Theme, usual)
    }
}

/// Whether a material other than the theme's is in force.
pub fn has_custom_window_background_material(chosen: WindowBackgroundMaterial, on_windows: bool) -> (r:
    bool)
    ensures
        r == (material_in_force(chosen, on_windows) != WindowBackgroundMaterial::Theme),
{
    on_windows && chosen != WindowBackgroundMaterial::Theme
}

// ---------------------------------------------------------------------------
// Densities

/// The densities that a material is made of.
#[derive(Clone, Copy, Debug, PartialEq, Eq, Structural)]
pub enum AlphaRole {
    Chrome,
    Background,
    Surface,
    Elevated,
    Content,
    Overlay,
    Hover,
    Active,
    Selected,
    Popup,
    PopupHover,
}

/// How a density is found, in thousandths.
#[derive(Clone, Copy, Debug, PartialEq, Eq, Structural)]
pub enum AlphaRule {
    /// From the opacity that the user has chosen: `min` at none, `current` at
    /// the usual one, `max` at the full one, and in a straight line between
    /// them.
    Density { min: u32, current: u32, max: u32 },
    /// Another density and some more, up to a limit.
    Raised { base: AlphaRole, by: u32, at_most: u32 },
    /// The content's own density, but no less than that of surfaces.
    AtLeastSurface { min: u32, current: u32, max: u32 },
}

/// How a density of a material is found; none where the theme's own colours
/// stay.
pub open spec fn density_rule(material: WindowBackgroundMaterial, role: AlphaRole) -> Option<
    AlphaRule,
> {
    match material {
        WindowBackgroundMaterial::Theme => None,
        WindowBackgroundMaterial::Acrylic => Some(
            match role {
                AlphaRole::Chrome => AlphaRule::Density { min: 80, current: 340, max: 720 },
                AlphaRole::Background => AlphaRule::Density { min: 40, current: 240, max: 580 },
                AlphaRole::Surface => AlphaRule::Density { min: 40, current: 240, max: 580 },
                AlphaRole::Elevated => AlphaRule::Density { min: 60, current: 300, max: 660 },
                AlphaRole::Content => AlphaRule::AtLeastSurface { min: 30, current: 220, max: 560 },
                AlphaRole::Overlay => AlphaRule::Density { min: 80, current: 300, max: 720 },
                AlphaRole::Hover => AlphaRule::Raised {
                    base: AlphaRole::Overlay,
                    by: 10,
                    at_most: 940,
                },
                AlphaRole::Active => AlphaRule::Raised {
                    base: AlphaRole::Overlay,
                    by: 30,
                    at_most: 960,
                },
                AlphaRole::Selected => AlphaRule::Raised {
                    base: AlphaRole::Overlay,
                    by: 50,
                    at_most: 980,
                },
                AlphaRole::Popup => AlphaRule::Raised {
                    base: AlphaRole::Elevated,
                    by: 40,
                    at_most: 970,
                },
                AlphaRole::PopupHover => AlphaRule::Raised {
                    base: AlphaRole::Popup,
                    by: 20,
                    at_most: 990,
                },
            },
        ),
        WindowBackgroundMaterial::Mica => Some(
            match role {
                AlphaRole::Chrome => AlphaRule::Density { min: 40, current: 140, max: 300 },
                AlphaRole::Background => AlphaRule::Density { min: 20, current: 70, max: 160 },
                AlphaRole::Surface => AlphaRule::Density { min: 40, current: 90, max: 220 },
                AlphaRole::Elevated => AlphaRule::Density { min: 60, current: 120, max: 280 },
                AlphaRole::Content => AlphaRule::Density { min: 40, current: 80, max: 220 },
                AlphaRole::Overlay => AlphaRule::Density { min: 80, current: 160, max: 340 },
                AlphaRole::Hover => AlphaRule::Raised {
                    base: AlphaRole::Overlay,
                    by: 25,
                    at_most: 600,
                },
                AlphaRole::Active => AlphaRule::Raised {
                    base: AlphaRole::Overlay,
                    by: 50,
                    at_most: 680,
                },
                AlphaRole::Selected => AlphaRule::Raised {
                    base: AlphaRole::Overlay,
                    by: 80,
                    at_most: 760,
                },
                AlphaRole::Popup => AlphaRule::Raised {
                    base: AlphaRole::Overlay,
                    by: 60,
                    at_most: 780,
                },
                AlphaRole::PopupHover => AlphaRule::Raised {
                    base: AlphaRole::Popup,
                    by: 35,
                    at_most: 840,
                },
            },
        ),
        WindowBackgroundMaterial::MicaAlt => Some(
            match role {
                AlphaRole::Chrome => AlphaRule::Density { min: 60, current: 200, max: 400 },
                AlphaRole::Background => AlphaRule::Density { min: 30, current: 90, max: 200 },
                AlphaRole::Surface => AlphaRule::Density { min: 50, current: 120, max: 260 },
                AlphaRole::Elevated => AlphaRule::Density { min: 80, current: 160, max: 340 },
                AlphaRole::Content => AlphaRule::Density { min: 50, current: 100, max: 240 },
                AlphaRole::Overlay => AlphaRule::Density { min: 100, current: 200, max: 380 },
                AlphaRole::Hover => AlphaRule::Raised {
                    base: AlphaRole::Overlay,
                    by: 25,
                    at_most: 600,
                },
                AlphaRole::Active => AlphaRule::Raised {
                    base: AlphaRole::Overlay,
                    by: 50,
                    at_most: 680,
                },
                AlphaRole::Selected => AlphaRule::Raised {
                    base: AlphaRole::Overlay,
                    by: 80,
                    at_most: 760,
                },
                AlphaRole::Popup => AlphaRule::Raised {
                    base: AlphaRole::Overlay,
                    by: 60,
                    at_most: 780,
                },
                AlphaRole::PopupHover => AlphaRule::Raised {
                    base: AlphaRole::Popup,
                    by: 35,
                    at_most: 840,
                },
            },
        ),
    }
}

/// How a density of a material is found.
pub fn alpha_rule(material: WindowBackgroundMaterial, role: AlphaRole) -> (r: Option<AlphaRule>)
    ensures
        r == density_rule(material, role),
{
    match material {
        WindowBackgroundMaterial::Theme => None,
        WindowBackgroundMaterial::Acrylic => Some(
            match role {
                AlphaRole::Chrome => AlphaRule::Density { min: 80, current: 340, max: 720 },
                AlphaRole::Background => AlphaRule::Density { min: 40, current: 240, max: 580 },
                AlphaRole::Surface => AlphaRule::Density { min: 40, current: 240, max: 580 },
                AlphaRole::Elevated => AlphaRule::Density { min: 60, current: 300, max: 660 },
                AlphaRole::Content => AlphaRule::AtLeastSurface { min: 30, current: 220, max: 560 },
                AlphaRole::Overlay => AlphaRule::Density { min: 80, current: 300, max: 720 },
                AlphaRole::Hover => AlphaRule::Raised {
                    base: AlphaRole::Overlay,
                    by: 10,
                    at_most: 940,
                },
                AlphaRole::Active => AlphaRule::Raised {
                    base: AlphaRole::Overlay,
                    by: 30,
                    at_most: 960,
                },
                AlphaRole::Selected => AlphaRule::Raised {
                    base: AlphaRole::Overlay,
                    by: 50,
                    at_most: 980,
                },
                AlphaRole::Popup => AlphaRule::Raised {
                    base: AlphaRole::Elevated,
                    by: 40,
                    at_most: 970,
                },
                AlphaRole::PopupHover => AlphaRule::Raised {
                    base: AlphaRole::Popup,
                    by: 20,
                    at_most: 990,
                },
            },
        ),
        WindowBackgroundMaterial::Mica => Some(
            match role {
                AlphaRole::Chrome => AlphaRule::Density { min: 40, current: 140, max: 300 },
                AlphaRole::Background => AlphaRule::Density { min: 20, current: 70, max: 160 },
                AlphaRole::Surface => AlphaRule::Density { min: 40, current: 90, max: 220 },
                AlphaRole::Elevated => AlphaRule::Density { min: 60, current: 120, max: 280 },
                AlphaRole::Content => AlphaRule::Density { min: 40, current: 80, max: 220 },
                AlphaRole::Overlay => AlphaRule::Density { min: 80, current: 160, max: 340 },
                AlphaRole::Hover => AlphaRule::Raised {
                    base: AlphaRole::Overlay,
                    by: 25,
                    at_most: 600,
                },
                AlphaRole::Active => AlphaRule::Raised {
                    base: AlphaRole::Overlay,
                    by: 50,
                    at_most: 680,
                },
                AlphaRole::Selected => AlphaRule::Raised {
                    base: AlphaRole::Overlay,
                    by: 80,
                    at_most: 760,
                },
                AlphaRole::Popup => AlphaRule::Raised {
                    base: AlphaRole::Overlay,
                    by: 60,
                    at_most: 780,
                },
                AlphaRole::PopupHover => AlphaRule::Raised {
                    base: AlphaRole::Popup,
                    by: 35,
                    at_most: 840,
                },
            },
        ),
        WindowBackgroundMaterial::MicaAlt => Some(
            match role {
                AlphaRole::Chrome => AlphaRule::Density { min: 60, current: 200, max: 400 },
                AlphaRole::Background => AlphaRule::Density { min: 30, current: 90, max: 200 },
                AlphaRole::Surface => AlphaRule::Density { min: 50, current: 120, max: 260 },
                AlphaRole::Elevated => AlphaRule::Density { min: 80, current: 160, max: 340 },
                AlphaRole::Content => AlphaRule::Density { min: 50, current: 100, max: 240 },
                AlphaRole::Overlay => AlphaRule::Density { min: 100, current: 200, max: 380 },
                AlphaRole::Hover => AlphaRule::Raised {
                    base: AlphaRole::Overlay,
                    by: 25,
                    at_most: 600,
                },
                AlphaRole::Active => AlphaRule::Raised {
                    base: AlphaRole::Overlay,
                    by: 50,
                    at_most: 680,
                },
                AlphaRole::Selected => AlphaRule::Raised {
                    base: AlphaRole::Overlay,
                    by: 80,
                    at_most: 760,
                },
                AlphaRole::Popup => AlphaRule::Raised {
                    base: AlphaRole::Overlay,
                    by: 60,
                    at_most: 780,
                },
                AlphaRole::PopupHover => AlphaRule::Raised {
                    base: AlphaRole::Popup,
                    by: 35,
                    at_most: 840,
                },
            },
        ),
    }
}

// ---------------------------------------------------------------------------
// Colours

/// The colours that a material mixes and uses more than once.
#[derive(Clone, Copy, Debug, PartialEq, Eq, Structural)]
pub enum Shade {
    TitleBar,
    TitleBarInactive,
    Background,
    Surface,
    Elevated,
    Content,
}

/// The colours of a theme that a material replaces.
#[derive(Clone, Copy, Debug, PartialEq, Eq, Structural)]
pub enum ColorSlot {
    Background,
    SurfaceBackground,
    ElevatedSurfaceBackground,
    ElementBackground,
    ElementHover,
    ElementActive,
    ElementSelected,
    ElementDisabled,
    GhostElementBackground,
    GhostElementHover,
    GhostElementActive,
    GhostElementSelected,
    GhostElementDisabled,
    TitleBarBackground,
    TitleBarInactiveBackground,
    ToolbarBackground,
    TabBarBackground,
    TabInactiveBackground,
    TabActiveBackground,
    StatusBarBackground,
    PanelBackground,
    PanelOverlayBackground,
    PanelOverlayHover,
    ScrollbarTrackBackground,
    EditorBackground,
    EditorGutterBackground,
    EditorSubheaderBackground,
    EditorActiveLineBackground,
    EditorHighlightedLineBackground,
    EditorDebuggerActiveLineBackground,
    TerminalBackground,
    TerminalAnsiBackground,
    DropTargetBackground,
    SearchMatchBackground,
    SearchActiveMatchBackground,
    VimYankBackground,
    EditorDocumentHighlightReadBackground,
    EditorDocumentHighlightWriteBackground,
    EditorDocumentHighlightBracketBackground,
}

/// A colour to mix: one of the theme, as the theme has it, or a mixed one.
#[derive(Clone, Copy, Debug, PartialEq, Eq, Structural)]
pub enum Ingredient {
    Own(ColorSlot),
    Mixed(Shade),
}

/// How a shade is mixed: over `base` comes `tint` with a strength in
/// thousandths, and the result gets a density.
#[derive(Clone, Copy, Debug, PartialEq, Eq, Structural)]
pub struct Mix {
    pub base: Ingredient,
    pub tint: Ingredient,
    pub strength: u32,
    pub alpha: AlphaRole,
}

/// How a shade of a material is mixed; none where the theme's own colours stay.
/// Acrylic has one shade for the background and the surfaces.
pub open spec fn shade_mix(material: WindowBackgroundMaterial, shade: Shade) -> Option<Mix> {
    match material {
        WindowBackgroundMaterial::Theme => None,
        WindowBackgroundMaterial::Acrylic => Some(
            match shade {
                Shade::TitleBar => Mix {
                    base: Ingredient::Own(ColorSlot::TitleBarBackground),
                    tint: Ingredient::Own(ColorSlot::Background),
                    strength: 80,
                    alpha: AlphaRole::Chrome,
                },
                Shade::TitleBarInactive => Mix {
                    base: Ingredient::Own(ColorSlot::TitleBarInactiveBackground),
                    tint: Ingredient::Own(ColorSlot::SurfaceBackground),
                    strength: 80,
                    alpha: AlphaRole::Chrome,
                },
                Shade::Background => Mix {
                    base: Ingredient::Mixed(Shade::TitleBar),
                    tint: Ingredient::Own(ColorSlot::PanelBackground),
                    strength: 300,
                    alpha: AlphaRole::Surface,
                },
                Shade::Surface => Mix {
                    base: Ingredient::Mixed(Shade::TitleBar),
                    tint: Ingredient::Own(ColorSlot::PanelBackground),
                    strength: 300,
                    alpha: AlphaRole::Surface,
                },
                Shade::Elevated => Mix {
                    base: Ingredient::Mixed(Shade::TitleBar),
                    tint: Ingredient::Own(ColorSlot::ElevatedSurfaceBackground),
                    strength: 360,
                    alpha: AlphaRole::Elevated,
                },
                Shade::Content => Mix {
                    base: Ingredient::Mixed(Shade::Surface),
                    tint: Ingredient::Own(ColorSlot::EditorBackground),
                    strength: 40,
                    alpha: AlphaRole::Content,
                },
            },
        ),
        WindowBackgroundMaterial::Mica => Some(
            match shade {
                Shade::TitleBar => Mix {
                    base: Ingredient::Own(ColorSlot::TitleBarBackground),
                    tint: Ingredient::Own(ColorSlot::Background),
                    strength: 35,
                    alpha: AlphaRole::Chrome,
                },
                Shade::TitleBarInactive => Mix {
                    base: Ingredient::Own(ColorSlot::TitleBarInactiveBackground),
                    tint: Ingredient::Own(ColorSlot::SurfaceBackground),
                    strength: 35,
                    alpha: AlphaRole::Chrome,
                },
                Shade::Background => Mix {
                    base: Ingredient::Own(ColorSlot::Background),
                    tint: Ingredient::Mixed(Shade::TitleBar),
                    strength: 10,
                    alpha: AlphaRole::Background,
                },
                Shade::Surface => Mix {
                    base: Ingredient::Own(ColorSlot::SurfaceBackground),
                    tint: Ingredient::Mixed(Shade::TitleBar),
                    strength: 25,
                    alpha: AlphaRole::Surface,
                },
                Shade::Elevated => Mix {
                    base: Ingredient::Own(ColorSlot::ElevatedSurfaceBackground),
                    tint: Ingredient::Mixed(Shade::TitleBar),
                    strength: 40,
                    alpha: AlphaRole::Elevated,
                },
                Shade::Content => Mix {
                    base: Ingredient::Own(ColorSlot::EditorBackground),
                    tint: Ingredient::Mixed(Shade::Surface),
                    strength: 20,
                    alpha: AlphaRole::Content,
                },
            },
        ),
        WindowBackgroundMaterial::MicaAlt => Some(
            match shade {
                Shade::TitleBar => Mix {
                    base: Ingredient::Own(ColorSlot::TitleBarBackground),
                    tint: Ingredient::Own(ColorSlot::Background),
                    strength: 35,
                    alpha: AlphaRole::Chrome,
                },
                Shade::TitleBarInactive => Mix {
                    base: Ingredient::Own(ColorSlot::TitleBarInactiveBackground),
                    tint: Ingredient::Own(ColorSlot::SurfaceBackground),
                    strength: 35,
                    alpha: AlphaRole::Chrome,
                },
                Shade::Background => Mix {
                    base: Ingredient::Own(ColorSlot::Background),
                    tint: Ingredient::Mixed(Shade::TitleBar),
                    strength: 15,
                    alpha: AlphaRole::Background,
                },
                Shade::Surface => Mix {
                    base: Ingredient::Own(ColorSlot::SurfaceBackground),
                    tint: Ingredient::Mixed(Shade::TitleBar),
                    strength: 35,
                    alpha: AlphaRole::Surface,
                },
                Shade::Elevated => Mix {
                    base: Ingredient::Own(ColorSlot::ElevatedSurfaceBackground),
                    tint: Ingredient::Mixed(Shade::TitleBar),
                    strength: 55,
                    alpha: AlphaRole::Elevated,
                },
                Shade::Content => Mix {
                    base: Ingredient::Own(ColorSlot::EditorBackground),
                    tint: Ingredient::Mixed(Shade::Surface),
                    strength: 25,
                    alpha: AlphaRole::Content,
                },
            },
        ),
    }
}

/// How a shade of a material is mixed.
pub fn mix_for(material: WindowBackgroundMaterial, shade: Shade) -> (r: Option<Mix>)
    ensures
        r == shade_mix(material, shade),
{
    match material {
        WindowBackgroundMaterial::Theme => None,
        WindowBackgroundMaterial::Acrylic => Some(
            match shade {
                Shade::TitleBar => Mix {
                    base: Ingredient::Own(ColorSlot::TitleBarBackground),
                    tint: Ingredient::Own(ColorSlot::Background),
                    strength: 80,
                    alpha: AlphaRole::Chrome,
                },
                Shade::TitleBarInactive => Mix {
                    base: Ingredient::Own(ColorSlot::TitleBarInactiveBackground),
                    tint: Ingredient::Own(ColorSlot::SurfaceBackground),
                    strength: 80,
                    alpha: AlphaRole::Chrome,
                },
                Shade::Background => Mix {
                    base: Ingredient::Mixed(Shade::TitleBar),
                    tint: Ingredient::Own(ColorSlot::PanelBackground),
                    strength: 300,
                    alpha: AlphaRole::Surface,
                },
                Shade::Surface => Mix {
                    base: Ingredient::Mixed(Shade::TitleBar),
                    tint: Ingredient::Own(ColorSlot::PanelBackground),
                    strength: 300,
                    alpha: AlphaRole::Surface,
                },
                Shade::Elevated => Mix {
                    base: Ingredient::Mixed(Shade::TitleBar),
                    tint: Ingredient::Own(ColorSlot::ElevatedSurfaceBackground),
                    strength: 360,
                    alpha: AlphaRole::Elevated,
                },
                Shade::Content => Mix {
                    base: Ingredient::Mixed(Shade::Surface),
                    tint: Ingredient::Own(ColorSlot::EditorBackground),
                    strength: 40,
                    alpha: AlphaRole::Content,
                },
            },
        ),
        WindowBackgroundMaterial::Mica => Some(
            match shade {
                Shade::TitleBar => Mix {
                    base: Ingredient::Own(ColorSlot::TitleBarBackground),
                    tint: Ingredient::Own(ColorSlot::Background),
                    strength: 35,
                    alpha: AlphaRole::Chrome,
                },
                Shade::TitleBarInactive => Mix {
                    base: Ingredient::Own(ColorSlot::TitleBarInactiveBackground),
                    tint: Ingredient::Own(ColorSlot::SurfaceBackground),
                    strength: 35,
                    alpha: AlphaRole::Chrome,
                },
                Shade::Background => Mix {
                    base: Ingredient::Own(ColorSlot::Background),
                    tint: Ingredient::Mixed(Shade::TitleBar),
                    strength: 10,
                    alpha: AlphaRole::Background,
                },
                Shade::Surface => Mix {
                    base: Ingredient::Own(ColorSlot::SurfaceBackground),
                    tint: Ingredient::Mixed(Shade::TitleBar),
                    strength: 25,
                    alpha: AlphaRole::Surface,
                },
                Shade::Elevated => Mix {
                    base: Ingredient::Own(ColorSlot::ElevatedSurfaceBackground),
                    tint: Ingredient::Mixed(Shade::TitleBar),
                    strength: 40,
                    alpha: AlphaRole::Elevated,
                },
                Shade::Content => Mix {
                    base: Ingredient::Own(ColorSlot::EditorBackground),
                    tint: Ingredient::Mixed(Shade::Surface),
                    strength: 20,
                    alpha: AlphaRole::Content,
                },
            },
        ),
        WindowBackgroundMaterial::MicaAlt => Some(
            match shade {
                Shade::TitleBar => Mix {
                    base: Ingredient::Own(ColorSlot::TitleBarBackground),
                    tint: Ingredient::Own(ColorSlot::Background),
                    strength: 35,
                    alpha: AlphaRole::Chrome,
                },
                Shade::TitleBarInactive => Mix {
                    base: Ingredient::Own(ColorSlot::TitleBarInactiveBackground),
                    tint: Ingredient::Own(ColorSlot::SurfaceBackground),
                    strength: 35,
                    alpha: AlphaRole::Chrome,
                },
                Shade::Background => Mix {
                    base: Ingredient::Own(ColorSlot::Background),
                    tint: Ingredient::Mixed(Shade::TitleBar),
                    strength: 15,
                    alpha: AlphaRole::Background,
                },
                Shade::Surface => Mix {
                    base: Ingredient::Own(ColorSlot::SurfaceBackground),
                    tint: Ingredient::Mixed(Shade::TitleBar),
                    strength: 35,
                    alpha: AlphaRole::Surface,
                },
                Shade::Elevated => Mix {
                    base: Ingredient::Own(ColorSlot::ElevatedSurfaceBackground),
                    tint: Ingredient::Mixed(Shade::TitleBar),
                    strength: 55,
                    alpha: AlphaRole::Elevated,
                },
                Shade::Content => Mix {
                    base: Ingredient::Own(ColorSlot::EditorBackground),
                    tint: Ingredient::Mixed(Shade::Surface),
                    strength: 25,
                    alpha: AlphaRole::Content,
                },
            },
        ),
    }
}

/// What becomes of a colour of the theme.
#[derive(Clone, Copy, Debug, PartialEq, Eq, Structural)]
pub enum Recipe {
    /// The shade.
    Copy(Shade),
    /// The shade, wholly transparent.
    Clear(Shade),
    /// The shade, with the theme's colour over it.
    Over { shade: Shade, strength: u32, alpha: AlphaRole },
    /// The theme's colour, with the shade over it.
    Under { shade: Shade, strength: u32, alpha: AlphaRole },
    /// The theme's colour, no denser than the given density.
    Cap(AlphaRole),
}

/// What Acrylic makes of a colour of the theme.
pub open spec fn acrylic_recipe(slot: ColorSlot) -> Recipe {
    match slot {
        ColorSlot::Background
        | ColorSlot::SurfaceBackground
        | ColorSlot::ToolbarBackground
        | ColorSlot::TabBarBackground
        | ColorSlot::StatusBarBackground
        | ColorSlot::ScrollbarTrackBackground => Recipe::Copy(Shade::Surface),
        ColorSlot::ElevatedSurfaceBackground
        | ColorSlot::ElementBackground => Recipe::Copy(Shade::Elevated),
        ColorSlot::ElementHover
        | ColorSlot::GhostElementHover => Recipe::Over { shade: Shade::Surface, strength: 100, alpha: AlphaRole::Hover },
        ColorSlot::ElementActive
        | ColorSlot::GhostElementActive => Recipe::Over { shade: Shade::Surface, strength: 140, alpha: AlphaRole::Active },
        ColorSlot::ElementSelected
        | ColorSlot::GhostElementSelected => Recipe::Over { shade: Shade::Elevated, strength: 160, alpha: AlphaRole::Selected },
        ColorSlot::ElementDisabled => Recipe::Over { shade: Shade::Surface, strength: 80, alpha: AlphaRole::Surface },
        ColorSlot::GhostElementBackground
        | ColorSlot::GhostElementDisabled => Recipe::Clear(Shade::Surface),
        ColorSlot::TitleBarBackground => Recipe::Copy(Shade::TitleBar),
        ColorSlot::TitleBarInactiveBackground => Recipe::Copy(Shade::TitleBarInactive),
        ColorSlot::TabInactiveBackground => Recipe::Over { shade: Shade::Surface, strength: 50, alpha: AlphaRole::Surface },
        ColorSlot::TabActiveBackground => Recipe::Over { shade: Shade::Elevated, strength: 60, alpha: AlphaRole::Elevated },
        ColorSlot::PanelBackground
        | ColorSlot::EditorBackground
        | ColorSlot::EditorGutterBackground
        | ColorSlot::TerminalBackground
        | ColorSlot::TerminalAnsiBackground => Recipe::Copy(Shade::Content),
        ColorSlot::PanelOverlayBackground => Recipe::Over { shade: Shade::Elevated, strength: 60, alpha: AlphaRole::Popup },
        ColorSlot::PanelOverlayHover => Recipe::Over { shade: Shade::Elevated, strength: 100, alpha: AlphaRole::PopupHover },
        ColorSlot::EditorSubheaderBackground => Recipe::Over { shade: Shade::Elevated, strength: 50, alpha: AlphaRole::Elevated },
        ColorSlot::EditorActiveLineBackground => Recipe::Over { shade: Shade::Content, strength: 80, alpha: AlphaRole::Hover },
        ColorSlot::EditorHighlightedLineBackground => Recipe::Over { shade: Shade::Content, strength: 120, alpha: AlphaRole::Active },
        ColorSlot::EditorDebuggerActiveLineBackground => Recipe::Over { shade: Shade::Content, strength: 220, alpha: AlphaRole::Active },
        ColorSlot::DropTargetBackground
        | ColorSlot::VimYankBackground
        | ColorSlot::EditorDocumentHighlightReadBackground
        | ColorSlot::EditorDocumentHighlightWriteBackground
        | ColorSlot::EditorDocumentHighlightBracketBackground => Recipe::Cap(AlphaRole::Overlay),
        ColorSlot::SearchMatchBackground
        | ColorSlot::SearchActiveMatchBackground => Recipe::Cap(AlphaRole::Elevated),
    }
}

/// What Mica makes of a colour of the theme.
pub open spec fn mica_recipe(slot: ColorSlot) -> Recipe {
    match slot {
        ColorSlot::Background
        | ColorSlot::ScrollbarTrackBackground => Recipe::Copy(Shade::Background),
        ColorSlot::SurfaceBackground
        | ColorSlot::TabBarBackground => Recipe::Copy(Shade::Surface),
        ColorSlot::ElevatedSurfaceBackground => Recipe::Copy(Shade::Elevated),
        ColorSlot::ElementBackground => Recipe::Under { shade: Shade::Elevated, strength: 100, alpha: AlphaRole::Elevated },
        ColorSlot::ElementHover
        | ColorSlot::GhostElementHover => Recipe::Over { shade: Shade::Surface, strength: 80, alpha: AlphaRole::Hover },
        ColorSlot::ElementActive
        | ColorSlot::GhostElementActive => Recipe::Over { shade: Shade::Surface, strength: 100, alpha: AlphaRole::Active },
        ColorSlot::ElementSelected
        | ColorSlot::GhostElementSelected => Recipe::Over { shade: Shade::Elevated, strength: 120, alpha: AlphaRole::Selected },
        ColorSlot::ElementDisabled => Recipe::Over { shade: Shade::Surface, strength: 60, alpha: AlphaRole::Surface },
        ColorSlot::GhostElementBackground
        | ColorSlot::GhostElementDisabled => Recipe::Clear(Shade::Surface),
        ColorSlot::TitleBarBackground => Recipe::Copy(Shade::TitleBar),
        ColorSlot::TitleBarInactiveBackground => Recipe::Copy(Shade::TitleBarInactive),
        ColorSlot::ToolbarBackground => Recipe::Under { shade: Shade::Surface, strength: 60, alpha: AlphaRole::Surface },
        ColorSlot::TabInactiveBackground
        | ColorSlot::PanelBackground => Recipe::Under { shade: Shade::Surface, strength: 50, alpha: AlphaRole::Surface },
        ColorSlot::TabActiveBackground => Recipe::Under { shade: Shade::Elevated, strength: 80, alpha: AlphaRole::Elevated },
        ColorSlot::StatusBarBackground => Recipe::Under { shade: Shade::Background, strength: 40, alpha: AlphaRole::Background },
        ColorSlot::PanelOverlayBackground => Recipe::Under { shade: Shade::Elevated, strength: 100, alpha: AlphaRole::Popup },
        ColorSlot::PanelOverlayHover => Recipe::Under { shade: Shade::Elevated, strength: 120, alpha: AlphaRole::PopupHover },
        ColorSlot::EditorBackground
        | ColorSlot::EditorGutterBackground
        | ColorSlot::TerminalBackground
        | ColorSlot::TerminalAnsiBackground => Recipe::Copy(Shade::Content),
        ColorSlot::EditorSubheaderBackground => Recipe::Under { shade: Shade::Elevated, strength: 60, alpha: AlphaRole::Elevated },
        ColorSlot::EditorActiveLineBackground => Recipe::Over { shade: Shade::Content, strength: 80, alpha: AlphaRole::Hover },
        ColorSlot::EditorHighlightedLineBackground => Recipe::Over { shade: Shade::Content, strength: 100, alpha: AlphaRole::Active },
        ColorSlot::EditorDebuggerActiveLineBackground => Recipe::Over { shade: Shade::Content, strength: 200, alpha: AlphaRole::Active },
        ColorSlot::DropTargetBackground
        | ColorSlot::VimYankBackground
        | ColorSlot::EditorDocumentHighlightReadBackground
        | ColorSlot::EditorDocumentHighlightWriteBackground
        | ColorSlot::EditorDocumentHighlightBracketBackground => Recipe::Cap(AlphaRole::Overlay),
        ColorSlot::SearchMatchBackground
        | ColorSlot::SearchActiveMatchBackground => Recipe::Cap(AlphaRole::Elevated),
    }
}

/// What a material makes of a colour of the theme; none where that stays.
pub open spec fn slot_recipe(material: WindowBackgroundMaterial, slot: ColorSlot) -> Option<Recipe> {
    match material {
        WindowBackgroundMaterial::Theme => None,
        WindowBackgroundMaterial::Acrylic => Some(acrylic_recipe(slot)),
        WindowBackgroundMaterial::Mica => Some(mica_recipe(slot)),
        WindowBackgroundMaterial::MicaAlt => Some(mica_recipe(slot)),
    }
}

/// What a material makes of a colour of the theme; none where that stays.
pub fn apply_window_material_theme_overrides(
    material: WindowBackgroundMaterial,
    slot: ColorSlot,
) -> (r: Option<Recipe>)
    ensures
        r == slot_recipe(material, slot),
{
    match material {
        WindowBackgroundMaterial::Theme => None,
        WindowBackgroundMaterial::Acrylic => Some(
            match slot {
                ColorSlot::Background
                | ColorSlot::SurfaceBackground
                | ColorSlot::ToolbarBackground
                | ColorSlot::TabBarBackground
                | ColorSlot::StatusBarBackground
                | ColorSlot::ScrollbarTrackBackground => Recipe::Copy(Shade::Surface),
                ColorSlot::ElevatedSurfaceBackground
                | ColorSlot::ElementBackground => Recipe::Copy(Shade::Elevated),
                ColorSlot::ElementHover
                | ColorSlot::GhostElementHover => Recipe::Over { shade: Shade::Surface, strength: 100, alpha: AlphaRole::Hover },
                ColorSlot::ElementActive
                | ColorSlot::GhostElementActive => Recipe::Over { shade: Shade::Surface, strength: 140, alpha: AlphaRole::Active },
                ColorSlot::ElementSelected
                | ColorSlot::GhostElementSelected => Recipe::Over { shade: Shade::Elevated, strength: 160, alpha: AlphaRole::Selected },
                ColorSlot::ElementDisabled => Recipe::Over { shade: Shade::Surface, strength: 80, alpha: AlphaRole::Surface },
                ColorSlot::GhostElementBackground
                | ColorSlot::GhostElementDisabled => Recipe::Clear(Shade::Surface),
                ColorSlot::TitleBarBackground => Recipe::Copy(Shade::TitleBar),
                ColorSlot::TitleBarInactiveBackground => Recipe::Copy(Shade::TitleBarInactive),
                ColorSlot::TabInactiveBackground => Recipe::Over { shade: Shade::Surface, strength: 50, alpha: AlphaRole::Surface },
                ColorSlot::TabActiveBackground => Recipe::Over { shade: Shade::Elevated, strength: 60, alpha: AlphaRole::Elevated },
                ColorSlot::PanelBackground
                | ColorSlot::EditorBackground
                | ColorSlot::EditorGutterBackground
                | ColorSlot::TerminalBackground
                | ColorSlot::TerminalAnsiBackground => Recipe::Copy(Shade::Content),
                ColorSlot::PanelOverlayBackground => Recipe::Over { shade: Shade::Elevated, strength: 60, alpha: AlphaRole::Popup },
                ColorSlot::PanelOverlayHover => Recipe::Over { shade: Shade::Elevated, strength: 100, alpha: AlphaRole::PopupHover },
                ColorSlot::EditorSubheaderBackground => Recipe::Over { shade: Shade::Elevated, strength: 50, alpha: AlphaRole::Elevated },
                ColorSlot::EditorActiveLineBackground => Recipe::Over { shade: Shade::Content, strength: 80, alpha: AlphaRole::Hover },
                ColorSlot::EditorHighlightedLineBackground => Recipe::Over { shade: Shade::Content, strength: 120, alpha: AlphaRole::Active },
                ColorSlot::EditorDebuggerActiveLineBackground => Recipe::Over { shade: Shade::Content, strength: 220, alpha: AlphaRole::Active },
                ColorSlot::DropTargetBackground
                | ColorSlot::VimYankBackground
                | ColorSlot::EditorDocumentHighlightReadBackground
                | ColorSlot::EditorDocumentHighlightWriteBackground
                | ColorSlot::EditorDocumentHighlightBracketBackground => Recipe::Cap(AlphaRole::Overlay),
                ColorSlot::SearchMatchBackground
                | ColorSlot::SearchActiveMatchBackground => Recipe::Cap(AlphaRole::Elevated),
            },
        ),
        _ => Some(
            match slot {
                ColorSlot::Background
                | ColorSlot::ScrollbarTrackBackground => Recipe::Copy(Shade::Background),
                ColorSlot::SurfaceBackground
                | ColorSlot::TabBarBackground => Recipe::Copy(Shade::Surface),
                ColorSlot::ElevatedSurfaceBackground => Recipe::Copy(Shade::Elevated),
                ColorSlot::ElementBackground => Recipe::Under { shade: Shade::Elevated, strength: 100, alpha: AlphaRole::Elevated },
                ColorSlot::ElementHover
                | ColorSlot::GhostElementHover => Recipe::Over { shade: Shade::Surface, strength: 80, alpha: AlphaRole::Hover },
                ColorSlot::ElementActive
                | ColorSlot::GhostElementActive => Recipe::Over { shade: Shade::Surface, strength: 100, alpha: AlphaRole::Active },
                ColorSlot::ElementSelected
                | ColorSlot::GhostElementSelected => Recipe::Over { shade: Shade::Elevated, strength: 120, alpha: AlphaRole::Selected },
                ColorSlot::ElementDisabled => Recipe::Over { shade: Shade::Surface, strength: 60, alpha: AlphaRole::Surface },
                ColorSlot::GhostElementBackground
                | ColorSlot::GhostElementDisabled => Recipe::Clear(Shade::Surface),
                ColorSlot::TitleBarBackground => Recipe::Copy(Shade::TitleBar),
                ColorSlot::TitleBarInactiveBackground => Recipe::Copy(Shade::TitleBarInactive),
                ColorSlot::ToolbarBackground => Recipe::Under { shade: Shade::Surface, strength: 60, alpha: AlphaRole::Surface },
                ColorSlot::TabInactiveBackground
                | ColorSlot::PanelBackground => Recipe::Under { shade: Shade::Surface, strength: 50, alpha: AlphaRole::Surface },
                ColorSlot::TabActiveBackground => Recipe::Under { shade: Shade::Elevated, strength: 80, alpha: AlphaRole::Elevated },
                ColorSlot::StatusBarBackground => Recipe::Under { shade: Shade::Background, strength: 40, alpha: AlphaRole::Background },
                ColorSlot::PanelOverlayBackground => Recipe::Under { shade: Shade::Elevated, strength: 100, alpha: AlphaRole::Popup },
                ColorSlot::PanelOverlayHover => Recipe::Under { shade: Shade::Elevated, strength: 120, alpha: AlphaRole::PopupHover },
                ColorSlot::EditorBackground
                | ColorSlot::EditorGutterBackground
                | ColorSlot::TerminalBackground
                | ColorSlot::TerminalAnsiBackground => Recipe::Copy(Shade::Content),
                ColorSlot::EditorSubheaderBackground => Recipe::Under { shade: Shade::Elevated, strength: 60, alpha: AlphaRole::Elevated },
                ColorSlot::EditorActiveLineBackground => Recipe::Over { shade: Shade::Content, strength: 80, alpha: AlphaRole::Hover },
                ColorSlot::EditorHighlightedLineBackground => Recipe::Over { shade: Shade::Content, strength: 100, alpha: AlphaRole::Active },
                ColorSlot::EditorDebuggerActiveLineBackground => Recipe::Over { shade: Shade::Content, strength: 200, alpha: AlphaRole::Active },
                ColorSlot::DropTargetBackground
                | ColorSlot::VimYankBackground
                | ColorSlot::EditorDocumentHighlightReadBackground
                | ColorSlot::EditorDocumentHighlightWriteBackground
                | ColorSlot::EditorDocumentHighlightBracketBackground => Recipe::Cap(AlphaRole::Overlay),
                ColorSlot::SearchMatchBackground
                | ColorSlot::SearchActiveMatchBackground => Recipe::Cap(AlphaRole::Elevated),
            },
        ),
    }
}

/// What a material in force makes of a colour of the theme; none where that
/// stays, as it does on other systems than Windows.
pub fn apply_system_window_material_overrides(
    chosen: WindowBackgroundMaterial,
    slot: ColorSlot,
    on_windows: bool,
) -> (r: Option<Recipe>)
    ensures
        r == slot_recipe(material_in_force(chosen, on_windows), slot),
{
    apply_window_material_theme_overrides(
        current_window_background_material(chosen, on_windows),
        slot,
    )
}

/// The opacity that users have as long as they choose none, in thousandths.
pub const WINDOW_BACKGROUND_MATERIAL_DEFAULT_OPACITY: u32 = 350;

/// The alpha from which on a surface counts as opaque, in thousandths.
pub const OPAQUE_FROM: u32 = 995;

/// What is done with a surface that is drawn on a material.
#[derive(Clone, Copy, Debug, PartialEq, Eq, Structural)]
pub enum SurfaceTreatment {
    /// It keeps its colour.
    Keep,
    /// Its colour is mixed over that of the title bar, with no more than the
    /// given strength.
    OverTitleBar { at_most: u32 },
}

/// What is done with a surface that is drawn on the material in force: one that
/// is translucent has been mixed before.
pub fn material_surface_color(
    chosen: WindowBackgroundMaterial,
    on_windows: bool,
    translucent: bool,
) -> (r: SurfaceTreatment)
    ensures
        r == (if material_in_force(chosen, on_windows) == WindowBackgroundMaterial::Theme
            || translucent {
            SurfaceTreatment::Keep
        } else {
            SurfaceTreatment::OverTitleBar { at_most: 880 }
        }),
{
    if current_window_background_material(chosen, on_windows) == WindowBackgroundMaterial::Theme
        || translucent {
        SurfaceTreatment::Keep
    } else {
        SurfaceTreatment::OverTitleBar { at_most: 880 }
    }
}

/// How the ground of a popup is mixed, all in thousandths: over the opaque
/// colour of the title bar comes that of the panels, then that of the editor,
/// then the popup's own with no more than the given strength; the result gets
/// `alpha`.
#[derive(Clone, Copy, Debug, PartialEq, Eq, Structural)]
pub struct PopupMix {
    pub panel: u32,
    pub editor: u32,
    pub own_at_most: u32,
    pub alpha: u32,
}

/// How the ground of a popup is mixed, so that what is below it does not show
/// through; none where the popup keeps its colour.
pub fn material_popup_surface_color(chosen: WindowBackgroundMaterial, on_windows: bool) -> (r:
    Option<PopupMix>)
    ensures
        r == (if material_in_force(chosen, on_windows) == WindowBackgroundMaterial::Theme {
            None
        } else {
            Some((PopupMix { panel: 680, editor: 240, own_at_most: 960, alpha: 998 }))
        }),
{
    if current_window_background_material(chosen, on_windows) == WindowBackgroundMaterial::Theme {
        None
    } else {
        Some(PopupMix { panel: 680, editor: 240, own_at_most: 960, alpha: 998 })
    }
}

/// The theme's material changes no colour, and every other one gives a rule for
/// every colour.
pub proof fn only_materials_change_colors(material: WindowBackgroundMaterial, slot: ColorSlot)
    ensures
        slot_recipe(material, slot) is None <==> material == WindowBackgroundMaterial::Theme,
{
}

/// Every material stays translucent: what a density is found from stays below
/// the full one, and its values at no, the usual and the full opacity ascend.
pub proof fn materials_stay_translucent(material: WindowBackgroundMaterial, role: AlphaRole)
    ensures
        match density_rule(material, role) {
            Some(AlphaRule::Density { min, current, max }) => min <= current <= max < 1000,
            Some(AlphaRule::AtLeastSurface { min, current, max }) => min <= current <= max < 1000,
            Some(AlphaRule::Raised { base, by, at_most }) => at_most < 1000 && base != role,
            None => material == WindowBackgroundMaterial::Theme,
        },
{
}

/// Two densities that are raised from one base, by more and up to more, stand
/// in that order.
pub open spec fn raised_before(a: AlphaRule, b: AlphaRule) -> bool {
    match (a, b) {
        (
            AlphaRule::Raised { base, by, at_most },
            AlphaRule::Raised { base: base2, by: by2, at_most: at_most2 },
        ) => base == base2 && by <= by2 && at_most <= at_most2,
        _ => false,
    }
}

/// An element grows denser from being pointed at to being pressed to being
/// selected.
pub proof fn interaction_grows_denser(material: WindowBackgroundMaterial)
    requires
        material != WindowBackgroundMaterial::Theme,
    ensures
        raised_before(
            density_rule(material, AlphaRole::Hover)->0,
            density_rule(material, AlphaRole::Active)->0,
        ),
        raised_before(
            density_rule(material, AlphaRole::Active)->0,
            density_rule(material, AlphaRole::Selected)->0,
        ),
{
}

/// The regions in which text is edited all have one shade.
pub proof fn editor_regions_share_a_shade(material: WindowBackgroundMaterial)
    requires
        material != WindowBackgroundMaterial::Theme,
    ensures
        slot_recipe(material, ColorSlot::EditorBackground) == Some(Recipe::Copy(Shade::Content)),
        slot_recipe(material, ColorSlot::EditorGutterBackground) == Some(
            Recipe::Copy(Shade::Content),
        ),
        slot_recipe(material, ColorSlot::TerminalBackground) == Some(Recipe::Copy(Shade::Content)),
        slot_recipe(material, ColorSlot::TerminalAnsiBackground) == Some(
            Recipe::Copy(Shade::Content),
        ),
{
}

// ---------------------------------------------------------------------------
// The numbers of the materials

/// Whether a density follows the opacity between three values.
pub open spec fn is_density(r: Option<AlphaRule>, low: int, usual: int, high: int) -> bool {
    r matches Some(AlphaRule::Density { min, current, max }) && min == low && current == usual && max
        == high
}

/// Whether a density follows the opacity between three values, and is no less
/// than that of surfaces.
pub open spec fn is_at_least_surface(r: Option<AlphaRule>, low: int, usual: int, high: int) -> bool {
    r matches Some(AlphaRule::AtLeastSurface { min, current, max }) && min == low && current == usual
        && max == high
}

/// Whether a density is another one and some more, up to a limit.
pub open spec fn is_raised(r: Option<AlphaRule>, from: AlphaRole, more: int, limit: int) -> bool {
    r matches Some(AlphaRule::Raised { base, by, at_most }) && base == from && by == more && at_most
        == limit
}

/// Whether a shade is one colour with another over it.
pub open spec fn is_mix(
    m: Option<Mix>,
    below: Ingredient,
    above: Ingredient,
    share: int,
    density: AlphaRole,
) -> bool {
    m matches Some(x) && x.base == below && x.tint == above && x.strength == share && x.alpha == density
}

/// Whether a colour is a shade.
pub open spec fn is_copy(r: Option<Recipe>, of: Shade) -> bool {
    r matches Some(Recipe::Copy(s)) && s == of
}

/// Whether a colour is a shade that cannot be seen.
pub open spec fn is_clear(r: Option<Recipe>, of: Shade) -> bool {
    r matches Some(Recipe::Clear(s)) && s == of
}

/// Whether a colour is a shade with the theme's colour over it.
pub open spec fn is_over(r: Option<Recipe>, of: Shade, share: int, density: AlphaRole) -> bool {
    r matches Some(Recipe::Over { shade, strength, alpha }) && shade == of && strength == share && alpha
        == density
}

/// Whether a colour is the theme's colour with a shade over it.
pub open spec fn is_under(r: Option<Recipe>, of: Shade, share: int, density: AlphaRole) -> bool {
    r matches Some(Recipe::Under { shade, strength, alpha }) && shade == of && strength == share
        && alpha == density
}

/// Whether a colour is the theme's colour with its density limited.
pub open spec fn is_capped(r: Option<Recipe>, density: AlphaRole) -> bool {
    r matches Some(Recipe::Cap(a)) && a == density
}

/// A material decides how the window is drawn, and the theme where none is
/// chosen; materials are there on Windows only.
pub proof fn materials_are_for_windows(
    m: WindowBackgroundMaterial,
    own: WindowBackgroundAppearance,
)
    ensures
        material_in_force(m, true) == m,
        material_in_force(m, false) is Theme,
        material_appearance(WindowBackgroundMaterial::Theme, own) == own,
        material_appearance(WindowBackgroundMaterial::Acrylic, own) is Blurred,
        material_appearance(WindowBackgroundMaterial::Mica, own) is MicaBackdrop,
        material_appearance(WindowBackgroundMaterial::MicaAlt, own) is MicaAltBackdrop,
        WINDOW_BACKGROUND_MATERIAL_DEFAULT_OPACITY == 350,
        OPAQUE_FROM == 995,
{
}

/// The densities of acrylic, in thousandths.
pub proof fn densities_of_acrylic()
    ensures
        ({
            let m = WindowBackgroundMaterial::Acrylic;
            &&& is_density(density_rule(m, AlphaRole::Chrome), 80, 340, 720)
            &&& is_density(density_rule(m, AlphaRole::Background), 40, 240, 580)
            &&& is_density(density_rule(m, AlphaRole::Surface), 40, 240, 580)
            &&& is_density(density_rule(m, AlphaRole::Elevated), 60, 300, 660)
            &&& is_at_least_surface(density_rule(m, AlphaRole::Content), 30, 220, 560)
            &&& is_density(density_rule(m, AlphaRole::Overlay), 80, 300, 720)
            &&& is_raised(density_rule(m, AlphaRole::Hover), AlphaRole::Overlay, 10, 940)
            &&& is_raised(density_rule(m, AlphaRole::Active), AlphaRole::Overlay, 30, 960)
            &&& is_raised(density_rule(m, AlphaRole::Selected), AlphaRole::Overlay, 50, 980)
            &&& is_raised(density_rule(m, AlphaRole::Popup), AlphaRole::Elevated, 40, 970)
            &&& is_raised(density_rule(m, AlphaRole::PopupHover), AlphaRole::Popup, 20, 990)
        }),
{
}

/// The densities of Mica, in thousandths.
pub proof fn densities_of_mica()
    ensures
        ({
            let m = WindowBackgroundMaterial::Mica;
            &&& is_density(density_rule(m, AlphaRole::Chrome), 40, 140, 300)
            &&& is_density(density_rule(m, AlphaRole::Background), 20, 70, 160)
            &&& is_density(density_rule(m, AlphaRole::Surface), 40, 90, 220)
            &&& is_density(density_rule(m, AlphaRole::Elevated), 60, 120, 280)
            &&& is_density(density_rule(m, AlphaRole::Content), 40, 80, 220)
            &&& is_density(density_rule(m, AlphaRole::Overlay), 80, 160, 340)
            &&& is_raised(density_rule(m, AlphaRole::Hover), AlphaRole::Overlay, 25, 600)
            &&& is_raised(density_rule(m, AlphaRole::Active), AlphaRole::Overlay, 50, 680)
            &&& is_raised(density_rule(m, AlphaRole::Selected), AlphaRole::Overlay, 80, 760)
            &&& is_raised(density_rule(m, AlphaRole::Popup), AlphaRole::Overlay, 60, 780)
            &&& is_raised(density_rule(m, AlphaRole::PopupHover), AlphaRole::Popup, 35, 840)
        }),
{
}

/// The densities of the other Mica, in thousandths.
pub proof fn densities_of_mica_alt()
    ensures
        ({
            let m = WindowBackgroundMaterial::MicaAlt;
            &&& is_density(density_rule(m, AlphaRole::Chrome), 60, 200, 400)
            &&& is_density(density_rule(m, AlphaRole::Background), 30, 90, 200)
            &&& is_density(density_rule(m, AlphaRole::Surface), 50, 120, 260)
            &&& is_density(density_rule(m, AlphaRole::Elevated), 80, 160, 340)
            &&& is_density(density_rule(m, AlphaRole::Content), 50, 100, 240)
            &&& is_density(density_rule(m, AlphaRole::Overlay), 100, 200, 380)
            &&& is_raised(density_rule(m, AlphaRole::Hover), AlphaRole::Overlay, 25, 600)
            &&& is_raised(density_rule(m, AlphaRole::Active), AlphaRole::Overlay, 50, 680)
            &&& is_raised(density_rule(m, AlphaRole::Selected), AlphaRole::Overlay, 80, 760)
            &&& is_raised(density_rule(m, AlphaRole::Popup), AlphaRole::Overlay, 60, 780)
            &&& is_raised(density_rule(m, AlphaRole::PopupHover), AlphaRole::Popup, 35, 840)
        }),
{
}

/// The shades of acrylic: what is mixed into what, how strongly, in
/// thousandths, and how dense the outcome is.
pub proof fn shades_of_acrylic()
    ensures
        ({
            let m = WindowBackgroundMaterial::Acrylic;
            &&& is_mix(shade_mix(m, Shade::TitleBar), Ingredient::Own(ColorSlot::TitleBarBackground), Ingredient::Own(ColorSlot::Background), 80, AlphaRole::Chrome)
            &&& is_mix(shade_mix(m, Shade::TitleBarInactive), Ingredient::Own(ColorSlot::TitleBarInactiveBackground), Ingredient::Own(ColorSlot::SurfaceBackground), 80, AlphaRole::Chrome)
            &&& is_mix(shade_mix(m, Shade::Background), Ingredient::Mixed(Shade::TitleBar), Ingredient::Own(ColorSlot::PanelBackground), 300, AlphaRole::Surface)
            &&& is_mix(shade_mix(m, Shade::Surface), Ingredient::Mixed(Shade::TitleBar), Ingredient::Own(ColorSlot::PanelBackground), 300, AlphaRole::Surface)
            &&& is_mix(shade_mix(m, Shade::Elevated), Ingredient::Mixed(Shade::TitleBar), Ingredient::Own(ColorSlot::ElevatedSurfaceBackground), 360, AlphaRole::Elevated)
            &&& is_mix(shade_mix(m, Shade::Content), Ingredient::Mixed(Shade::Surface), Ingredient::Own(ColorSlot::EditorBackground), 40, AlphaRole::Content)
        }),
{
}

/// The shades of Mica: what is mixed into what, how strongly, in
/// thousandths, and how dense the outcome is.
pub proof fn shades_of_mica()
    ensures
        ({
            let m = WindowBackgroundMaterial::Mica;
            &&& is_mix(shade_mix(m, Shade::TitleBar), Ingredient::Own(ColorSlot::TitleBarBackground), Ingredient::Own(ColorSlot::Background), 35, AlphaRole::Chrome)
            &&& is_mix(shade_mix(m, Shade::TitleBarInactive), Ingredient::Own(ColorSlot::TitleBarInactiveBackground), Ingredient::Own(ColorSlot::SurfaceBackground), 35, AlphaRole::Chrome)
            &&& is_mix(shade_mix(m, Shade::Background), Ingredient::Own(ColorSlot::Background), Ingredient::Mixed(Shade::TitleBar), 10, AlphaRole::Background)
            &&& is_mix(shade_mix(m, Shade::Surface), Ingredient::Own(ColorSlot::SurfaceBackground), Ingredient::Mixed(Shade::TitleBar), 25, AlphaRole::Surface)
            &&& is_mix(shade_mix(m, Shade::Elevated), Ingredient::Own(ColorSlot::ElevatedSurfaceBackground), Ingredient::Mixed(Shade::TitleBar), 40, AlphaRole::Elevated)
            &&& is_mix(shade_mix(m, Shade::Content), Ingredient::Own(ColorSlot::EditorBackground), Ingredient::Mixed(Shade::Surface), 20, AlphaRole::Content)
        }),
{
}

/// The shades of the other Mica: what is mixed into what, how strongly, in
/// thousandths, and how dense the outcome is.
pub proof fn shades_of_mica_alt()
    ensures
        ({
            let m = WindowBackgroundMaterial::MicaAlt;
            &&& is_mix(shade_mix(m, Shade::TitleBar), Ingredient::Own(ColorSlot::TitleBarBackground), Ingredient::Own(ColorSlot::Background), 35, AlphaRole::Chrome)
            &&& is_mix(shade_mix(m, Shade::TitleBarInactive), Ingredient::Own(ColorSlot::TitleBarInactiveBackground), Ingredient::Own(ColorSlot::SurfaceBackground), 35, AlphaRole::Chrome)
            &&& is_mix(shade_mix(m, Shade::Background), Ingredient::Own(ColorSlot::Background), Ingredient::Mixed(Shade::TitleBar), 15, AlphaRole::Background)
            &&& is_mix(shade_mix(m, Shade::Surface), Ingredient::Own(ColorSlot::SurfaceBackground), Ingredient::Mixed(Shade::TitleBar), 35, AlphaRole::Surface)
            &&& is_mix(shade_mix(m, Shade::Elevated), Ingredient::Own(ColorSlot::ElevatedSurfaceBackground), Ingredient::Mixed(Shade::TitleBar), 55, AlphaRole::Elevated)
            &&& is_mix(shade_mix(m, Shade::Content), Ingredient::Own(ColorSlot::EditorBackground), Ingredient::Mixed(Shade::Surface), 25, AlphaRole::Content)
        }),
{
}

/// The colours of acrylic: which shade each one is made of, and how.
pub proof fn colors_of_acrylic()
    ensures
        ({
            let m = WindowBackgroundMaterial::Acrylic;
            &&& is_copy(slot_recipe(m, ColorSlot::Background), Shade::Surface)
            &&& is_copy(slot_recipe(m, ColorSlot::SurfaceBackground), Shade::Surface)
            &&& is_copy(slot_recipe(m, ColorSlot::ToolbarBackground), Shade::Surface)
            &&& is_copy(slot_recipe(m, ColorSlot::TabBarBackground), Shade::Surface)
            &&& is_copy(slot_recipe(m, ColorSlot::StatusBarBackground), Shade::Surface)
            &&& is_copy(slot_recipe(m, ColorSlot::ScrollbarTrackBackground), Shade::Surface)
            &&& is_copy(slot_recipe(m, ColorSlot::ElevatedSurfaceBackground), Shade::Elevated)
            &&& is_copy(slot_recipe(m, ColorSlot::ElementBackground), Shade::Elevated)
            &&& is_over(slot_recipe(m, ColorSlot::ElementHover), Shade::Surface, 100, AlphaRole::Hover)
            &&& is_over(slot_recipe(m, ColorSlot::GhostElementHover), Shade::Surface, 100, AlphaRole::Hover)
            &&& is_over(slot_recipe(m, ColorSlot::ElementActive), Shade::Surface, 140, AlphaRole::Active)
            &&& is_over(slot_recipe(m, ColorSlot::GhostElementActive), Shade::Surface, 140, AlphaRole::Active)
            &&& is_over(slot_recipe(m, ColorSlot::ElementSelected), Shade::Elevated, 160, AlphaRole::Selected)
            &&& is_over(slot_recipe(m, ColorSlot::GhostElementSelected), Shade::Elevated, 160, AlphaRole::Selected)
            &&& is_over(slot_recipe(m, ColorSlot::ElementDisabled), Shade::Surface, 80, AlphaRole::Surface)
            &&& is_clear(slot_recipe(m, ColorSlot::GhostElementBackground), Shade::Surface)
            &&& is_clear(slot_recipe(m, ColorSlot::GhostElementDisabled), Shade::Surface)
            &&& is_copy(slot_recipe(m, ColorSlot::TitleBarBackground), Shade::TitleBar)
            &&& is_copy(slot_recipe(m, ColorSlot::TitleBarInactiveBackground), Shade::TitleBarInactive)
            &&& is_over(slot_recipe(m, ColorSlot::TabInactiveBackground), Shade::Surface, 50, AlphaRole::Surface)
            &&& is_over(slot_recipe(m, ColorSlot::TabActiveBackground), Shade::Elevated, 60, AlphaRole::Elevated)
            &&& is_copy(slot_recipe(m, ColorSlot::PanelBackground), Shade::Content)
            &&& is_copy(slot_recipe(m, ColorSlot::EditorBackground), Shade::Content)
            &&& is_copy(slot_recipe(m, ColorSlot::EditorGutterBackground), Shade::Content)
            &&& is_copy(slot_recipe(m, ColorSlot::TerminalBackground), Shade::Content)
            &&& is_copy(slot_recipe(m, ColorSlot::TerminalAnsiBackground), Shade::Content)
            &&& is_over(slot_recipe(m, ColorSlot::PanelOverlayBackground), Shade::Elevated, 60, AlphaRole::Popup)
            &&& is_over(slot_recipe(m, ColorSlot::PanelOverlayHover), Shade::Elevated, 100, AlphaRole::PopupHover)
            &&& is_over(slot_recipe(m, ColorSlot::EditorSubheaderBackground), Shade::Elevated, 50, AlphaRole::Elevated)
            &&& is_over(slot_recipe(m, ColorSlot::EditorActiveLineBackground), Shade::Content, 80, AlphaRole::Hover)
            &&& is_over(slot_recipe(m, ColorSlot::EditorHighlightedLineBackground), Shade::Content, 120, AlphaRole::Active)
            &&& is_over(slot_recipe(m, ColorSlot::EditorDebuggerActiveLineBackground), Shade::Content, 220, AlphaRole::Active)
            &&& is_capped(slot_recipe(m, ColorSlot::DropTargetBackground), AlphaRole::Overlay)
            &&& is_capped(slot_recipe(m, ColorSlot::VimYankBackground), AlphaRole::Overlay)
            &&& is_capped(slot_recipe(m, ColorSlot::EditorDocumentHighlightReadBackground), AlphaRole::Overlay)
            &&& is_capped(slot_recipe(m, ColorSlot::EditorDocumentHighlightWriteBackground), AlphaRole::Overlay)
            &&& is_capped(slot_recipe(m, ColorSlot::EditorDocumentHighlightBracketBackground), AlphaRole::Overlay)
            &&& is_capped(slot_recipe(m, ColorSlot::SearchMatchBackground), AlphaRole::Elevated)
            &&& is_capped(slot_recipe(m, ColorSlot::SearchActiveMatchBackground), AlphaRole::Elevated)
        }),
{
}

/// The colours of either Mica: which shade each one is made of, and how.
pub proof fn colors_of_mica(m: WindowBackgroundMaterial)
    requires
        m is Mica || m is MicaAlt,
    ensures
        is_copy(slot_recipe(m, ColorSlot::Background), Shade::Background),
        is_copy(slot_recipe(m, ColorSlot::ScrollbarTrackBackground), Shade::Background),
        is_copy(slot_recipe(m, ColorSlot::SurfaceBackground), Shade::Surface),
        is_copy(slot_recipe(m, ColorSlot::TabBarBackground), Shade::Surface),
        is_copy(slot_recipe(m, ColorSlot::ElevatedSurfaceBackground), Shade::Elevated),
        is_under(slot_recipe(m, ColorSlot::ElementBackground), Shade::Elevated, 100, AlphaRole::Elevated),
        is_over(slot_recipe(m, ColorSlot::ElementHover), Shade::Surface, 80, AlphaRole::Hover),
        is_over(slot_recipe(m, ColorSlot::GhostElementHover), Shade::Surface, 80, AlphaRole::Hover),
        is_over(slot_recipe(m, ColorSlot::ElementActive), Shade::Surface, 100, AlphaRole::Active),
        is_over(slot_recipe(m, ColorSlot::GhostElementActive), Shade::Surface, 100, AlphaRole::Active),
        is_over(slot_recipe(m, ColorSlot::ElementSelected), Shade::Elevated, 120, AlphaRole::Selected),
        is_over(slot_recipe(m, ColorSlot::GhostElementSelected), Shade::Elevated, 120, AlphaRole::Selected),
        is_over(slot_recipe(m, ColorSlot::ElementDisabled), Shade::Surface, 60, AlphaRole::Surface),
        is_clear(slot_recipe(m, ColorSlot::GhostElementBackground), Shade::Surface),
        is_clear(slot_recipe(m, ColorSlot::GhostElementDisabled), Shade::Surface),
        is_copy(slot_recipe(m, ColorSlot::TitleBarBackground), Shade::TitleBar),
        is_copy(slot_recipe(m, ColorSlot::TitleBarInactiveBackground), Shade::TitleBarInactive),
        is_under(slot_recipe(m, ColorSlot::ToolbarBackground), Shade::Surface, 60, AlphaRole::Surface),
        is_under(slot_recipe(m, ColorSlot::TabInactiveBackground), Shade::Surface, 50, AlphaRole::Surface),
        is_under(slot_recipe(m, ColorSlot::PanelBackground), Shade::Surface, 50, AlphaRole::Surface),
        is_under(slot_recipe(m, ColorSlot::TabActiveBackground), Shade::Elevated, 80, AlphaRole::Elevated),
        is_under(slot_recipe(m, ColorSlot::StatusBarBackground), Shade::Background, 40, AlphaRole::Background),
        is_under(slot_recipe(m, ColorSlot::PanelOverlayBackground), Shade::Elevated, 100, AlphaRole::Popup),
        is_under(slot_recipe(m, ColorSlot::PanelOverlayHover), Shade::Elevated, 120, AlphaRole::PopupHover),
        is_copy(slot_recipe(m, ColorSlot::EditorBackground), Shade::Content),
        is_copy(slot_recipe(m, ColorSlot::EditorGutterBackground), Shade::Content),
        is_copy(slot_recipe(m, ColorSlot::TerminalBackground), Shade::Content),
        is_copy(slot_recipe(m, ColorSlot::TerminalAnsiBackground), Shade::Content),
        is_under(slot_recipe(m, ColorSlot::EditorSubheaderBackground), Shade::Elevated, 60, AlphaRole::Elevated),
        is_over(slot_recipe(m, ColorSlot::EditorActiveLineBackground), Shade::Content, 80, AlphaRole::Hover),
        is_over(slot_recipe(m, ColorSlot::EditorHighlightedLineBackground), Shade::Content, 100, AlphaRole::Active),
        is_over(slot_recipe(m, ColorSlot::EditorDebuggerActiveLineBackground), Shade::Content, 200, AlphaRole::Active),
        is_capped(slot_recipe(m, ColorSlot::DropTargetBackground), AlphaRole::Overlay),
        is_capped(slot_recipe(m, ColorSlot::VimYankBackground), AlphaRole::Overlay),
        is_capped(slot_recipe(m, ColorSlot::EditorDocumentHighlightReadBackground), AlphaRole::Overlay),
        is_capped(slot_recipe(m, ColorSlot::EditorDocumentHighlightWriteBackground), AlphaRole::Overlay),
        is_capped(slot_recipe(m, ColorSlot::EditorDocumentHighlightBracketBackground), AlphaRole::Overlay),
        is_capped(slot_recipe(m, ColorSlot::SearchMatchBackground), AlphaRole::Elevated),
        is_capped(slot_recipe(m, ColorSlot::SearchActiveMatchBackground), AlphaRole::Elevated),
{
}

} // verus!
