use remote_projects::material::{
    alpha_rule, apply_system_window_material_overrides, apply_window_material_theme_overrides,
    current_window_background_material, has_custom_window_background_material,
    material_popup_surface_color, material_surface_color, mix_for,
    window_background_appearance_for, window_material_theme_overrides, AlphaRole, AlphaRule,
    ColorSlot, Ingredient, Mix, PopupMix, Recipe, Shade, SurfaceTreatment,
    WindowBackgroundAppearance, WindowBackgroundMaterial,
};
use remote_projects::theme::{
    default_dark_theme, first_theme, Appearance, GlobalTheme, SystemAppearance, Theme,
    ThemeStyles, WindowAppearance,
};

#[test]
fn light_is_light() {
    assert!(Appearance::Light.is_light());
    assert!(!Appearance::Dark.is_light());
    assert_eq!(Appearance::Light.pick(1, 2), 1);
    assert_eq!(Appearance::Dark.pick(1, 2), 2);
}

#[test]
fn windows_tell_the_appearance() {
    for (window, expected) in [
        (WindowAppearance::Light, Appearance::Light),
        (WindowAppearance::VibrantLight, Appearance::Light),
        (WindowAppearance::Dark, Appearance::Dark),
        (WindowAppearance::VibrantDark, Appearance::Dark),
    ] {
        assert_eq!(Appearance::from(window), expected);
        assert_eq!(SystemAppearance::init(window).0, expected);
    }
    assert_eq!(SystemAppearance::default().0, Appearance::Dark);
}

#[test]
fn first_theme_is_the_usual_dark_one() {
    let names: Vec<String> = ["Ayu", "One Dark", "Gruvbox"].map(String::from).to_vec();
    assert_eq!(first_theme(&names), 1);
    assert_eq!(first_theme(&vec!["Ayu".to_string(), "Gruvbox".to_string()]), 0);
    assert_eq!(default_dark_theme(), "One Dark");
}

#[test]
fn active_theme_is_replaced() {
    let mut active = GlobalTheme::new("dark", "icons");
    active.update_theme("light");
    assert_eq!((*active.theme(), *active.icon_theme()), ("light", "icons"));
    active.update_icon_theme("other");
    assert_eq!((*active.theme(), *active.icon_theme()), ("light", "other"));
}

#[test]
fn theme_gives_its_parts() {
    let theme = Theme {
        id: "1".into(),
        name: "One Dark".into(),
        appearance: Appearance::Dark,
        styles: ThemeStyles {
            window_background_appearance: WindowBackgroundAppearance::Opaque,
            system: 1,
            accents: 2,
            player: 3,
            colors: 4,
            syntax: 5,
            status: 6,
        },
    };
    assert_eq!(
        (*theme.system(), *theme.accents(), *theme.players(), *theme.colors()),
        (1, 2, 3, 4)
    );
    assert_eq!((*theme.syntax(), *theme.status()), (5, 6));
    assert_eq!(theme.appearance(), Appearance::Dark);
    assert_eq!(theme.window_background_appearance(), WindowBackgroundAppearance::Opaque);
}

#[test]
fn materials_hold_on_windows_only() {
    let mica = WindowBackgroundMaterial::Mica;
    assert_eq!(current_window_background_material(mica, true), mica);
    assert_eq!(
        current_window_background_material(mica, false),
        WindowBackgroundMaterial::Theme
    );
    assert!(has_custom_window_background_material(mica, true));
    assert!(!has_custom_window_background_material(mica, false));
    assert_eq!(window_material_theme_overrides(mica, 7, 3, true), (mica, 7));
    assert_eq!(
        window_material_theme_overrides(mica, 7, 3, false),
        (WindowBackgroundMaterial::Theme, 3)
    );
    assert_eq!(
        apply_system_window_material_overrides(mica, ColorSlot::Background, false),
        None
    );
}

#[test]
fn materials_have_their_backdrops() {
    let own = WindowBackgroundAppearance::Transparent;
    for (material, expected) in [
        (WindowBackgroundMaterial::Theme, own),
        (WindowBackgroundMaterial::Acrylic, WindowBackgroundAppearance::Blurred),
        (WindowBackgroundMaterial::Mica, WindowBackgroundAppearance::MicaBackdrop),
        (WindowBackgroundMaterial::MicaAlt, WindowBackgroundAppearance::MicaAltBackdrop),
    ] {
        assert_eq!(window_background_appearance_for(material, own), expected);
    }
}

#[test]
fn colours_are_mixed_by_the_material() {
    assert_eq!(
        apply_window_material_theme_overrides(
            WindowBackgroundMaterial::Acrylic,
            ColorSlot::ElementHover
        ),
        Some(Recipe::Over { shade: Shade::Surface, strength: 100, alpha: AlphaRole::Hover })
    );
    assert_eq!(
        apply_window_material_theme_overrides(
            WindowBackgroundMaterial::MicaAlt,
            ColorSlot::ToolbarBackground
        ),
        Some(Recipe::Under { shade: Shade::Surface, strength: 60, alpha: AlphaRole::Surface })
    );
    assert_eq!(
        apply_window_material_theme_overrides(
            WindowBackgroundMaterial::Theme,
            ColorSlot::ToolbarBackground
        ),
        None
    );
    assert_eq!(
        mix_for(WindowBackgroundMaterial::MicaAlt, Shade::Elevated),
        Some(Mix {
            base: Ingredient::Own(ColorSlot::ElevatedSurfaceBackground),
            tint: Ingredient::Mixed(Shade::TitleBar),
            strength: 55,
            alpha: AlphaRole::Elevated,
        })
    );
    assert_eq!(mix_for(WindowBackgroundMaterial::Theme, Shade::Elevated), None);
}

#[test]
fn densities_follow_the_material() {
    assert_eq!(
        alpha_rule(WindowBackgroundMaterial::Acrylic, AlphaRole::Content),
        Some(AlphaRule::AtLeastSurface { min: 30, current: 220, max: 560 })
    );
    assert_eq!(
        alpha_rule(WindowBackgroundMaterial::Mica, AlphaRole::Background),
        Some(AlphaRule::Density { min: 20, current: 70, max: 160 })
    );
    assert_eq!(
        alpha_rule(WindowBackgroundMaterial::MicaAlt, AlphaRole::PopupHover),
        Some(AlphaRule::Raised { base: AlphaRole::Popup, by: 35, at_most: 840 })
    );
    assert_eq!(alpha_rule(WindowBackgroundMaterial::Theme, AlphaRole::Chrome), None);
}

#[test]
fn surfaces_and_popups_on_a_material() {
    let acrylic = WindowBackgroundMaterial::Acrylic;
    assert_eq!(material_surface_color(acrylic, true, true), SurfaceTreatment::Keep);
    assert_eq!(
        material_surface_color(acrylic, true, false),
        SurfaceTreatment::OverTitleBar { at_most: 880 }
    );
    assert_eq!(material_surface_color(acrylic, false, false), SurfaceTreatment::Keep);
    assert_eq!(
        material_popup_surface_color(acrylic, true),
        Some(PopupMix { panel: 680, editor: 240, own_at_most: 960, alpha: 998 })
    );
    assert_eq!(material_popup_surface_color(acrylic, false), None);
}

const SLOTS: [ColorSlot; 39] = [
    ColorSlot::Background,
    ColorSlot::SurfaceBackground,
    ColorSlot::ElevatedSurfaceBackground,
    ColorSlot::ElementBackground,
    ColorSlot::ElementHover,
    ColorSlot::ElementActive,
    ColorSlot::ElementSelected,
    ColorSlot::ElementDisabled,
    ColorSlot::GhostElementBackground,
    ColorSlot::GhostElementHover,
    ColorSlot::GhostElementActive,
    ColorSlot::GhostElementSelected,
    ColorSlot::GhostElementDisabled,
    ColorSlot::TitleBarBackground,
    ColorSlot::TitleBarInactiveBackground,
    ColorSlot::ToolbarBackground,
    ColorSlot::TabBarBackground,
    ColorSlot::TabInactiveBackground,
    ColorSlot::TabActiveBackground,
    ColorSlot::StatusBarBackground,
    ColorSlot::PanelBackground,
    ColorSlot::PanelOverlayBackground,
    ColorSlot::PanelOverlayHover,
    ColorSlot::ScrollbarTrackBackground,
    ColorSlot::EditorBackground,
    ColorSlot::EditorGutterBackground,
    ColorSlot::EditorSubheaderBackground,
    ColorSlot::EditorActiveLineBackground,
    ColorSlot::EditorHighlightedLineBackground,
    ColorSlot::EditorDebuggerActiveLineBackground,
    ColorSlot::TerminalBackground,
    ColorSlot::TerminalAnsiBackground,
    ColorSlot::DropTargetBackground,
    ColorSlot::SearchMatchBackground,
    ColorSlot::SearchActiveMatchBackground,
    ColorSlot::VimYankBackground,
    ColorSlot::EditorDocumentHighlightReadBackground,
    ColorSlot::EditorDocumentHighlightWriteBackground,
    ColorSlot::EditorDocumentHighlightBracketBackground,
];

const ROLES: [AlphaRole; 11] = [
    AlphaRole::Chrome,
    AlphaRole::Background,
    AlphaRole::Surface,
    AlphaRole::Elevated,
    AlphaRole::Content,
    AlphaRole::Overlay,
    AlphaRole::Hover,
    AlphaRole::Active,
    AlphaRole::Selected,
    AlphaRole::Popup,
    AlphaRole::PopupHover,
];

#[test]
fn every_colour_has_a_recipe_on_a_material() {
    for slot in SLOTS {
        assert_eq!(
            apply_window_material_theme_overrides(WindowBackgroundMaterial::Theme, slot),
            None
        );
        for material in [
            WindowBackgroundMaterial::Acrylic,
            WindowBackgroundMaterial::Mica,
            WindowBackgroundMaterial::MicaAlt,
        ] {
            assert!(apply_window_material_theme_overrides(material, slot).is_some());
        }
    }
    for slot in [ColorSlot::GhostElementBackground, ColorSlot::GhostElementDisabled] {
        assert_eq!(
            apply_window_material_theme_overrides(WindowBackgroundMaterial::Mica, slot),
            Some(Recipe::Clear(Shade::Surface))
        );
    }
}

#[test]
fn densities_stay_below_the_full_one() {
    for material in [
        WindowBackgroundMaterial::Acrylic,
        WindowBackgroundMaterial::Mica,
        WindowBackgroundMaterial::MicaAlt,
    ] {
        for role in ROLES {
            match alpha_rule(material, role).unwrap() {
                AlphaRule::Density { min, current, max }
                | AlphaRule::AtLeastSurface { min, current, max } => {
                    assert!(min <= current && current <= max && max < 1000);
                }
                AlphaRule::Raised { at_most, .. } => assert!(at_most < 1000),
            }
        }
    }
}
