//! Whether Windows is in its light or dark theme. Windows keeps two flags
//! independently (the taskbar's and the applications'), and users do mix
//! them. Each flag is read from the registry at the edge (`None` when absent
//! or unreadable); what it means is decided here.
use vstd::prelude::*;

verus! {

/// What a theme flag reads as: light unless it says otherwise. An absent
/// value is an untouched system, and light is the Windows default.
pub open spec fn spec_light(reading: Option<u32>) -> bool {
    match reading {
        Some(v) => v == 1,
        None => true,
    }
}

/// Reads one of the two theme flags: light when absent, otherwise light
/// exactly when it is 1.
pub fn light_theme_value(reading: Option<u32>) -> (r: bool)
    ensures
        r == spec_light(reading),
{
    match reading {
        Some(v) => v == 1,
        None => true,
    }
}

/// Whether the taskbar is light, from its `SystemUsesLightTheme` flag. For
/// the tray glyph.
pub fn taskbar_is_light(system_uses_light_theme: Option<u32>) -> (r: bool)
    ensures
        r == spec_light(system_uses_light_theme),
{
    light_theme_value(system_uses_light_theme)
}

/// Whether application windows are light, from their `AppsUseLightTheme`
/// flag. For the settings window.
pub fn apps_are_light(apps_use_light_theme: Option<u32>) -> (r: bool)
    ensures
        r == spec_light(apps_use_light_theme),
{
    light_theme_value(apps_use_light_theme)
}

} // verus!
