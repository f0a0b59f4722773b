//! Settings of the features that carry no floating-point values.

use vstd::prelude::*;

verus! {

/// Trigger timing for one weapon category; `action` zero holds the trigger, one taps it.
#[derive(Clone, Copy, PartialEq, Eq, Structural, Debug)]
pub struct TriggerbotConfig {
    pub action: usize,
    pub tap_interval: u32,
    pub tap_interval_offset: u32,
    pub delay: u32,
    pub delay_offset: u32,
    pub min_distance_enabled: bool,
    pub min_distance: u32,
    pub max_distance_enabled: bool,
    pub max_distance: u32,
}

impl TriggerbotConfig {
    /// The values a fresh configuration starts from.
    pub open spec fn spec_default() -> TriggerbotConfig {
        TriggerbotConfig {
            action: 0,
            tap_interval: 160,
            tap_interval_offset: 15,
            delay: 70,
            delay_offset: 15,
            min_distance_enabled: false,
            min_distance: 150,
            max_distance_enabled: false,
            max_distance: 0,
        }
    }

    pub open spec fn spec_press() -> TriggerbotConfig {
        TriggerbotConfig { action: 1, ..TriggerbotConfig::spec_default() }
    }

    /// The default timing with tapping in place of holding.
    pub fn press() -> (r: TriggerbotConfig)
        ensures
            r == TriggerbotConfig::spec_press(),
    {
        let mut base = TriggerbotConfig::default();
        base.action = 1;
        base
    }
}

impl Default for TriggerbotConfig {
    fn default() -> (r: Self)
        ensures
            r == TriggerbotConfig::spec_default(),
    {
        TriggerbotConfig {
            action: 0,
            tap_interval: 160,
            tap_interval_offset: 15,
            delay: 70,
            delay_offset: 15,
            min_distance_enabled: false,
            min_distance: 150,
            max_distance_enabled: false,
            max_distance: 0,
        }
    }
}

/// Trigger timing per weapon category.
#[derive(Clone, Copy, PartialEq, Eq, Structural, Debug)]
pub struct TriggerbotConfigs {
    pub shared: TriggerbotConfig,
    pub pistol: TriggerbotConfig,
    pub rifle: TriggerbotConfig,
    pub submachine: TriggerbotConfig,
    pub sniper: TriggerbotConfig,
    pub shotgun: TriggerbotConfig,
    pub machinegun: TriggerbotConfig,
    pub knife: TriggerbotConfig,
    pub other: TriggerbotConfig,
}

impl TriggerbotConfigs {
    /// The values a fresh configuration starts from.
    pub open spec fn spec_default() -> TriggerbotConfigs {
        TriggerbotConfigs {
            shared: TriggerbotConfig::spec_default(),
            pistol: TriggerbotConfig::spec_default(),
            rifle: TriggerbotConfig::spec_press(),
            submachine: TriggerbotConfig::spec_press(),
            sniper: TriggerbotConfig::spec_default(),
            shotgun: TriggerbotConfig::spec_default(),
            machinegun: TriggerbotConfig::spec_press(),
            knife: TriggerbotConfig::spec_default(),
            other: TriggerbotConfig::spec_default(),
        }
    }
}

impl Default for TriggerbotConfigs {
    fn default() -> (r: Self)
        ensures
            r == TriggerbotConfigs::spec_default(),
    {
        TriggerbotConfigs {
            shared: TriggerbotConfig::default(),
            pistol: TriggerbotConfig::default(),
            rifle: TriggerbotConfig::press(),
            submachine: TriggerbotConfig::press(),
            sniper: TriggerbotConfig::default(),
            shotgun: TriggerbotConfig::default(),
            machinegun: TriggerbotConfig::press(),
            knife: TriggerbotConfig::default(),
            other: TriggerbotConfig::default(),
        }
    }
}

/// Trigger settings: activation and the timing per category.
#[derive(Clone, Copy, PartialEq, Eq, Structural, Debug)]
pub struct Triggerbot {
    pub enabled: bool,
    pub key: usize,
    pub mode: usize,
    pub always: bool,
    pub default: bool,
    pub shared: bool,
    pub only_weapon: bool,
    pub configs: TriggerbotConfigs,
}

impl Triggerbot {
    /// The values a fresh configuration starts from.
    pub open spec fn spec_default() -> Triggerbot {
        Triggerbot {
            enabled: false,
            key: 0,
            mode: 0,
            always: false,
            default: false,
            shared: false,
            only_weapon: true,
            configs: TriggerbotConfigs::spec_default(),
        }
    }
}

impl Default for Triggerbot {
    fn default() -> (r: Self)
        ensures
            r == Triggerbot::spec_default(),
    {
        Triggerbot {
            enabled: false,
            key: 0,
            mode: 0,
            always: false,
            default: false,
            shared: false,
            only_weapon: true,
            configs: TriggerbotConfigs::default(),
        }
    }
}

/// Crosshair overlay shape and colours for one weapon category.
#[derive(Clone, Copy, PartialEq, Eq, Debug)]
pub struct CrosshairConfig {
    pub color: (u32, u32, u32, u32),
    pub target_enabled: bool,
    pub target_color: (u32, u32, u32, u32),
    pub outline_enabled: bool,
    pub dot_enabled: bool,
    pub dot_size: u32,
    pub circle_enabled: bool,
    pub circle_radius: u32,
    pub lines_enabled: bool,
    pub lines_width: u32,
    pub lines_height: u32,
    pub lines_space: u32,
    pub lines_thickness: u32,
}

impl CrosshairConfig {
    /// The values a fresh configuration starts from.
    pub open spec fn spec_default() -> CrosshairConfig {
        CrosshairConfig {
            color: (255, 255, 255, 255),
            target_enabled: true,
            target_color: (255, 0, 0, 255),
            outline_enabled: true,
            dot_enabled: true,
            dot_size: 1,
            circle_enabled: true,
            circle_radius: 5,
            lines_enabled: true,
            lines_width: 9,
            lines_height: 9,
            lines_space: 7,
            lines_thickness: 1,
        }
    }
}

impl Default for CrosshairConfig {
    fn default() -> (r: Self)
        ensures
            r == CrosshairConfig::spec_default(),
    {
        CrosshairConfig {
            color: (255, 255, 255, 255),
            target_enabled: true,
            target_color: (255, 0, 0, 255),
            outline_enabled: true,
            dot_enabled: true,
            dot_size: 1,
            circle_enabled: true,
            circle_radius: 5,
            lines_enabled: true,
            lines_width: 9,
            lines_height: 9,
            lines_space: 7,
            lines_thickness: 1,
        }
    }
}

/// Crosshair overlay per weapon category.
#[derive(Clone, Copy, PartialEq, Eq, Debug)]
pub struct CrosshairConfigs {
    pub shared: CrosshairConfig,
    pub pistol: CrosshairConfig,
    pub rifle: CrosshairConfig,
    pub submachine: CrosshairConfig,
    pub sniper: CrosshairConfig,
    pub shotgun: CrosshairConfig,
    pub machinegun: CrosshairConfig,
    pub knife: CrosshairConfig,
    pub other: CrosshairConfig,
}

impl CrosshairConfigs {
    /// The values a fresh configuration starts from.
    pub open spec fn spec_default() -> CrosshairConfigs {
        CrosshairConfigs {
            shared: CrosshairConfig::spec_default(),
            pistol: CrosshairConfig::spec_default(),
            rifle: CrosshairConfig::spec_default(),
            submachine: CrosshairConfig::spec_default(),
            sniper: CrosshairConfig::spec_default(),
            shotgun: CrosshairConfig::spec_default(),
            machinegun: CrosshairConfig::spec_default(),
            knife: CrosshairConfig::spec_default(),
            other: CrosshairConfig::spec_default(),
        }
    }
}

impl Default for CrosshairConfigs {
    fn default() -> (r: Self)
        ensures
            r == CrosshairConfigs::spec_default(),
    {
        CrosshairConfigs {
            shared: CrosshairConfig::default(),
            pistol: CrosshairConfig::default(),
            rifle: CrosshairConfig::default(),
            submachine: CrosshairConfig::default(),
            sniper: CrosshairConfig::default(),
            shotgun: CrosshairConfig::default(),
            machinegun: CrosshairConfig::default(),
            knife: CrosshairConfig::default(),
            other: CrosshairConfig::default(),
        }
    }
}

/// Crosshair overlay settings: activation and the shape per category.
#[derive(Clone, Copy, PartialEq, Eq, Debug)]
pub struct Crosshair {
    pub enabled: bool,
    pub key: usize,
    pub mode: usize,
    pub always: bool,
    pub default: bool,
    pub shared: bool,
    pub only_weapon: bool,
    pub configs: CrosshairConfigs,
}

impl Crosshair {
    /// The values a fresh configuration starts from.
    pub open spec fn spec_default() -> Crosshair {
        Crosshair {
            enabled: true,
            key: 10,
            mode: 1,
            always: false,
            default: true,
            shared: false,
            only_weapon: true,
            configs: CrosshairConfigs::spec_default(),
        }
    }
}

impl Default for Crosshair {
    fn default() -> (r: Self)
        ensures
            r == Crosshair::spec_default(),
    {
        Crosshair {
            enabled: true,
            key: 10,
            mode: 1,
            always: false,
            default: true,
            shared: false,
            only_weapon: true,
            configs: CrosshairConfigs::default(),
        }
    }
}

/// Overlay extras: watermark, feature list, bomb timer, spectator list.
#[derive(Clone, Copy, PartialEq, Eq, Debug)]
pub struct Misc {
    pub enabled: bool,
    pub watermark_enabled: bool,
    pub watermark_color_one: (u32, u32, u32, u32),
    pub watermark_color_two: (u32, u32, u32, u32),
    pub cheat_list_enabled: bool,
    pub cheat_list_color_one: (u32, u32, u32, u32),
    pub cheat_list_color_two: (u32, u32, u32, u32),
    pub bomb_timer_enabled: bool,
    pub bomb_timer_color_disabled: (u32, u32, u32, u32),
    pub bomb_timer_color_enabled: (u32, u32, u32, u32),
    pub spectator_list_enabled: bool,
    pub spectator_list_color: (u32, u32, u32, u32),
}

impl Misc {
    /// The values a fresh configuration starts from.
    pub open spec fn spec_default() -> Misc {
        Misc {
            enabled: true,
            watermark_enabled: true,
            watermark_color_one: (255, 255, 0, 255),
            watermark_color_two: (0, 255, 0, 255),
            cheat_list_enabled: true,
            cheat_list_color_one: (0, 255, 255, 255),
            cheat_list_color_two: (0, 255, 0, 255),
            bomb_timer_enabled: false,
            bomb_timer_color_disabled: (0, 255, 255, 255),
            bomb_timer_color_enabled: (255, 0, 0, 255),
            spectator_list_enabled: false,
            spectator_list_color: (0, 255, 255, 255),
        }
    }
}

impl Default for Misc {
    fn default() -> (r: Self)
        ensures
            r == Misc::spec_default(),
    {
        Misc {
            enabled: true,
            watermark_enabled: true,
            watermark_color_one: (255, 255, 0, 255),
            watermark_color_two: (0, 255, 0, 255),
            cheat_list_enabled: true,
            cheat_list_color_one: (0, 255, 255, 255),
            cheat_list_color_two: (0, 255, 0, 255),
            bomb_timer_enabled: false,
            bomb_timer_color_disabled: (0, 255, 255, 255),
            bomb_timer_color_enabled: (255, 0, 0, 255),
            spectator_list_enabled: false,
            spectator_list_color: (0, 255, 255, 255),
        }
    }
}

/// Colours of the settings window, as red, green, blue and alpha.
#[derive(Clone, Copy, PartialEq, Eq, Debug)]
pub struct StyleColors {
    pub text: (u32, u32, u32, u32),
    pub text_disabled: (u32, u32, u32, u32),
    pub window_bg: (u32, u32, u32, u32),
    pub child_bg: (u32, u32, u32, u32),
    pub popup_bg: (u32, u32, u32, u32),
    pub border: (u32, u32, u32, u32),
    pub border_shadow: (u32, u32, u32, u32),
    pub frame_bg: (u32, u32, u32, u32),
    pub frame_bg_hovered: (u32, u32, u32, u32),
    pub frame_bg_active: (u32, u32, u32, u32),
    pub title_bg: (u32, u32, u32, u32),
    pub title_bg_collapsed: (u32, u32, u32, u32),
    pub title_bg_active: (u32, u32, u32, u32),
    pub text_selected_bg: (u32, u32, u32, u32),
    pub checkmark: (u32, u32, u32, u32),
    pub scrollbar_bg: (u32, u32, u32, u32),
    pub scrollbar_grab: (u32, u32, u32, u32),
    pub scrollbar_grab_hovered: (u32, u32, u32, u32),
    pub scrollbar_grab_active: (u32, u32, u32, u32),
    pub slider_grab: (u32, u32, u32, u32),
    pub slider_grab_active: (u32, u32, u32, u32),
    pub button: (u32, u32, u32, u32),
    pub button_hovered: (u32, u32, u32, u32),
    pub button_active: (u32, u32, u32, u32),
    pub tab: (u32, u32, u32, u32),
    pub tab_hovered: (u32, u32, u32, u32),
    pub tab_active: (u32, u32, u32, u32),
    pub separator: (u32, u32, u32, u32),
}

impl StyleColors {
    /// The values a fresh configuration starts from.
    pub open spec fn spec_default() -> StyleColors {
        StyleColors {
            text: (225, 225, 225, 255),
            text_disabled: (200, 200, 200, 255),
            window_bg: (25, 25, 25, 235),
            child_bg: (25, 25, 25, 235),
            popup_bg: (35, 35, 35, 235),
            border: (51, 128, 245, 255),
            border_shadow: (15, 15, 15, 255),
            frame_bg: (51, 128, 245, 50),
            frame_bg_hovered: (51, 128, 245, 100),
            frame_bg_active: (51, 128, 245, 150),
            title_bg: (51, 128, 245, 235),
            title_bg_collapsed: (51, 128, 245, 235),
            title_bg_active: (51, 128, 245, 235),
            text_selected_bg: (51, 128, 245, 255),
            checkmark: (51, 128, 245, 255),
            scrollbar_bg: (25, 25, 25, 255),
            scrollbar_grab: (45, 45, 45, 255),
            scrollbar_grab_hovered: (45, 45, 45, 225),
            scrollbar_grab_active: (45, 45, 45, 200),
            slider_grab: (51, 128, 245, 255),
            slider_grab_active: (51, 128, 245, 225),
            button: (51, 128, 245, 255),
            button_hovered: (51, 128, 245, 225),
            button_active: (51, 128, 245, 200),
            tab: (51, 128, 245, 255),
            tab_hovered: (51, 128, 245, 175),
            tab_active: (51, 128, 245, 150),
            separator: (175, 175, 175, 125),
        }
    }
}

impl Default for StyleColors {
    fn default() -> (r: Self)
        ensures
            r == StyleColors::spec_default(),
    {
        StyleColors {
            text: (225, 225, 225, 255),
            text_disabled: (200, 200, 200, 255),
            window_bg: (25, 25, 25, 235),
            child_bg: (25, 25, 25, 235),
            popup_bg: (35, 35, 35, 235),
            border: (51, 128, 245, 255),
            border_shadow: (15, 15, 15, 255),
            frame_bg: (51, 128, 245, 50),
            frame_bg_hovered: (51, 128, 245, 100),
            frame_bg_active: (51, 128, 245, 150),
            title_bg: (51, 128, 245, 235),
            title_bg_collapsed: (51, 128, 245, 235),
            title_bg_active: (51, 128, 245, 235),
            text_selected_bg: (51, 128, 245, 255),
            checkmark: (51, 128, 245, 255),
            scrollbar_bg: (25, 25, 25, 255),
            scrollbar_grab: (45, 45, 45, 255),
            scrollbar_grab_hovered: (45, 45, 45, 225),
            scrollbar_grab_active: (45, 45, 45, 200),
            slider_grab: (51, 128, 245, 255),
            slider_grab_active: (51, 128, 245, 225),
            button: (51, 128, 245, 255),
            button_hovered: (51, 128, 245, 225),
            button_active: (51, 128, 245, 200),
            tab: (51, 128, 245, 255),
            tab_hovered: (51, 128, 245, 175),
            tab_active: (51, 128, 245, 150),
            separator: (175, 175, 175, 125),
        }
    }
}

} // verus!
