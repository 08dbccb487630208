//! Renderer configuration toggles: how the values of the renderer's
//! environment toggles are read, and the configuration they give.
use vstd::prelude::*;
use crate::text::{ascii_ci_eq, eq_ignore_ascii_case, trim, trim_whitespace};

verus! {

/// Whether a trimmed toggle value switches the toggle on: "1", "true" or
/// "on", in any ASCII case.
pub open spec fn is_on_word(v: Seq<char>) -> bool {
    ascii_ci_eq(v, "1"@) || ascii_ci_eq(v, "true"@) || ascii_ci_eq(v, "on"@)
}

/// Whether a trimmed toggle value switches the toggle off: "0", "false" or
/// "off", in any ASCII case.
pub open spec fn is_off_word(v: Seq<char>) -> bool {
    ascii_ci_eq(v, "0"@) || ascii_ci_eq(v, "false"@) || ascii_ci_eq(v, "off"@)
}

/// The toggle that a trimmed value gives.
pub fn toggle_of_trimmed(v: &str) -> (r: bool)
    ensures
        r == is_on_word(v@),
{
    eq_ignore_ascii_case(v, "1") || eq_ignore_ascii_case(v, "true") || eq_ignore_ascii_case(v, "on")
}

/// The toggle that an optional value gives: a value switches it on exactly
/// when, trimmed, it is "1", "true" or "on" in any ASCII case; no value
/// leaves the default.
pub fn parse_toggle(value: Option<&str>, default: bool) -> (r: bool)
    ensures
        r == match value {
            Some(v) => is_on_word(trim_whitespace(v@)),
            None => default,
        },
{
    match value {
        Some(v) => toggle_of_trimmed(trim(v)),
        None => default,
    }
}

/// How high dynamic range output is chosen.
#[derive(Clone, Copy, Debug, PartialEq, Eq, Structural)]
pub enum HdrMode {
    /// On when the display offers it.
    Auto,
    On,
    Off,
}

/// The mode that a trimmed value names.
pub open spec fn hdr_mode_of(v: Seq<char>) -> HdrMode {
    if is_on_word(v) {
        HdrMode::On
    } else if is_off_word(v) {
        HdrMode::Off
    } else {
        HdrMode::Auto
    }
}

impl HdrMode {
    /// The mode that a trimmed value names.
    pub fn from_trimmed(v: &str) -> (r: HdrMode)
        ensures
            r == hdr_mode_of(v@),
    {
        if toggle_of_trimmed(v) {
            HdrMode::On
        } else if eq_ignore_ascii_case(v, "0") || eq_ignore_ascii_case(v, "false")
            || eq_ignore_ascii_case(v, "off") {
            HdrMode::Off
        } else {
            HdrMode::Auto
        }
    }

    /// The mode that an optional value names: on and off words as for a
    /// toggle, anything else (and no value) automatic.
    pub fn from_env(value: Option<&str>) -> (r: HdrMode)
        ensures
            r == match value {
                Some(v) => hdr_mode_of(trim_whitespace(v@)),
                None => HdrMode::Auto,
            },
    {
        match value {
            Some(v) => HdrMode::from_trimmed(trim(v)),
            None => HdrMode::Auto,
        }
    }

    /// Whether high dynamic range output is used, given whether the display
    /// offers it.
    pub fn should_enable(self, hdr_available: bool) -> (r: bool)
        ensures
            r == match self {
                HdrMode::Auto => hdr_available,
                HdrMode::On => true,
                HdrMode::Off => false,
            },
    {
        match self {
            HdrMode::Auto => hdr_available,
            HdrMode::On => true,
            HdrMode::Off => false,
        }
    }

    /// The mode's lower-case name.
    pub fn name(&self) -> (r: &'static str)
        ensures
            r@ == match self {
                HdrMode::Auto => "auto"@,
                HdrMode::On => "on"@,
                HdrMode::Off => "off"@,
            },
    {
        match self {
            HdrMode::Auto => "auto",
            HdrMode::On => "on",
            HdrMode::Off => "off",
        }
    }
}

/// A swap chain extent of at least one pixel in each direction.
pub fn clamp_swapchain_extent(width: u32, height: u32) -> (r: (u32, u32))
    ensures
        r.0 == if width == 0 { 1 } else { width },
        r.1 == if height == 0 { 1 } else { height },
{
    (if width == 0 { 1 } else { width }, if height == 0 { 1 } else { height })
}

/// The renderer's configuration, as read from its toggles.
pub struct WindowsRendererConfig {
    pub vsync_enabled: bool,
    pub composition_enabled: bool,
    pub hdr: HdrMode,
    pub dred_enabled: bool,
    pub diagnostics_root: Option<String>,
}

/// The values of the renderer's environment toggles, each when set.
pub struct RendererToggles<'a> {
    pub vsync: Option<&'a str>,
    pub composition: Option<&'a str>,
    pub hdr: Option<&'a str>,
    pub dred: Option<&'a str>,
}

impl WindowsRendererConfig {
    /// The configuration that the toggles give: vertical sync and device
    /// removal diagnostics default to on (the latter only where the build
    /// supports it), composition defaults to `default_composition`.
    pub fn detect(
        toggles: &RendererToggles,
        default_composition: bool,
        dred_supported: bool,
        diagnostics_root: Option<String>,
    ) -> (r: WindowsRendererConfig)
        ensures
            r.vsync_enabled == match toggles.vsync {
                Some(v) => is_on_word(trim_whitespace(v@)),
                None => true,
            },
            r.composition_enabled == match toggles.composition {
                Some(v) => is_on_word(trim_whitespace(v@)),
                None => default_composition,
            },
            r.hdr == match toggles.hdr {
                Some(v) => hdr_mode_of(trim_whitespace(v@)),
                None => HdrMode::Auto,
            },
            r.dred_enabled == (dred_supported && match toggles.dred {
                Some(v) => is_on_word(trim_whitespace(v@)),
                None => true,
            }),
            r.diagnostics_root == diagnostics_root,
    {
        let vsync_enabled = parse_toggle(toggles.vsync, true);
        let composition_enabled = parse_toggle(toggles.composition, default_composition);
        let hdr = HdrMode::from_env(toggles.hdr);
        let dred_enabled = parse_toggle(toggles.dred, true) && dred_supported;
        WindowsRendererConfig {
            vsync_enabled,
            composition_enabled,
            hdr,
            dred_enabled,
            diagnostics_root,
        }
    }

    pub fn vsync_enabled(&self) -> (r: bool)
        ensures
            r == self.vsync_enabled,
    {
        self.vsync_enabled
    }

    /// Composition is used when it is configured and not disabled.
    pub fn composition_enabled(&self, disable_direct_composition: bool) -> (r: bool)
        ensures
            r == (self.composition_enabled && !disable_direct_composition),
    {
        self.composition_enabled && !disable_direct_composition
    }

    pub fn hdr_mode(&self) -> (r: HdrMode)
        ensures
            r == self.hdr,
    {
        self.hdr
    }

    pub fn dred_enabled(&self) -> (r: bool)
        ensures
            r == self.dred_enabled,
    {
        self.dred_enabled
    }

    pub fn diagnostics_root(&self) -> (r: Option<String>)
        ensures
            r == self.diagnostics_root,
    {
        match &self.diagnostics_root {
            Some(root) => Some(root.clone()),
            None => None,
        }
    }
}

} // verus!
