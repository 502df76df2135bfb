//! Binary patches that install UserPatch into a game executable, grouped by
//! feature and switched on by installation options.
use vstd::prelude::*;
use vstd::string::{is_ascii, is_ascii_spec_bytes};

verus! {

/// Interface style.
#[derive(Clone, Copy, Debug, PartialEq, Eq, Structural)]
pub enum InterfaceStyle {
    /// Use the left-aligned interface style.
    LeftAligned,
    /// Use the centered interface style.
    Centered,
    /// Use the widescreen interface style.
    Widescreen,
}

/// Reads an interface style by name: `left`, `center`, or `wide` / `widescreen`.
pub fn interface_style_from_name(s: &str) -> (r: Option<InterfaceStyle>)
    ensures
        r == (if s@ == "left"@ {
            Some(InterfaceStyle::LeftAligned)
        } else if s@ == "center"@ {
            Some(InterfaceStyle::Centered)
        } else if s@ == "wide"@ || s@ == "widescreen"@ {
            Some(InterfaceStyle::Widescreen)
        } else {
            None
        }),
{
    let name = s.to_owned();
    if name_is(&name, "left") {
        Some(InterfaceStyle::LeftAligned)
    } else if name_is(&name, "center") {
        Some(InterfaceStyle::Centered)
    } else if name_is(&name, "wide") || name_is(&name, "widescreen") {
        Some(InterfaceStyle::Widescreen)
    } else {
        None
    }
}

impl std::str::FromStr for InterfaceStyle {
    type Err = &'static str;

    fn from_str(s: &str) -> Result<InterfaceStyle, &'static str> {
        match interface_style_from_name(s) {
            Some(style) => Ok(style),
            None => Err("Invalid interface style, expected left | center | wide"),
        }
    }
}

/// UserPatch installation options.
#[derive(Clone, Copy, Debug, PartialEq, Eq, Structural)]
pub struct InstallOptions {
    /// Interface style.
    pub interface_style: InterfaceStyle,
    /// Install windowed mode patch (Windows only).
    pub windowed_mode: bool,
    /// Install upnp for automatic port forwarding (Windows only).
    pub upnp: bool,
    /// Use the alternate dark red minimap color.
    pub alternate_red: bool,
    /// Use the alternate dark purple minimap color.
    pub alternate_purple: bool,
    /// Use the alternate dark gray minimap color.
    pub alternate_gray: bool,
    /// Extend max population cap to 1000.
    pub extend_population_caps: bool,
    /// Replace snow terrains with grass.
    pub replace_snow_with_grass: bool,
    /// Enable animated water.
    pub water_animation: bool,
    /// Snap scrolling to pixels, instead of half-tiles.
    pub precision_scrolling: bool,
    /// Hold shift to append to a numbered unit group.
    pub shift_group_append: bool,
    /// Trigger hotkeys on keydown instead of keyup.
    pub keydown_hotkeys: bool,
    /// Use the new savegame file name format.
    pub savegame_format: bool,
    /// Enable multiple building queueing.
    pub multiple_queue: bool,
    /// Use the original patrol delay.
    pub original_patrol_delay: bool,
    /// Enable water movement.
    pub water_movement: bool,
    /// Enable the weather system, for rain/snow effects.
    pub weather_system: bool,
    /// Enable loading custom terrains from scenarios and ZR@ maps.
    pub custom_terrains: bool,
    /// Enable terrain underwater.
    pub terrain_underwater: bool,
    /// Show ages as numbers instead of words in the score display.
    pub numeric_age_display: bool,
    /// Handle touch screen input events.
    pub touch_screen_control: bool,
    /// Store Sx spectator addresses.
    pub store_spec_addresses: bool,
    /// Use custom normal mouse.
    pub normal_mouse: bool,
    /// Delink in-game volume from the system volume.
    pub delink_volume: bool,
    /// Use an alternate chatbox implementation that does not flicker in wine.
    pub wine_chatbox: bool,
    /// Lower quality environment.
    pub low_quality_environment: bool,
    /// Restore the 20fps refresh rate for single player.
    pub low_fps: bool,
    /// Enable extended hotkeys.
    pub extended_hotkeys: bool,
    /// Force-enable new gameplay features.
    pub force_gameplay_features: bool,
    /// Display the ore resource in the resources bar.
    pub display_ore_resource: bool,
    /// Enable multiplayer anti-cheat measures.
    pub multiplayer_anti_cheat: bool,
    /// Default to background mode.
    pub default_background_mode: bool,
    /// Run single-player games at multiplayer speed.
    pub sp_at_multiplayer_speed: bool,
    /// Enable rms and scx debug logging. **(Affects sync)**
    pub debug_logging: bool,
    /// Change statistics font style.
    pub statistics_font_style: bool,
    /// Background audio playback.
    pub background_audio_playback: bool,
    /// Keep civilian attack switch. **(Affects sync)**
    pub civilian_attack_switch: bool,
    /// Handle small 2x2 farm selections. **(Affects sync)**
    pub handle_small_farm_selections: bool,
    /// Show rec/spec research events. **(Affects sync)**
    pub spec_research_events: bool,
    /// Show rec/spec market events. **(Affects sync)**
    pub spec_market_events: bool,
    /// Show rec/spec score statistics.
    pub spec_score_stats: bool,
}

/// Whether every feature switch of `o` is off.
pub open spec fn all_switches_off(o: InstallOptions) -> bool {
    !o.windowed_mode
    && !o.upnp
    && !o.alternate_red
    && !o.alternate_purple
    && !o.alternate_gray
    && !o.extend_population_caps
    && !o.replace_snow_with_grass
    && !o.water_animation
    && !o.precision_scrolling
    && !o.shift_group_append
    && !o.keydown_hotkeys
    && !o.savegame_format
    && !o.multiple_queue
    && !o.original_patrol_delay
    && !o.water_movement
    && !o.weather_system
    && !o.custom_terrains
    && !o.terrain_underwater
    && !o.numeric_age_display
    && !o.touch_screen_control
    && !o.store_spec_addresses
    && !o.normal_mouse
    && !o.delink_volume
    && !o.wine_chatbox
    && !o.low_quality_environment
    && !o.low_fps
    && !o.extended_hotkeys
    && !o.force_gameplay_features
    && !o.display_ore_resource
    && !o.multiplayer_anti_cheat
    && !o.default_background_mode
    && !o.sp_at_multiplayer_speed
    && !o.debug_logging
    && !o.statistics_font_style
    && !o.background_audio_playback
    && !o.civilian_attack_switch
    && !o.handle_small_farm_selections
    && !o.spec_research_events
    && !o.spec_market_events
    && !o.spec_score_stats
}

/// The setting that `o` gives the optional feature called `name`, or `None` for a
/// name that no option governs.
pub open spec fn setting_for(o: InstallOptions, name: Seq<char>) -> Option<bool> {
    if name == "Widescreen interface style"@ {
        Some(o.interface_style == InterfaceStyle::Widescreen)
    } else if name == "Left-aligned interface style"@ {
        Some(o.interface_style == InterfaceStyle::LeftAligned)
    } else if name == "Windowed mode support"@ {
        Some(o.windowed_mode)
    } else if name == "Port forwarding support"@ {
        Some(o.upnp)
    } else if name == "Darken mini-map red"@ {
        Some(o.alternate_red)
    } else if name == "Darken mini-map purple"@ {
        Some(o.alternate_purple)
    } else if name == "Darken mini-map grey"@ {
        Some(o.alternate_gray)
    } else if name == "Population caps to 1000"@ {
        Some(o.extend_population_caps)
    } else if name == "Snow/ice terrain removal"@ {
        Some(o.replace_snow_with_grass)
    } else if name == "Enable water animation"@ {
        Some(o.water_animation)
    } else if name == "Precision scrolling system"@ {
        Some(o.precision_scrolling)
    } else if name == "Shift group appending"@ {
        Some(o.shift_group_append)
    } else if name == "Keydown object hotkeys"@ {
        Some(o.keydown_hotkeys)
    } else if name == "New save filename format"@ {
        Some(o.savegame_format)
    } else if name == "Multiple building queue"@ {
        Some(o.multiple_queue)
    } else if name == "Original patrol default"@ {
        Some(o.original_patrol_delay)
    } else if name == "Disable water movement"@ {
        Some(!o.water_movement)
    } else if name == "Disable weather system"@ {
        Some(!o.weather_system)
    } else if name == "Disable custom terrains"@ {
        Some(!o.custom_terrains)
    } else if name == "Disable terrain underwater"@ {
        Some(!o.terrain_underwater)
    } else if name == "Numeric age display"@ {
        Some(o.numeric_age_display)
    } else if name == "Touch screen control"@ {
        Some(o.touch_screen_control)
    } else if name == "Store Sx spec addresses"@ {
        Some(o.store_spec_addresses)
    } else if name == "Custom normal mouse"@ {
        Some(o.normal_mouse)
    } else if name == "Delink from system volume"@ {
        Some(o.delink_volume)
    } else if name == "Alternate chat box for wine"@ {
        Some(o.wine_chatbox)
    } else if name == "Lower quality environment"@ {
        Some(o.low_quality_environment)
    } else if name == "Restore 20fps for single player"@ {
        Some(o.low_fps)
    } else if name == "Disable extended hotkeys"@ {
        Some(!o.extended_hotkeys)
    } else if name == "Force new gameplay features"@ {
        Some(o.force_gameplay_features)
    } else if name == "Ore resource amount display"@ {
        Some(o.display_ore_resource)
    } else if name == "Disable multiplayer anti-cheat"@ {
        Some(!o.multiplayer_anti_cheat)
    } else if name == "Default to background mode"@ {
        Some(o.default_background_mode)
    } else if name == "Windowed fullscreen mode"@ {
        Some(false)
    } else if name == "Multiplayer single player speed"@ {
        Some(o.sp_at_multiplayer_speed)
    } else if name == "Rms and Scx debug logging"@ {
        Some(o.debug_logging)
    } else if name == "Change statistics font style"@ {
        Some(o.statistics_font_style)
    } else if name == "Background audio playback"@ {
        Some(o.background_audio_playback)
    } else if name == "Disable civilian attack switch"@ {
        Some(o.civilian_attack_switch)
    } else if name == "Handle small farm selections"@ {
        Some(o.handle_small_farm_selections)
    } else if name == "Show rec/spec research events"@ {
        Some(o.spec_research_events)
    } else if name == "Show rec/spec market events"@ {
        Some(o.spec_market_events)
    } else if name == "Disable rec/spec score stats"@ {
        Some(!o.spec_score_stats)
    } else if name == "Hidden civilization selection"@ {
        Some(false)
    } else if name == "Allow spectators by default"@ {
        Some(false)
    } else {
        None
    }
}

/// Whether `name` holds exactly `text`.
fn name_is(name: &String, text: &str) -> (r: bool)
    ensures
        r == (name@ == text@),
{
    *name == text.to_owned()
}

impl InstallOptions {
    /// Install options for the UserPatch 1.5 core feature update, with all optional
    /// features disabled.
    pub fn bare() -> (r: InstallOptions)
        ensures
            r.interface_style == InterfaceStyle::Centered,
            all_switches_off(r),
    {
        InstallOptions {
            interface_style: InterfaceStyle::Centered,
            windowed_mode: false,
            upnp: false,
            alternate_red: false,
            alternate_purple: false,
            alternate_gray: false,
            extend_population_caps: false,
            replace_snow_with_grass: false,
            water_animation: false,
            precision_scrolling: false,
            shift_group_append: false,
            keydown_hotkeys: false,
            savegame_format: false,
            multiple_queue: false,
            original_patrol_delay: false,
            water_movement: false,
            weather_system: false,
            custom_terrains: false,
            terrain_underwater: false,
            numeric_age_display: false,
            touch_screen_control: false,
            store_spec_addresses: false,
            normal_mouse: false,
            delink_volume: false,
            wine_chatbox: false,
            low_quality_environment: false,
            low_fps: false,
            extended_hotkeys: false,
            force_gameplay_features: false,
            display_ore_resource: false,
            multiplayer_anti_cheat: false,
            default_background_mode: false,
            sp_at_multiplayer_speed: false,
            debug_logging: false,
            statistics_font_style: false,
            background_audio_playback: false,
            civilian_attack_switch: false,
            handle_small_farm_selections: false,
            spec_research_events: false,
            spec_market_events: false,
            spec_score_stats: false,
        }
    }

    /// The setting these options give the optional feature called `name`, or `None`
    /// for a name that no option governs.
    pub fn setting(&self, name: &String) -> (r: Option<bool>)
        ensures
            r == setting_for(*self, name@),
    {
        let o = self;
        if name_is(name, "Widescreen interface style") {
            Some(o.interface_style == InterfaceStyle::Widescreen)
        } else if name_is(name, "Left-aligned interface style") {
            Some(o.interface_style == InterfaceStyle::LeftAligned)
        } else if name_is(name, "Windowed mode support") {
            Some(o.windowed_mode)
        } else if name_is(name, "Port forwarding support") {
            Some(o.upnp)
        } else if name_is(name, "Darken mini-map red") {
            Some(o.alternate_red)
        } else if name_is(name, "Darken mini-map purple") {
            Some(o.alternate_purple)
        } else if name_is(name, "Darken mini-map grey") {
            Some(o.alternate_gray)
        } else if name_is(name, "Population caps to 1000") {
            Some(o.extend_population_caps)
        } else if name_is(name, "Snow/ice terrain removal") {
            Some(o.replace_snow_with_grass)
        } else if name_is(name, "Enable water animation") {
            Some(o.water_animation)
        } else if name_is(name, "Precision scrolling system") {
            Some(o.precision_scrolling)
        } else if name_is(name, "Shift group appending") {
            Some(o.shift_group_append)
        } else if name_is(name, "Keydown object hotkeys") {
            Some(o.keydown_hotkeys)
        } else if name_is(name, "New save filename format") {
            Some(o.savegame_format)
        } else if name_is(name, "Multiple building queue") {
            Some(o.multiple_queue)
        } else if name_is(name, "Original patrol default") {
            Some(o.original_patrol_delay)
        } else if name_is(name, "Disable water movement") {
            Some(!o.water_movement)
        } else if name_is(name, "Disable weather system") {
            Some(!o.weather_system)
        } else if name_is(name, "Disable custom terrains") {
            Some(!o.custom_terrains)
        } else if name_is(name, "Disable terrain underwater") {
            Some(!o.terrain_underwater)
        } else if name_is(name, "Numeric age display") {
            Some(o.numeric_age_display)
        } else if name_is(name, "Touch screen control") {
            Some(o.touch_screen_control)
        } else if name_is(name, "Store Sx spec addresses") {
            Some(o.store_spec_addresses)
        } else if name_is(name, "Custom normal mouse") {
            Some(o.normal_mouse)
        } else if name_is(name, "Delink from system volume") {
            Some(o.delink_volume)
        } else if name_is(name, "Alternate chat box for wine") {
            Some(o.wine_chatbox)
        } else if name_is(name, "Lower quality environment") {
            Some(o.low_quality_environment)
        } else if name_is(name, "Restore 20fps for single player") {
            Some(o.low_fps)
        } else if name_is(name, "Disable extended hotkeys") {
            Some(!o.extended_hotkeys)
        } else if name_is(name, "Force new gameplay features") {
            Some(o.force_gameplay_features)
        } else if name_is(name, "Ore resource amount display") {
            Some(o.display_ore_resource)
        } else if name_is(name, "Disable multiplayer anti-cheat") {
            Some(!o.multiplayer_anti_cheat)
        } else if name_is(name, "Default to background mode") {
            Some(o.default_background_mode)
        } else if name_is(name, "Windowed fullscreen mode") {
            Some(false)
        } else if name_is(name, "Multiplayer single player speed") {
            Some(o.sp_at_multiplayer_speed)
        } else if name_is(name, "Rms and Scx debug logging") {
            Some(o.debug_logging)
        } else if name_is(name, "Change statistics font style") {
            Some(o.statistics_font_style)
        } else if name_is(name, "Background audio playback") {
            Some(o.background_audio_playback)
        } else if name_is(name, "Disable civilian attack switch") {
            Some(o.civilian_attack_switch)
        } else if name_is(name, "Handle small farm selections") {
            Some(o.handle_small_farm_selections)
        } else if name_is(name, "Show rec/spec research events") {
            Some(o.spec_research_events)
        } else if name_is(name, "Show rec/spec market events") {
            Some(o.spec_market_events)
        } else if name_is(name, "Disable rec/spec score stats") {
            Some(!o.spec_score_stats)
        } else if name_is(name, "Hidden civilization selection") {
            Some(false)
        } else if name_is(name, "Allow spectators by default") {
            Some(false)
        } else {
            None
        }
    }
}

impl Default for InstallOptions {
    /// An opinionated set of default options: widescreen interface, extended
    /// population caps, animated and moving water, precision scrolling, shift group
    /// append, keydown hotkeys, the new savegame name format, weather, custom
    /// terrains, terrain underwater, touch screen controls, spectator addresses, the
    /// wine chat box, extended hotkeys, anti-cheat and score statistics.
    fn default() -> (r: InstallOptions)
        ensures
            r.interface_style == InterfaceStyle::Widescreen,
            !r.windowed_mode,
            !r.upnp,
            !r.alternate_red,
            !r.alternate_purple,
            !r.alternate_gray,
            r.extend_population_caps,
            !r.replace_snow_with_grass,
            r.water_animation,
            r.precision_scrolling,
            r.shift_group_append,
            r.keydown_hotkeys,
            r.savegame_format,
            !r.multiple_queue,
            !r.original_patrol_delay,
            r.water_movement,
            r.weather_system,
            r.custom_terrains,
            r.terrain_underwater,
            !r.numeric_age_display,
            r.touch_screen_control,
            r.store_spec_addresses,
            !r.normal_mouse,
            !r.delink_volume,
            r.wine_chatbox,
            !r.low_quality_environment,
            !r.low_fps,
            r.extended_hotkeys,
            !r.force_gameplay_features,
            !r.display_ore_resource,
            r.multiplayer_anti_cheat,
            !r.default_background_mode,
            !r.sp_at_multiplayer_speed,
            !r.debug_logging,
            !r.statistics_font_style,
            !r.background_audio_playback,
            !r.civilian_attack_switch,
            !r.handle_small_farm_selections,
            !r.spec_research_events,
            !r.spec_market_events,
            r.spec_score_stats,
    {
        InstallOptions {
            interface_style: InterfaceStyle::Widescreen,
            windowed_mode: false,
            upnp: false,
            alternate_red: false,
            alternate_purple: false,
            alternate_gray: false,
            extend_population_caps: true,
            replace_snow_with_grass: false,
            water_animation: true,
            precision_scrolling: true,
            shift_group_append: true,
            keydown_hotkeys: true,
            savegame_format: true,
            multiple_queue: false,
            original_patrol_delay: false,
            water_movement: true,
            weather_system: true,
            custom_terrains: true,
            terrain_underwater: true,
            numeric_age_display: false,
            touch_screen_control: true,
            store_spec_addresses: true,
            normal_mouse: false,
            delink_volume: false,
            wine_chatbox: true,
            low_quality_environment: false,
            low_fps: false,
            extended_hotkeys: true,
            force_gameplay_features: false,
            display_ore_resource: false,
            multiplayer_anti_cheat: true,
            default_background_mode: false,
            sp_at_multiplayer_speed: false,
            debug_logging: false,
            statistics_font_style: false,
            background_audio_playback: false,
            civilian_attack_switch: false,
            handle_small_farm_selections: false,
            spec_research_events: false,
            spec_market_events: false,
            spec_score_stats: true,
        }
    }
}

/// A patch: bytes to write at an address of the executable's memory image.
#[derive(Clone, Debug)]
pub struct Injection {
    pub address: u32,
    pub bytes: Vec<u8>,
}

/// A UserPatch feature: the patches it applies, and whether it is on.
#[derive(Debug)]
pub struct Feature {
    pub name: String,
    pub optional: bool,
    pub affects_sync: bool,
    pub enabled: bool,
    pub patches: Vec<Injection>,
}

impl Feature {
    /// Whether the feature is on.
    pub open spec fn is_enabled(&self) -> bool {
        self.enabled
    }

    /// The feature's patches.
    pub open spec fn injections(&self) -> Seq<Injection> {
        self.patches@
    }

    /// A feature with its patches, on or off.
    pub fn new(
        name: String,
        optional: bool,
        affects_sync: bool,
        enabled: bool,
        patches: Vec<Injection>,
    ) -> (r: Feature)
        ensures
            r.name == name,
            r.optional == optional,
            r.affects_sync == affects_sync,
            r.is_enabled() == enabled,
            r.injections() == patches@,
    {
        Feature { name, optional, affects_sync, enabled, patches }
    }

    /// Switches an optional feature on or off.
    pub fn enable(&mut self, enabled: bool)
        requires
            old(self).optional,
        ensures
            final(self).is_enabled() == enabled,
            final(self).name == old(self).name,
            final(self).optional == old(self).optional,
            final(self).affects_sync == old(self).affects_sync,
            final(self).injections() == old(self).injections(),
    {
        self.enabled = enabled;
    }

    /// Whether the feature is on.
    pub fn enabled(&self) -> (r: bool)
        ensures
            r == self.is_enabled(),
    {
        self.enabled
    }
}

/// `buf` with `patch` written over it at `offset`.
pub open spec fn patched(buf: Seq<u8>, offset: int, patch: Seq<u8>) -> Seq<u8> {
    buf.subrange(0, offset) + patch + buf.subrange(offset + patch.len(), buf.len() as int)
}

/// Overwrites bytes of `buffer` at `offset` with `patch`.
pub fn apply_patch(buffer: &mut [u8], offset: usize, patch: &[u8])
    requires
        offset + patch@.len() <= old(buffer)@.len(),
    ensures
        final(buffer)@ == patched(old(buffer)@, offset as int, patch@),
{
    let n = buffer.len();
    let mut i: usize = 0;
    while i < patch.len()
        invariant
            i <= patch@.len(),
            n == buffer@.len(),
            offset + patch@.len() <= buffer@.len(),
            buffer@.len() == old(buffer)@.len(),
            forall|j: int| 0 <= j < offset ==> buffer@[j] == old(buffer)@[j],
            forall|j: int| offset <= j < offset + i ==> buffer@[j] == patch@[j - offset],
            forall|j: int| offset + i <= j < buffer@.len() ==> buffer@[j] == old(buffer)@[j],
        decreases patch@.len() - i,
    {
        buffer[offset + i] = patch[i];
        i = i + 1;
    }
    assert(buffer@ =~= patched(old(buffer)@, offset as int, patch@));
}

/// Size of the executable image that the patches address.
pub const IMAGE_LEN: usize = 3 * 1024 * 1024;

/// Where in the image an injection's address lands: an address past the image is
/// a virtual address of the code or, from 0x7A5000 on, of the data section.
pub open spec fn install_offset(address: u32) -> int {
    if address > IMAGE_LEN {
        if address < 0x7A5000 {
            address - 0x400000
        } else {
            address - 0x512000
        }
    } else {
        address as int
    }
}

/// An injection lands inside the image.
pub open spec fn injection_fits(inj: Injection) -> bool {
    0 <= install_offset(inj.address) && install_offset(inj.address) + inj.bytes@.len() <= IMAGE_LEN
}

/// Every injection of every feature lands inside the image.
pub open spec fn catalogue_fits(features: Seq<Feature>) -> bool {
    forall|i: int, k: int|
        0 <= i < features.len() && 0 <= k < features[i].injections().len() ==> injection_fits(
            #[trigger] features[i].injections()[k],
        )
}

/// `buf` with each of `injs` applied in turn.
pub open spec fn apply_injections(buf: Seq<u8>, injs: Seq<Injection>) -> Seq<u8>
    decreases injs.len(),
{
    if injs.len() == 0 {
        buf
    } else {
        patched(
            apply_injections(buf, injs.drop_last()),
            install_offset(injs.last().address),
            injs.last().bytes@,
        )
    }
}

/// Whether `f` is on once `o` is applied: an optional feature takes the setting
/// that `o` gives its name, where one does.
pub open spec fn configured_enabled(f: Feature, o: InstallOptions) -> bool {
    if f.optional {
        match setting_for(o, f.name@) {
            Some(on) => on,
            None => f.is_enabled(),
        }
    } else {
        f.is_enabled()
    }
}

/// `buf` with the patches of each feature of `features` that `o` leaves on.
pub open spec fn install_features(buf: Seq<u8>, features: Seq<Feature>, o: InstallOptions) -> Seq<
    u8,
>
    decreases features.len(),
{
    if features.len() == 0 {
        buf
    } else {
        let prev = install_features(buf, features.drop_last(), o);
        if configured_enabled(features.last(), o) {
            apply_injections(prev, features.last().injections())
        } else {
            prev
        }
    }
}

/// Whether `f` is on once `options` is applied.
fn configured_state(f: &Feature, options: &InstallOptions) -> (r: bool)
    ensures
        r == configured_enabled(*f, *options),
{
    if f.optional {
        match options.setting(&f.name) {
            Some(on) => on,
            None => f.enabled,
        }
    } else {
        f.enabled
    }
}

/// Switches each optional feature as `options` says; a name that no option governs
/// keeps its state.
pub fn configure_features(features: &mut Vec<Feature>, options: &InstallOptions)
    ensures
        final(features)@.len() == old(features)@.len(),
        forall|i: int|
            0 <= i < old(features)@.len() ==> {
                let (f, g) = (#[trigger] final(features)@[i], old(features)@[i]);
                &&& f.is_enabled() == configured_enabled(g, *options)
                &&& f.name == g.name && f.optional == g.optional
                &&& f.affects_sync == g.affects_sync && f.injections() == g.injections()
            },
{
    let mut i: usize = 0;
    while i < features.len()
        invariant
            i <= features@.len(),
            features@.len() == old(features)@.len(),
            forall|j: int|
                0 <= j < old(features)@.len() ==> {
                    let (f, g) = (#[trigger] features@[j], old(features)@[j]);
                    &&& f.is_enabled() == (if j < i {
                        configured_enabled(g, *options)
                    } else {
                        g.is_enabled()
                    })
                    &&& f.name == g.name && f.optional == g.optional
                    &&& f.affects_sync == g.affects_sync && f.injections() == g.injections()
                },
        decreases features@.len() - i,
    {
        let on = configured_state(&features[i], options);
        if features[i].optional {
            features[i].enable(on);
        }
        i = i + 1;
    }
}

/// Installs UserPatch 1.5 into a buffer holding a 1.0c executable: the buffer is
/// extended with zeros to the image size, then the patches of every feature that
/// `options` leaves on are written in catalogue order.
pub fn install_into(exe_buffer: &[u8], features: &Vec<Feature>, options: &InstallOptions) -> (r:
    Vec<u8>)
    requires
        exe_buffer@.len() <= IMAGE_LEN,
        catalogue_fits(features@),
    ensures
        r@ == install_features(
            exe_buffer@ + Seq::new((IMAGE_LEN - exe_buffer@.len()) as nat, |i: int| 0u8),
            features@,
            *options,
        ),
{
    let mut image: Vec<u8> = Vec::with_capacity(IMAGE_LEN);
    let mut k: usize = 0;
    while k < exe_buffer.len()
        invariant
            k <= exe_buffer@.len(),
            image@ == exe_buffer@.subrange(0, k as int),
        decreases exe_buffer@.len() - k,
    {
        image.push(exe_buffer[k]);
        k = k + 1;
        assert(image@ =~= exe_buffer@.subrange(0, k as int));
    }
    let ghost zeros = Seq::new((IMAGE_LEN - exe_buffer@.len()) as nat, |i: int| 0u8);
    while image.len() < IMAGE_LEN
        invariant
            exe_buffer@.len() <= image@.len() <= IMAGE_LEN,
            zeros == Seq::new((IMAGE_LEN - exe_buffer@.len()) as nat, |i: int| 0u8),
            image@ == exe_buffer@ + zeros.subrange(0, image@.len() - exe_buffer@.len()),
        decreases IMAGE_LEN - image@.len(),
    {
        image.push(0);
        assert(image@ =~= exe_buffer@ + zeros.subrange(0, image@.len() - exe_buffer@.len()));
    }
    assert(zeros.subrange(0, zeros.len() as int) =~= zeros);
    let ghost start = image@;
    let mut i: usize = 0;
    while i < features.len()
        invariant
            i <= features@.len(),
            catalogue_fits(features@),
            image@.len() == IMAGE_LEN,
            image@ == install_features(start, features@.subrange(0, i as int), *options),
        decreases features@.len() - i,
    {
        let f = &features[i];
        assert(features@.subrange(0, i + 1).drop_last() =~= features@.subrange(0, i as int));
        if configured_state(f, options) {
            let ghost before = image@;
            let mut k: usize = 0;
            while k < f.patches.len()
                invariant
                    i < features@.len(),
                    *f == features@[i as int],
                    catalogue_fits(features@),
                    k <= f.injections().len(),
                    image@.len() == IMAGE_LEN,
                    image@ == apply_injections(before, f.injections().subrange(0, k as int)),
                decreases f.injections().len() - k,
            {
                let inj = &f.patches[k];
                assert(injection_fits(features@[i as int].injections()[k as int]));
                let offset: usize = if inj.address as usize > IMAGE_LEN {
                    if inj.address < 0x7A5000 {
                        inj.address as usize - 0x400000
                    } else {
                        inj.address as usize - 0x512000
                    }
                } else {
                    inj.address as usize
                };
                apply_patch(image.as_mut_slice(), offset, inj.bytes.as_slice());
                assert(f.injections().subrange(0, k + 1).drop_last() =~= f.injections().subrange(
                    0,
                    k as int,
                ));
                k = k + 1;
            }
            assert(f.injections().subrange(0, k as int) =~= f.injections());
        }
        i = i + 1;
    }
    assert(features@.subrange(0, features@.len() as int) =~= features@);
    image
}

/// A character that is a hexadecimal digit ([0-9A-Fa-f]).
pub open spec fn is_hex_digit(c: char) -> bool {
    ('0' <= c <= '9') || ('A' <= c <= 'F') || ('a' <= c <= 'f')
}

/// Value of a hexadecimal digit.
pub open spec fn hex_value(c: char) -> int {
    if '0' <= c <= '9' {
        c as int - '0' as int
    } else if 'A' <= c <= 'F' {
        c as int - 'A' as int + 10
    } else {
        c as int - 'a' as int + 10
    }
}

/// The bytes that a string of hexadecimal digit pairs spells.
pub open spec fn hex_bytes(s: Seq<char>) -> Seq<u8> {
    Seq::new(s.len() / 2, |i: int| (hex_value(s[2 * i]) * 16 + hex_value(s[2 * i + 1])) as u8)
}

/// Value of the hexadecimal digit whose ASCII code is `b`.
fn hex_byte_value(b: u8) -> (r: u8)
    requires
        is_hex_digit(b as char),
    ensures
        r == hex_value(b as char),
        r < 16,
{
    if b >= 0x30 && b <= 0x39 {
        b - 0x30
    } else if b >= 0x41 && b <= 0x46 {
        b - 0x41 + 10
    } else {
        b - 0x61 + 10
    }
}

/// Decodes a string of hexadecimal digit pairs to the bytes they spell.
pub fn decode_hex(hexa: &str) -> (r: Vec<u8>)
    requires
        hexa@.len() % 2 == 0,
        forall|i: int| 0 <= i < hexa@.len() ==> is_hex_digit(#[trigger] hexa@[i]),
    ensures
        r@ == hex_bytes(hexa@),
{
    broadcast use is_ascii_spec_bytes;

    assert(is_ascii(hexa));
    let b = hexa.as_bytes();
    assert(b@ =~= Seq::new(hexa@.len(), |i| hexa@[i] as u8));
    let n = b.len();
    let mut r: Vec<u8> = Vec::with_capacity(n / 2);
    let mut i: usize = 0;
    while i < n / 2
        invariant
            n == b@.len(),
            n == hexa@.len(),
            n % 2 == 0,
            i <= n / 2,
            b@ == Seq::new(hexa@.len(), |j| hexa@[j] as u8),
            forall|j: int| 0 <= j < hexa@.len() ==> is_hex_digit(#[trigger] hexa@[j]),
            r@ == hex_bytes(hexa@).subrange(0, i as int),
        decreases n / 2 - i,
    {
        assert(hexa@[2 * i as int] as u8 as char == hexa@[2 * i as int]);
        assert(hexa@[2 * i + 1] as u8 as char == hexa@[2 * i + 1]);
        let high = hex_byte_value(b[2 * i]);
        let low = hex_byte_value(b[2 * i + 1]);
        r.push(high * 16 + low);
        i = i + 1;
        assert(r@ =~= hex_bytes(hexa@).subrange(0, i as int));
    }
    assert(hex_bytes(hexa@).subrange(0, (n / 2) as int) =~= hex_bytes(hexa@));
    r
}

} // verus!
