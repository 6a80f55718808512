use vstd::prelude::*;

use crate::text::{parse_u32, parsed_u32, str_eq};

verus! {

/// Which outputs (monitors) get a background layer.
#[derive(Debug, Clone, PartialEq, Eq)]
pub enum OutputMode {
    /// Every output.
    All,
    /// Only the output with this name.
    Named(String),
}

impl Default for OutputMode {
    fn default() -> (mode: Self)
        ensures
            mode == OutputMode::All,
    {
        OutputMode::All
    }
}

/// How the audio spectrum is drawn on screen.
#[derive(Debug, Clone, Copy, PartialEq, Eq, Structural)]
pub enum VisualizationMode {
    /// Horizontal stripes, one continuous sinusoid per spectrum band.
    Stripes,
    /// A single composite wave: the superposition of all band sinusoids
    /// drawn as one glowing line across the screen.
    Composite,
}

impl Default for VisualizationMode {
    fn default() -> (mode: Self)
        ensures
            mode == VisualizationMode::Stripes,
    {
        VisualizationMode::Stripes
    }
}

/// The flag value that the shader receives for each mode.
pub open spec fn mode_flag(mode: VisualizationMode) -> u32 {
    match mode {
        VisualizationMode::Stripes => 0,
        VisualizationMode::Composite => 1,
    }
}

impl VisualizationMode {
    /// Flag passed to the shader through the uniform `mode` field:
    /// 0 for stripes, 1 for the composite wave.
    pub fn shader_flag(self) -> (flag: u32)
        ensures
            flag == mode_flag(self),
    {
        match self {
            VisualizationMode::Stripes => 0,
            VisualizationMode::Composite => 1,
        }
    }
}

/// Two different modes never share a shader flag.
pub proof fn lemma_shader_flag_distinguishes_modes(a: VisualizationMode, b: VisualizationMode)
    ensures
        mode_flag(a) == mode_flag(b) <==> a == b,
{
}

/// How the daemon reacts to the machine's power state.
#[derive(Debug, Clone, Copy, PartialEq, Eq, Structural)]
pub struct PowerConfig {
    /// Render at the battery frame rate while running on battery.
    pub reduce_fps_on_battery: bool,
    /// Stop rendering while the laptop lid is closed.
    pub pause_on_lid_closed: bool,
}

impl Default for PowerConfig {
    fn default() -> (power: Self)
        ensures
            power.reduce_fps_on_battery,
            power.pause_on_lid_closed,
    {
        PowerConfig { reduce_fps_on_battery: default_true(), pause_on_lid_closed: default_true() }
    }
}

impl PowerConfig {
    /// Whether rendering pauses, given whether the lid is closed.
    pub fn should_pause(&self, lid_closed: bool) -> (pause: bool)
        ensures
            pause == (self.pause_on_lid_closed && lid_closed),
    {
        self.pause_on_lid_closed && lid_closed
    }
}

/// Lowest frame rate the renderer runs at.
pub const MIN_FPS: u32 = 1;

/// Highest frame rate the renderer runs at.
pub const MAX_FPS: u32 = 240;

/// Shader used when the configuration names none.
pub const DEFAULT_SHADER_PATH: &'static str = "/usr/share/cosmic-audio-bg/shaders/sinusoids.wgsl";

/// The daemon's configuration.
///
/// The three tuning values that the configuration file writes as
/// floating-point numbers are held here as the bit patterns of their IEEE-754
/// single-precision values; the library only carries them from one
/// configuration to another and never computes with them.
#[derive(Debug, Clone)]
pub struct Config {
    /// Path of the WGSL shader that draws the background.
    pub shader_path: String,
    /// Frame rate on mains power.
    pub fps_ac: u32,
    /// Frame rate on battery, when the power configuration asks for it.
    pub fps_battery: u32,
    /// Bit pattern of the audio sensitivity multiplier.
    pub audio_sensitivity_bits: u32,
    /// Bit pattern of the audio energy below which the audio counts as idle.
    pub idle_energy_threshold_bits: u32,
    /// Bit pattern of the number of idle seconds before the idle animation
    /// has fully faded in.
    pub idle_seconds_bits: u32,
    /// Outputs that get a background.
    pub output: OutputMode,
    /// How the spectrum is drawn.
    pub visualization: VisualizationMode,
    /// Reaction to battery and lid state.
    pub power: PowerConfig,
}

/// The default shader path.
pub fn default_shader() -> (path: String)
    ensures
        path@ == DEFAULT_SHADER_PATH@,
{
    DEFAULT_SHADER_PATH.to_owned()
}

/// The default frame rate on mains power.
pub fn default_fps_ac() -> (fps: u32)
    ensures
        fps == 60,
{
    60
}

/// The default frame rate on battery.
pub fn default_fps_battery() -> (fps: u32)
    ensures
        fps == 30,
{
    30
}

/// Bit pattern of the default audio sensitivity, `1.0`.
pub fn default_audio_sensitivity_bits() -> (bits: u32)
    ensures
        bits == 0x3f80_0000,
{
    0x3f80_0000
}

/// Bit pattern of the default idle energy threshold, `0.02`.
pub fn default_idle_threshold_bits() -> (bits: u32)
    ensures
        bits == 0x3ca3_d70a,
{
    0x3ca3_d70a
}

/// Bit pattern of the default idle fade-in time, `3.0` seconds.
pub fn default_idle_seconds_bits() -> (bits: u32)
    ensures
        bits == 0x4040_0000,
{
    0x4040_0000
}

/// The default of the power switches.
pub fn default_true() -> (b: bool)
    ensures
        b,
{
    true
}

/// The configuration that an empty configuration file gives.
pub open spec fn is_default_config(c: Config) -> bool {
    &&& c.shader_path@ == DEFAULT_SHADER_PATH@
    &&& c.fps_ac == 60
    &&& c.fps_battery == 30
    &&& c.audio_sensitivity_bits == 0x3f80_0000
    &&& c.idle_energy_threshold_bits == 0x3ca3_d70a
    &&& c.idle_seconds_bits == 0x4040_0000
    &&& c.output == OutputMode::All
    &&& c.visualization == VisualizationMode::Stripes
    &&& c.power.reduce_fps_on_battery
    &&& c.power.pause_on_lid_closed
}

impl Default for Config {
    fn default() -> (config: Self)
        ensures
            is_default_config(config),
    {
        Config {
            shader_path: default_shader(),
            fps_ac: default_fps_ac(),
            fps_battery: default_fps_battery(),
            audio_sensitivity_bits: default_audio_sensitivity_bits(),
            idle_energy_threshold_bits: default_idle_threshold_bits(),
            idle_seconds_bits: default_idle_seconds_bits(),
            output: OutputMode::default(),
            visualization: VisualizationMode::default(),
            power: PowerConfig::default(),
        }
    }
}

/// Per-machine settings that take precedence over the base configuration;
/// a field left out keeps the base value.
#[derive(Debug, Clone)]
pub struct MachineOverride {
    pub shader_path: Option<String>,
    pub fps_ac: Option<u32>,
    pub fps_battery: Option<u32>,
    /// Bit pattern of the audio sensitivity multiplier.
    pub audio_sensitivity_bits: Option<u32>,
    pub output: Option<OutputMode>,
    pub visualization: Option<VisualizationMode>,
}

/// `replacement` where it is present, `current` otherwise.
pub open spec fn overridden<T>(current: T, replacement: Option<T>) -> T {
    match replacement {
        Some(v) => v,
        None => current,
    }
}

/// An override that sets nothing.
pub open spec fn sets_nothing(o: MachineOverride) -> bool {
    &&& o.shader_path is None
    &&& o.fps_ac is None
    &&& o.fps_battery is None
    &&& o.audio_sensitivity_bits is None
    &&& o.output is None
    &&& o.visualization is None
}

/// The value of the `COSMIC_AUDIO_BG_FPS` variable as a frame rate, if it
/// is set and parses as one.
pub open spec fn env_fps(fps: Option<String>) -> Option<u32> {
    match fps {
        Some(text) => parsed_u32(text@),
        None => None,
    }
}

impl Config {
    /// `self` with every field that `other` sets replaced by its value.
    pub open spec fn merged(self, other: MachineOverride) -> Config {
        Config {
            shader_path: overridden(self.shader_path, other.shader_path),
            fps_ac: overridden(self.fps_ac, other.fps_ac),
            fps_battery: overridden(self.fps_battery, other.fps_battery),
            audio_sensitivity_bits: overridden(
                self.audio_sensitivity_bits,
                other.audio_sensitivity_bits,
            ),
            output: overridden(self.output, other.output),
            visualization: overridden(self.visualization, other.visualization),
            ..self
        }
    }

    /// `self` after the environment overrides: `shader` replaces the shader
    /// path, and `fps`, when it parses as a number, the mains frame rate.
    pub open spec fn env_applied(self, shader: Option<String>, fps: Option<String>) -> Config {
        Config {
            shader_path: overridden(self.shader_path, shader),
            fps_ac: overridden(self.fps_ac, env_fps(fps)),
            ..self
        }
    }

    /// `self` showing `mode`.
    pub open spec fn with_mode(self, mode: VisualizationMode) -> Config {
        Config { visualization: mode, ..self }
    }

    /// Applies a per-machine override.
    pub fn merge(&mut self, other: MachineOverride)
        ensures
            *final(self) == old(self).merged(other),
            final(self).shader_path == (match other.shader_path {
                Some(v) => v,
                None => old(self).shader_path,
            }),
            final(self).fps_ac == (match other.fps_ac {
                Some(v) => v,
                None => old(self).fps_ac,
            }),
            final(self).fps_battery == (match other.fps_battery {
                Some(v) => v,
                None => old(self).fps_battery,
            }),
            final(self).audio_sensitivity_bits == (match other.audio_sensitivity_bits {
                Some(v) => v,
                None => old(self).audio_sensitivity_bits,
            }),
            final(self).output == (match other.output {
                Some(v) => v,
                None => old(self).output,
            }),
            final(self).visualization == (match other.visualization {
                Some(v) => v,
                None => old(self).visualization,
            }),
            final(self).idle_energy_threshold_bits == old(self).idle_energy_threshold_bits,
            final(self).idle_seconds_bits == old(self).idle_seconds_bits,
            final(self).power == old(self).power,
    {
        if let Some(path) = other.shader_path {
            self.shader_path = path;
        }
        if let Some(fps) = other.fps_ac {
            self.fps_ac = fps;
        }
        if let Some(fps) = other.fps_battery {
            self.fps_battery = fps;
        }
        if let Some(s) = other.audio_sensitivity_bits {
            self.audio_sensitivity_bits = s;
        }
        if let Some(output) = other.output {
            self.output = output;
        }
        if let Some(visualization) = other.visualization {
            self.visualization = visualization;
        }
    }

    /// Applies the values of the `COSMIC_AUDIO_BG_SHADER` (`shader`) and
    /// `COSMIC_AUDIO_BG_FPS` (`fps`) environment variables, `None` for an
    /// unset one. A frame rate that does not parse is ignored.
    pub fn apply_env_overrides(&mut self, shader: Option<String>, fps: Option<String>)
        ensures
            *final(self) == old(self).env_applied(shader, fps),
            final(self).shader_path == (match shader {
                Some(p) => p,
                None => old(self).shader_path,
            }),
            final(self).fps_ac == (match fps {
                Some(text) => match parsed_u32(text@) {
                    Some(v) => v,
                    None => old(self).fps_ac,
                },
                None => old(self).fps_ac,
            }),
            final(self).fps_battery == old(self).fps_battery,
            final(self).audio_sensitivity_bits == old(self).audio_sensitivity_bits,
            final(self).idle_energy_threshold_bits == old(self).idle_energy_threshold_bits,
            final(self).idle_seconds_bits == old(self).idle_seconds_bits,
            final(self).output == old(self).output,
            final(self).visualization == old(self).visualization,
            final(self).power == old(self).power,
    {
        if let Some(path) = shader {
            self.shader_path = path;
        }
        if let Some(text) = fps {
            if let Some(fps) = parse_u32(text.as_str()) {
                self.fps_ac = fps;
            }
        }
    }

    /// The configuration that results from a base configuration (`None`
    /// when there is no base file), an optional per-machine override, and
    /// the environment overrides, which are applied last.
    pub fn with_machine_override(
        base: Option<Config>,
        machine: Option<MachineOverride>,
        shader_env: Option<String>,
        fps_env: Option<String>,
    ) -> (config: Config)
        ensures
            base matches Some(b) ==> config == overridden_by_machine(b, machine).env_applied(
                shader_env,
                fps_env,
            ),
            base is None ==> exists|d: Config|
                is_default_config(d) && config == overridden_by_machine(d, machine).env_applied(
                    shader_env,
                    fps_env,
                ),
    {
        let mut config = match base {
            Some(c) => c,
            None => Config::default(),
        };
        if let Some(m) = machine {
            config.merge(m);
        }
        config.apply_env_overrides(shader_env, fps_env);
        config
    }

    /// Which frame rate to render at: the battery rate, clamped to
    /// `MIN_FPS..=MAX_FPS`, when on battery and the power configuration asks
    /// for it, else the mains rate, clamped alike.
    pub fn effective_fps(&self, on_battery: bool) -> (fps: u32)
        ensures
            fps == (if on_battery && self.power.reduce_fps_on_battery {
                clamp_fps(self.fps_battery)
            } else {
                clamp_fps(self.fps_ac)
            }),
            MIN_FPS <= fps <= MAX_FPS,
            ({
                let chosen = if on_battery && self.power.reduce_fps_on_battery {
                    self.fps_battery
                } else {
                    self.fps_ac
                };
                &&& MIN_FPS <= chosen <= MAX_FPS ==> fps == chosen
                &&& chosen < MIN_FPS ==> fps == MIN_FPS
                &&& chosen > MAX_FPS ==> fps == MAX_FPS
            }),
    {
        if on_battery && self.power.reduce_fps_on_battery {
            clamp_to_fps_range(self.fps_battery)
        } else {
            clamp_to_fps_range(self.fps_ac)
        }
    }

    /// Shows `mode`; returns whether it differs from the mode shown before,
    /// in which case the renderer is rebuilt and the choice persisted.
    pub fn select_mode(&mut self, mode: VisualizationMode) -> (changed: bool)
        ensures
            changed == (old(self).visualization != mode),
            *final(self) == old(self).with_mode(mode),
            final(self).visualization == mode,
            final(self).shader_path == old(self).shader_path,
            final(self).fps_ac == old(self).fps_ac,
            final(self).fps_battery == old(self).fps_battery,
            final(self).audio_sensitivity_bits == old(self).audio_sensitivity_bits,
            final(self).idle_energy_threshold_bits == old(self).idle_energy_threshold_bits,
            final(self).idle_seconds_bits == old(self).idle_seconds_bits,
            final(self).output == old(self).output,
            final(self).power == old(self).power,
    {
        if self.visualization != mode {
            self.visualization = mode;
            true
        } else {
            false
        }
    }

    /// Whether the output called `name` gets a background layer.
    pub fn output_allowed(&self, name: &str) -> (allowed: bool)
        ensures
            allowed == match self.output {
                OutputMode::All => true,
                OutputMode::Named(expected) => expected@ == name@,
            },
    {
        match &self.output {
            OutputMode::All => true,
            OutputMode::Named(expected) => str_eq(expected.as_str(), name),
        }
    }
}

/// `config` after the per-machine override, if there is one.
pub open spec fn overridden_by_machine(config: Config, machine: Option<MachineOverride>) -> Config {
    match machine {
        Some(m) => config.merged(m),
        None => config,
    }
}

/// `fps` clamped to `MIN_FPS..=MAX_FPS`.
pub open spec fn clamp_fps(fps: u32) -> u32 {
    if fps < MIN_FPS {
        MIN_FPS
    } else if fps > MAX_FPS {
        MAX_FPS
    } else {
        fps
    }
}

/// `fps.clamp(MIN_FPS, MAX_FPS)`.
fn clamp_to_fps_range(fps: u32) -> (clamped: u32)
    ensures
        clamped == clamp_fps(fps),
{
    if fps < MIN_FPS {
        MIN_FPS
    } else if fps > MAX_FPS {
        MAX_FPS
    } else {
        fps
    }
}

/// The frame timer's period, in milliseconds, for a frame rate.
pub open spec fn frame_period(fps: u32) -> u64 {
    if fps < 1 {
        1000
    } else {
        1000u64 / (fps as u64)
    }
}

/// Period of the frame timer for `fps` frames per second, a rate of zero
/// counting as one.
pub fn frame_period_ms(fps: u32) -> (period: u64)
    ensures
        period == frame_period(fps),
{
    let rate: u64 = if fps < 1 { 1 } else { fps as u64 };
    let period: u64 = 1000 / rate;
    period
}

/// Merging an override that sets nothing leaves the configuration unchanged.
pub proof fn lemma_merge_of_empty_override(c: Config, o: MachineOverride)
    requires
        sets_nothing(o),
    ensures
        c.merged(o) == c,
{
}

/// Merging the same override twice gives what merging it once gives.
pub proof fn lemma_merge_idempotent(c: Config, o: MachineOverride)
    ensures
        c.merged(o).merged(o) == c.merged(o),
{
}

/// A per-machine override never touches the power switches nor the idle
/// tuning, which it cannot name.
pub proof fn lemma_merge_keeps_unnamed_fields(c: Config, o: MachineOverride)
    ensures
        c.merged(o).power == c.power,
        c.merged(o).idle_energy_threshold_bits == c.idle_energy_threshold_bits,
        c.merged(o).idle_seconds_bits == c.idle_seconds_bits,
{
}

/// Applying the environment overrides a second time changes nothing, so a
/// configuration that was loaded with them applied may get them again.
pub proof fn lemma_env_overrides_idempotent(c: Config, shader: Option<String>, fps: Option<String>)
    ensures
        c.env_applied(shader, fps).env_applied(shader, fps) == c.env_applied(shader, fps),
{
}

/// The environment takes precedence over the per-machine override: a shader
/// path set in the environment is the one used.
pub proof fn lemma_env_shader_wins(
    c: Config,
    machine: Option<MachineOverride>,
    shader: String,
    fps: Option<String>,
)
    ensures
        overridden_by_machine(c, machine).env_applied(Some(shader), fps).shader_path == shader,
{
}

/// After a mode is selected it is the mode shown, and selecting it again
/// changes nothing.
pub proof fn lemma_select_mode_settles(c: Config, mode: VisualizationMode)
    ensures
        c.with_mode(mode).visualization == mode,
        c.with_mode(mode).with_mode(mode) == c.with_mode(mode),
{
}

/// Each field of a merged configuration comes from the same field of the
/// override when the override sets it, and from the base otherwise; no field
/// of the override reaches any other field.
pub proof fn lemma_merge_fieldwise(c: Config, o: MachineOverride)
    ensures
        c.merged(o).shader_path == (match o.shader_path {
            Some(v) => v,
            None => c.shader_path,
        }),
        c.merged(o).fps_ac == (match o.fps_ac {
            Some(v) => v,
            None => c.fps_ac,
        }),
        c.merged(o).fps_battery == (match o.fps_battery {
            Some(v) => v,
            None => c.fps_battery,
        }),
        c.merged(o).audio_sensitivity_bits == (match o.audio_sensitivity_bits {
            Some(v) => v,
            None => c.audio_sensitivity_bits,
        }),
        c.merged(o).output == (match o.output {
            Some(v) => v,
            None => c.output,
        }),
        c.merged(o).visualization == (match o.visualization {
            Some(v) => v,
            None => c.visualization,
        }),
        c.merged(o).idle_energy_threshold_bits == c.idle_energy_threshold_bits,
        c.merged(o).idle_seconds_bits == c.idle_seconds_bits,
        c.merged(o).power == c.power,
{
}

/// Clamping to the frame-rate range keeps a rate that already lies in it,
/// and moves any other rate to the nearer end of the range.
pub proof fn lemma_clamp_fps_range(fps: u32)
    ensures
        MIN_FPS <= fps <= MAX_FPS ==> clamp_fps(fps) == fps,
        fps < MIN_FPS ==> clamp_fps(fps) == MIN_FPS,
        fps > MAX_FPS ==> clamp_fps(fps) == MAX_FPS,
        MIN_FPS <= clamp_fps(fps) <= MAX_FPS,
{
}

/// The frame timer period is the whole number of milliseconds in one frame:
/// `fps` periods fit in a second and one more does not.
pub proof fn lemma_frame_period_fits_second(fps: u32)
    requires
        fps >= 1,
    ensures
        frame_period(fps) * fps <= 1000 < (frame_period(fps) + 1) * fps,
{
    let p = frame_period(fps);
    assert(p == 1000int / (fps as int));
    assert(p * fps <= 1000 < (p + 1) * fps) by (nonlinear_arith)
        requires p == 1000int / (fps as int), fps >= 1;
}

} // verus!
