//! Launch choices: the renderer and its labels, the settings fields typed in
//! the launcher, command-line precedence, and the launcher's preparation
//! stages and messages.

use std::hash::BuildHasher;
use vstd::prelude::*;

use crate::text::{
    ascii_lowercase, ascii_lowercase_chars, chars_of, debug_quote, debug_quoted, decimal,
    parse_u32_chars, parsed_u32, push_decimal, push_str, string_from, trim_chars, trimmed,
};

verus! {

/// How game frames are presented.
#[derive(Debug, Clone, Copy, PartialEq, Eq, Structural)]
pub enum RenderBackend {
    /// Slint vector paths.
    Vector,
    /// A software raster image.
    Raster,
}

impl Default for RenderBackend {
    fn default() -> (backend: Self)
        ensures
            backend == RenderBackend::Vector,
    {
        RenderBackend::Vector
    }
}

/// The label of a renderer in settings, the launcher and reports.
pub open spec fn renderer_text(renderer: RenderBackend) -> Seq<char> {
    match renderer {
        RenderBackend::Vector => "vector"@,
        RenderBackend::Raster => "raster"@,
    }
}

impl RenderBackend {
    /// The renderer's label.
    pub fn label(self) -> (label: &'static str)
        ensures
            label@ == renderer_text(self),
    {
        match self {
            RenderBackend::Vector => "vector",
            RenderBackend::Raster => "raster",
        }
    }
}

/// The renderer's label.
pub fn renderer_label(renderer: RenderBackend) -> (label: &'static str)
    ensures
        label@ == renderer_text(renderer),
{
    renderer.label()
}

/// The renderer actually used: a display that can only draw raster images
/// gets the raster renderer in place of the vector one; any other request is
/// kept. `source` names where the request came from and does not change the
/// result.
pub fn resolve(requested: RenderBackend, raster_only: bool, source: &str) -> (effective:
    RenderBackend)
    ensures
        effective == if raster_only && requested == RenderBackend::Vector {
            RenderBackend::Raster
        } else {
            requested
        },
{
    if raster_only && requested == RenderBackend::Vector {
        RenderBackend::Raster
    } else {
        requested
    }
}

/// Moves a saved vector renderer to raster on a raster-only display; returns
/// whether the saved value changed.
pub fn normalize_renderer(saved: &mut RenderBackend, raster_only: bool) -> (changed: bool)
    ensures
        *final(saved) == resolve_spec(*old(saved), raster_only),
        changed == (*final(saved) != *old(saved)),
{
    let effective = resolve(*saved, raster_only, "saved_settings");
    if effective == *saved {
        return false;
    }
    *saved = RenderBackend::Raster;
    true
}

/// The renderer `resolve` picks.
pub open spec fn resolve_spec(requested: RenderBackend, raster_only: bool) -> RenderBackend {
    if raster_only && requested == RenderBackend::Vector {
        RenderBackend::Raster
    } else {
        requested
    }
}

/// The message for a renderer label that names no renderer, given the label
/// already spelled as `{:?}` spells it.
pub fn unknown_renderer_message(quoted: &str) -> (message: String)
    ensures
        message@ == "Unknown renderer "@ + quoted@ + "."@,
{
    let mut message = String::new();
    push_str(&mut message, "Unknown renderer ");
    push_str(&mut message, quoted);
    push_str(&mut message, ".");
    message
}

/// The renderer named by `label`, ignoring surrounding white space and ASCII
/// case.
pub fn renderer_from_label(label: &str) -> (r: Result<RenderBackend, String>)
    ensures
        ({
            let key = ascii_lowercase(trimmed(label@));
            &&& key == "vector"@ ==> r == Ok::<RenderBackend, String>(RenderBackend::Vector)
            &&& key == "raster"@ ==> r == Ok::<RenderBackend, String>(RenderBackend::Raster)
            &&& key != "vector"@ && key != "raster"@ ==> (r matches Err(message) && message@
                == "Unknown renderer "@ + debug_quoted(label@) + "."@)
        }),
{
    let chars = chars_of(label);
    let trimmed_label = trim_chars(chars.as_slice());
    let key = ascii_lowercase_chars(trimmed_label.as_slice());
    let key_text = string_from(key.as_slice());
    proof {
        reveal_strlit("vector");
        reveal_strlit("raster");
    }
    assert("vector"@[0] != "raster"@[0]);
    if crate::text::str_equal(key_text.as_str(), "vector") {
        Ok(RenderBackend::Vector)
    } else if crate::text::str_equal(key_text.as_str(), "raster") {
        Ok(RenderBackend::Raster)
    } else {
        let quoted = debug_quote(label);
        Err(unknown_renderer_message(quoted.as_str()))
    }
}

/// `on` or `off`.
pub fn bool_label(value: bool) -> (label: &'static str)
    ensures
        label@ == if value { "on"@ } else { "off"@ },
{
    if value {
        "on"
    } else {
        "off"
    }
}

/// The message for a label that is neither on nor off, given the label
/// already spelled as `{:?}` spells it.
pub fn on_off_message(quoted: &str) -> (message: String)
    ensures
        message@ == "Expected on or off, got "@ + quoted@ + "."@,
{
    let mut message = String::new();
    push_str(&mut message, "Expected on or off, got ");
    push_str(&mut message, quoted);
    push_str(&mut message, ".");
    message
}

/// Whether a lower-cased label means on.
pub open spec fn means_on(key: Seq<char>) -> bool {
    key == "on"@ || key == "true"@ || key == "yes"@ || key == "1"@
}

/// Whether a lower-cased label means off.
pub open spec fn means_off(key: Seq<char>) -> bool {
    key == "off"@ || key == "false"@ || key == "no"@ || key == "0"@
}

/// Reads on/true/yes/1 as true and off/false/no/0 as false, ignoring
/// surrounding white space and ASCII case.
pub fn bool_from_label(label: &str) -> (r: Result<bool, String>)
    ensures
        ({
            let key = ascii_lowercase(trimmed(label@));
            &&& means_on(key) ==> r == Ok::<bool, String>(true)
            &&& means_off(key) ==> r == Ok::<bool, String>(false)
            &&& !means_on(key) && !means_off(key) ==> (r matches Err(message) && message@
                == "Expected on or off, got "@ + debug_quoted(label@) + "."@)
        }),
{
    let chars = chars_of(label);
    let trimmed_label = trim_chars(chars.as_slice());
    let key = ascii_lowercase_chars(trimmed_label.as_slice());
    let key_text = string_from(key.as_slice());
    proof {
        reveal_strlit("on");
        reveal_strlit("true");
        reveal_strlit("yes");
        reveal_strlit("1");
        reveal_strlit("off");
        reveal_strlit("false");
        reveal_strlit("no");
        reveal_strlit("0");
        assert("on"@[0] == 'o' && "on"@.len() == 2);
        assert("true"@[0] == 't' && "true"@.len() == 4);
        assert("yes"@[0] == 'y' && "yes"@.len() == 3);
        assert("1"@[0] == '1' && "1"@.len() == 1);
        assert("off"@[0] == 'o' && "off"@.len() == 3);
        assert("false"@[0] == 'f' && "false"@.len() == 5);
        assert("no"@[0] == 'n' && "no"@.len() == 2);
        assert("0"@[0] == '0' && "0"@.len() == 1);
    }
    let k = key_text.as_str();
    if crate::text::str_equal(k, "on") || crate::text::str_equal(k, "true")
        || crate::text::str_equal(k, "yes") || crate::text::str_equal(k, "1") {
        Ok(true)
    } else if crate::text::str_equal(k, "off") || crate::text::str_equal(k, "false")
        || crate::text::str_equal(k, "no") || crate::text::str_equal(k, "0") {
        Ok(false)
    } else {
        let quoted = debug_quote(label);
        Err(on_off_message(quoted.as_str()))
    }
}

/// The message for a whole-number setting that is not a number.
pub open spec fn integer_setting_text(label: Seq<char>, min: u32, max: u32) -> Seq<char> {
    label + " must be an integer from "@ + decimal(min as nat) + " to "@ + decimal(max as nat)
        + "."@
}

/// Reads a whole-number setting typed in the launcher and clamps it to
/// `min..=max`.
pub fn parse_u32_setting(value: &str, label: &str, min: u32, max: u32) -> (r: Result<u32, String>)
    requires
        min <= max,
    ensures
        match parsed_u32(trimmed(value@)) {
            Some(n) => r == Ok::<u32, String>(if n < min { min } else if n > max { max } else { n }),
            None => r matches Err(message) && message@ == integer_setting_text(label@, min, max),
        },
{
    let chars = chars_of(value);
    let trimmed_value = trim_chars(chars.as_slice());
    match parse_u32_chars(trimmed_value.as_slice()) {
        Some(n) => Ok(
            if n < min {
                min
            } else if n > max {
                max
            } else {
                n
            },
        ),
        None => {
            let mut message = String::new();
            push_str(&mut message, label);
            push_str(&mut message, " must be an integer from ");
            push_decimal(&mut message, min as u128);
            push_str(&mut message, " to ");
            push_decimal(&mut message, max as u128);
            push_str(&mut message, ".");
            Err(message)
        },
    }
}


/// The command-line choices that decide how the client starts.
#[derive(Debug, Clone, PartialEq, Eq)]
pub struct LaunchArgs {
    pub scenario: Option<String>,
    pub seed: Option<u64>,
    pub renderer: Option<RenderBackend>,
    /// A raster scale was given.
    pub raster_scale_given: bool,
    pub debug_render: bool,
    pub debug_triangles: usize,
    pub benchmark: bool,
    pub benchmark_headless: bool,
    pub fullscreen: bool,
    pub windowed: bool,
    pub kiosk: bool,
}

/// The launch that the client performs: saved settings overridden by the
/// command line.
#[derive(Debug, Clone, PartialEq, Eq)]
pub struct EffectiveLaunch {
    pub scenario: String,
    pub seed: u64,
    pub renderer: RenderBackend,
}

/// Scenario that benchmarks run when none is named.
pub const DEFAULT_BENCHMARK_SCENARIO: &'static str = "spacewars";

impl LaunchArgs {
    /// The internal debug frame is drawn.
    pub fn uses_debug_render(&self) -> (uses: bool)
        ensures
            uses == (self.debug_render || self.debug_triangles != 0),
    {
        self.debug_render || self.debug_triangles != 0
    }

    /// A benchmark, visual or headless, was asked for.
    pub fn uses_benchmark(&self) -> (uses: bool)
        ensures
            uses == (self.benchmark || self.benchmark_headless),
    {
        self.benchmark || self.benchmark_headless
    }

    /// The command line chooses the launch itself.
    pub fn has_launch_override(&self) -> (overrides: bool)
        ensures
            overrides == (self.scenario is Some || self.seed is Some || self.renderer is Some
                || self.raster_scale_given || self.kiosk),
    {
        self.scenario.is_some() || self.seed.is_some() || self.renderer.is_some()
            || self.raster_scale_given || self.kiosk
    }

    /// The client skips the launcher: a debug frame, a benchmark or a launch
    /// override was asked for.
    pub fn should_launch_directly(&self) -> (direct: bool)
        ensures
            direct == (self.debug_render || self.debug_triangles != 0 || self.benchmark
                || self.benchmark_headless || self.scenario is Some || self.seed is Some
                || self.renderer is Some || self.raster_scale_given || self.kiosk),
    {
        self.uses_debug_render() || self.uses_benchmark() || self.has_launch_override()
    }

    /// Fullscreen unless windowed was asked for; then the kiosk mode, the
    /// fullscreen flag or the saved setting.
    pub fn effective_fullscreen(&self, saved_fullscreen: bool) -> (fullscreen: bool)
        ensures
            fullscreen == (!self.windowed && (self.kiosk || self.fullscreen || saved_fullscreen)),
    {
        if self.windowed {
            false
        } else {
            self.kiosk || self.fullscreen || saved_fullscreen
        }
    }

    /// The desktop windowing backend is forced unless the environment names a
    /// backend or the client runs as a kiosk.
    pub fn forced_slint_backend_for_env(&self, slint_backend_is_set: bool) -> (backend: Option<
        &'static str,
    >)
        ensures
            match backend {
                Some(name) => !slint_backend_is_set && !self.kiosk && name@ == "winit"@,
                None => slint_backend_is_set || self.kiosk,
            },
    {
        if slint_backend_is_set || self.kiosk {
            None
        } else {
            Some("winit")
        }
    }

    /// The command line's choices over the saved launch: a benchmark without
    /// a named scenario runs the default benchmark scenario.
    pub fn effective_launch(&self, saved: &EffectiveLaunch) -> (launch: EffectiveLaunch)
        ensures
            launch.scenario@ == if (self.benchmark || self.benchmark_headless) && self.scenario is None {
                DEFAULT_BENCHMARK_SCENARIO@
            } else {
                match self.scenario {
                    Some(name) => name@,
                    None => saved.scenario@,
                }
            },
            launch.seed == match self.seed {
                Some(seed) => seed,
                None => saved.seed,
            },
            launch.renderer == match self.renderer {
                Some(renderer) => renderer,
                None => saved.renderer,
            },
    {
        let scenario = if self.uses_benchmark() && self.scenario.is_none() {
            crate::text::owned(DEFAULT_BENCHMARK_SCENARIO)
        } else {
            match &self.scenario {
                Some(name) => name.clone(),
                None => saved.scenario.clone(),
            }
        };
        EffectiveLaunch {
            scenario,
            seed: match self.seed {
                Some(seed) => seed,
                None => saved.seed,
            },
            renderer: match self.renderer {
                Some(renderer) => renderer,
                None => saved.renderer,
            },
        }
    }
}


/// Where a launch's preparation stands.
#[derive(Debug, Clone, Copy, PartialEq, Eq, Structural)]
pub enum Stage {
    Preparing,
    Saving,
    Loading,
    Starting,
}

/// The stable id of a stage.
pub open spec fn stage_id_text(stage: Stage) -> Seq<char> {
    match stage {
        Stage::Preparing => "preparing"@,
        Stage::Saving => "saving_settings"@,
        Stage::Loading => "loading_cartridge"@,
        Stage::Starting => "starting_scenario"@,
    }
}

/// What the busy indicator says during a stage.
pub open spec fn stage_label_text(stage: Stage) -> Seq<char> {
    match stage {
        Stage::Preparing => "Preparing launch…"@,
        Stage::Saving => "Saving settings to storage…"@,
        Stage::Loading => "Loading cartridge…"@,
        Stage::Starting => "Starting scenario…"@,
    }
}

impl Stage {
    /// The stable id of the stage.
    pub fn id(self) -> (id: &'static str)
        ensures
            id@ == stage_id_text(self),
    {
        match self {
            Stage::Preparing => "preparing",
            Stage::Saving => "saving_settings",
            Stage::Loading => "loading_cartridge",
            Stage::Starting => "starting_scenario",
        }
    }

    /// What the busy indicator says.
    pub fn label(self) -> (label: &'static str)
        ensures
            label@ == stage_label_text(self),
    {
        match self {
            Stage::Preparing => "Preparing launch…",
            Stage::Saving => "Saving settings to storage…",
            Stage::Loading => "Loading cartridge…",
            Stage::Starting => "Starting scenario…",
        }
    }
}

/// What the preparation worker reports; durations in milliseconds.
#[derive(Debug)]
pub enum PreparationMessage<A> {
    Stage(Stage),
    SaveFinished(Result<(), String>, u128),
    Ready(Result<A, String>, u128),
}

/// Milliseconds spent saving, loading the asset and starting the scenario.
#[derive(Debug, Clone, Copy, Default, PartialEq, Eq, Structural)]
pub struct LaunchTimings {
    pub save_ms: u128,
    pub load_ms: u128,
    pub start_ms: u128,
}

/// A launch being prepared off the UI thread, with its asset once loaded.
#[derive(Debug)]
pub struct PendingLaunch<A> {
    pub scenario: String,
    pub benchmark: bool,
    pub stage: Stage,
    pub timings: LaunchTimings,
    pub ready: Option<A>,
}

/// What the UI does after reading one preparation message.
#[derive(Debug, Clone, PartialEq, Eq)]
pub enum PollStep {
    /// Keep reading messages.
    Continue,
    /// The save succeeded: the new settings become the current ones; keep
    /// reading.
    CommitSettings,
    /// The asset is loaded: stop reading and start the scenario on the next
    /// turn of the event loop.
    Ready,
    /// The launch failed with this message.
    Fail(String),
}

/// The message when the preparation worker vanished.
pub const WORKER_STOPPED_MESSAGE: &'static str = "Launch worker stopped unexpectedly.";

/// The message when a benchmark is asked of a scenario without one.
pub const NO_BENCHMARK_MESSAGE: &'static str = "The selected scenario does not support benchmark mode.";

impl<A> PendingLaunch<A> {
    /// A launch of `scenario` that is preparing.
    pub fn new(scenario: String, benchmark: bool) -> (pending: Self)
        ensures
            pending.scenario == scenario,
            pending.benchmark == benchmark,
            pending.stage == Stage::Preparing,
            pending.timings == LaunchTimings::default_spec(),
            pending.ready is None,
    {
        PendingLaunch {
            scenario,
            benchmark,
            stage: Stage::Preparing,
            timings: LaunchTimings { save_ms: 0, load_ms: 0, start_ms: 0 },
            ready: None,
        }
    }

    /// Applies one message from the preparation worker. A new stage is
    /// shown; a failed save or load ends the launch; a successful save is
    /// committed even if the load fails later; a loaded asset moves the
    /// launch to the starting stage.
    pub fn receive(&mut self, message: PreparationMessage<A>) -> (step: PollStep)
        ensures
            final(self).scenario == old(self).scenario,
            final(self).benchmark == old(self).benchmark,
            match message {
                PreparationMessage::Stage(stage) => {
                    &&& step == PollStep::Continue
                    &&& final(self).stage == stage
                    &&& final(self).timings == old(self).timings
                    &&& final(self).ready == old(self).ready
                },
                PreparationMessage::SaveFinished(result, duration) => {
                    &&& final(self).stage == old(self).stage
                    &&& final(self).timings == (LaunchTimings { save_ms: duration, ..old(self).timings })
                    &&& final(self).ready == old(self).ready
                    &&& match result {
                        Ok(_) => step == PollStep::CommitSettings,
                        Err(error) => step matches PollStep::Fail(text) && text@
                            == "Could not save settings: "@ + error@,
                    }
                },
                PreparationMessage::Ready(result, duration) => {
                    &&& final(self).timings == (LaunchTimings { load_ms: duration, ..old(self).timings })
                    &&& match result {
                        Ok(asset) => {
                            &&& step == PollStep::Ready
                            &&& final(self).stage == Stage::Starting
                            &&& final(self).ready == Some(asset)
                        },
                        Err(error) => {
                            &&& step matches PollStep::Fail(text) && text@ == error@
                            &&& final(self).stage == old(self).stage
                            &&& final(self).ready == old(self).ready
                        },
                    }
                },
            },
    {
        match message {
            PreparationMessage::Stage(stage) => {
                self.stage = stage;
                PollStep::Continue
            },
            PreparationMessage::SaveFinished(result, duration) => {
                self.timings.save_ms = duration;
                match result {
                    Ok(_) => PollStep::CommitSettings,
                    Err(error) => {
                        let mut text = String::new();
                        push_str(&mut text, "Could not save settings: ");
                        push_str(&mut text, error.as_str());
                        PollStep::Fail(text)
                    },
                }
            },
            PreparationMessage::Ready(result, duration) => {
                self.timings.load_ms = duration;
                match result {
                    Ok(asset) => {
                        self.stage = Stage::Starting;
                        self.ready = Some(asset);
                        PollStep::Ready
                    },
                    Err(error) => PollStep::Fail(error),
                }
            },
        }
    }

    /// Takes the loaded asset, if the launch is ready to start.
    pub fn take_ready(&mut self) -> (asset: Option<A>)
        ensures
            asset == old(self).ready,
            final(self).ready is None,
            final(self).scenario == old(self).scenario,
            final(self).benchmark == old(self).benchmark,
            final(self).stage == old(self).stage,
            final(self).timings == old(self).timings,
    {
        self.ready.take()
    }
}

impl LaunchTimings {
    pub open spec fn default_spec() -> LaunchTimings {
        LaunchTimings { save_ms: 0, load_ms: 0, start_ms: 0 }
    }
}

/// The cartridge is loaded in a stage of its own only for the NES scenario.
pub fn shows_loading_stage(scenario: &str) -> (shows: bool)
    ensures
        shows == (scenario@ == "nes"@),
{
    crate::text::str_equal(scenario, "nes")
}

/// The launcher's diagnostics block for a launch in `stage` that has been
/// running `elapsed_ms` milliseconds.
pub open spec fn launch_diagnostics_text(
    outcome: Seq<char>,
    scenario: Seq<char>,
    stage: Stage,
    elapsed_ms: u128,
    timings: LaunchTimings,
) -> Seq<char> {
    "launch_state="@ + outcome + "\nlaunch_scenario="@ + scenario + "\nlaunch_stage="@
        + stage_id_text(stage) + "\nlaunch_elapsed_ms="@ + decimal(elapsed_ms as nat)
        + "\nlaunch_save_ms="@ + decimal(timings.save_ms as nat) + "\nlaunch_asset_ms="@
        + decimal(timings.load_ms as nat) + "\nlaunch_start_ms="@ + decimal(timings.start_ms as nat)
}

/// Writes the launcher's diagnostics block.
pub fn launch_diagnostics(
    outcome: &str,
    scenario: &str,
    stage: Stage,
    elapsed_ms: u128,
    timings: LaunchTimings,
) -> (text: String)
    ensures
        text@ == launch_diagnostics_text(outcome@, scenario@, stage, elapsed_ms, timings),
{
    let mut text = String::new();
    push_str(&mut text, "launch_state=");
    push_str(&mut text, outcome);
    push_str(&mut text, "\nlaunch_scenario=");
    push_str(&mut text, scenario);
    push_str(&mut text, "\nlaunch_stage=");
    push_str(&mut text, stage.id());
    push_str(&mut text, "\nlaunch_elapsed_ms=");
    push_decimal(&mut text, elapsed_ms);
    push_str(&mut text, "\nlaunch_save_ms=");
    push_decimal(&mut text, timings.save_ms);
    push_str(&mut text, "\nlaunch_asset_ms=");
    push_decimal(&mut text, timings.load_ms);
    push_str(&mut text, "\nlaunch_start_ms=");
    push_decimal(&mut text, timings.start_ms);
    assert(text@ =~= launch_diagnostics_text(outcome@, scenario@, stage, elapsed_ms, timings));
    text
}

/// Elapsed time as seconds with one decimal, from nanoseconds, rounded to the
/// nearest tenth (halves up): `12.4 s`.
pub open spec fn elapsed_text(elapsed_ns: u128) -> Seq<char> {
    let tenths = (elapsed_ns as nat + 50_000_000) / 100_000_000;
    decimal(tenths / 10) + seq!['.', crate::text::digit_char(tenths % 10)] + " s"@
}

/// Writes the elapsed time shown under the busy indicator.
pub fn elapsed_label(elapsed_ns: u128) -> (text: String)
    requires
        elapsed_ns <= u128::MAX - 50_000_000,
    ensures
        text@ == elapsed_text(elapsed_ns),
{
    let tenths = (elapsed_ns + 50_000_000) / 100_000_000;
    let mut text = String::new();
    push_decimal(&mut text, tenths / 10);
    crate::text::push_char(&mut text, '.');
    crate::text::push_char(&mut text, crate::text::digit_of(tenths % 10));
    push_str(&mut text, " s");
    assert(text@ =~= elapsed_text(elapsed_ns));
    text
}


/// A seed from a hasher that each process keys at random
/// (`RandomState::new().hash_one(current)`). Nothing is promised of it.
#[verifier::external_body]
fn random_seed(current: u64) -> (candidate: u64) {
    std::collections::hash_map::RandomState::new().hash_one(current)
}

/// The seed that a fresh world uses after `current`, given a random
/// `candidate`: the candidate, or the next seed when the candidate repeats
/// `current`.
pub fn next_seed(current: u64, candidate: u64) -> (seed: u64)
    ensures
        seed == if candidate == current {
            current.wrapping_add(1)
        } else {
            candidate
        },
        seed != current,
{
    if candidate == current {
        current.wrapping_add(1)
    } else {
        candidate
    }
}

/// A new random seed, never `current`.
pub fn fresh_seed(current: u64) -> (seed: u64)
    ensures
        seed != current,
{
    next_seed(current, random_seed(current))
}

/// A match length as the launcher shows it: `Unlimited` for zero, whole
/// minutes as `N min`, anything else as `N s`.
pub open spec fn length_text(seconds: u32) -> Seq<char> {
    if seconds == 0 {
        "Unlimited"@
    } else if seconds % 60 == 0 {
        decimal((seconds / 60) as nat) + " min"@
    } else {
        decimal(seconds as nat) + " s"@
    }
}

/// Writes a match length as the launcher shows it.
pub fn length_label(seconds: u32) -> (label: String)
    ensures
        label@ == length_text(seconds),
{
    let mut label = String::new();
    if seconds == 0 {
        push_str(&mut label, "Unlimited");
    } else if seconds % 60 == 0 {
        push_decimal(&mut label, (seconds / 60) as u128);
        push_str(&mut label, " min");
    } else {
        push_decimal(&mut label, seconds as u128);
        push_str(&mut label, " s");
    }
    label
}

/// The message for a length label in no known unit.
pub const LENGTH_UNIT_MESSAGE: &'static str = "Match length must be minutes, seconds, or Unlimited.";

/// The message for a length that is no number or out of range.
pub const LENGTH_RANGE_MESSAGE: &'static str = "Match length must be between one second and one hour.";

/// What `parse_length` reads from a label: `Unlimited` is zero; `N min` and
/// `N s` must come to one second up to an hour.
pub open spec fn parsed_length(label: Seq<char>) -> Result<u32, Seq<char>> {
    if label == "Unlimited"@ {
        Ok(0)
    } else {
        let unit: Option<(Seq<char>, nat)> = match crate::text::without_suffix(label, " min"@) {
            Some(number) => Some((number, 60)),
            None => match crate::text::without_suffix(label, " s"@) {
                Some(number) => Some((number, 1)),
                None => None,
            },
        };
        match unit {
            None => Err(LENGTH_UNIT_MESSAGE@),
            Some((number, multiplier)) => match parsed_u32(number) {
                Some(n) => if 1 <= n * multiplier <= 3600 {
                    Ok((n * multiplier) as u32)
                } else {
                    Err(LENGTH_RANGE_MESSAGE@)
                },
                None => Err(LENGTH_RANGE_MESSAGE@),
            },
        }
    }
}

/// Every match length the launcher offers, from unlimited up to an hour,
/// reads back from its label unchanged.
pub proof fn lemma_length_label_round_trip(seconds: u32)
    requires
        seconds <= 3600,
    ensures
        parsed_length(length_text(seconds)) == Ok::<u32, Seq<char>>(seconds),
{
    reveal_strlit("Unlimited");
    reveal_strlit(" min");
    reveal_strlit(" s");
    let label = length_text(seconds);
    if seconds != 0 {
        if seconds % 60 == 0 {
            let number = (seconds / 60) as nat;
            crate::text::lemma_decimal_reads_back(number);
            assert(label == decimal(number) + " min"@);
            assert(label.last() == 'n');
            assert(label != "Unlimited"@);
            assert(label.subrange(label.len() - 4, label.len() as int) =~= " min"@);
            assert(label.subrange(0, label.len() - 4) =~= decimal(number));
            assert(crate::text::without_suffix(label, " min"@) == Some(decimal(number)));
            assert(parsed_u32(decimal(number)) == Some(number as u32));
            assert(number * 60 == seconds);
            assert(((number as u32) * 60nat) as u32 == seconds);
            assert(parsed_length(label) == Ok::<u32, Seq<char>>(seconds));
        } else {
            let number = seconds as nat;
            crate::text::lemma_decimal_reads_back(number);
            assert(label == decimal(number) + " s"@);
            assert(label.last() == 's');
            assert(label != "Unlimited"@);
            if crate::text::has_suffix(label, " min"@) {
                assert(label.subrange(label.len() - 4, label.len() as int)[3] == label.last());
            }
            assert(crate::text::without_suffix(label, " min"@) is None);
            assert(label.subrange(label.len() - 2, label.len() as int) =~= " s"@);
            assert(label.subrange(0, label.len() - 2) =~= decimal(number));
            assert(crate::text::without_suffix(label, " s"@) == Some(decimal(number)));
            assert(parsed_u32(decimal(number)) == Some(number as u32));
            assert(((number as u32) * 1nat) as u32 == seconds);
            assert(parsed_length(label) == Ok::<u32, Seq<char>>(seconds));
        }
    } else {
        assert(parsed_length(label) == Ok::<u32, Seq<char>>(seconds));
    }
}

/// Reads a match length label.
pub fn parse_length(label: &str) -> (r: Result<u32, String>)
    ensures
        match parsed_length(label@) {
            Ok(n) => r == Ok::<u32, String>(n),
            Err(message) => r matches Err(text) && text@ == message,
        },
{
    proof {
        reveal_strlit(" min");
        reveal_strlit(" s");
    }
    if crate::text::str_equal(label, "Unlimited") {
        return Ok(0);
    }
    let chars = chars_of(label);
    let min_suffix = chars_of(" min");
    let s_suffix = chars_of(" s");
    let (number, multiplier): (Vec<char>, u64) = match crate::text::strip_suffix_chars(
        chars.as_slice(),
        min_suffix.as_slice(),
    ) {
        Some(number) => (number, 60),
        None => match crate::text::strip_suffix_chars(chars.as_slice(), s_suffix.as_slice()) {
            Some(number) => (number, 1),
            None => return Err(crate::text::owned(LENGTH_UNIT_MESSAGE)),
        },
    };
    match parse_u32_chars(number.as_slice()) {
        Some(n) => {
            let total = n as u64 * multiplier;
            if 1 <= total && total <= 3600 {
                Ok(total as u32)
            } else {
                Err(crate::text::owned(LENGTH_RANGE_MESSAGE))
            }
        },
        None => Err(crate::text::owned(LENGTH_RANGE_MESSAGE)),
    }
}


/// The message when a seed is not a number.
pub const SEED_MESSAGE: &'static str = "Seed must be a non-negative integer.";

/// The launch typed into the launcher's scenario, seed and renderer fields:
/// the trimmed scenario must be registered, the seed a whole number, and the
/// renderer a known label.
pub fn launch_selection_from_values(
    registry: &[crate::host::ScenarioRegistration],
    scenario: &str,
    seed: &str,
    renderer: &str,
) -> (r: Result<EffectiveLaunch, String>)
    ensures
        ({
            let name = trimmed(scenario@);
            let key = ascii_lowercase(trimmed(renderer@));
            if crate::host::registration_index(registry@, name) is None {
                r matches Err(m) && m@ == "Unknown scenario "@ + debug_quoted(name) + "."@
            } else if crate::text::parsed_u64(trimmed(seed@)) is None {
                r matches Err(m) && m@ == SEED_MESSAGE@
            } else if key != "vector"@ && key != "raster"@ {
                r matches Err(m) && m@ == "Unknown renderer "@ + debug_quoted(renderer@) + "."@
            } else {
                r matches Ok(launch) && launch.scenario@ == name && Some(launch.seed)
                    == crate::text::parsed_u64(trimmed(seed@)) && launch.renderer == if key
                    == "vector"@ {
                    RenderBackend::Vector
                } else {
                    RenderBackend::Raster
                }
            }
        }),
{
    let name_chars = crate::text::trim_str(scenario);
    let name = string_from(name_chars.as_slice());
    if !crate::host::is_known_scenario(registry, name.as_str()) {
        let quoted = debug_quote(name.as_str());
        let mut message = String::new();
        push_str(&mut message, "Unknown scenario ");
        push_str(&mut message, quoted.as_str());
        push_str(&mut message, ".");
        return Err(message);
    }
    let seed_chars = crate::text::trim_str(seed);
    let seed_value = match crate::text::parse_u64_chars(seed_chars.as_slice()) {
        Some(value) => value,
        None => return Err(crate::text::owned(SEED_MESSAGE)),
    };
    let backend = match renderer_from_label(renderer) {
        Ok(backend) => backend,
        Err(message) => return Err(message),
    };
    Ok(EffectiveLaunch { scenario: name, seed: seed_value, renderer: backend })
}

/// What the launcher does with a start request: nothing while it is busy or
/// hidden; otherwise the launch typed into its fields, refused with the
/// parse error, or with a note when a benchmark is asked of a scenario that
/// has none.
pub fn launch_request(
    registry: &[crate::host::ScenarioRegistration],
    busy: bool,
    visible: bool,
    benchmark: bool,
    selection: Result<EffectiveLaunch, String>,
) -> (r: Result<Option<EffectiveLaunch>, String>)
    ensures
        busy || !visible ==> r == Ok::<Option<EffectiveLaunch>, String>(None),
        !busy && visible ==> match selection {
            Err(message) => r == Err::<Option<EffectiveLaunch>, String>(message),
            Ok(launch) => if benchmark && !(match crate::host::registration_index(
                registry@,
                launch.scenario@,
            ) {
                Some(i) => registry@[i].capabilities.benchmark,
                None => false,
            }) {
                r matches Err(m) && m@ == NO_BENCHMARK_MESSAGE@
            } else {
                r == Ok::<Option<EffectiveLaunch>, String>(Some(launch))
            },
        },
{
    if busy || !visible {
        return Ok(None);
    }
    match selection {
        Err(message) => Err(message),
        Ok(launch) => {
            if benchmark && !crate::host::supports_benchmark(registry, launch.scenario.as_str()) {
                Err(crate::text::owned(NO_BENCHMARK_MESSAGE))
            } else {
                Ok(Some(launch))
            }
        },
    }
}

} // verus!
