//! The scenario host's control decisions: in-game menu requests, one-shot
//! keys, pausing, restarts and fixed-step scheduling. The host loop performs
//! what a plan asks for (stepping the scenario, replacing it, leaving for the
//! launcher) and reports replacement outcomes back.

use vstd::prelude::*;

use crate::input::{GameKey, KeyboardState};
use crate::text::{owned, push_str, str_equal};

verus! {

/// Most fixed steps a single host tick runs before dropping the backlog.
pub const MAX_FIXED_STEPS_PER_TICK: usize = 5;

/// Largest `Duration`, in nanoseconds.
pub const MAX_DURATION_NANOS: u128 = 18_446_744_073_709_551_615_999_999_999;

/// A request from the in-game menu, consumed by the next host tick.
#[derive(Debug, Clone, Copy, PartialEq, Eq, Structural)]
pub enum ScenarioControlRequest {
    Pause,
    Resume,
    Restart,
    Benchmark,
    ZoomIn { player: usize },
    ZoomOut { player: usize },
}

/// The most recent in-game menu request; a newer request replaces an older
/// one that the host has not consumed yet.
#[derive(Debug, Default)]
pub struct ScenarioControls {
    request: Option<ScenarioControlRequest>,
}

/// Fresh controls with no pending request.
pub fn new_scenario_controls() -> (controls: ScenarioControls)
    ensures
        controls.pending() == None::<ScenarioControlRequest>,
{
    ScenarioControls { request: None }
}

impl ScenarioControls {
    /// The request waiting for the host.
    pub closed spec fn pending(&self) -> Option<ScenarioControlRequest> {
        self.request
    }

    pub fn request_pause(&mut self)
        ensures
            final(self).pending() == Some(ScenarioControlRequest::Pause),
    {
        self.request = Some(ScenarioControlRequest::Pause);
    }

    pub fn request_resume(&mut self)
        ensures
            final(self).pending() == Some(ScenarioControlRequest::Resume),
    {
        self.request = Some(ScenarioControlRequest::Resume);
    }

    pub fn request_restart(&mut self)
        ensures
            final(self).pending() == Some(ScenarioControlRequest::Restart),
    {
        self.request = Some(ScenarioControlRequest::Restart);
    }

    pub fn request_benchmark(&mut self)
        ensures
            final(self).pending() == Some(ScenarioControlRequest::Benchmark),
    {
        self.request = Some(ScenarioControlRequest::Benchmark);
    }

    pub fn request_zoom_in(&mut self, player: usize)
        ensures
            final(self).pending() == Some(ScenarioControlRequest::ZoomIn { player }),
    {
        self.request = Some(ScenarioControlRequest::ZoomIn { player });
    }

    pub fn request_zoom_out(&mut self, player: usize)
        ensures
            final(self).pending() == Some(ScenarioControlRequest::ZoomOut { player }),
    {
        self.request = Some(ScenarioControlRequest::ZoomOut { player });
    }

    /// Drops any pending request.
    pub fn clear(&mut self)
        ensures
            final(self).pending() == None::<ScenarioControlRequest>,
    {
        self.request = None;
    }

    /// Consumes the pending request.
    pub fn take_request(&mut self) -> (request: Option<ScenarioControlRequest>)
        ensures
            request == old(self).pending(),
            final(self).pending() == None::<ScenarioControlRequest>,
    {
        let request = self.request;
        self.request = None;
        request
    }
}

/// How a scenario advances time.
#[derive(Debug, Clone, Copy, PartialEq, Eq, Structural)]
pub enum TickModel {
    FixedTimestep { hz: u32 },
    Variable,
    EmulatorClock,
}

/// What one host tick reports to the window.
#[derive(Debug, Clone, Default, PartialEq, Eq)]
pub struct HostStepResult {
    pub updates: usize,
    pub return_to_launcher: bool,
    pub scenario_replaced: bool,
    pub ingame_controls_visible: Option<bool>,
    pub scenario_error_text: Option<String>,
}

impl HostStepResult {
    /// Nothing to report.
    pub open spec fn spec_quiet() -> Self {
        HostStepResult {
            updates: 0,
            return_to_launcher: false,
            scenario_replaced: false,
            ingame_controls_visible: None,
            scenario_error_text: None,
        }
    }

    /// Nothing to report.
    pub fn quiet() -> (r: Self)
        ensures
            r == Self::spec_quiet(),
    {
        HostStepResult {
            updates: 0,
            return_to_launcher: false,
            scenario_replaced: false,
            ingame_controls_visible: None,
            scenario_error_text: None,
        }
    }

    /// The scenario advanced by `updates` steps.
    pub fn updates(updates: usize) -> (r: Self)
        ensures
            r == (HostStepResult { updates, ..Self::spec_quiet() }),
    {
        HostStepResult {
            updates,
            return_to_launcher: false,
            scenario_replaced: false,
            ingame_controls_visible: None,
            scenario_error_text: None,
        }
    }

    /// Leave the scenario for the launcher.
    pub fn return_to_launcher() -> (r: Self)
        ensures
            r == (HostStepResult { return_to_launcher: true, ..Self::spec_quiet() }),
    {
        HostStepResult {
            updates: 0,
            return_to_launcher: true,
            scenario_replaced: false,
            ingame_controls_visible: None,
            scenario_error_text: None,
        }
    }

    /// Show or hide the in-game controls screen.
    pub fn set_ingame_controls_visible(visible: bool) -> (r: Self)
        ensures
            r == (HostStepResult { ingame_controls_visible: Some(visible), ..Self::spec_quiet() }),
    {
        HostStepResult {
            updates: 0,
            return_to_launcher: false,
            scenario_replaced: false,
            ingame_controls_visible: Some(visible),
            scenario_error_text: None,
        }
    }

    /// Show a scenario error.
    pub fn scenario_error(error: String) -> (r: Self)
        ensures
            r == (HostStepResult { scenario_error_text: Some(error), ..Self::spec_quiet() }),
    {
        HostStepResult {
            updates: 0,
            return_to_launcher: false,
            scenario_replaced: false,
            ingame_controls_visible: None,
            scenario_error_text: Some(error),
        }
    }

    /// A new scenario instance replaced the old one; any shown error is cleared.
    pub fn scenario_restarted() -> (r: Self)
        ensures
            r.scenario_replaced,
            r.scenario_error_text is Some,
            r.scenario_error_text->0@ == Seq::<char>::empty(),
            r.updates == 0,
            !r.return_to_launcher,
            r.ingame_controls_visible == None::<bool>,
    {
        HostStepResult {
            updates: 0,
            return_to_launcher: false,
            scenario_replaced: true,
            ingame_controls_visible: None,
            scenario_error_text: Some(String::new()),
        }
    }
}

/// The host loop's own state between ticks.
#[derive(Debug, Clone, Copy, PartialEq, Eq, Structural)]
pub struct HostLoopState {
    pub paused: bool,
    pub benchmark_active: bool,
    /// Time not yet simulated by fixed steps, in nanoseconds.
    pub accumulator_nanos: u128,
}

/// What the host knows about the scenario and the window for one tick.
#[derive(Debug, Clone, Copy, PartialEq, Eq, Structural)]
pub struct HostTickContext {
    pub game_over: bool,
    pub ingame_controls_visible: bool,
    pub benchmark_supported: bool,
    pub realtime_runtime: bool,
    pub tick_model: TickModel,
    /// Length of one fixed step, when the scenario has one.
    pub fixed_step_nanos: Option<u128>,
    /// Wall time since the previous tick.
    pub elapsed_nanos: u128,
    /// The input holds a pointer cancellation not yet delivered.
    pub pointer_cancellation_pending: bool,
}

/// The scenario work a tick asks the host loop to do.
#[derive(Debug, Clone, Copy, PartialEq, Eq, Structural)]
pub enum HostEffect {
    Nothing,
    /// Build a fresh normal instance of the scenario, then report the outcome
    /// with `complete_replacement`.
    Restart,
    /// Build a fresh benchmark instance of the scenario, then report the
    /// outcome with `complete_replacement`.
    StartBenchmark,
    ZoomIn { player: usize },
    ZoomOut { player: usize },
    /// Map input to actions and hand them to the realtime runtime.
    PublishRealtimeActions,
    /// Map input and step the scenario `steps` times by `step_nanos`.
    FixedSteps { steps: usize, step_nanos: u128 },
    /// Map input and step the scenario once by the elapsed time.
    VariableStep { elapsed_nanos: u128 },
}

/// The decision for one host tick.
#[derive(Debug, Clone, PartialEq, Eq)]
pub struct HostStepPlan {
    /// The loop state after the tick (before any replacement outcome).
    pub state: HostLoopState,
    /// Deliver the pointer cancellation the input already holds, before
    /// anything else this tick.
    pub deliver_pending_cancellation: bool,
    /// Cancel the active pointer and deliver the cancellation first.
    pub cancel_pointer: bool,
    /// Release all held keys and pointer events.
    pub clear_input: bool,
    pub effect: HostEffect,
    /// The tick's report, unless the effect is a replacement.
    pub result: HostStepResult,
}

/// Pausing: stop time, cancel the pointer and release input.
pub open spec fn paused_plan(state: HostLoopState, paused: bool, result: HostStepResult) -> HostStepPlan {
    HostStepPlan {
        state: HostLoopState { paused, accumulator_nanos: 0, ..state },
        deliver_pending_cancellation: false,
        cancel_pointer: true,
        clear_input: true,
        effect: HostEffect::Nothing,
        result,
    }
}

/// A plan that leaves the state alone and only performs `effect`.
pub open spec fn effect_plan(state: HostLoopState, effect: HostEffect) -> HostStepPlan {
    HostStepPlan {
        state,
        deliver_pending_cancellation: false,
        cancel_pointer: false,
        clear_input: false,
        effect,
        result: HostStepResult::spec_quiet(),
    }
}

/// A plan that releases input and leaves the scenario for the launcher.
pub open spec fn launcher_plan(state: HostLoopState) -> HostStepPlan {
    HostStepPlan {
        state: HostLoopState { paused: false, accumulator_nanos: 0, ..state },
        deliver_pending_cancellation: false,
        cancel_pointer: false,
        clear_input: true,
        effect: HostEffect::Nothing,
        result: HostStepResult { return_to_launcher: true, ..HostStepResult::spec_quiet() },
    }
}

/// The fixed-step schedule for an accumulated backlog: at most
/// `MAX_FIXED_STEPS_PER_TICK` steps; a backlog that would need more is dropped.
pub open spec fn fixed_steps(accumulated: int, step: int) -> (int, int) {
    if step > 0 && accumulated / step < MAX_FIXED_STEPS_PER_TICK {
        (accumulated / step, accumulated % step)
    } else {
        (MAX_FIXED_STEPS_PER_TICK as int, 0)
    }
}

/// What the host decides for one tick, apart from delivering a pending
/// pointer cancellation.
pub open spec fn host_decision_spec(
    state: HostLoopState,
    request: Option<ScenarioControlRequest>,
    held: Set<GameKey>,
    ctx: HostTickContext,
) -> HostStepPlan {
    let quiet = HostStepResult::spec_quiet();
    match request {
        Some(ScenarioControlRequest::Pause) => if !ctx.game_over {
            paused_plan(state, true, quiet)
        } else {
            effect_plan(state, HostEffect::Nothing)
        },
        Some(ScenarioControlRequest::Resume) => paused_plan(state, false, quiet),
        Some(ScenarioControlRequest::Restart) => effect_plan(state, HostEffect::Restart),
        Some(ScenarioControlRequest::Benchmark) => if ctx.benchmark_supported {
            effect_plan(state, HostEffect::StartBenchmark)
        } else {
            effect_plan(state, HostEffect::Nothing)
        },
        Some(ScenarioControlRequest::ZoomIn { player }) => effect_plan(
            state,
            HostEffect::ZoomIn { player },
        ),
        Some(ScenarioControlRequest::ZoomOut { player }) => effect_plan(
            state,
            HostEffect::ZoomOut { player },
        ),
        None => if held.contains(GameKey::Benchmark) {
            if ctx.benchmark_supported {
                effect_plan(state, HostEffect::StartBenchmark)
            } else {
                effect_plan(state, HostEffect::Nothing)
            }
        } else if held.contains(GameKey::Reset) {
            effect_plan(state, HostEffect::Restart)
        } else if held.contains(GameKey::Back) {
            if ctx.game_over {
                launcher_plan(state)
            } else if state.paused {
                if ctx.ingame_controls_visible {
                    HostStepPlan {
                        state: HostLoopState { accumulator_nanos: 0, ..state },
                        deliver_pending_cancellation: false,
                        cancel_pointer: false,
                        clear_input: true,
                        effect: HostEffect::Nothing,
                        result: HostStepResult {
                            ingame_controls_visible: Some(false),
                            ..quiet
                        },
                    }
                } else {
                    HostStepPlan {
                        state: HostLoopState { paused: false, accumulator_nanos: 0, ..state },
                        deliver_pending_cancellation: false,
                        cancel_pointer: false,
                        clear_input: true,
                        effect: HostEffect::Nothing,
                        result: quiet,
                    }
                }
            } else {
                paused_plan(state, true, quiet)
            }
        } else if held.contains(GameKey::Controls) && !ctx.game_over {
            if !state.paused {
                paused_plan(
                    state,
                    true,
                    HostStepResult { ingame_controls_visible: Some(true), ..quiet },
                )
            } else {
                paused_plan(
                    state,
                    true,
                    HostStepResult {
                        ingame_controls_visible: Some(!ctx.ingame_controls_visible),
                        ..quiet
                    },
                )
            }
        } else if held.contains(GameKey::ReturnLauncher) && (state.paused || ctx.game_over) {
            launcher_plan(state)
        } else if held.contains(GameKey::ForcePause) && !ctx.game_over {
            paused_plan(state, true, quiet)
        } else if held.contains(GameKey::Pause) && !ctx.game_over {
            paused_plan(state, !state.paused, quiet)
        } else if state.paused || ctx.game_over {
            effect_plan(state, HostEffect::Nothing)
        } else if ctx.realtime_runtime {
            effect_plan(state, HostEffect::PublishRealtimeActions)
        } else {
            match (ctx.tick_model, ctx.fixed_step_nanos) {
                (TickModel::Variable, _) => HostStepPlan {
                    state,
                    deliver_pending_cancellation: false,
                    cancel_pointer: false,
                    clear_input: false,
                    effect: HostEffect::VariableStep { elapsed_nanos: ctx.elapsed_nanos },
                    result: HostStepResult { updates: 1, ..quiet },
                },
                (_, Some(step)) => {
                    let schedule = fixed_steps(state.accumulator_nanos + ctx.elapsed_nanos, step as int);
                    HostStepPlan {
                        state: HostLoopState { accumulator_nanos: schedule.1 as u128, ..state },
                        deliver_pending_cancellation: false,
                        cancel_pointer: false,
                        clear_input: false,
                        effect: HostEffect::FixedSteps { steps: schedule.0 as usize, step_nanos: step },
                        result: HostStepResult { updates: schedule.0 as usize, ..quiet },
                    }
                },
                (_, None) => effect_plan(state, HostEffect::Nothing),
            }
        },
    }
}

/// The decision the host makes for one tick: a pointer cancellation the
/// input already holds is delivered first, then the tick is decided.
pub open spec fn host_step_spec(
    state: HostLoopState,
    request: Option<ScenarioControlRequest>,
    held: Set<GameKey>,
    ctx: HostTickContext,
) -> HostStepPlan {
    HostStepPlan {
        deliver_pending_cancellation: ctx.pointer_cancellation_pending,
        ..host_decision_spec(state, request, held, ctx)
    }
}

/// The in-game menu's pause and resume buttons work on the next tick,
/// whatever keys are held: Resume leaves the game running, Pause (unless
/// the game is over) leaves it paused, and either way the fixed-step backlog
/// is dropped and the pointer gesture is cancelled.
pub proof fn lemma_menu_pause_and_resume(state: HostLoopState, held: Set<GameKey>, ctx: HostTickContext)
    ensures
        ({
            let resumed = host_step_spec(state, Some(ScenarioControlRequest::Resume), held, ctx);
            &&& !resumed.state.paused
            &&& resumed.state.accumulator_nanos == 0
            &&& resumed.cancel_pointer
            &&& resumed.state.benchmark_active == state.benchmark_active
        }),
        !ctx.game_over ==> ({
            let paused = host_step_spec(state, Some(ScenarioControlRequest::Pause), held, ctx);
            &&& paused.state.paused
            &&& paused.state.accumulator_nanos == 0
            &&& paused.cancel_pointer
            &&& paused.state.benchmark_active == state.benchmark_active
        }),
        ctx.game_over ==> host_step_spec(state, Some(ScenarioControlRequest::Pause), held, ctx).state
            == state,
{
}

/// What a tick with no menu request and no key held does: a paused or
/// finished game does nothing; a realtime game publishes its actions; a
/// variable-rate game steps once by the elapsed time; a fixed-rate game runs
/// as many whole steps as the backlog plus the elapsed time hold, keeping
/// the rest, at most `MAX_FIXED_STEPS_PER_TICK` of them, after which the
/// backlog is dropped.
pub proof fn lemma_quiet_tick(state: HostLoopState, ctx: HostTickContext)
    ensures
        ({
            let plan = host_step_spec(state, None, Set::<GameKey>::empty(), ctx);
            let total = state.accumulator_nanos + ctx.elapsed_nanos;
            &&& !plan.clear_input
            &&& !plan.cancel_pointer
            &&& plan.state.paused == state.paused
            &&& plan.state.benchmark_active == state.benchmark_active
            &&& !plan.result.return_to_launcher
            &&& (state.paused || ctx.game_over) ==> plan.effect == HostEffect::Nothing
                && plan.state == state && plan.result.updates == 0
            &&& (!state.paused && !ctx.game_over && ctx.realtime_runtime) ==> plan.effect
                == HostEffect::PublishRealtimeActions && plan.state == state
            &&& (!state.paused && !ctx.game_over && !ctx.realtime_runtime && ctx.tick_model
                is Variable) ==> plan.effect == (HostEffect::VariableStep {
                elapsed_nanos: ctx.elapsed_nanos,
            }) && plan.result.updates == 1 && plan.state == state
            &&& (!state.paused && !ctx.game_over && !ctx.realtime_runtime && !(ctx.tick_model
                is Variable) && ctx.fixed_step_nanos is Some) ==> ({
                let step = ctx.fixed_step_nanos->0;
                let steps = plan.result.updates;
                &&& plan.effect == (HostEffect::FixedSteps { steps, step_nanos: step })
                &&& steps <= MAX_FIXED_STEPS_PER_TICK
                &&& steps < MAX_FIXED_STEPS_PER_TICK ==> steps * step + plan.state.accumulator_nanos
                    == total && plan.state.accumulator_nanos < step
                &&& steps == MAX_FIXED_STEPS_PER_TICK ==> plan.state.accumulator_nanos == 0
                    && steps * step <= total
            })
        }),
{
    let plan = host_step_spec(state, None, Set::<GameKey>::empty(), ctx);
    let total = state.accumulator_nanos + ctx.elapsed_nanos;
    if let Some(step) = ctx.fixed_step_nanos {
        if step > 0 {
            let q = total / (step as int);
            let r = total % (step as int);
            assert(q * step + r == total && 0 <= r < step) by (nonlinear_arith)
                requires
                    step > 0,
                    q == total / (step as int),
                    r == total % (step as int),
            ;
            if q >= MAX_FIXED_STEPS_PER_TICK {
                assert(MAX_FIXED_STEPS_PER_TICK * step <= q * step) by (nonlinear_arith)
                    requires
                        q >= MAX_FIXED_STEPS_PER_TICK,
                        step > 0,
                ;
            }
        }
    }
}

/// The menu's other requests and the one-shot keys: a restart or zoom
/// request is handed on unchanged, a benchmark request starts a benchmark
/// only where the scenario supports one, the pause key toggles pause while
/// the game runs, and the return key leaves a paused game for the launcher.
pub proof fn lemma_requests_and_keys(
    state: HostLoopState,
    held: Set<GameKey>,
    ctx: HostTickContext,
    player: usize,
)
    ensures
        host_step_spec(state, Some(ScenarioControlRequest::Restart), held, ctx).effect
            == HostEffect::Restart,
        host_step_spec(state, Some(ScenarioControlRequest::Restart), held, ctx).state == state,
        host_step_spec(state, Some(ScenarioControlRequest::Benchmark), held, ctx).effect == if ctx.benchmark_supported {
            HostEffect::StartBenchmark
        } else {
            HostEffect::Nothing
        },
        host_step_spec(state, Some(ScenarioControlRequest::ZoomIn { player }), held, ctx).effect
            == (HostEffect::ZoomIn { player }),
        host_step_spec(state, Some(ScenarioControlRequest::ZoomOut { player }), held, ctx).effect
            == (HostEffect::ZoomOut { player }),
        !ctx.game_over ==> host_step_spec(
            state,
            None,
            Set::<GameKey>::empty().insert(GameKey::Pause),
            ctx,
        ).state.paused == !state.paused,
        state.paused && !ctx.game_over ==> ({
            let plan = host_step_spec(
                state,
                None,
                Set::<GameKey>::empty().insert(GameKey::ReturnLauncher),
                ctx,
            );
            &&& plan.result.return_to_launcher
            &&& !plan.state.paused
            &&& plan.clear_input
        }),
        !state.paused && !ctx.game_over ==> !host_step_spec(
            state,
            None,
            Set::<GameKey>::empty().insert(GameKey::ReturnLauncher),
            ctx,
        ).result.return_to_launcher,
{
    let pause_only = Set::<GameKey>::empty().insert(GameKey::Pause);
    let return_only = Set::<GameKey>::empty().insert(GameKey::ReturnLauncher);
    assert(!pause_only.contains(GameKey::Benchmark) && !pause_only.contains(GameKey::Reset)
        && !pause_only.contains(GameKey::Back) && !pause_only.contains(GameKey::Controls)
        && !pause_only.contains(GameKey::ReturnLauncher) && !pause_only.contains(GameKey::ForcePause)
        && pause_only.contains(GameKey::Pause));
    assert(!return_only.contains(GameKey::Benchmark) && !return_only.contains(GameKey::Reset)
        && !return_only.contains(GameKey::Back) && !return_only.contains(GameKey::Controls)
        && return_only.contains(GameKey::ReturnLauncher) && !return_only.contains(GameKey::ForcePause)
        && !return_only.contains(GameKey::Pause));
}

/// Whether the tick adds the elapsed time to the fixed-step backlog: no menu
/// request and no acting one-shot key, the game runs on the host's own fixed
/// timestep. Only then are the backlog and the elapsed time added.
pub open spec fn takes_fixed_steps(
    state: HostLoopState,
    request: Option<ScenarioControlRequest>,
    held: Set<GameKey>,
    ctx: HostTickContext,
) -> bool {
    &&& request is None
    &&& !held.contains(GameKey::Benchmark)
    &&& !held.contains(GameKey::Reset)
    &&& !held.contains(GameKey::Back)
    &&& !state.paused
    &&& !ctx.game_over
    &&& !ctx.realtime_runtime
    &&& !(ctx.tick_model is Variable)
    &&& ctx.fixed_step_nanos is Some
}

/// The keys left held after a tick: a pending menu request consumes no key;
/// otherwise the one-shot keys are consumed in order until one acts.
pub open spec fn keys_after_step(
    request: Option<ScenarioControlRequest>,
    held: Set<GameKey>,
    paused: bool,
    game_over: bool,
) -> Set<GameKey> {
    if request is Some {
        held
    } else if held.contains(GameKey::Benchmark) {
        held.remove(GameKey::Benchmark)
    } else if held.contains(GameKey::Reset) {
        held.remove(GameKey::Reset)
    } else if held.contains(GameKey::Back) {
        held.remove(GameKey::Back)
    } else if held.contains(GameKey::Controls) && !game_over {
        held.remove(GameKey::Controls)
    } else if held.contains(GameKey::ReturnLauncher) && (paused || game_over) {
        held.remove(GameKey::Controls).remove(GameKey::ReturnLauncher)
    } else if held.contains(GameKey::ForcePause) && !game_over {
        held.remove(GameKey::Controls).remove(GameKey::ReturnLauncher).remove(GameKey::ForcePause)
    } else {
        held.remove(GameKey::Controls).remove(GameKey::ReturnLauncher).remove(
            GameKey::ForcePause,
        ).remove(GameKey::Pause)
    }
}

/// Decides one host tick: consumes the pending menu request or the first
/// acting one-shot key, updates the pause state and the fixed-step backlog,
/// and says what scenario work to do.
pub fn plan_host_step(
    state: HostLoopState,
    controls: &mut ScenarioControls,
    keys: &mut KeyboardState,
    ctx: HostTickContext,
) -> (plan: HostStepPlan)
    requires
        old(keys).wf(),
        takes_fixed_steps(state, old(controls).pending(), old(keys).held(), ctx)
            ==> state.accumulator_nanos + ctx.elapsed_nanos <= MAX_DURATION_NANOS,
    ensures
        final(keys).wf(),
        plan == host_step_spec(state, old(controls).pending(), old(keys).held(), ctx),
        final(keys).held() == keys_after_step(
            old(controls).pending(),
            old(keys).held(),
            state.paused,
            ctx.game_over,
        ),
        final(controls).pending() == None::<ScenarioControlRequest>,
        old(controls).pending() == Some(ScenarioControlRequest::Resume) ==> !plan.state.paused
            && plan.state.accumulator_nanos == 0,
        old(controls).pending() == Some(ScenarioControlRequest::Pause) && !ctx.game_over
            ==> plan.state.paused && plan.state.accumulator_nanos == 0,
{
    let decided = decide_host_step(state, controls, keys, ctx);
    proof {
        lemma_menu_pause_and_resume(state, old(keys).held(), ctx);
    }
    HostStepPlan { deliver_pending_cancellation: ctx.pointer_cancellation_pending, ..decided }
}

fn decide_host_step(
    state: HostLoopState,
    controls: &mut ScenarioControls,
    keys: &mut KeyboardState,
    ctx: HostTickContext,
) -> (plan: HostStepPlan)
    requires
        old(keys).wf(),
        takes_fixed_steps(state, old(controls).pending(), old(keys).held(), ctx)
            ==> state.accumulator_nanos + ctx.elapsed_nanos <= MAX_DURATION_NANOS,
    ensures
        final(keys).wf(),
        plan == host_decision_spec(state, old(controls).pending(), old(keys).held(), ctx),
        final(keys).held() == keys_after_step(
            old(controls).pending(),
            old(keys).held(),
            state.paused,
            ctx.game_over,
        ),
        final(controls).pending() == None::<ScenarioControlRequest>,
{
    let request = controls.take_request();
    match request {
        Some(ScenarioControlRequest::Pause) => {
            if !ctx.game_over {
                return pausing(state, true, HostStepResult::quiet());
            }
            return effect_only(state, HostEffect::Nothing);
        },
        Some(ScenarioControlRequest::Resume) => {
            return pausing(state, false, HostStepResult::quiet());
        },
        Some(ScenarioControlRequest::Restart) => {
            return effect_only(state, HostEffect::Restart);
        },
        Some(ScenarioControlRequest::Benchmark) => {
            if ctx.benchmark_supported {
                return effect_only(state, HostEffect::StartBenchmark);
            }
            return effect_only(state, HostEffect::Nothing);
        },
        Some(ScenarioControlRequest::ZoomIn { player }) => {
            return effect_only(state, HostEffect::ZoomIn { player });
        },
        Some(ScenarioControlRequest::ZoomOut { player }) => {
            return effect_only(state, HostEffect::ZoomOut { player });
        },
        None => {},
    }
    let ghost held0 = keys.held();
    if keys.take(GameKey::Benchmark) {
        if ctx.benchmark_supported {
            return effect_only(state, HostEffect::StartBenchmark);
        }
        return effect_only(state, HostEffect::Nothing);
    }
    if keys.take(GameKey::Reset) {
        assert(keys.held() =~= held0.remove(GameKey::Reset));
        return effect_only(state, HostEffect::Restart);
    }
    if keys.take(GameKey::Back) {
        assert(keys.held() =~= held0.remove(GameKey::Back));
        if ctx.game_over {
            return to_launcher(state);
        }
        if state.paused {
            if ctx.ingame_controls_visible {
                return HostStepPlan {
                    state: HostLoopState { accumulator_nanos: 0, ..state },
                    deliver_pending_cancellation: false,
                    cancel_pointer: false,
                    clear_input: true,
                    effect: HostEffect::Nothing,
                    result: HostStepResult::set_ingame_controls_visible(false),
                };
            }
            return HostStepPlan {
                state: HostLoopState { paused: false, accumulator_nanos: 0, ..state },
                deliver_pending_cancellation: false,
                cancel_pointer: false,
                clear_input: true,
                effect: HostEffect::Nothing,
                result: HostStepResult::quiet(),
            };
        }
        return pausing(state, true, HostStepResult::quiet());
    }
    assert(keys.held() =~= held0);
    if keys.take(GameKey::Controls) && !ctx.game_over {
        if !state.paused {
            return pausing(state, true, HostStepResult::set_ingame_controls_visible(true));
        }
        return pausing(
            state,
            true,
            HostStepResult::set_ingame_controls_visible(!ctx.ingame_controls_visible),
        );
    }
    if keys.take(GameKey::ReturnLauncher) && (state.paused || ctx.game_over) {
        return to_launcher(state);
    }
    if keys.take(GameKey::ForcePause) && !ctx.game_over {
        return pausing(state, true, HostStepResult::quiet());
    }
    if keys.take(GameKey::Pause) && !ctx.game_over {
        return pausing(state, !state.paused, HostStepResult::quiet());
    }
    if state.paused || ctx.game_over {
        return effect_only(state, HostEffect::Nothing);
    }
    if ctx.realtime_runtime {
        return effect_only(state, HostEffect::PublishRealtimeActions);
    }
    match (ctx.tick_model, ctx.fixed_step_nanos) {
        (TickModel::Variable, _) => HostStepPlan {
            state,
            deliver_pending_cancellation: false,
            cancel_pointer: false,
            clear_input: false,
            effect: HostEffect::VariableStep { elapsed_nanos: ctx.elapsed_nanos },
            result: HostStepResult::updates(1),
        },
        (_, Some(step)) => {
            let (steps, backlog) = run_fixed_steps(state.accumulator_nanos + ctx.elapsed_nanos, step);
            HostStepPlan {
                state: HostLoopState { accumulator_nanos: backlog, ..state },
                deliver_pending_cancellation: false,
                cancel_pointer: false,
                clear_input: false,
                effect: HostEffect::FixedSteps { steps, step_nanos: step },
                result: HostStepResult::updates(steps),
            }
        },
        (_, None) => effect_only(state, HostEffect::Nothing),
    }
}

fn pausing(state: HostLoopState, paused: bool, result: HostStepResult) -> (plan: HostStepPlan)
    ensures
        plan == paused_plan(state, paused, result),
{
    HostStepPlan {
        state: HostLoopState { paused, accumulator_nanos: 0, ..state },
        deliver_pending_cancellation: false,
        cancel_pointer: true,
        clear_input: true,
        effect: HostEffect::Nothing,
        result,
    }
}

fn effect_only(state: HostLoopState, effect: HostEffect) -> (plan: HostStepPlan)
    ensures
        plan == effect_plan(state, effect),
{
    HostStepPlan {
        state,
        deliver_pending_cancellation: false,
        cancel_pointer: false,
        clear_input: false,
        effect,
        result: HostStepResult::quiet(),
    }
}

fn to_launcher(state: HostLoopState) -> (plan: HostStepPlan)
    ensures
        plan == launcher_plan(state),
{
    HostStepPlan {
        state: HostLoopState { paused: false, accumulator_nanos: 0, ..state },
        deliver_pending_cancellation: false,
        cancel_pointer: false,
        clear_input: true,
        effect: HostEffect::Nothing,
        result: HostStepResult::return_to_launcher(),
    }
}

/// Runs the fixed-step loop over an accumulated backlog: steps while a whole
/// step remains, at most `MAX_FIXED_STEPS_PER_TICK` times, dropping the
/// backlog when the cap is reached.
pub fn run_fixed_steps(accumulated: u128, step: u128) -> (r: (usize, u128))
    ensures
        r.0 == fixed_steps(accumulated as int, step as int).0,
        r.1 == fixed_steps(accumulated as int, step as int).1,
{
    let mut backlog = accumulated;
    let mut steps: usize = 0;
    while backlog >= step && steps < MAX_FIXED_STEPS_PER_TICK
        invariant
            steps <= MAX_FIXED_STEPS_PER_TICK,
            backlog + steps * step == accumulated,
        decreases MAX_FIXED_STEPS_PER_TICK - steps,
    {
        assert((steps + 1) * step == steps * step + step) by (nonlinear_arith);
        backlog = backlog - step;
        steps = steps + 1;
    }
    proof {
        if step > 0 && steps < MAX_FIXED_STEPS_PER_TICK {
            assert(backlog < step);
            vstd::arithmetic::div_mod::lemma_fundamental_div_mod_converse(
                accumulated as int,
                step as int,
                steps as int,
                backlog as int,
            );
        } else if step > 0 {
            let q = (accumulated as int) / (step as int);
            let r = (accumulated as int) % (step as int);
            vstd::arithmetic::div_mod::lemma_fundamental_div_mod(accumulated as int, step as int);
            assert(q >= 5) by (nonlinear_arith)
                requires
                    accumulated == q * step + r,
                    0 <= r < step,
                    accumulated >= 5 * step,
                    step > 0,
            ;
        }
    }
    if steps == MAX_FIXED_STEPS_PER_TICK {
        backlog = 0;
    }
    (steps, backlog)
}


/// Which replacement a host tick asked for.
#[derive(Debug, Clone, Copy, PartialEq, Eq, Structural)]
pub enum ReplacementKind {
    Restart,
    Benchmark,
}

/// The error text shown when building a replacement failed.
pub open spec fn replacement_failure_text(kind: ReplacementKind, error: Seq<char>) -> Seq<char> {
    match kind {
        ReplacementKind::Restart => "Restart failed: "@ + error
            + ". The previous game is still available."@,
        ReplacementKind::Benchmark => "Benchmark start failed: "@ + error
            + ". The previous game is still available."@,
    }
}

/// Folds the outcome of a requested replacement into the loop state. On
/// success the new instance starts unpaused with an empty backlog (and in
/// benchmark mode for a benchmark start); the host then clears input and
/// resets the player controls. On failure the previous instance stays and
/// the host pauses with the error shown.
pub fn complete_replacement(
    state: HostLoopState,
    kind: ReplacementKind,
    error: Option<&str>,
) -> (r: (HostLoopState, HostStepResult))
    ensures
        error is None ==> {
            &&& r.0 == HostLoopState {
                paused: false,
                benchmark_active: kind == ReplacementKind::Benchmark,
                accumulator_nanos: 0,
            }
            &&& r.1.scenario_replaced
            &&& r.1.scenario_error_text is Some
            &&& r.1.scenario_error_text->0@ == Seq::<char>::empty()
            &&& r.1.updates == 0
            &&& !r.1.return_to_launcher
            &&& r.1.ingame_controls_visible == None::<bool>
        },
        error is Some ==> {
            &&& r.0 == HostLoopState { paused: true, accumulator_nanos: 0, ..state }
            &&& !r.1.scenario_replaced
            &&& r.1.scenario_error_text is Some
            &&& r.1.scenario_error_text->0@ == replacement_failure_text(kind, error->0@)
            &&& r.1.updates == 0
            &&& !r.1.return_to_launcher
            &&& r.1.ingame_controls_visible == None::<bool>
        },
{
    match error {
        None => (
            HostLoopState {
                paused: false,
                benchmark_active: match kind {
                    ReplacementKind::Benchmark => true,
                    ReplacementKind::Restart => false,
                },
                accumulator_nanos: 0,
            },
            HostStepResult::scenario_restarted(),
        ),
        Some(error) => {
            let mut text = String::new();
            match kind {
                ReplacementKind::Restart => push_str(&mut text, "Restart failed: "),
                ReplacementKind::Benchmark => push_str(&mut text, "Benchmark start failed: "),
            }
            push_str(&mut text, error);
            push_str(&mut text, ". The previous game is still available.");
            (
                HostLoopState { paused: true, accumulator_nanos: 0, ..state },
                HostStepResult::scenario_error(text),
            )
        },
    }
}

/// Whether the realtime runtime should be held after a tick: while paused
/// and when leaving for the launcher (which also shuts it down).
pub fn realtime_paused_after(state: HostLoopState, result: &HostStepResult) -> (held: bool)
    ensures
        held == (state.paused || result.return_to_launcher),
{
    state.paused || result.return_to_launcher
}

/// The state after a stopped video presentation or a stopped scenario: the
/// game pauses and the fixed-step backlog is dropped.
pub open spec fn stopped_state(state: HostLoopState) -> HostLoopState {
    HostLoopState { paused: true, accumulator_nanos: 0, ..state }
}

fn stopped_message(prefix: &str, error: &str) -> (text: String)
    ensures
        text@ == prefix@ + error@ + ". Restart or return to the launcher."@,
{
    let mut text = String::new();
    push_str(&mut text, prefix);
    push_str(&mut text, error);
    push_str(&mut text, ". Restart or return to the launcher.");
    text
}

/// Video presentation failed with `error`: the game pauses (and a realtime
/// runtime with it), the backlog is dropped, and the window shows why.
pub fn video_presentation_stopped(state: HostLoopState, error: &str) -> (r: (HostLoopState, String))
    ensures
        r.0 == stopped_state(state),
        r.1@ == "Video presentation stopped: "@ + error@ + ". Restart or return to the launcher."@,
{
    (HostLoopState { paused: true, accumulator_nanos: 0, ..state }, stopped_message("Video presentation stopped: ", error))
}

/// The scenario reported the runtime error `error`: the game pauses (and a
/// realtime runtime with it), the backlog is dropped, and the window shows
/// why.
pub fn scenario_stopped(state: HostLoopState, error: &str) -> (r: (HostLoopState, String))
    ensures
        r.0 == stopped_state(state),
        r.1@ == "Scenario stopped: "@ + error@ + ". Restart or return to the launcher."@,
{
    (HostLoopState { paused: true, accumulator_nanos: 0, ..state }, stopped_message("Scenario stopped: ", error))
}

/// Frames a realtime runtime emulated since the last tick, from its running
/// total `emulated_frames` and the total seen at the last tick.
pub fn realtime_updates(emulated_frames: u64, last_emulated_frames: u64) -> (updates: usize)
    ensures
        updates == (if emulated_frames > last_emulated_frames {
            (emulated_frames - last_emulated_frames) as u64
        } else {
            0u64
        }) as usize,
{
    emulated_frames.saturating_sub(last_emulated_frames) as usize
}

/// What the runtime diagnostics last showed.
#[derive(Debug, Clone, Copy, PartialEq, Eq, Structural)]
pub struct DiagnosticsMarks {
    pub input_revision: u64,
    pub scenario_revision: u64,
    pub paused: bool,
    pub benchmark_active: bool,
}

/// Whether the runtime diagnostics are written again this tick: when a
/// performance sample completed or anything they show has changed.
pub fn diagnostics_due(last: DiagnosticsMarks, current: DiagnosticsMarks, sample_completed: bool) -> (due: bool)
    ensures
        due == (sample_completed || last != current),
{
    sample_completed || last.input_revision != current.input_revision || last.scenario_revision
        != current.scenario_revision || last.paused != current.paused || last.benchmark_active
        != current.benchmark_active
}

/// Hands out scenario instance revisions, starting at 1.
pub struct RevisionCounter {
    next: u64,
    handed_out: Ghost<nat>,
}

impl RevisionCounter {
    pub closed spec fn upcoming(&self) -> u64 {
        self.next
    }

    /// How many revisions this counter has handed out.
    pub closed spec fn handed_out(&self) -> nat {
        self.handed_out@
    }

    /// The next revision is one past the count handed out, wrapping after
    /// `u64::MAX`.
    pub closed spec fn wf(&self) -> bool {
        self.next == (self.handed_out@ + 1) % 0x1_0000_0000_0000_0000
    }

    pub fn new() -> (counter: Self)
        ensures
            counter.wf(),
            counter.upcoming() == 1,
            counter.handed_out() == 0,
    {
        RevisionCounter { next: 1, handed_out: Ghost(0) }
    }

    /// The next revision; revisions wrap after `u64::MAX`.
    pub fn next_scenario_revision(&mut self) -> (revision: u64)
        requires
            old(self).wf(),
        ensures
            final(self).wf(),
            revision == old(self).upcoming(),
            final(self).upcoming() == old(self).upcoming().wrapping_add(1),
            final(self).handed_out() == old(self).handed_out() + 1,
            old(self).handed_out() < u64::MAX ==> revision == old(self).handed_out() + 1,
    {
        let revision = self.next;
        self.next = self.next.wrapping_add(1);
        proof {
            self.handed_out = Ghost(self.handed_out@ + 1);
        }
        revision
    }
}

/// Revisions never repeat and only grow: whatever a counter hands out next
/// is at least 1 and smaller than what it hands out after any later call, as
/// long as fewer than `u64::MAX` revisions have been handed out (the counter
/// wraps after that).
pub proof fn lemma_later_revisions_are_larger(earlier: RevisionCounter, later: RevisionCounter)
    requires
        earlier.wf(),
        later.wf(),
        earlier.handed_out() < later.handed_out() < u64::MAX,
    ensures
        1 <= earlier.upcoming() < later.upcoming(),
{
}

/// The target rate shown for a tick model.
pub open spec fn performance_target_text(tick_model: TickModel) -> Seq<char> {
    match tick_model {
        TickModel::FixedTimestep { hz } => crate::text::decimal(hz as nat) + " Hz"@,
        TickModel::Variable => "variable"@,
        TickModel::EmulatorClock => "emulator 60.10 Hz"@,
    }
}

/// The target rate shown for a tick model.
pub fn performance_target_label(tick_model: TickModel) -> (label: String)
    ensures
        label@ == performance_target_text(tick_model),
{
    let mut label = String::new();
    match tick_model {
        TickModel::FixedTimestep { hz } => {
            crate::text::push_decimal(&mut label, hz as u128);
            push_str(&mut label, " Hz");
        },
        TickModel::Variable => push_str(&mut label, "variable"),
        TickModel::EmulatorClock => push_str(&mut label, "emulator 60.10 Hz"),
    }
    label
}

/// Column names of the headless benchmark CSV report.
pub const BENCHMARK_HEADER: &'static str = "scenario,renderer,raster_scale,second,frames,updates,throughput_fps,scene_items,asteroids,fragments,shells,particles,balls,gravity_sources,gravity_targets,gravity_nodes,gravity_exact_interactions,gravity_approximations,gravity_applied_sources,active_bodies,sleeping_bodies,candidate_pairs,max_candidate_pairs,contact_pairs,max_contact_pairs,solver_contacts,max_solver_contacts,added,removed,avg_step_ms,p50_step_ms,p95_step_ms,p99_step_ms,max_step_ms,avg_workload_ms,avg_lifecycle_ms,max_lifecycle_ms,avg_gravity_ms,avg_gravity_validation_ms,avg_gravity_build_ms,avg_gravity_aggregation_ms,avg_gravity_traversal_ms,avg_collision_ms,avg_physics_ms,avg_snapshot_ms,avg_rapier_step_ms,avg_rapier_update_ms,avg_rapier_user_changes_ms,avg_rapier_kinematic_interpolation_ms,avg_rapier_collision_detection_ms,avg_rapier_broad_phase_ms,avg_rapier_final_broad_phase_ms,avg_rapier_narrow_phase_ms,avg_rapier_island_ms,avg_rapier_island_constraints_ms,avg_rapier_solver_ms,avg_rapier_ccd_ms,avg_render_ms,avg_present_ms,avg_raster_clear_ms,avg_raster_player_ms,avg_raster_player_starfield_ms,avg_raster_player_bodies_ms,avg_raster_player_world_ms,avg_raster_player_sun_planets_ms,avg_raster_player_spaceports_ms,avg_raster_player_effects_ms,avg_raster_player_ships_ms,avg_raster_player_debris_ms,avg_raster_player_particles_ms,avg_raster_player_other_ms,avg_raster_other_frames_ms,avg_raster_overview_refresh_ms,avg_raster_overview_blit_ms,avg_raster_overview_live_ms,avg_raster_image_ms,avg_total_ms,p50_total_ms,p95_total_ms,p99_total_ms,max_total_ms";

/// Appends the benchmark report's header line, newline included: the column
/// names joined with commas, as `BENCHMARK_HEADER` spells them.
pub fn write_benchmark_header(out: &mut String)
    ensures
        final(out)@ == old(out)@ + crate::benchmark::row_text(crate::benchmark::header_cells()) + "\n"@,
{
    let cells = crate::benchmark::benchmark_header_cells();
    crate::benchmark::write_benchmark_row(out, &cells);
}


/// Why the host could not start or present a scenario.
#[derive(Debug, PartialEq, Eq)]
pub enum HostError {
    UnknownScenario { name: String },
    BenchmarkUnsupported { name: String },
    ScenarioCreation { name: String, source: String },
    Presentation { name: String, detail: String },
}

/// What a scenario supports.
#[derive(Debug, Clone, Copy, PartialEq, Eq, Structural)]
pub struct ScenarioCapabilities {
    pub benchmark: bool,
    pub pointer_input: bool,
    pub player_zoom: bool,
}

/// One entry of the scenario registry.
#[derive(Debug)]
pub struct ScenarioRegistration {
    pub id: String,
    pub launcher_visible: bool,
    pub capabilities: ScenarioCapabilities,
    pub controls_help: String,
}

/// Index of the first registration whose id is `name`.
pub open spec fn registration_index(
    registry: Seq<ScenarioRegistration>,
    name: Seq<char>,
) -> Option<int>
    decreases registry.len(),
{
    if registry.len() == 0 {
        None
    } else {
        match registration_index(registry.drop_last(), name) {
            Some(i) => Some(i),
            None => if registry.last().id@ == name {
                Some(registry.len() - 1)
            } else {
                None
            },
        }
    }
}

proof fn lemma_registration_index_step(registry: Seq<ScenarioRegistration>, name: Seq<char>, i: int)
    requires
        0 <= i < registry.len(),
        registration_index(registry.take(i), name) is None,
    ensures
        registration_index(registry.take(i + 1), name) == if registry[i].id@ == name {
            Some(i)
        } else {
            None::<int>
        },
{
    assert(registry.take(i + 1).drop_last() =~= registry.take(i));
}

/// The registration of scenario `name`, if it is registered.
pub fn scenario_registration<'a>(registry: &'a [ScenarioRegistration], name: &str) -> (found:
    Option<&'a ScenarioRegistration>)
    ensures
        match registration_index(registry@, name@) {
            Some(i) => found == Some(&registry@[i]),
            None => found is None,
        },
{
    let mut i: usize = 0;
    while i < registry.len()
        invariant
            i <= registry.len(),
            registration_index(registry@.take(i as int), name@) is None,
        decreases registry.len() - i,
    {
        proof {
            lemma_registration_index_step(registry@, name@, i as int);
        }
        if str_equal(registry[i].id.as_str(), name) {
            proof {
                lemma_registration_index_prefix(registry@, name@, i as int + 1);
            }
            return Some(&registry[i]);
        }
        i = i + 1;
    }
    assert(registry@.take(registry.len() as int) =~= registry@);
    None
}

proof fn lemma_registration_index_prefix(registry: Seq<ScenarioRegistration>, name: Seq<char>, n: int)
    requires
        0 <= n <= registry.len(),
        registration_index(registry.take(n), name) is Some,
    ensures
        registration_index(registry, name) == registration_index(registry.take(n), name),
    decreases registry.len() - n,
{
    if n < registry.len() {
        assert(registry.take(n + 1).drop_last() =~= registry.take(n));
        lemma_registration_index_prefix(registry, name, n + 1);
    } else {
        assert(registry.take(n) =~= registry);
    }
}

/// Whether `name` is a registered scenario.
pub fn is_known_scenario(registry: &[ScenarioRegistration], name: &str) -> (known: bool)
    ensures
        known == registration_index(registry@, name@) is Some,
{
    scenario_registration(registry, name).is_some()
}

/// Accepts registered scenario names and rejects the rest.
pub fn validate_scenario(registry: &[ScenarioRegistration], name: &str) -> (r: Result<(), HostError>)
    ensures
        registration_index(registry@, name@) is Some ==> r is Ok,
        registration_index(registry@, name@) is None ==> (r matches Err(
            HostError::UnknownScenario { name: n },
        ) && n@ == name@),
{
    if is_known_scenario(registry, name) {
        Ok(())
    } else {
        Err(HostError::UnknownScenario { name: owned(name) })
    }
}

/// Ids of `registry` in order, keeping those that `keep` accepts.
pub open spec fn registry_ids(registry: Seq<ScenarioRegistration>, launcher_only: bool) -> Seq<
    Seq<char>,
>
    decreases registry.len(),
{
    if registry.len() == 0 {
        Seq::empty()
    } else {
        let rest = registry_ids(registry.drop_last(), launcher_only);
        if !launcher_only || registry.last().launcher_visible {
            rest.push(registry.last().id@)
        } else {
            rest
        }
    }
}

fn collect_ids(registry: &[ScenarioRegistration], launcher_only: bool) -> (ids: Vec<String>)
    ensures
        ids@.map_values(|id: String| id@) == registry_ids(registry@, launcher_only),
{
    let mut ids: Vec<String> = Vec::new();
    let mut i: usize = 0;
    while i < registry.len()
        invariant
            i <= registry.len(),
            ids@.map_values(|id: String| id@) == registry_ids(registry@.take(i as int), launcher_only),
        decreases registry.len() - i,
    {
        assert(registry@.take(i as int + 1).drop_last() =~= registry@.take(i as int));
        let ghost before = ids@;
        if !launcher_only || registry[i].launcher_visible {
            ids.push(owned(registry[i].id.as_str()));
            assert(ids@.map_values(|id: String| id@) =~= before.map_values(|id: String| id@).push(
                registry@[i as int].id@,
            ));
        }
        i = i + 1;
    }
    assert(registry@.take(registry.len() as int) =~= registry@);
    ids
}

/// Where `registration_index` points, the registration carries that name;
/// and a name some registration carries is always found.
proof fn lemma_registration_index_finds(registry: Seq<ScenarioRegistration>, name: Seq<char>)
    ensures
        registration_index(registry, name) matches Some(i) ==> 0 <= i < registry.len()
            && registry[i].id@ == name,
        (exists|j: int| 0 <= j < registry.len() && registry[j].id@ == name) ==> registration_index(
            registry,
            name,
        ) is Some,
    decreases registry.len(),
{
    if registry.len() > 0 {
        lemma_registration_index_finds(registry.drop_last(), name);
        if exists|j: int| 0 <= j < registry.len() && registry[j].id@ == name {
            let j = choose|j: int| 0 <= j < registry.len() && registry[j].id@ == name;
            if j < registry.len() - 1 {
                assert(registry.drop_last()[j].id@ == name);
            }
        }
    }
}

/// The listed ids are the registrations' ids, in order; the launcher's are
/// those of the launcher-visible registrations, in order.
proof fn lemma_registry_ids_shape(registry: Seq<ScenarioRegistration>)
    ensures
        registry_ids(registry, false) == registry.map_values(|r: ScenarioRegistration| r.id@),
        registry_ids(registry, true) == registry.filter(
            |r: ScenarioRegistration| r.launcher_visible,
        ).map_values(|r: ScenarioRegistration| r.id@),
    decreases registry.len(),
{
    reveal_with_fuel(Seq::filter, 1);
    if registry.len() > 0 {
        lemma_registry_ids_shape(registry.drop_last());
        assert(registry.map_values(|r: ScenarioRegistration| r.id@) =~= registry.drop_last().map_values(
            |r: ScenarioRegistration| r.id@,
        ).push(registry.last().id@));
        let f = registry.drop_last().filter(|r: ScenarioRegistration| r.launcher_visible);
        if registry.last().launcher_visible {
            assert(f.push(registry.last()).map_values(|r: ScenarioRegistration| r.id@) =~= f.map_values(
                |r: ScenarioRegistration| r.id@,
            ).push(registry.last().id@));
        }
    } else {
        assert(registry.map_values(|r: ScenarioRegistration| r.id@) =~= Seq::empty());
        assert(registry.filter(|r: ScenarioRegistration| r.launcher_visible).map_values(
            |r: ScenarioRegistration| r.id@,
        ) =~= Seq::empty());
    }
}

/// Every scenario name that the registry lists is known, and looking it up
/// gives a registration carrying that name.
pub proof fn lemma_listed_names_are_registered(registry: Seq<ScenarioRegistration>, k: int)
    requires
        0 <= k < registry_ids(registry, false).len(),
    ensures
        registration_index(registry, registry_ids(registry, false)[k]) matches Some(i) && 0 <= i
            < registry.len() && registry[i].id@ == registry_ids(registry, false)[k],
{
    lemma_registry_ids_shape(registry);
    let name = registry_ids(registry, false)[k];
    assert(registry[k].id@ == name);
    lemma_registration_index_finds(registry, name);
}

/// The launcher's names are the ids of the launcher-visible registrations in
/// registry order, so each of them is among all the listed names, known, and
/// maps back to a launcher-visible registration of that name.
pub proof fn lemma_launcher_names_are_listed(registry: Seq<ScenarioRegistration>, k: int)
    requires
        0 <= k < registry_ids(registry, true).len(),
    ensures
        registry_ids(registry, true) == registry.filter(
            |r: ScenarioRegistration| r.launcher_visible,
        ).map_values(|r: ScenarioRegistration| r.id@),
        registry_ids(registry, false).contains(registry_ids(registry, true)[k]),
        registration_index(registry, registry_ids(registry, true)[k]) matches Some(i) && 0 <= i
            < registry.len() && registry[i].id@ == registry_ids(registry, true)[k],
{
    lemma_registry_ids_shape(registry);
    let pred = |r: ScenarioRegistration| r.launcher_visible;
    let visible = registry.filter(pred);
    let name = registry_ids(registry, true)[k];
    assert(visible[k].id@ == name);
    registry.lemma_filter_contains_rev(pred, visible[k]);
    assert(visible.contains(visible[k]));
    registry.filter_lemma(pred);
    let j = choose|j: int| 0 <= j < registry.len() && registry[j] == visible[k];
    assert(registry_ids(registry, false)[j] == name);
    lemma_registration_index_finds(registry, name);
}

/// Every registered scenario id, in registry order.
pub fn scenario_names(registry: &[ScenarioRegistration]) -> (names: Vec<String>)
    ensures
        names@.map_values(|id: String| id@) == registry_ids(registry@, false),
{
    collect_ids(registry, false)
}

/// The ids the launcher offers, in registry order.
pub fn launcher_scenario_names(registry: &[ScenarioRegistration]) -> (names: Vec<String>)
    ensures
        names@.map_values(|id: String| id@) == registry_ids(registry@, true),
{
    collect_ids(registry, true)
}


/// The message for a host error, naming the registered scenarios when the
/// scenario is unknown; names are spelled as `{:?}` spells them.
pub open spec fn host_error_text(error: HostError, registry: Seq<ScenarioRegistration>) -> Seq<char> {
    match error {
        HostError::UnknownScenario { name } => "unknown scenario "@ + crate::text::debug_quoted(name@)
            + "; available scenarios: "@ + crate::text::joined(registry_ids(registry, false), ", "@),
        HostError::BenchmarkUnsupported { name } => "scenario "@ + crate::text::debug_quoted(name@)
            + " does not support benchmark mode"@,
        HostError::ScenarioCreation { name, source } => "could not start scenario "@
            + crate::text::debug_quoted(name@) + ": "@ + source@,
        HostError::Presentation { name, detail } => "could not present scenario "@
            + crate::text::debug_quoted(name@) + ": "@ + detail@,
    }
}

impl HostError {
    /// The error's message.
    pub fn message(&self, registry: &[ScenarioRegistration]) -> (text: String)
        ensures
            text@ == host_error_text(*self, registry@),
    {
        let mut text = String::new();
        match self {
            HostError::UnknownScenario { name } => {
                push_str(&mut text, "unknown scenario ");
                let quoted = crate::text::debug_quote(name.as_str());
                push_str(&mut text, quoted.as_str());
                push_str(&mut text, "; available scenarios: ");
                let names = scenario_names(registry);
                let list = crate::text::join_strings(&names, ", ");
                push_str(&mut text, list.as_str());
            },
            HostError::BenchmarkUnsupported { name } => {
                push_str(&mut text, "scenario ");
                let quoted = crate::text::debug_quote(name.as_str());
                push_str(&mut text, quoted.as_str());
                push_str(&mut text, " does not support benchmark mode");
            },
            HostError::ScenarioCreation { name, source } => {
                push_str(&mut text, "could not start scenario ");
                let quoted = crate::text::debug_quote(name.as_str());
                push_str(&mut text, quoted.as_str());
                push_str(&mut text, ": ");
                push_str(&mut text, source.as_str());
            },
            HostError::Presentation { name, detail } => {
                push_str(&mut text, "could not present scenario ");
                let quoted = crate::text::debug_quote(name.as_str());
                push_str(&mut text, quoted.as_str());
                push_str(&mut text, ": ");
                push_str(&mut text, detail.as_str());
            },
        }
        text
    }
}

/// Whether `name` names a registered scenario that has a benchmark.
pub fn supports_benchmark(registry: &[ScenarioRegistration], name: &str) -> (supported: bool)
    ensures
        supported == match registration_index(registry@, name@) {
            Some(i) => registry@[i].capabilities.benchmark,
            None => false,
        },
{
    match scenario_registration(registry, name) {
        Some(registration) => registration.capabilities.benchmark,
        None => false,
    }
}

} // verus!
