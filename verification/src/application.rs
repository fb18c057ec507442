//! The lifecycle of the application: what is created, drawn and torn down in
//! answer to the signals of the platform, and in which order.
//!
//! The application owns no platform object itself. Each call returns the
//! actions the embedding program must perform, in order, before it hands over
//! the next signal. A creation that fails is fatal to the program, so an
//! action that was returned counts as done.

use vstd::prelude::*;
use crate::geometry::PhysicalSize;

verus! {

/// Where the application stands in its life.
#[derive(Clone, Copy, Debug, PartialEq, Eq, Structural)]
pub enum Lifecycle {
    /// Nothing exists yet: the platform has not signalled that a window can
    /// be had.
    Uninitialized,
    /// The window with its context, the renderer and the client exist.
    Active,
    /// An exit was requested and the client is releasing what it holds.
    ShuttingDown,
    /// Everything is torn down. No signal has any effect any more.
    Terminated,
}

/// A signal of the platform's event pump.
#[derive(Clone, Copy, Debug, PartialEq, Eq, Structural)]
pub enum PlatformEvent {
    /// A window surface can now be had.
    Resumed,
    /// The user asked to close the window.
    CloseRequested,
    /// The window has this new size in physical pixels.
    Resized { size: PhysicalSize },
    /// The scale factor has changed; the window now has this size in
    /// physical pixels.
    ScaleFactorChanged { inner_size: PhysicalSize },
    /// The window is to be drawn again.
    RedrawRequested,
    /// Any other event of the window.
    Other,
}

/// One thing the embedding program must do for the application.
#[derive(Clone, Copy, Debug, PartialEq, Eq, Structural)]
pub enum LifecycleAction {
    /// Create the window with its surface and context.
    CreateWindow,
    /// Create the scene renderer on the window's context.
    CreateRenderer,
    /// Create the client with its user interface and its render target.
    CreateClient,
    /// Resize the window's surface and viewport to this size.
    ResizeWindow { size: PhysicalSize },
    /// Hand the event that is being handled to the client.
    ForwardToClient,
    /// Let the user interface lay itself out, which gives the region the
    /// scene is shown in.
    LayOutUi,
    /// Bring the render target to the physical size of that region, if it
    /// does not have it already.
    FitTarget,
    /// Draw the scene into the render target, if the target is complete.
    DrawScene,
    /// Composite the user interface, with the scene in it, into the window's
    /// framebuffer.
    CompositeUi,
    /// Present the finished frame.
    Present,
    /// Call the client's shutdown hook, which releases the render target and
    /// the textures the user interface holds, and report back with
    /// [`Application::finish_shutdown`].
    ShutdownClient,
    /// Drop the renderer.
    DestroyRenderer,
    /// Destroy the context, the surface and the window.
    DestroyWindow,
    /// Ask the event pump to stop.
    Exit,
}

/// What the application takes in: a signal of the platform, or the word that
/// the client has finished its shutdown hook.
pub enum Input {
    Event { event: PlatformEvent },
    ClientShutDown,
}

/// A state and the actions that led to it.
pub struct Step {
    pub state: Lifecycle,
    pub actions: Seq<LifecycleAction>,
}

impl Lifecycle {
    /// How far a state is along the one way the lifecycle goes.
    pub open spec fn rank(self) -> nat {
        match self {
            Lifecycle::Uninitialized => 0,
            Lifecycle::Active => 1,
            Lifecycle::ShuttingDown => 2,
            Lifecycle::Terminated => 3,
        }
    }

    /// The state after a platform event, and the actions the event calls for.
    pub open spec fn on_event(self, event: PlatformEvent) -> Step {
        match self {
            Lifecycle::Uninitialized => match event {
                PlatformEvent::Resumed => Step {
                    state: Lifecycle::Active,
                    actions: seq![
                        LifecycleAction::CreateWindow,
                        LifecycleAction::CreateRenderer,
                        LifecycleAction::CreateClient,
                    ],
                },
                PlatformEvent::CloseRequested => Step {
                    state: Lifecycle::Terminated,
                    actions: seq![LifecycleAction::Exit],
                },
                _ => Step { state: self, actions: Seq::empty() },
            },
            Lifecycle::Active => match event {
                PlatformEvent::Resumed => Step { state: self, actions: Seq::empty() },
                PlatformEvent::CloseRequested => Step {
                    state: Lifecycle::ShuttingDown,
                    actions: seq![LifecycleAction::ShutdownClient],
                },
                PlatformEvent::Resized { size } => Step {
                    state: self,
                    actions: seq![
                        LifecycleAction::ResizeWindow { size },
                        LifecycleAction::ForwardToClient,
                    ],
                },
                PlatformEvent::ScaleFactorChanged { inner_size } => Step {
                    state: self,
                    actions: seq![
                        LifecycleAction::ResizeWindow { size: inner_size },
                        LifecycleAction::ForwardToClient,
                    ],
                },
                PlatformEvent::RedrawRequested => Step { state: self, actions: frame_actions() },
                PlatformEvent::Other => Step {
                    state: self,
                    actions: seq![LifecycleAction::ForwardToClient],
                },
            },
            _ => Step { state: self, actions: Seq::empty() },
        }
    }

    /// The state after the client has finished its shutdown hook, and the
    /// actions that tear down the rest. Outside a shutdown the word has no
    /// effect.
    pub open spec fn on_client_shut_down(self) -> Step {
        match self {
            Lifecycle::ShuttingDown => Step {
                state: Lifecycle::Terminated,
                actions: seq![
                    LifecycleAction::DestroyRenderer,
                    LifecycleAction::DestroyWindow,
                    LifecycleAction::Exit,
                ],
            },
            _ => Step { state: self, actions: Seq::empty() },
        }
    }

    pub open spec fn on_input(self, input: Input) -> Step {
        match input {
            Input::Event { event } => self.on_event(event),
            Input::ClientShutDown => self.on_client_shut_down(),
        }
    }

    /// The state after a run of inputs, with all actions of the run in the
    /// order they were called for.
    pub open spec fn run(self, inputs: Seq<Input>) -> Step
        decreases inputs.len(),
    {
        if inputs.len() == 0 {
            Step { state: self, actions: Seq::empty() }
        } else {
            let before = self.run(inputs.drop_last());
            let last = before.state.on_input(inputs.last());
            Step { state: last.state, actions: before.actions + last.actions }
        }
    }
}

/// The actions of one frame, in the order they must be taken: the event
/// goes to the client, the target is sized before the scene is drawn, the
/// scene is drawn before the user interface is composited, and the frame is
/// presented last.
pub open spec fn frame_actions() -> Seq<LifecycleAction> {
    seq![
        LifecycleAction::ForwardToClient,
        LifecycleAction::LayOutUi,
        LifecycleAction::FitTarget,
        LifecycleAction::DrawScene,
        LifecycleAction::CompositeUi,
        LifecycleAction::Present,
    ]
}

/// An action that only a frame calls for.
pub open spec fn is_frame_action(action: LifecycleAction) -> bool {
    action == LifecycleAction::LayOutUi || action == LifecycleAction::FitTarget || action
        == LifecycleAction::DrawScene || action == LifecycleAction::CompositeUi || action
        == LifecycleAction::Present
}

/// How often an action occurs in a list.
pub open spec fn occurrences(actions: Seq<LifecycleAction>, action: LifecycleAction) -> nat
    decreases actions.len(),
{
    if actions.len() == 0 {
        0
    } else {
        occurrences(actions.drop_last(), action) + if actions.last() == action {
            1nat
        } else {
            0nat
        }
    }
}

/// An action that creates the window, the renderer or the client.
pub open spec fn is_creation(action: LifecycleAction) -> bool {
    action == LifecycleAction::CreateWindow || action == LifecycleAction::CreateRenderer || action
        == LifecycleAction::CreateClient
}

/// Counting in a list put together from two counts in both.
pub proof fn lemma_occurrences_concat(
    first: Seq<LifecycleAction>,
    second: Seq<LifecycleAction>,
    action: LifecycleAction,
)
    ensures
        occurrences(first + second, action) == occurrences(first, action) + occurrences(
            second,
            action,
        ),
    decreases second.len(),
{
    if second.len() == 0 {
        assert(first + second =~= first);
    } else {
        assert((first + second).drop_last() =~= first + second.drop_last());
        lemma_occurrences_concat(first, second.drop_last(), action);
    }
}

/// An action that stands nowhere in a list occurs in it zero times.
pub proof fn lemma_absent_occurs_never(actions: Seq<LifecycleAction>, action: LifecycleAction)
    requires
        forall|i: int| 0 <= i < actions.len() ==> actions[i] != action,
    ensures
        occurrences(actions, action) == 0,
    decreases actions.len(),
{
    if actions.len() > 0 {
        lemma_absent_occurs_never(actions.drop_last(), action);
    }
}

impl Lifecycle {
    /// The lifecycle only moves forward, and once it has ended no input
    /// moves it or calls for anything.
    pub proof fn lemma_input_moves_forward(self, input: Input)
        ensures
            self.on_input(input).state.rank() >= self.rank(),
            self is Terminated ==> self.on_input(input).state is Terminated
                && self.on_input(input).actions.len() == 0,
    {
    }

    /// No run of inputs takes the lifecycle back to an earlier state.
    pub proof fn lemma_run_moves_forward(self, inputs: Seq<Input>)
        ensures
            self.run(inputs).state.rank() >= self.rank(),
        decreases inputs.len(),
    {
        if inputs.len() > 0 {
            self.lemma_run_moves_forward(inputs.drop_last());
            self.run(inputs.drop_last()).state.lemma_input_moves_forward(inputs.last());
        }
    }

    /// One input calls for the creation of an object exactly when it is the
    /// first `Resumed`, and then once.
    pub proof fn lemma_creation_on_first_resume(self, input: Input, action: LifecycleAction)
        requires
            is_creation(action),
        ensures
            occurrences(self.on_input(input).actions, action) == if self is Uninitialized && input
                == (Input::Event { event: PlatformEvent::Resumed }) {
                1nat
            } else {
                0nat
            },
    {
        let actions = self.on_input(input).actions;
        if self is Uninitialized && input == (Input::Event { event: PlatformEvent::Resumed }) {
            reveal_with_fuel(occurrences, 4);
            assert(actions.drop_last().len() == 2);
            assert(actions.drop_last().drop_last().len() == 1);
            assert(actions.drop_last().drop_last().drop_last().len() == 0);
        } else {
            assert forall|i: int| 0 <= i < actions.len() implies actions[i] != action by {
                if i == 0 {
                } else if i == 1 {
                } else if i == 2 {
                } else if i == 3 {
                } else if i == 4 {
                } else {
                }
            }
            lemma_absent_occurs_never(actions, action);
        }
    }

    /// Each of the window, the renderer and the client is created at most
    /// once, however often the platform resumes the application: over any
    /// run of inputs its creation is called for once if the run leaves the
    /// uninitialized state through `Resumed`, and never otherwise.
    pub proof fn lemma_created_at_most_once(self, inputs: Seq<Input>, action: LifecycleAction)
        requires
            is_creation(action),
        ensures
            occurrences(self.run(inputs).actions, action) <= 1,
            !(self is Uninitialized) ==> occurrences(self.run(inputs).actions, action) == 0,
            self.run(inputs).state is Uninitialized ==> occurrences(
                self.run(inputs).actions,
                action,
            ) == 0,
            self is Uninitialized && self.run(inputs).state is Active ==> occurrences(
                self.run(inputs).actions,
                action,
            ) == 1,
        decreases inputs.len(),
    {
        if inputs.len() > 0 {
            let before = self.run(inputs.drop_last());
            let last = before.state.on_input(inputs.last());
            self.lemma_created_at_most_once(inputs.drop_last(), action);
            self.lemma_run_moves_forward(inputs.drop_last());
            before.state.lemma_creation_on_first_resume(inputs.last(), action);
            lemma_occurrences_concat(before.actions, last.actions, action);
        }
    }

    /// A frame is drawn and presented only while the application is active,
    /// only for a redraw, and then whole and in order.
    pub proof fn lemma_frames_only_while_active(self, input: Input, index: int)
        requires
            0 <= index < self.on_input(input).actions.len(),
            is_frame_action(self.on_input(input).actions[index]),
        ensures
            self is Active,
            input == (Input::Event { event: PlatformEvent::RedrawRequested }),
            self.on_input(input).state is Active,
            self.on_input(input).actions == frame_actions(),
    {
    }

    /// A new size or scale factor resizes the window at once and leaves the
    /// render target alone: the target is fitted by the next frame.
    pub proof fn lemma_resize_leaves_target_to_next_frame(self, event: PlatformEvent, index: int)
        requires
            event is Resized || event is ScaleFactorChanged,
            0 <= index < self.on_event(event).actions.len(),
        ensures
            self is Active,
            !is_frame_action(self.on_event(event).actions[index]),
            self.on_event(event).actions[0] == (LifecycleAction::ResizeWindow {
                size: match event {
                    PlatformEvent::Resized { size } => size,
                    PlatformEvent::ScaleFactorChanged { inner_size } => inner_size,
                    _ => arbitrary(),
                },
            }),
    {
    }

    /// The teardown mirrors the creation: in the actions of any run from the
    /// uninitialized or the active state, wherever the destruction of the
    /// window stands, the client's shutdown hook stands before it.
    pub proof fn lemma_client_shut_down_before_window(self, inputs: Seq<Input>, index: int)
        requires
            self is Uninitialized || self is Active,
            0 <= index < self.run(inputs).actions.len(),
            self.run(inputs).actions[index] == LifecycleAction::DestroyWindow,
        ensures
            exists|earlier: int|
                0 <= earlier < index && self.run(inputs).actions[earlier]
                    == LifecycleAction::ShutdownClient,
        decreases inputs.len(),
    {
        if inputs.len() > 0 {
            let before = self.run(inputs.drop_last());
            let last = before.state.on_input(inputs.last());
            if index < before.actions.len() {
                self.lemma_client_shut_down_before_window(inputs.drop_last(), index);
                let earlier = choose|earlier: int|
                    0 <= earlier < index && before.actions[earlier]
                        == LifecycleAction::ShutdownClient;
                assert(self.run(inputs).actions[earlier] == LifecycleAction::ShutdownClient);
            } else {
                assert(last.actions[index - before.actions.len()]
                    == LifecycleAction::DestroyWindow);
                assert(before.state is ShuttingDown);
                self.lemma_shutting_down_after_hook(inputs.drop_last());
                let earlier = choose|earlier: int|
                    0 <= earlier < before.actions.len() && before.actions[earlier]
                        == LifecycleAction::ShutdownClient;
                assert(self.run(inputs).actions[earlier] == LifecycleAction::ShutdownClient);
            }
        }
    }

    /// A run from the uninitialized or the active state that ends in the
    /// shutdown has called for the client's shutdown hook.
    pub proof fn lemma_shutting_down_after_hook(self, inputs: Seq<Input>)
        requires
            self is Uninitialized || self is Active,
            self.run(inputs).state is ShuttingDown,
        ensures
            exists|earlier: int|
                0 <= earlier < self.run(inputs).actions.len() && self.run(inputs).actions[earlier]
                    == LifecycleAction::ShutdownClient,
        decreases inputs.len(),
    {
        if inputs.len() > 0 {
            let before = self.run(inputs.drop_last());
            let last = before.state.on_input(inputs.last());
            if before.state is ShuttingDown {
                self.lemma_shutting_down_after_hook(inputs.drop_last());
                let earlier = choose|earlier: int|
                    0 <= earlier < before.actions.len() && before.actions[earlier]
                        == LifecycleAction::ShutdownClient;
                assert(self.run(inputs).actions[earlier] == LifecycleAction::ShutdownClient);
            } else {
                assert(before.state is Active);
                assert(last.actions[0] == LifecycleAction::ShutdownClient);
                assert(self.run(inputs).actions[before.actions.len() as int]
                    == LifecycleAction::ShutdownClient);
            }
        }
    }
}

/// Which of the objects the application creates exist.
pub struct Resources {
    /// The window with its surface and context.
    pub window: bool,
    pub renderer: bool,
    /// The client with its user interface and its render target.
    pub client: bool,
}

impl Resources {
    pub open spec fn none() -> Resources {
        Resources { window: false, renderer: false, client: false }
    }

    /// What exists in each state of the lifecycle: everything while the
    /// application is active, the window and the renderer while the client
    /// shuts down, and nothing before the first resume or after the end.
    pub open spec fn of(state: Lifecycle) -> Resources {
        match state {
            Lifecycle::Uninitialized => Resources::none(),
            Lifecycle::Active => Resources { window: true, renderer: true, client: true },
            Lifecycle::ShuttingDown => Resources { window: true, renderer: true, client: false },
            Lifecycle::Terminated => Resources::none(),
        }
    }

    /// Whether an action can be taken with what exists. Objects are created
    /// in the order window, renderer, client, each only once, and destroyed
    /// in the opposite order; the window can be resized and presented while
    /// it exists; the client is handed events, drawn and shut down only
    /// while all three exist.
    pub open spec fn admits(self, action: LifecycleAction) -> bool {
        match action {
            LifecycleAction::CreateWindow => !self.window && !self.renderer && !self.client,
            LifecycleAction::CreateRenderer => self.window && !self.renderer && !self.client,
            LifecycleAction::CreateClient => self.window && self.renderer && !self.client,
            LifecycleAction::ResizeWindow { .. } => self.window,
            LifecycleAction::Present => self.window,
            LifecycleAction::ForwardToClient => self.window && self.renderer && self.client,
            LifecycleAction::LayOutUi => self.window && self.renderer && self.client,
            LifecycleAction::FitTarget => self.window && self.renderer && self.client,
            LifecycleAction::DrawScene => self.window && self.renderer && self.client,
            LifecycleAction::CompositeUi => self.window && self.renderer && self.client,
            LifecycleAction::ShutdownClient => self.window && self.renderer && self.client,
            LifecycleAction::DestroyRenderer => self.window && self.renderer && !self.client,
            LifecycleAction::DestroyWindow => self.window && !self.renderer && !self.client,
            LifecycleAction::Exit => true,
        }
    }

    /// What exists once an action is taken.
    pub open spec fn after(self, action: LifecycleAction) -> Resources {
        match action {
            LifecycleAction::CreateWindow => Resources { window: true, ..self },
            LifecycleAction::CreateRenderer => Resources { renderer: true, ..self },
            LifecycleAction::CreateClient => Resources { client: true, ..self },
            LifecycleAction::ShutdownClient => Resources { client: false, ..self },
            LifecycleAction::DestroyRenderer => Resources { renderer: false, ..self },
            LifecycleAction::DestroyWindow => Resources { window: false, ..self },
            _ => self,
        }
    }

    /// What exists once the first `count` actions of a list are taken.
    pub open spec fn after_prefix(self, actions: Seq<LifecycleAction>, count: nat) -> Resources
        decreases count,
    {
        if count == 0 {
            self
        } else {
            self.after_prefix(actions, (count - 1) as nat).after(actions[count - 1])
        }
    }

    /// Whether each of the first `count` actions of a list can be taken when
    /// its turn comes.
    pub open spec fn admits_prefix(self, actions: Seq<LifecycleAction>, count: nat) -> bool
        decreases count,
    {
        if count == 0 {
            true
        } else {
            self.admits_prefix(actions, (count - 1) as nat) && self.after_prefix(
                actions,
                (count - 1) as nat,
            ).admits(actions[count - 1])
        }
    }

    /// What exists once all actions of a list are taken.
    pub open spec fn after_all(self, actions: Seq<LifecycleAction>) -> Resources {
        self.after_prefix(actions, actions.len())
    }

    /// Whether each action of a list can be taken when its turn comes.
    pub open spec fn admits_all(self, actions: Seq<LifecycleAction>) -> bool {
        self.admits_prefix(actions, actions.len())
    }

    proof fn lemma_prefix_of_equal_lists(
        self,
        actions: Seq<LifecycleAction>,
        other: Seq<LifecycleAction>,
        count: nat,
    )
        requires
            count <= actions.len(),
            count <= other.len(),
            forall|i: int| 0 <= i < count ==> actions[i] == other[i],
        ensures
            self.after_prefix(actions, count) == self.after_prefix(other, count),
            self.admits_prefix(actions, count) == self.admits_prefix(other, count),
        decreases count,
    {
        if count > 0 {
            self.lemma_prefix_of_equal_lists(actions, other, (count - 1) as nat);
        }
    }

    proof fn lemma_prefix_of_concat(
        self,
        first: Seq<LifecycleAction>,
        second: Seq<LifecycleAction>,
        count: nat,
    )
        requires
            count <= second.len(),
        ensures
            self.after_prefix(first + second, first.len() + count) == self.after_all(
                first,
            ).after_prefix(second, count),
            self.admits_prefix(first + second, first.len() + count) == (self.admits_all(first)
                && self.after_all(first).admits_prefix(second, count)),
        decreases count,
    {
        if count == 0 {
            self.lemma_prefix_of_equal_lists(first + second, first, first.len());
        } else {
            self.lemma_prefix_of_concat(first, second, (count - 1) as nat);
            assert((first + second)[first.len() + count - 1] == second[count - 1]);
        }
    }

    /// Taking two lists of actions one after the other is taking their
    /// concatenation.
    pub proof fn lemma_concat(self, first: Seq<LifecycleAction>, second: Seq<LifecycleAction>)
        ensures
            self.after_all(first + second) == self.after_all(first).after_all(second),
            self.admits_all(first + second) == (self.admits_all(first) && self.after_all(
                first,
            ).admits_all(second)),
    {
        self.lemma_prefix_of_concat(first, second, second.len());
        assert((first + second).len() == first.len() + second.len());
    }
}

impl Lifecycle {
    /// Every action one input calls for can be taken with what exists in the
    /// state the input arrives in, and leaves what exists in the state the
    /// input leads to.
    pub proof fn lemma_input_fits_resources(self, input: Input)
        ensures
            Resources::of(self).admits_all(self.on_input(input).actions),
            Resources::of(self).after_all(self.on_input(input).actions) == Resources::of(
                self.on_input(input).state,
            ),
    {
        reveal_with_fuel(Resources::after_prefix, 7);
        reveal_with_fuel(Resources::admits_prefix, 7);
    }

    /// The whole lifecycle keeps to the order of creation and teardown: over
    /// any run of inputs from the start, every action can be taken when its
    /// turn comes. So the renderer is never created without the window nor
    /// the client without both, nothing is created twice, no frame is drawn
    /// and no event handed on without all three, the client is shut down
    /// while the context still exists, and the window goes last. When the
    /// run is over, exactly what belongs to the state it ends in exists.
    pub proof fn lemma_run_fits_resources(inputs: Seq<Input>)
        ensures
            Resources::none().admits_all(Lifecycle::Uninitialized.run(inputs).actions),
            Resources::none().after_all(Lifecycle::Uninitialized.run(inputs).actions)
                == Resources::of(Lifecycle::Uninitialized.run(inputs).state),
        decreases inputs.len(),
    {
        let start = Lifecycle::Uninitialized;
        if inputs.len() > 0 {
            let before = start.run(inputs.drop_last());
            let last = before.state.on_input(inputs.last());
            Self::lemma_run_fits_resources(inputs.drop_last());
            before.state.lemma_input_fits_resources(inputs.last());
            Resources::none().lemma_concat(before.actions, last.actions);
        }
    }
}

/// The lifecycle of one application.
#[derive(Debug, PartialEq, Eq)]
pub struct Application {
    state: Lifecycle,
}

impl View for Application {
    type V = Lifecycle;

    closed spec fn view(&self) -> Lifecycle {
        self.state
    }
}

impl Application {
    /// An application of which nothing exists yet.
    pub fn new() -> (application: Application)
        ensures
            application@ == Lifecycle::Uninitialized,
    {
        Application { state: Lifecycle::Uninitialized }
    }

    pub fn state(&self) -> (state: Lifecycle)
        ensures
            state == self@,
    {
        self.state
    }

    /// Takes one event of the platform and returns what is to be done for it.
    ///
    /// The first `Resumed` creates the window, then the renderer, then the
    /// client; a later one creates nothing. While the application is active, a
    /// new size or scale factor resizes the window at once and goes on to the
    /// client; a redraw goes to the client first, then the user interface is
    /// laid out, the render target fitted, the scene drawn, the user
    /// interface composited and the frame presented; a close request starts
    /// the shutdown with the client's hook; every other event goes to the
    /// client. Outside the active state
    /// only `Resumed` and a close request before the first `Resumed` have any
    /// effect.
    pub fn handle_event(&mut self, event: PlatformEvent) -> (actions: Vec<LifecycleAction>)
        ensures
            final(self)@ == old(self)@.on_event(event).state,
            actions@ == old(self)@.on_event(event).actions,
    {
        let mut actions: Vec<LifecycleAction> = Vec::new();
        match self.state {
            Lifecycle::Uninitialized => match event {
                PlatformEvent::Resumed => {
                    self.state = Lifecycle::Active;
                    actions.push(LifecycleAction::CreateWindow);
                    actions.push(LifecycleAction::CreateRenderer);
                    actions.push(LifecycleAction::CreateClient);
                },
                PlatformEvent::CloseRequested => {
                    self.state = Lifecycle::Terminated;
                    actions.push(LifecycleAction::Exit);
                },
                _ => {},
            },
            Lifecycle::Active => match event {
                PlatformEvent::Resumed => {},
                PlatformEvent::CloseRequested => {
                    self.state = Lifecycle::ShuttingDown;
                    actions.push(LifecycleAction::ShutdownClient);
                },
                PlatformEvent::Resized { size } => {
                    actions.push(LifecycleAction::ResizeWindow { size });
                    actions.push(LifecycleAction::ForwardToClient);
                },
                PlatformEvent::ScaleFactorChanged { inner_size } => {
                    actions.push(LifecycleAction::ResizeWindow { size: inner_size });
                    actions.push(LifecycleAction::ForwardToClient);
                },
                PlatformEvent::RedrawRequested => {
                    actions.push(LifecycleAction::ForwardToClient);
                    actions.push(LifecycleAction::LayOutUi);
                    actions.push(LifecycleAction::FitTarget);
                    actions.push(LifecycleAction::DrawScene);
                    actions.push(LifecycleAction::CompositeUi);
                    actions.push(LifecycleAction::Present);
                },
                PlatformEvent::Other => {
                    actions.push(LifecycleAction::ForwardToClient);
                },
            },
            _ => {},
        }
        assert(actions@ =~= old(self)@.on_event(event).actions);
        actions
    }

    /// Takes the word that the client's shutdown hook has returned. During a
    /// shutdown this ends the lifecycle and returns the teardown of the
    /// renderer and of the window, in that order, and the request to stop the
    /// event pump. At any other time nothing happens.
    pub fn finish_shutdown(&mut self) -> (actions: Vec<LifecycleAction>)
        ensures
            final(self)@ == old(self)@.on_client_shut_down().state,
            actions@ == old(self)@.on_client_shut_down().actions,
    {
        let mut actions: Vec<LifecycleAction> = Vec::new();
        match self.state {
            Lifecycle::ShuttingDown => {
                self.state = Lifecycle::Terminated;
                actions.push(LifecycleAction::DestroyRenderer);
                actions.push(LifecycleAction::DestroyWindow);
                actions.push(LifecycleAction::Exit);
            },
            _ => {},
        }
        assert(actions@ =~= old(self)@.on_client_shut_down().actions);
        actions
    }
}

} // verus!
