//! The lifecycle sequencer: a one-shot state machine that, when the display
//! surface becomes ready, hands out the actions the host must perform on it.
use vstd::prelude::*;
use crate::args::{option_string_view, resolve_document_path, document_path_of, strings_view};

verus! {

/// The name of the event that carries the startup document path.
pub const FILE_PATH_EVENT: &'static str = "file_path";

/// Whether the display surface can receive events yet.
#[derive(Clone, Copy, Debug, PartialEq, Eq, Structural)]
pub enum Readiness {
    NotReady,
    Ready,
}

/// One step that the host performs on the display surface. Every step but the
/// event is best effort: the host ignores its failure.
#[derive(Debug)]
pub enum Action {
    /// Push the document path to the surface as the file-path event.
    EmitFilePath(String),
    /// Apply the platform's translucent material, where there is one.
    ApplyMaterialEffect,
    Minimize,
    Unminimize,
    Maximize,
    Unmaximize,
    Show,
    SetFocus,
}

/// The mathematical form of an [`Action`].
pub enum ActionSpec {
    EmitFilePath(Seq<char>),
    ApplyMaterialEffect,
    Minimize,
    Unminimize,
    Maximize,
    Unmaximize,
    Show,
    SetFocus,
}

impl View for Action {
    type V = ActionSpec;

    open spec fn view(&self) -> ActionSpec {
        match self {
            Action::EmitFilePath(p) => ActionSpec::EmitFilePath(p@),
            Action::ApplyMaterialEffect => ActionSpec::ApplyMaterialEffect,
            Action::Minimize => ActionSpec::Minimize,
            Action::Unminimize => ActionSpec::Unminimize,
            Action::Maximize => ActionSpec::Maximize,
            Action::Unmaximize => ActionSpec::Unmaximize,
            Action::Show => ActionSpec::Show,
            Action::SetFocus => ActionSpec::SetFocus,
        }
    }
}

/// The views of a sequence of actions.
pub open spec fn actions_view(s: Seq<Action>) -> Seq<ActionSpec> {
    s.map_values(|a: Action| a@)
}

/// The material effect, then the state cycle that makes a new window take
/// focus and paint: minimize, unminimize, maximize, unmaximize, show, focus.
pub open spec fn corrective_sequence() -> Seq<ActionSpec> {
    seq![
        ActionSpec::ApplyMaterialEffect,
        ActionSpec::Minimize,
        ActionSpec::Unminimize,
        ActionSpec::Maximize,
        ActionSpec::Unmaximize,
        ActionSpec::Show,
        ActionSpec::SetFocus,
    ]
}

/// What the surface's becoming ready sets off: the file-path event when a
/// startup path is known, then the corrective sequence.
pub open spec fn ready_actions(path: Option<Seq<char>>) -> Seq<ActionSpec> {
    match path {
        Some(p) => seq![ActionSpec::EmitFilePath(p)] + corrective_sequence(),
        None => corrective_sequence(),
    }
}

/// The actions of one readiness signal received in state `state`: those of
/// [`ready_actions`] the first time, none after.
pub open spec fn step_actions(state: Readiness, path: Option<Seq<char>>) -> Seq<ActionSpec> {
    match state {
        Readiness::NotReady => ready_actions(path),
        Readiness::Ready => Seq::empty(),
    }
}

/// All actions handed out by `n` readiness signals, starting in `state`.
pub open spec fn trace(state: Readiness, path: Option<Seq<char>>, n: nat) -> Seq<ActionSpec>
    decreases n,
{
    if n == 0 {
        Seq::empty()
    } else {
        step_actions(state, path) + trace(Readiness::Ready, path, (n - 1) as nat)
    }
}

/// How many file-path events a sequence of actions holds.
pub open spec fn emit_count(s: Seq<ActionSpec>) -> nat
    decreases s.len(),
{
    if s.len() == 0 {
        0
    } else {
        emit_count(s.drop_last()) + if s.last() is EmitFilePath {
            1nat
        } else {
            0nat
        }
    }
}

/// Counting file-path events distributes over concatenation.
pub proof fn lemma_emit_count_concat(a: Seq<ActionSpec>, b: Seq<ActionSpec>)
    ensures
        emit_count(a + b) == emit_count(a) + emit_count(b),
    decreases b.len(),
{
    if b.len() == 0 {
        assert(a + b =~= a);
    } else {
        lemma_emit_count_concat(a, b.drop_last());
        assert((a + b).drop_last() =~= a + b.drop_last());
        assert((a + b).last() == b.last());
    }
}

/// The corrective sequence holds no file-path event.
proof fn lemma_corrective_sequence_silent()
    ensures
        emit_count(corrective_sequence()) == 0,
{
    reveal_with_fuel(emit_count, 8);
    let s = corrective_sequence();
    assert(s.drop_last().drop_last().drop_last().drop_last().drop_last().drop_last().drop_last()
        =~= Seq::<ActionSpec>::empty());
}

/// Once ready, further readiness signals hand out nothing.
proof fn lemma_ready_trace_empty(path: Option<Seq<char>>, n: nat)
    ensures
        trace(Readiness::Ready, path, n) == Seq::<ActionSpec>::empty(),
    decreases n,
{
    if n > 0 {
        lemma_ready_trace_empty(path, (n - 1) as nat);
        assert(trace(Readiness::Ready, path, n) =~= Seq::<ActionSpec>::empty());
    }
}

/// The file-path event reaches the display surface exactly once when a
/// startup path is known, and never otherwise; it is sent by the first
/// readiness signal and carries that path, and nothing at all is sent before
/// that signal.
pub proof fn lemma_file_path_event_once(path: Option<Seq<char>>, n: nat)
    ensures
        emit_count(trace(Readiness::NotReady, path, n)) == (if n > 0 && path is Some {
            1nat
        } else {
            0nat
        }),
        n == 0 ==> trace(Readiness::NotReady, path, n).len() == 0,
        n > 0 ==> trace(Readiness::NotReady, path, n) == ready_actions(path),
        n > 0 && path is Some ==> trace(Readiness::NotReady, path, n)[0] == ActionSpec::EmitFilePath(
            path->0,
        ),
{
    if n > 0 {
        lemma_ready_trace_empty(path, (n - 1) as nat);
        let t = trace(Readiness::NotReady, path, n);
        assert(t =~= ready_actions(path));
        lemma_corrective_sequence_silent();
        if let Some(p) = path {
            let head = seq![ActionSpec::EmitFilePath(p)];
            lemma_emit_count_concat(head, corrective_sequence());
            assert(head.drop_last() =~= Seq::<ActionSpec>::empty());
            assert(emit_count(Seq::<ActionSpec>::empty()) == 0);
            assert(emit_count(head) == 1);
        }
    }
}

/// The sequencer: the readiness state and the document path resolved at
/// startup, which never changes.
pub struct Sequencer {
    state: Readiness,
    startup_path: Option<String>,
}

impl Sequencer {
    /// The current readiness state.
    pub closed spec fn state_spec(&self) -> Readiness {
        self.state
    }

    /// The document path resolved at startup.
    pub closed spec fn path_spec(&self) -> Option<Seq<char>> {
        option_string_view(self.startup_path)
    }

    /// A sequencer that waits for readiness and will announce `startup_path`.
    pub fn new(startup_path: Option<String>) -> (s: Sequencer)
        ensures
            s.state_spec() == Readiness::NotReady,
            s.path_spec() == option_string_view(startup_path),
    {
        Sequencer { state: Readiness::NotReady, startup_path }
    }

    /// A sequencer for the process started with the arguments `args`.
    pub fn from_args(args: &Vec<String>) -> (s: Sequencer)
        ensures
            s.state_spec() == Readiness::NotReady,
            s.path_spec() == document_path_of(strings_view(args@)),
    {
        Sequencer::new(resolve_document_path(args))
    }

    /// Whether readiness has been signalled.
    pub fn is_ready(&self) -> (r: bool)
        ensures
            r == (self.state_spec() == Readiness::Ready),
    {
        match self.state {
            Readiness::Ready => true,
            Readiness::NotReady => false,
        }
    }

    /// The startup document path, if one was given.
    pub fn startup_path(&self) -> (r: Option<String>)
        ensures
            option_string_view(r) == self.path_spec(),
    {
        match &self.startup_path {
            Some(p) => Some(p.clone()),
            None => None,
        }
    }

    /// Signals that the display surface is ready, and returns the actions to
    /// perform in order. Only the first signal returns any.
    pub fn on_ready(&mut self) -> (r: Vec<Action>)
        ensures
            final(self).state_spec() == Readiness::Ready,
            final(self).path_spec() == old(self).path_spec(),
            actions_view(r@) == step_actions(old(self).state_spec(), old(self).path_spec()),
    {
        let mut actions: Vec<Action> = Vec::new();
        if let Readiness::NotReady = self.state {
            if let Some(p) = &self.startup_path {
                actions.push(Action::EmitFilePath(p.clone()));
            }
            actions.push(Action::ApplyMaterialEffect);
            actions.push(Action::Minimize);
            actions.push(Action::Unminimize);
            actions.push(Action::Maximize);
            actions.push(Action::Unmaximize);
            actions.push(Action::Show);
            actions.push(Action::SetFocus);
            self.state = Readiness::Ready;
        }
        proof {
            assert(actions_view(actions@) =~= step_actions(old(self).state_spec(), old(self).path_spec()));
        }
        actions
    }
}

} // verus!
