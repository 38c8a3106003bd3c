//! The application's state stack: menus, games and the pause screen above them.
use vstd::prelude::*;

verus! {

/// A state of the application.
#[derive(Clone, Copy, Debug, PartialEq, Eq, Structural)]
pub enum AppState {
    MainMenu,
    PauseMenu,
    InOnePlayerGame,
    InTwoPlayerGame,
}

/// What a state change asks of the scenes, in the order it happens.
#[derive(Clone, Copy, Debug, PartialEq, Eq, Structural)]
pub enum StateEvent {
    /// The state is left for good: its scene is torn down.
    Exit(AppState),
    /// The state is entered: its scene is set up.
    Enter(AppState),
    /// Another state was pushed above this one; its scene stays.
    Pause(AppState),
    /// The state above this one was popped; it is current again.
    Resume(AppState),
}

/// Why a state change was refused.
#[derive(Clone, Copy, Debug, PartialEq, Eq, Structural)]
pub enum StateError {
    /// The requested state is the current one.
    AlreadyInState,
    /// Popping would leave no state.
    StackEmpty,
}

/// The stack of states; the last one is current. It is never empty.
#[derive(Clone, Debug)]
pub struct StateStack {
    states: Vec<AppState>,
}

/// The events of `Exit` for each state of `s`, from the top down.
pub open spec fn exits_top_down(s: Seq<AppState>) -> Seq<StateEvent>
    decreases s.len(),
{
    if s.len() == 0 {
        Seq::empty()
    } else {
        seq![StateEvent::Exit(s.last())] + exits_top_down(s.drop_last())
    }
}

/// A change of the state stack.
#[derive(Clone, Copy, Debug, PartialEq, Eq, Structural)]
pub enum StackOp {
    /// Replace the current state.
    Switch(AppState),
    /// Put a state above the current one.
    Push(AppState),
    /// Remove the current state.
    Pop,
    /// Replace the whole stack with one state.
    Replace(AppState),
}

/// The stack after `op` and the scene events it causes, or why it is refused.
pub open spec fn transition(st: Seq<AppState>, op: StackOp) -> Result<
    (Seq<AppState>, Seq<StateEvent>),
    StateError,
> {
    match op {
        StackOp::Switch(s) => if s == st.last() {
            Err(StateError::AlreadyInState)
        } else {
            Ok((st.drop_last().push(s), seq![StateEvent::Exit(st.last()), StateEvent::Enter(s)]))
        },
        StackOp::Push(s) => if s == st.last() {
            Err(StateError::AlreadyInState)
        } else {
            Ok((st.push(s), seq![StateEvent::Pause(st.last()), StateEvent::Enter(s)]))
        },
        StackOp::Pop => if st.len() < 2 {
            Err(StateError::StackEmpty)
        } else {
            Ok(
                (
                    st.drop_last(),
                    seq![StateEvent::Exit(st.last()), StateEvent::Resume(st.drop_last().last())],
                ),
            )
        },
        StackOp::Replace(s) => if s == st.last() {
            Err(StateError::AlreadyInState)
        } else {
            Ok((seq![s], exits_top_down(st).push(StateEvent::Enter(s))))
        },
    }
}

/// `after` and `r` are what `op` makes of the stack `before`: on success the
/// new stack and its events, on refusal the old stack and the error.
pub open spec fn applied(
    before: Seq<AppState>,
    after: Seq<AppState>,
    op: StackOp,
    r: Result<Vec<StateEvent>, StateError>,
) -> bool {
    match transition(before, op) {
        Ok((st, ev)) => after == st && match r {
            Ok(v) => v@ == ev,
            Err(_) => false,
        },
        Err(e) => after == before && r == Err::<Vec<StateEvent>, StateError>(e),
    }
}

/// The stack operation that the pause keys ask for in state `s`: in a game,
/// either key pushes the pause screen; elsewhere they do nothing.
pub open spec fn pause_op(s: AppState, p: bool, escape: bool) -> Option<StackOp> {
    if (p || escape) && (s == AppState::InOnePlayerGame || s == AppState::InTwoPlayerGame) {
        Some(StackOp::Push(AppState::PauseMenu))
    } else {
        None
    }
}

/// What the pause keys (P and Escape) held this frame ask of the stack in
/// the current state `s`.
pub fn pause_request(s: AppState, p: bool, escape: bool) -> (r: Option<StackOp>)
    ensures
        r == pause_op(s, p, escape),
{
    if (p || escape) && (s == AppState::InOnePlayerGame || s == AppState::InTwoPlayerGame) {
        Some(StackOp::Push(AppState::PauseMenu))
    } else {
        None
    }
}

impl View for StateStack {
    type V = Seq<AppState>;

    closed spec fn view(&self) -> Seq<AppState> {
        self.states@
    }
}

impl StateStack {
    pub open spec fn wf(&self) -> bool {
        self@.len() >= 1
    }

    /// The current state.
    pub open spec fn top(&self) -> AppState {
        self@.last()
    }

    /// A stack holding `initial` alone.
    pub fn new(initial: AppState) -> (r: StateStack)
        ensures
            r.wf(),
            r@ == seq![initial],
    {
        let r = StateStack { states: vec![initial] };
        assert(r@ =~= seq![initial]);
        r
    }

    /// The current state.
    pub fn current(&self) -> (r: AppState)
        requires
            self.wf(),
        ensures
            r == self.top(),
    {
        self.states[self.states.len() - 1]
    }

    /// The number of states on the stack.
    pub fn depth(&self) -> (r: usize)
        ensures
            r == self@.len(),
    {
        self.states.len()
    }

    /// Applies one stack operation and returns the scene events it causes;
    /// a refused operation leaves the stack as it was.
    pub fn apply(&mut self, op: StackOp) -> (r: Result<Vec<StateEvent>, StateError>)
        requires
            old(self).wf(),
        ensures
            final(self).wf(),
            applied(old(self)@, final(self)@, op, r),
    {
        match op {
            StackOp::Switch(s) => self.set(s),
            StackOp::Push(s) => self.push(s),
            StackOp::Pop => self.pop(),
            StackOp::Replace(s) => self.replace(s),
        }
    }

    /// Replaces the current state with `s`: the current one is exited and
    /// `s` entered; the states beneath stay.
    pub fn set(&mut self, s: AppState) -> (r: Result<Vec<StateEvent>, StateError>)
        requires
            old(self).wf(),
        ensures
            final(self).wf(),
            applied(old(self)@, final(self)@, StackOp::Switch(s), r),
    {
        let top = self.current();
        if top == s {
            return Err(StateError::AlreadyInState);
        }
        let n = self.states.len();
        self.states.set(n - 1, s);
        assert(self@ =~= old(self)@.drop_last().push(s));
        let ev = vec![StateEvent::Exit(top), StateEvent::Enter(s)];
        assert(ev@ =~= seq![StateEvent::Exit(top), StateEvent::Enter(s)]);
        Ok(ev)
    }

    /// Puts `s` above the current state, which is paused, not exited.
    pub fn push(&mut self, s: AppState) -> (r: Result<Vec<StateEvent>, StateError>)
        requires
            old(self).wf(),
        ensures
            final(self).wf(),
            applied(old(self)@, final(self)@, StackOp::Push(s), r),
    {
        let top = self.current();
        if top == s {
            return Err(StateError::AlreadyInState);
        }
        self.states.push(s);
        let ev = vec![StateEvent::Pause(top), StateEvent::Enter(s)];
        assert(ev@ =~= seq![StateEvent::Pause(top), StateEvent::Enter(s)]);
        Ok(ev)
    }

    /// Removes the current state, which is exited; the one beneath resumes.
    pub fn pop(&mut self) -> (r: Result<Vec<StateEvent>, StateError>)
        requires
            old(self).wf(),
        ensures
            final(self).wf(),
            applied(old(self)@, final(self)@, StackOp::Pop, r),
    {
        if self.states.len() < 2 {
            return Err(StateError::StackEmpty);
        }
        let top = self.states.pop().unwrap();
        let below = self.current();
        assert(self@ =~= old(self)@.drop_last());
        let ev = vec![StateEvent::Exit(top), StateEvent::Resume(below)];
        assert(ev@ =~= seq![StateEvent::Exit(top), StateEvent::Resume(below)]);
        Ok(ev)
    }

    /// Replaces the whole stack with `s`: every state is exited, from the top
    /// down, and `s` entered.
    pub fn replace(&mut self, s: AppState) -> (r: Result<Vec<StateEvent>, StateError>)
        requires
            old(self).wf(),
        ensures
            final(self).wf(),
            applied(old(self)@, final(self)@, StackOp::Replace(s), r),
    {
        let top = self.current();
        if top == s {
            return Err(StateError::AlreadyInState);
        }
        let mut ev: Vec<StateEvent> = Vec::new();
        while self.states.len() > 0
            invariant
                exits_top_down(old(self)@) == ev@ + exits_top_down(self@),
            decreases self@.len(),
        {
            let t = self.states.pop().unwrap();
            ev.push(StateEvent::Exit(t));
            proof {
                assert(ev@ + exits_top_down(self@) =~= ev@.drop_last() + (seq![StateEvent::Exit(t)]
                    + exits_top_down(self@)));
            }
        }
        proof {
            assert(ev@ =~= exits_top_down(old(self)@));
        }
        ev.push(StateEvent::Enter(s));
        self.states.push(s);
        assert(self@ =~= seq![s]);
        Ok(ev)
    }
}

/// Pushing the pause screen and popping it again gives back the same stack;
/// the pop exits the pause screen and resumes the state beneath, which is
/// not entered again.
pub proof fn lemma_pause_resume_round_trip(st: Seq<AppState>)
    requires
        st.len() >= 1,
        st.last() != AppState::PauseMenu,
    ensures
        transition(st, StackOp::Push(AppState::PauseMenu)) == Ok::<
            (Seq<AppState>, Seq<StateEvent>),
            StateError,
        >((st.push(AppState::PauseMenu), seq![StateEvent::Pause(st.last()), StateEvent::Enter(AppState::PauseMenu)])),
        transition(st.push(AppState::PauseMenu), StackOp::Pop) == Ok::<
            (Seq<AppState>, Seq<StateEvent>),
            StateError,
        >((st, seq![StateEvent::Exit(AppState::PauseMenu), StateEvent::Resume(st.last())])),
        !seq![StateEvent::Exit(AppState::PauseMenu), StateEvent::Resume(st.last())].contains(
            StateEvent::Enter(st.last()),
        ),
{
    assert(st.push(AppState::PauseMenu).drop_last() =~= st);
    let ev = seq![StateEvent::Exit(AppState::PauseMenu), StateEvent::Resume(st.last())];
    assert forall|i: int| 0 <= i < ev.len() implies ev[i] != StateEvent::Enter(st.last()) by {}
}

} // verus!
