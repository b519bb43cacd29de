//! The home page: the list of notes, loaded when the page opens.
//!
//! The page is a state machine. `create` and `update` return, besides the
//! new state, the effects that the page asks of its host, in the order in
//! which the host performs them.
use vstd::prelude::*;
use crate::jasper_ji::fetch_error::FetchError;
pub use crate::jasper_ji::fetch_state::FetchState;
use crate::jasper_ji::fetch_state::spec_from_result;
use crate::jasper_ji::note::Note;
use crate::jasper_ji::route::Route;

verus! {

pub enum Msg {
    /// The edit button of the note with this id was pressed.
    SetEdit(u32),
    /// The load of the notes reached this state.
    SetTodoFetchState(FetchState<Vec<Note>>),
    /// Load the notes again.
    GetTodo,
    /// The second load button; it loads the notes again as well.
    GetError,
}

/// What the page asks of its host.
pub enum Effect {
    /// Load every stored note, then deliver `Msg::loaded` of the outcome.
    FetchNotes,
    /// Deliver this message to the page.
    Send(Msg),
    /// Go to this page.
    Navigate(Route),
    /// Write this number to the console.
    Log(u32),
}

pub struct Home {
    todo: FetchState<Vec<Note>>,
}

impl View for Home {
    type V = FetchState<Vec<Note>>;

    /// Where the page stands in loading the notes.
    closed spec fn view(&self) -> FetchState<Vec<Note>> {
        self.todo
    }
}

/// What a (re)load of the notes asks for: start the load, and meanwhile show
/// the page as loading.
pub open spec fn load_effects() -> Seq<Effect> {
    seq![Effect::FetchNotes, Effect::Send(Msg::SetTodoFetchState(FetchState::Fetching))]
}

/// The message that the outcome of a load of the notes is delivered as.
pub open spec fn loaded_msg(r: Result<Vec<Note>, FetchError>) -> Msg {
    Msg::SetTodoFetchState(spec_from_result(r))
}

/// The state after a message: only a load state changes it.
pub open spec fn next_state(state: FetchState<Vec<Note>>, msg: Msg) -> FetchState<Vec<Note>> {
    match msg {
        Msg::SetTodoFetchState(s) => s,
        _ => state,
    }
}

/// Whether the page is drawn again after a message.
pub open spec fn renders(msg: Msg) -> bool {
    msg is SetTodoFetchState
}

/// The effects that a message asks for.
pub open spec fn effects_of(msg: Msg) -> Seq<Effect> {
    match msg {
        Msg::SetEdit(id) => seq![Effect::Log(id), Effect::Navigate(Route::Edit { id })],
        Msg::SetTodoFetchState(_) => Seq::empty(),
        Msg::GetTodo => load_effects(),
        Msg::GetError => load_effects(),
    }
}

fn load_effect_list() -> (r: Vec<Effect>)
    ensures
        r@ == load_effects(),
{
    let mut v: Vec<Effect> = Vec::new();
    v.push(Effect::FetchNotes);
    v.push(Effect::Send(Msg::SetTodoFetchState(FetchState::Fetching)));
    v
}

impl Msg {
    /// The message that the outcome of a load of the notes is delivered as.
    pub fn loaded(r: Result<Vec<Note>, FetchError>) -> (m: Msg)
        ensures
            m == loaded_msg(r),
    {
        Msg::SetTodoFetchState(FetchState::from_result(r))
    }
}

impl Home {
    /// The page as it opens: nothing loaded yet, and a load under way.
    pub fn create() -> (r: (Home, Vec<Effect>))
        ensures
            r.0@ == FetchState::<Vec<Note>>::NotFetching,
            r.1@ == load_effects(),
    {
        let home = Home { todo: FetchState::NotFetching };
        let effects = home.send_get_todo_msg();
        (home, effects)
    }

    /// The effects that start a load of the notes.
    pub fn send_get_todo_msg(&self) -> (r: Vec<Effect>)
        ensures
            r@ == load_effects(),
    {
        load_effect_list()
    }

    /// Takes a message: returns whether to draw the page again and the
    /// effects to perform.
    pub fn update(&mut self, msg: Msg) -> (r: (bool, Vec<Effect>))
        ensures
            final(self)@ == next_state(old(self)@, msg),
            r.0 == renders(msg),
            r.1@ == effects_of(msg),
    {
        match msg {
            Msg::SetTodoFetchState(fetch_state) => {
                self.todo = fetch_state;
                (true, Vec::new())
            },
            Msg::GetTodo => (false, load_effect_list()),
            Msg::GetError => (false, load_effect_list()),
            Msg::SetEdit(id) => {
                let mut v: Vec<Effect> = Vec::new();
                v.push(Effect::Log(id));
                v.push(Effect::Navigate(Route::Edit { id }));
                (false, v)
            },
        }
    }

    /// Where the page stands in loading the notes.
    pub fn todo(&self) -> (r: &FetchState<Vec<Note>>)
        ensures
            *r == self@,
    {
        &self.todo
    }
}

/// A load shows the page as loading until it ends, then shows what it
/// brought: the notes, or the error; both steps draw the page again.
pub proof fn lemma_load_cycle(state: FetchState<Vec<Note>>, outcome: Result<Vec<Note>, FetchError>)
    ensures
        load_effects()[0] is FetchNotes,
        load_effects()[1] matches Effect::Send(m) && renders(m) && next_state(state, m)
            == FetchState::<Vec<Note>>::Fetching,
        renders(loaded_msg(outcome)),
        next_state(FetchState::Fetching, loaded_msg(outcome)) == spec_from_result(outcome),
{
}

/// Both load buttons do the same: they leave the state as it is, draw
/// nothing, and start a load.
pub proof fn lemma_get_error_same_as_get_todo(state: FetchState<Vec<Note>>)
    ensures
        next_state(state, Msg::GetError) == state,
        next_state(state, Msg::GetTodo) == state,
        renders(Msg::GetError) == renders(Msg::GetTodo),
        effects_of(Msg::GetError) == effects_of(Msg::GetTodo),
        !renders(Msg::GetTodo),
{
}

/// The edit button of a note writes the note's id to the console, then leads
/// to that note's edit page; it changes nothing on this one.
pub proof fn lemma_edit_button(state: FetchState<Vec<Note>>, id: u32)
    ensures
        next_state(state, Msg::SetEdit(id)) == state,
        !renders(Msg::SetEdit(id)),
        effects_of(Msg::SetEdit(id)) == seq![Effect::Log(id), Effect::Navigate(Route::Edit { id })],
{
}

/// A load state only settles the page: it is what the page shows next, the
/// page is drawn again, and nothing more is asked; in particular a finished
/// load shows the notes it brought, or its error, and starts no other load.
pub proof fn lemma_load_state_settles(
    state: FetchState<Vec<Note>>,
    s: FetchState<Vec<Note>>,
    notes: Vec<Note>,
    err: FetchError,
)
    ensures
        next_state(state, Msg::SetTodoFetchState(s)) == s,
        renders(Msg::SetTodoFetchState(s)),
        effects_of(Msg::SetTodoFetchState(s)).len() == 0,
        next_state(state, loaded_msg(Ok(notes))) == FetchState::Success(notes),
        next_state(state, loaded_msg(Err(err))) == FetchState::<Vec<Note>>::Failed(err),
        effects_of(loaded_msg(Ok(notes))).len() == 0,
        effects_of(loaded_msg(Err(err))).len() == 0,
{
}

/// What the page asks for when it opens and when a load button is pressed:
/// first the load of the notes, then the loading state for the page itself,
/// which in turn asks for nothing.
pub proof fn lemma_load_request(state: FetchState<Vec<Note>>)
    ensures
        load_effects() == seq![
            Effect::FetchNotes,
            Effect::Send(Msg::SetTodoFetchState(FetchState::Fetching)),
        ],
        effects_of(Msg::GetTodo) == seq![
            Effect::FetchNotes,
            Effect::Send(Msg::SetTodoFetchState(FetchState::Fetching)),
        ],
        effects_of(Msg::SetTodoFetchState(FetchState::Fetching)).len() == 0,
        next_state(state, Msg::SetTodoFetchState(FetchState::Fetching))
            == FetchState::<Vec<Note>>::Fetching,
{
}

} // verus!
