//! The edit page of one note: loads the note when the page opens.
//!
//! Like the home page, the page is a state machine whose steps return the
//! effects that the page asks of its host, in order.
use vstd::prelude::*;
use crate::jasper_ji::fetch_error::FetchError;
pub use crate::jasper_ji::fetch_state::FetchState;
use crate::jasper_ji::fetch_state::spec_from_result;
use crate::jasper_ji::note::Note;

verus! {

/// What the page is opened with: the id of the note to edit.
#[derive(PartialEq, Eq, Structural, Debug, Clone, Copy)]
pub struct Props {
    pub id: u32,
}

pub enum Msg {
    /// The load of the note reached this state.
    SetTodoFetchState(FetchState<Note>),
    /// Load the note again.
    GetTodo,
}

/// What the page asks of its host.
pub enum Effect {
    /// Load the note with this id, then deliver `Msg::loaded` of the outcome.
    FetchNote(u32),
    /// Deliver this message to the page.
    Send(Msg),
    /// Write this number to the console.
    Log(u32),
}

pub struct Edit {
    id: u32,
    note: FetchState<Note>,
}

impl View for Edit {
    type V = (u32, FetchState<Note>);

    /// The id of the note the page edits, and where the page stands in
    /// loading it.
    closed spec fn view(&self) -> (u32, FetchState<Note>) {
        (self.id, self.note)
    }
}

/// What a (re)load of note `id` asks for: start the load, and meanwhile
/// show the page as loading.
pub open spec fn load_effects(id: u32) -> Seq<Effect> {
    seq![Effect::FetchNote(id), Effect::Send(Msg::SetTodoFetchState(FetchState::Fetching))]
}

/// What opening the page on note `id` asks for: write the id to the
/// console, then load the note.
pub open spec fn open_effects(id: u32) -> Seq<Effect> {
    seq![Effect::Log(id)] + load_effects(id)
}

/// The message that the outcome of a load of the note is delivered as.
pub open spec fn loaded_msg(r: Result<Note, FetchError>) -> Msg {
    Msg::SetTodoFetchState(spec_from_result(r))
}

/// The state after a message: only a load state changes it; the id never
/// changes.
pub open spec fn next_state(state: (u32, FetchState<Note>), msg: Msg) -> (u32, FetchState<Note>) {
    match msg {
        Msg::SetTodoFetchState(s) => (state.0, s),
        Msg::GetTodo => state,
    }
}

/// Whether the page is drawn again after a message.
pub open spec fn renders(msg: Msg) -> bool {
    msg is SetTodoFetchState
}

/// The effects that a message asks for, on the page of note `id`.
pub open spec fn effects_of(id: u32, msg: Msg) -> Seq<Effect> {
    match msg {
        Msg::SetTodoFetchState(_) => Seq::empty(),
        Msg::GetTodo => load_effects(id),
    }
}

fn load_effect_list(id: u32) -> (r: Vec<Effect>)
    ensures
        r@ == load_effects(id),
{
    let mut v: Vec<Effect> = Vec::new();
    v.push(Effect::FetchNote(id));
    v.push(Effect::Send(Msg::SetTodoFetchState(FetchState::Fetching)));
    v
}

impl Msg {
    /// What opening the page on note `id` asks for: write the id to the
/// console, then load the note.
pub open spec fn open_effects(id: u32) -> Seq<Effect> {
    seq![Effect::Log(id)] + load_effects(id)
}

/// The message that the outcome of a load of the note is delivered as.
    pub fn loaded(r: Result<Note, FetchError>) -> (m: Msg)
        ensures
            m == loaded_msg(r),
    {
        Msg::SetTodoFetchState(FetchState::from_result(r))
    }
}

impl Edit {
    /// The page as it opens on note `props.id`: nothing loaded yet, the id
    /// written to the console, and a load of that note under way.
    pub fn create(props: &Props) -> (r: (Edit, Vec<Effect>))
        ensures
            r.0@ == (props.id, FetchState::<Note>::NotFetching),
            r.1@ == open_effects(props.id),
    {
        let id = props.id;
        let page = Edit { note: FetchState::NotFetching, id };
        let mut effects: Vec<Effect> = Vec::new();
        effects.push(Effect::Log(id));
        let mut load = load_effect_list(id);
        effects.append(&mut load);
        assert(effects@ =~= open_effects(id));
        (page, effects)
    }

    /// Takes a message: returns whether to draw the page again and the
    /// effects to perform.
    pub fn update(&mut self, msg: Msg) -> (r: (bool, Vec<Effect>))
        ensures
            final(self)@ == next_state(old(self)@, msg),
            r.0 == renders(msg),
            r.1@ == effects_of(old(self)@.0, msg),
    {
        let id = self.id;
        match msg {
            Msg::SetTodoFetchState(fetch_state) => {
                self.note = fetch_state;
                (true, Vec::new())
            },
            Msg::GetTodo => (false, load_effect_list(id)),
        }
    }

    /// The id of the note the page edits.
    pub fn id(&self) -> (r: u32)
        ensures
            r == self@.0,
    {
        self.id
    }

    /// Where the page stands in loading the note.
    pub fn note(&self) -> (r: &FetchState<Note>)
        ensures
            *r == self@.1,
    {
        &self.note
    }
}

/// A load shows the page as loading until it ends, then shows what it
/// brought; the page keeps editing the same id throughout.
pub proof fn lemma_load_cycle(
    state: (u32, FetchState<Note>),
    outcome: Result<Note, FetchError>,
)
    ensures
        load_effects(state.0)[0] == Effect::FetchNote(state.0),
        load_effects(state.0)[1] matches Effect::Send(m) && renders(m) && next_state(state, m) == (
            state.0,
            FetchState::<Note>::Fetching,
        ),
        renders(loaded_msg(outcome)),
        next_state((state.0, FetchState::Fetching), loaded_msg(outcome)) == (
            state.0,
            spec_from_result(outcome),
        ),
{
}

/// No message changes which note the page edits.
pub proof fn lemma_id_fixed(state: (u32, FetchState<Note>), msg: Msg)
    ensures
        next_state(state, msg).0 == state.0,
{
}

/// A load state only settles the page: it is what the page shows next, the
/// page keeps its note id and is drawn again, and nothing more is asked; in
/// particular a finished load shows the note it brought, or its error, and
/// starts no other load.
pub proof fn lemma_load_state_settles(
    state: (u32, FetchState<Note>),
    s: FetchState<Note>,
    note: Note,
    err: FetchError,
)
    ensures
        next_state(state, Msg::SetTodoFetchState(s)) == (state.0, s),
        renders(Msg::SetTodoFetchState(s)),
        effects_of(state.0, Msg::SetTodoFetchState(s)).len() == 0,
        next_state(state, loaded_msg(Ok(note))) == (state.0, FetchState::Success(note)),
        next_state(state, loaded_msg(Err(err))) == (state.0, FetchState::<Note>::Failed(err)),
        effects_of(state.0, loaded_msg(Ok(note))).len() == 0,
        effects_of(state.0, loaded_msg(Err(err))).len() == 0,
{
}

/// What the page asks for when it opens on note `id`: write the id to the
/// console, load that note, and show the page as loading, which in turn
/// asks for nothing. The reload button asks for the same but the log.
pub proof fn lemma_open_request(id: u32, state: (u32, FetchState<Note>))
    ensures
        next_state(state, Msg::GetTodo) == state,
        open_effects(id) == seq![
            Effect::Log(id),
            Effect::FetchNote(id),
            Effect::Send(Msg::SetTodoFetchState(FetchState::Fetching)),
        ],
        effects_of(id, Msg::GetTodo) == seq![
            Effect::FetchNote(id),
            Effect::Send(Msg::SetTodoFetchState(FetchState::Fetching)),
        ],
        effects_of(id, Msg::SetTodoFetchState(FetchState::Fetching)).len() == 0,
        !renders(Msg::GetTodo),
{
    assert(open_effects(id) =~= seq![
        Effect::Log(id),
        Effect::FetchNote(id),
        Effect::Send(Msg::SetTodoFetchState(FetchState::Fetching)),
    ]);
}

} // verus!
