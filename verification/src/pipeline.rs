use crate::config::{Api, ApiView, LoadResult, LoadResultView};
use crate::normalizer::{
    defect, normalize, normalized, AudioFeatures, NormalizeError, TrackMeta, TrackMetaView,
};
use crate::resolver::{resolution, resolve, ResolveError};
use crate::store::StoreError;
use crate::track::{Track, TrackView};
use vstd::prelude::*;
use vstd::string::StringExecFns;

verus! {

/// Why a run ended without a record.
#[derive(Clone, Debug, PartialEq, Eq)]
pub enum PipelineError {
    /// No identifier was given on the command line.
    MissingArgument,
    /// The identifier names no track, or the track has no key.
    Resolve(ResolveError),
    /// The store failed. A duplicate key among these failures means that a
    /// record was fetched though the store held it.
    Store(StoreError),
    /// The provider's responses make no record.
    Normalize(NormalizeError),
    /// The metadata service's client failed; the text is its message.
    RemoteClientError(String),
    /// An event arrived that the state does not wait for.
    UnexpectedEvent,
}

/// What a [`PipelineError`] stands for in contracts.
pub enum PipelineErrorView {
    MissingArgument,
    Resolve(ResolveError),
    Store(StoreError),
    Normalize(NormalizeError),
    RemoteClientError(Seq<char>),
    UnexpectedEvent,
}

impl View for PipelineError {
    type V = PipelineErrorView;

    open spec fn view(&self) -> PipelineErrorView {
        match self {
            PipelineError::MissingArgument => PipelineErrorView::MissingArgument,
            PipelineError::Resolve(e) => PipelineErrorView::Resolve(*e),
            PipelineError::Store(e) => PipelineErrorView::Store(*e),
            PipelineError::Normalize(e) => PipelineErrorView::Normalize(*e),
            PipelineError::RemoteClientError(message) => PipelineErrorView::RemoteClientError(
                message@,
            ),
            PipelineError::UnexpectedEvent => PipelineErrorView::UnexpectedEvent,
        }
    }
}

/// What the user is told about an error.
pub open spec fn message_text(error: PipelineErrorView) -> Seq<char> {
    match error {
        PipelineErrorView::MissingArgument => "No Spotify URI/URL specified"@,
        PipelineErrorView::Resolve(ResolveError::InvalidIdentifier) =>
            "Not a Spotify track URI, URL or ID"@,
        PipelineErrorView::Resolve(ResolveError::KeyDecodeError) => "Failed to decode the track ID"@,
        PipelineErrorView::Store(StoreError::StoreUnavailable) => "The cache is unavailable"@,
        PipelineErrorView::Store(StoreError::StoreReadError) => "Failed to read the cache"@,
        PipelineErrorView::Store(StoreError::StoreWriteError) => "Failed to write the cache"@,
        PipelineErrorView::Store(StoreError::DuplicateKeyError) =>
            "Internal error: the track was fetched although the cache holds it"@,
        PipelineErrorView::Normalize(NormalizeError::EmptyArtistList) =>
            "The API returned a track without artists"@,
        PipelineErrorView::Normalize(NormalizeError::DurationOverflow) =>
            "The API returned a track with an impossible duration"@,
        PipelineErrorView::RemoteClientError(message) => "The API request failed: "@ + message,
        PipelineErrorView::UnexpectedEvent => "Internal error: event out of turn"@,
    }
}

impl PipelineError {
    /// What to tell the user about this error.
    pub fn message(&self) -> (r: String)
        ensures
            r@ == message_text(self@),
    {
        match self {
            PipelineError::MissingArgument => String::from_str("No Spotify URI/URL specified"),
            PipelineError::Resolve(ResolveError::InvalidIdentifier) => String::from_str(
                "Not a Spotify track URI, URL or ID",
            ),
            PipelineError::Resolve(ResolveError::KeyDecodeError) => String::from_str(
                "Failed to decode the track ID",
            ),
            PipelineError::Store(StoreError::StoreUnavailable) => String::from_str(
                "The cache is unavailable",
            ),
            PipelineError::Store(StoreError::StoreReadError) => String::from_str(
                "Failed to read the cache",
            ),
            PipelineError::Store(StoreError::StoreWriteError) => String::from_str(
                "Failed to write the cache",
            ),
            PipelineError::Store(StoreError::DuplicateKeyError) => String::from_str(
                "Internal error: the track was fetched although the cache holds it",
            ),
            PipelineError::Normalize(NormalizeError::EmptyArtistList) => String::from_str(
                "The API returned a track without artists",
            ),
            PipelineError::Normalize(NormalizeError::DurationOverflow) => String::from_str(
                "The API returned a track with an impossible duration",
            ),
            PipelineError::RemoteClientError(message) => String::from_str(
                "The API request failed: ",
            ).concat(message.as_str()),
            PipelineError::UnexpectedEvent => String::from_str("Internal error: event out of turn"),
        }
    }
}

/// The provider's two responses for one track.
#[derive(Clone, Debug, PartialEq, Eq)]
pub struct Responses {
    pub meta: TrackMeta,
    pub features: AudioFeatures,
}

/// What a [`Responses`] stands for in contracts.
pub struct ResponsesView {
    pub meta: TrackMetaView,
    pub features: AudioFeatures,
}

impl View for Responses {
    type V = ResponsesView;

    open spec fn view(&self) -> ResponsesView {
        ResponsesView { meta: self.meta@, features: self.features }
    }
}

/// Where a run stands. Every state but the last two waits for one event.
#[derive(Debug, PartialEq, Eq)]
pub enum State {
    /// Waits for the configuration.
    Start,
    /// Has the credentials; waits for the identifier.
    Configured { api: Api },
    /// Knows the track; waits for the store's answer.
    Resolved { api: Api, canonical_id: String, key: [u8; 16] },
    /// The store does not hold the track; waits for the provider's responses.
    Fetching { key: [u8; 16] },
    /// Has made the record; waits for the store to take it.
    Normalized { track: Track },
    /// The run succeeded.
    Done,
    /// The run failed.
    Failed,
}

/// What a [`State`] stands for in contracts.
pub enum StateView {
    Start,
    Configured { api: ApiView },
    Resolved { api: ApiView, canonical_id: Seq<char>, key: Seq<u8> },
    Fetching { key: Seq<u8> },
    Normalized { track: TrackView },
    Done,
    Failed,
}

impl View for State {
    type V = StateView;

    open spec fn view(&self) -> StateView {
        match self {
            State::Start => StateView::Start,
            State::Configured { api } => StateView::Configured { api: api@ },
            State::Resolved { api, canonical_id, key } => StateView::Resolved {
                api: api@,
                canonical_id: canonical_id@,
                key: key@,
            },
            State::Fetching { key } => StateView::Fetching { key: key@ },
            State::Normalized { track } => StateView::Normalized { track: track@ },
            State::Done => StateView::Done,
            State::Failed => StateView::Failed,
        }
    }
}

/// What the outside world reports back.
#[derive(Debug, PartialEq, Eq)]
pub enum Event {
    /// The configuration was loaded, or its template written.
    ConfigLoaded(LoadResult),
    /// The first command-line argument, if there is one.
    Argument(Option<String>),
    /// The store's answer to a lookup.
    LookedUp(Result<Option<Track>, StoreError>),
    /// The provider's responses, or the message of the client's failure.
    Fetched(Result<Responses, String>),
    /// The store's answer to an insert.
    Stored(Result<(), StoreError>),
}

/// What an [`Event`] stands for in contracts.
pub enum EventView {
    ConfigLoaded(LoadResultView),
    Argument(Option<Seq<char>>),
    LookedUp(Result<Option<TrackView>, StoreError>),
    Fetched(Result<ResponsesView, Seq<char>>),
    Stored(Result<(), StoreError>),
}

/// What the store's answer to a lookup stands for in contracts.
pub open spec fn lookup_view(answer: Result<Option<Track>, StoreError>) -> Result<
    Option<TrackView>,
    StoreError,
> {
    match answer {
        Ok(Some(track)) => Ok(Some(track@)),
        Ok(None) => Ok(None),
        Err(e) => Err(e),
    }
}

/// What the provider's answer stands for in contracts.
pub open spec fn fetch_view(answer: Result<Responses, String>) -> Result<ResponsesView, Seq<char>> {
    match answer {
        Ok(responses) => Ok(responses@),
        Err(message) => Err(message@),
    }
}

impl View for Event {
    type V = EventView;

    open spec fn view(&self) -> EventView {
        match self {
            Event::ConfigLoaded(loaded) => EventView::ConfigLoaded(loaded@),
            Event::Argument(argument) => EventView::Argument(crate::track::opt_text(*argument)),
            Event::LookedUp(answer) => EventView::LookedUp(lookup_view(*answer)),
            Event::Fetched(answer) => EventView::Fetched(fetch_view(*answer)),
            Event::Stored(answer) => EventView::Stored(*answer),
        }
    }
}

/// What the outside world is to do next.
#[derive(Debug, PartialEq, Eq)]
pub enum Action {
    /// Report the first command-line argument.
    ReadArgument,
    /// Tell the user that a configuration template was written to `path`,
    /// and end the run with success.
    AnnounceTemplate { path: String },
    /// Open the store, look `key` up and report the answer.
    Lookup { key: [u8; 16] },
    /// Log in with `api`, fetch both responses for `canonical_id` and report
    /// them.
    Fetch { api: Api, canonical_id: String },
    /// Insert `track` into the store and report the answer.
    Store { track: Track },
    /// Present `track` and end the run with success.
    Present { track: Track },
    /// Report `error` and end the run with failure.
    Fail { error: PipelineError },
}

/// What an [`Action`] stands for in contracts.
pub enum ActionView {
    ReadArgument,
    AnnounceTemplate { path: Seq<char> },
    Lookup { key: Seq<u8> },
    Fetch { api: ApiView, canonical_id: Seq<char> },
    Store { track: TrackView },
    Present { track: TrackView },
    Fail { error: PipelineErrorView },
}

impl View for Action {
    type V = ActionView;

    open spec fn view(&self) -> ActionView {
        match self {
            Action::ReadArgument => ActionView::ReadArgument,
            Action::AnnounceTemplate { path } => ActionView::AnnounceTemplate { path: path@ },
            Action::Lookup { key } => ActionView::Lookup { key: key@ },
            Action::Fetch { api, canonical_id } => ActionView::Fetch {
                api: api@,
                canonical_id: canonical_id@,
            },
            Action::Store { track } => ActionView::Store { track: track@ },
            Action::Present { track } => ActionView::Present { track: track@ },
            Action::Fail { error } => ActionView::Fail { error: error@ },
        }
    }
}

/// The end of a run that fails with `error`.
pub open spec fn failed(error: PipelineErrorView) -> (StateView, ActionView) {
    (StateView::Failed, ActionView::Fail { error })
}

/// The state that follows `state` on `event`, and what is to be done then.
///
/// The configuration comes first: where only a template was written the run
/// ends there. The identifier is resolved, and the store is asked for the
/// key. A record that the store holds is presented as it is. Only where the
/// store holds none are the provider's responses fetched; the record made of
/// them goes to the store first and is presented once the store has taken
/// it. Every failure ends the run, and so does an event that the state does
/// not wait for.
pub open spec fn stepped(state: StateView, event: EventView) -> (StateView, ActionView) {
    match (state, event) {
        (StateView::Start, EventView::ConfigLoaded(LoadResultView::Created(path))) => (
            StateView::Done,
            ActionView::AnnounceTemplate { path },
        ),
        (StateView::Start, EventView::ConfigLoaded(LoadResultView::Opened(config))) => (
            StateView::Configured { api: config.api },
            ActionView::ReadArgument,
        ),
        (StateView::Configured { api }, EventView::Argument(None)) => failed(
            PipelineErrorView::MissingArgument,
        ),
        (StateView::Configured { api }, EventView::Argument(Some(raw))) => match resolution(raw) {
            Ok(found) => (
                StateView::Resolved { api, canonical_id: found.canonical_id, key: found.key },
                ActionView::Lookup { key: found.key },
            ),
            Err(e) => failed(PipelineErrorView::Resolve(e)),
        },
        (StateView::Resolved { api, canonical_id, key }, EventView::LookedUp(Ok(Some(track)))) => (
            StateView::Done,
            ActionView::Present { track },
        ),
        (StateView::Resolved { api, canonical_id, key }, EventView::LookedUp(Ok(None))) => (
            StateView::Fetching { key },
            ActionView::Fetch { api, canonical_id },
        ),
        (StateView::Resolved { api, canonical_id, key }, EventView::LookedUp(Err(e))) => failed(
            PipelineErrorView::Store(e),
        ),
        (StateView::Fetching { key }, EventView::Fetched(Ok(responses))) => match defect(
            responses.meta,
        ) {
            None => {
                let track = normalized(key, responses.meta, responses.features);
                (StateView::Normalized { track }, ActionView::Store { track })
            },
            Some(e) => failed(PipelineErrorView::Normalize(e)),
        },
        (StateView::Fetching { key }, EventView::Fetched(Err(message))) => failed(
            PipelineErrorView::RemoteClientError(message),
        ),
        (StateView::Normalized { track }, EventView::Stored(Ok(()))) => (
            StateView::Done,
            ActionView::Present { track },
        ),
        (StateView::Normalized { track }, EventView::Stored(Err(e))) => failed(
            PipelineErrorView::Store(e),
        ),
        _ => failed(PipelineErrorView::UnexpectedEvent),
    }
}

fn fail(error: PipelineError) -> (r: (State, Action))
    ensures
        (r.0@, r.1@) == failed(error@),
{
    (State::Failed, Action::Fail { error })
}

/// One step of a run: takes the state and the event that the outside world
/// reports, and returns the next state and what the outside world is to do.
///
/// A run starts in `State::Start` with the event `ConfigLoaded`, and ends
/// with the action `Present`, `AnnounceTemplate` or `Fail`.
pub fn step(state: State, event: Event) -> (r: (State, Action))
    ensures
        (r.0@, r.1@) == stepped(state@, event@),
{
    match (state, event) {
        (State::Start, Event::ConfigLoaded(LoadResult::Created(path))) => (
            State::Done,
            Action::AnnounceTemplate { path },
        ),
        (State::Start, Event::ConfigLoaded(LoadResult::Opened(config))) => (
            State::Configured { api: config.api },
            Action::ReadArgument,
        ),
        (State::Configured { api }, Event::Argument(None)) => fail(PipelineError::MissingArgument),
        (State::Configured { api }, Event::Argument(Some(raw))) => match resolve(raw.as_str()) {
            Ok(found) => {
                let key = found.key;
                (
                    State::Resolved { api, canonical_id: found.canonical_id, key },
                    Action::Lookup { key },
                )
            },
            Err(e) => fail(PipelineError::Resolve(e)),
        },
        (State::Resolved { api, canonical_id, key }, Event::LookedUp(Ok(Some(track)))) => (
            State::Done,
            Action::Present { track },
        ),
        (State::Resolved { api, canonical_id, key }, Event::LookedUp(Ok(None))) => (
            State::Fetching { key },
            Action::Fetch { api, canonical_id },
        ),
        (State::Resolved { api, canonical_id, key }, Event::LookedUp(Err(e))) => fail(
            PipelineError::Store(e),
        ),
        (State::Fetching { key }, Event::Fetched(Ok(responses))) => match normalize(
            key,
            responses.meta,
            responses.features,
        ) {
            Ok(track) => {
                let kept = track.clone();
                (State::Normalized { track: kept }, Action::Store { track })
            },
            Err(e) => fail(PipelineError::Normalize(e)),
        },
        (State::Fetching { key }, Event::Fetched(Err(message))) => fail(
            PipelineError::RemoteClientError(message),
        ),
        (State::Normalized { track }, Event::Stored(Ok(()))) => (
            State::Done,
            Action::Present { track },
        ),
        (State::Normalized { track }, Event::Stored(Err(e))) => fail(PipelineError::Store(e)),
        _ => fail(PipelineError::UnexpectedEvent),
    }
}

/// The actions of a run that starts in `state` and meets `events` in order.
pub open spec fn actions(state: StateView, events: Seq<EventView>) -> Seq<ActionView>
    decreases events.len(),
{
    if events.len() == 0 {
        Seq::empty()
    } else {
        let (next, action) = stepped(state, events[0]);
        seq![action] + actions(next, events.drop_first())
    }
}

/// The provider is asked for nothing but a track that the store has just
/// been found not to hold, and a record that the store holds is presented
/// as the store gave it.
pub proof fn lemma_fetch_only_after_miss(state: StateView, event: EventView)
    ensures
        stepped(state, event).1 is Fetch ==> state is Resolved && event == EventView::LookedUp(
            Ok(None),
        ),
        state is Resolved ==> forall|track: TrackView|
            event == EventView::LookedUp(Ok(Some(track))) ==> stepped(state, event) == (
                StateView::Done,
                ActionView::Present { track },
            ),
{
}

/// Whatever the state a run starts in: as long as no lookup comes back
/// empty, the provider is never asked.
pub proof fn lemma_cache_first(state: StateView, events: Seq<EventView>)
    requires
        forall|i: int| 0 <= i < events.len() ==> events[i] != EventView::LookedUp(Ok(None)),
    ensures
        forall|j: int|
            0 <= j < actions(state, events).len() ==> !(#[trigger] actions(state, events)[j]
                is Fetch),
    decreases events.len(),
{
    if events.len() > 0 {
        let (next, action) = stepped(state, events[0]);
        let rest = events.drop_first();
        lemma_fetch_only_after_miss(state, events[0]);
        assert forall|i: int| 0 <= i < rest.len() implies rest[i] != EventView::LookedUp(
            Ok(None),
        ) by {
            assert(rest[i] == events[i + 1]);
        }
        lemma_cache_first(next, rest);
        assert forall|j: int| 0 <= j < actions(state, events).len() implies !(
        #[trigger] actions(state, events)[j] is Fetch) by {
            if j > 0 {
                assert(actions(state, events)[j] == actions(next, rest)[j - 1]);
            }
        }
    }
}

/// Nothing is written to the store but the record that the provider's
/// responses make under the key that was looked up.
pub proof fn lemma_store_only_normalized(state: StateView, event: EventView)
    ensures
        stepped(state, event).1 matches ActionView::Store { track } ==> {
            &&& state matches StateView::Fetching { key }
            &&& event matches EventView::Fetched(Ok(responses))
            &&& defect(responses.meta) is None
            &&& track == normalized(key, responses.meta, responses.features)
        },
{
}

/// After a miss, responses without defect make a record that goes to the
/// store, and the record is presented once the store has taken it.
pub proof fn lemma_miss_then_persist(key: Seq<u8>, responses: ResponsesView)
    requires
        defect(responses.meta) is None,
    ensures
        ({
            let track = normalized(key, responses.meta, responses.features);
            &&& stepped(StateView::Fetching { key }, EventView::Fetched(Ok(responses))) == (
                StateView::Normalized { track },
                ActionView::Store { track },
            )
            &&& stepped(StateView::Normalized { track }, EventView::Stored(Ok(()))) == (
                StateView::Done,
                ActionView::Present { track },
            )
        }),
{
}

/// Once a run has failed, nothing is fetched, written or presented any
/// more.
pub proof fn lemma_failed_is_final(events: Seq<EventView>)
    ensures
        forall|j: int|
            0 <= j < actions(StateView::Failed, events).len() ==> #[trigger] actions(
                StateView::Failed,
                events,
            )[j] == (ActionView::Fail { error: PipelineErrorView::UnexpectedEvent }),
    decreases events.len(),
{
    if events.len() > 0 {
        let rest = events.drop_first();
        lemma_failed_is_final(rest);
        assert forall|j: int| 0 <= j < actions(StateView::Failed, events).len() implies
            #[trigger] actions(StateView::Failed, events)[j] == (ActionView::Fail {
            error: PipelineErrorView::UnexpectedEvent,
        }) by {
            if j > 0 {
                assert(actions(StateView::Failed, events)[j] == actions(StateView::Failed, rest)[j
                    - 1]);
            }
        }
    }
}

/// Responses that list no artist end the run with `EmptyArtistList`, and
/// nothing is written to the store, then or later.
pub proof fn lemma_no_artist_no_write(key: Seq<u8>, responses: ResponsesView, later: Seq<EventView>)
    requires
        responses.meta.artists.len() == 0,
    ensures
        stepped(StateView::Fetching { key }, EventView::Fetched(Ok(responses))) == failed(
            PipelineErrorView::Normalize(NormalizeError::EmptyArtistList),
        ),
        forall|j: int|
            0 <= j < actions(
                StateView::Fetching { key },
                seq![EventView::Fetched(Ok(responses))] + later,
            ).len() ==> !(#[trigger] actions(
                StateView::Fetching { key },
                seq![EventView::Fetched(Ok(responses))] + later,
            )[j] is Store),
{
    let events = seq![EventView::Fetched(Ok(responses))] + later;
    assert(events[0] == EventView::Fetched(Ok(responses)));
    assert(events.drop_first() =~= later);
    lemma_failed_is_final(later);
    assert forall|j: int| 0 <= j < actions(StateView::Fetching { key }, events).len() implies !(
    #[trigger] actions(StateView::Fetching { key }, events)[j] is Store) by {
        if j > 0 {
            assert(actions(StateView::Fetching { key }, events)[j] == actions(
                StateView::Failed,
                later,
            )[j - 1]);
        }
    }
}

/// A record is presented only as the store gave it, or once the store has
/// taken it.
pub proof fn lemma_present_only_stored(state: StateView, event: EventView)
    ensures
        stepped(state, event).1 matches ActionView::Present { track } ==> {
            ||| state is Resolved && event == EventView::LookedUp(Ok(Some(track)))
            ||| state == (StateView::Normalized { track }) && event == EventView::Stored(Ok(()))
        },
{
    match (state, event) {
        (StateView::Resolved { .. }, EventView::LookedUp(Ok(Some(track)))) => {},
        (StateView::Normalized { track }, EventView::Stored(Ok(unit))) => {
            assert(unit == ());
        },
        _ => {},
    }
}

/// How far a run has come: every state stands behind those before it.
pub open spec fn progress(state: StateView) -> nat {
    match state {
        StateView::Start => 0,
        StateView::Configured { .. } => 1,
        StateView::Resolved { .. } => 2,
        StateView::Fetching { .. } => 3,
        StateView::Normalized { .. } => 4,
        StateView::Done => 5,
        StateView::Failed => 6,
    }
}

/// A run never goes back: every step leads to a state further on, and a
/// failed run stays failed.
pub proof fn lemma_no_way_back(state: StateView, event: EventView)
    ensures
        state is Failed ==> stepped(state, event).0 is Failed,
        !(state is Failed) ==> progress(stepped(state, event).0) > progress(state),
{
}

} // verus!
