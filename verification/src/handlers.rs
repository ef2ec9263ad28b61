//! The endpoints of the service: what each answers, and what it asks the
//! gateway to send on the way.
//!
//! The daily limit is guarded here: before the record of a win is created,
//! the database is asked for the records that the key has of the game and
//! the day, and at the limit no record is created.
//!
//! A spin that wins is answered only once its record is stored: a daily limit
//! reached or a failure of the database fails the request. A turn of the
//! wheel is answered with its outcome whatever becomes of the record.

use crate::clock::{now_millis, now_rfc3339, today_utc};
use crate::decimal::{decimal, decimal_string};
use crate::models::{
    option_text, properties_of, GameType, SpinRequest, SpinResponse, SpinResponseView,
    SpinResult, SpinResultView, WheelRequest, WheelResponse, WheelResponseView,
};
use crate::notion::{write_outcome, NotionClient, NotionClientView};
use crate::repository::{
    unit_result_view, Error, ErrorView, PayloadView, RawEntryView, StoreReply, StoreReplyView,
    StoreRequest, StoreRequestView,
};
use crate::spin::{generate_spin, SpinOutcome};
use crate::wheel::Wheel;
use rand::rngs::SmallRng;
use vstd::prelude::*;

verus! {

/// The status with which an endpoint answers.
#[derive(Debug, Clone, Copy, PartialEq, Eq, Structural)]
pub enum StatusCode {
    Success,
    Created,
    NoContent,
    TooManyRequests,
    InternalServerError,
}

impl StatusCode {
    /// The status as a number.
    pub open spec fn code(self) -> u16 {
        match self {
            StatusCode::Success => 200,
            StatusCode::Created => 201,
            StatusCode::NoContent => 204,
            StatusCode::TooManyRequests => 429,
            StatusCode::InternalServerError => 500,
        }
    }

    /// The status as a number.
    pub fn as_u16(&self) -> (code: u16)
        ensures
            code == self.code(),
    {
        match self {
            StatusCode::Success => 200,
            StatusCode::Created => 201,
            StatusCode::NoContent => 204,
            StatusCode::TooManyRequests => 429,
            StatusCode::InternalServerError => 500,
        }
    }
}

/// The status for an error of the gateway: a limit reached is told apart from
/// every other failure.
pub open spec fn error_status(error: ErrorView) -> StatusCode {
    match error {
        ErrorView::SpinLimitReached => StatusCode::TooManyRequests,
        _ => StatusCode::InternalServerError,
    }
}

/// The answer to a request that creates a record.
pub open spec fn created_status(saved: Result<(), ErrorView>) -> Result<StatusCode, StatusCode> {
    match saved {
        Ok(_) => Ok(StatusCode::Created),
        Err(error) => Err(error_status(error)),
    }
}

/// The answer of the service's root.
pub fn get_root() -> (greeting: &'static str)
    ensures
        greeting@ == "Notion API is running"@,
{
    "Notion API is running"
}

/// The answer to a request that creates a record, once the gateway is done:
/// created, too many requests where the limit was reached, and a server error
/// on any other failure.
pub fn create_spin_result(saved: Result<(), Error>) -> (status: Result<StatusCode, StatusCode>)
    ensures
        status == created_status(unit_result_view(saved)),
{
    match saved {
        Ok(_) => Ok(StatusCode::Created),
        Err(Error::SpinLimitReached) => Err(StatusCode::TooManyRequests),
        Err(_) => Err(StatusCode::InternalServerError),
    }
}

/// The answer to a request that lists the records: the records as the
/// gateway read them, or a server error.
pub fn get_spin_results(listed: Result<Vec<SpinResult>, Error>) -> (answer: Result<
    Vec<SpinResult>,
    StatusCode,
>)
    ensures
        match listed {
            Ok(records) => answer == Ok::<Vec<SpinResult>, StatusCode>(records),
            Err(_) => answer == Err::<Vec<SpinResult>, StatusCode>(
                StatusCode::InternalServerError,
            ),
        },
{
    match listed {
        Ok(records) => Ok(records),
        Err(_) => Err(StatusCode::InternalServerError),
    }
}

/// The answer to a request that updates a record.
pub fn update_spin_result(updated: Result<(), Error>) -> (status: StatusCode)
    ensures
        status == if updated is Ok {
            StatusCode::Success
        } else {
            StatusCode::InternalServerError
        },
{
    match updated {
        Ok(_) => StatusCode::Success,
        Err(_) => StatusCode::InternalServerError,
    }
}

/// The answer to a request that deletes a record.
pub fn delete_spin_result(deleted: Result<(), Error>) -> (status: StatusCode)
    ensures
        status == if deleted is Ok {
            StatusCode::NoContent
        } else {
            StatusCode::InternalServerError
        },
{
    match deleted {
        Ok(_) => StatusCode::NoContent,
        Err(_) => StatusCode::InternalServerError,
    }
}

/// The key under which a win is recorded: the caller's, or else the moment
/// of the request in milliseconds, in decimal notation.
pub open spec fn identity_key(key: Option<Seq<char>>, now_millis: i64) -> Seq<char> {
    match key {
        Some(key) => key,
        None => decimal(now_millis as int),
    }
}

/// The key under which a win is recorded: see [`identity_key`].
pub fn resolve_key(key: Option<String>, now_millis: i64) -> (resolved: String)
    ensures
        resolved@ == identity_key(option_text(key), now_millis),
{
    match key {
        Some(key) => key,
        None => decimal_string(now_millis),
    }
}

/// The record of a winning spin.
pub open spec fn spin_record(outcome: SpinOutcome, key: Seq<char>, now: Seq<char>)
    -> SpinResultView {
    SpinResultView {
        key,
        datetime: now,
        number: outcome.spec_number() as i32,
        is_win: outcome.is_win,
        checked: false,
        game_type: Some(GameType::Spin.label()),
    }
}

/// The record of a winning turn of the wheel: its number is the slot's index.
pub open spec fn wheel_record(response: WheelResponseView, key: Seq<char>, now: Seq<char>)
    -> SpinResultView {
    SpinResultView {
        key,
        datetime: now,
        number: response.prize_index as i32,
        is_win: response.is_win,
        checked: false,
        game_type: Some(GameType::Wheel.label()),
    }
}

/// Where the record of a win stands on its way into the database.
#[derive(Debug, PartialEq, Eq)]
pub enum Recording {
    /// The question of the limit is out: the query for the records that the
    /// key has of the game and the day.
    Counting { record: SpinResult, game_type: GameType },
    /// The page of the record is out.
    Inserting,
}

/// What a [`Recording`] holds, as mathematical values.
pub enum RecordingView {
    Counting { record: SpinResultView, game_type: GameType },
    Inserting,
}

impl View for Recording {
    type V = RecordingView;

    open spec fn view(&self) -> RecordingView {
        match self {
            Recording::Counting { record, game_type } => RecordingView::Counting {
                record: record@,
                game_type: *game_type,
            },
            Recording::Inserting => RecordingView::Inserting,
        }
    }
}

/// What is to be done next for the record of a win: a request to send, with
/// the state in which its reply is awaited, or the end.
#[derive(Debug, PartialEq, Eq)]
pub enum RecordStep {
    Send(Recording, StoreRequest),
    Done(Result<(), Error>),
}

/// What a [`RecordStep`] holds, as mathematical values.
pub enum RecordStepView {
    Send(RecordingView, StoreRequestView),
    Done(Result<(), ErrorView>),
}

impl View for RecordStep {
    type V = RecordStepView;

    open spec fn view(&self) -> RecordStepView {
        match self {
            RecordStep::Send(state, request) => RecordStepView::Send(state@, request@),
            RecordStep::Done(result) => RecordStepView::Done(unit_result_view(*result)),
        }
    }
}

/// The first step for the record of a win on the day `today`: the question
/// of the limit. Nothing is sent for a game without a database.
pub open spec fn record_start(
    client: NotionClientView,
    record: SpinResultView,
    game_type: GameType,
    today: Seq<char>,
) -> RecordStepView {
    match client.limit_query(record.key, game_type, today) {
        Ok(query) => RecordStepView::Send(RecordingView::Counting { record, game_type }, query),
        Err(error) => RecordStepView::Done(Err(error)),
    }
}

/// The step that follows a reply. After the question of the limit the record
/// is created only if the query succeeded and shows the limit not reached; a
/// limit reached ends with [`ErrorView::SpinLimitReached`], and nothing more
/// is sent. After the page was sent the recording ends as the write ended.
pub open spec fn record_reply(client: NotionClientView, state: RecordingView, reply: StoreReplyView)
    -> RecordStepView {
    match state {
        RecordingView::Counting { record, game_type } => match client.has_reached_spin_limit(
            reply,
        ) {
            Err(error) => RecordStepView::Done(Err(error)),
            Ok(true) => RecordStepView::Done(Err(ErrorView::SpinLimitReached)),
            Ok(false) => match client.insert_request(record, game_type) {
                Ok(page) => RecordStepView::Send(RecordingView::Inserting, page),
                Err(error) => RecordStepView::Done(Err(error)),
            },
        },
        RecordingView::Inserting => RecordStepView::Done(write_outcome(reply)),
    }
}

/// A page is created only on the reply to the question of the limit, and
/// only where that reply shows fewer records than the limit allows. The
/// first request for the record of a win is always that question.
pub proof fn lemma_page_follows_count_below_limit(
    client: NotionClientView,
    record: SpinResultView,
    game_type: GameType,
    today: Seq<char>,
    state: RecordingView,
    reply: StoreReplyView,
)
    ensures
        record_start(client, record, game_type, today) matches RecordStepView::Send(first, query)
            ==> first == (RecordingView::Counting { record, game_type }) && query.payload == (
        PayloadView::TodayFilter {
            key: record.key,
            game_type,
            from: today + "T00:00:00Z"@,
            until: today + "T23:59:59Z"@,
        }),
        record_reply(client, state, reply) matches RecordStepView::Send(next, page) ==> {
            &&& state is Counting
            &&& next is Inserting
            &&& page.payload is NewPage
            &&& reply matches StoreReplyView::Accepted(Some(entries))
            &&& entries.len() < client.daily_spin_limit
        },
{
}

/// A limit reached ends the recording with that error, and nothing more is
/// sent.
pub proof fn lemma_limit_reached_ends_recording(
    client: NotionClientView,
    record: SpinResultView,
    game_type: GameType,
    entries: Seq<RawEntryView>,
)
    requires
        entries.len() >= client.daily_spin_limit,
    ensures
        record_reply(
            client,
            RecordingView::Counting { record, game_type },
            StoreReplyView::Accepted(Some(entries)),
        ) == RecordStepView::Done(Err(ErrorView::SpinLimitReached)),
{
}

/// The number of a winning turn's record is the index of its slot, for every
/// index that an `i32` holds.
pub proof fn lemma_wheel_record_holds_the_index(
    response: WheelResponseView,
    key: Seq<char>,
    now: Seq<char>,
)
    requires
        0 <= response.prize_index <= i32::MAX,
    ensures
        wheel_record(response, key, now).number == response.prize_index,
        wheel_record(response, key, now).checked == false,
        wheel_record(response, key, now).game_type == Some(GameType::Wheel.label()),
{
}

/// A spin whose record is on its way into the database.
#[derive(Debug, PartialEq, Eq)]
pub struct SpinFlow {
    /// The answer that is given once the record is stored.
    pub response: SpinResponse,
    /// Where the record stands.
    pub recording: Recording,
}

/// What a [`SpinFlow`] holds, as mathematical values.
pub struct SpinFlowView {
    pub response: SpinResponseView,
    pub recording: RecordingView,
}

impl View for SpinFlow {
    type V = SpinFlowView;

    open spec fn view(&self) -> SpinFlowView {
        SpinFlowView { response: self.response@, recording: self.recording@ }
    }
}

/// What is to be done next for a spin: a request to send, with the state in
/// which its reply is awaited, or the answer.
#[derive(Debug, PartialEq, Eq)]
pub enum SpinStep {
    Send(SpinFlow, StoreRequest),
    Done(Result<SpinResponse, StatusCode>),
}

/// What a [`SpinStep`] holds, as mathematical values.
pub enum SpinStepView {
    Send(SpinFlowView, StoreRequestView),
    Done(Result<SpinResponseView, StatusCode>),
}

impl View for SpinStep {
    type V = SpinStepView;

    open spec fn view(&self) -> SpinStepView {
        match self {
            SpinStep::Send(state, request) => SpinStepView::Send(state@, request@),
            SpinStep::Done(Ok(response)) => SpinStepView::Done(Ok(response@)),
            SpinStep::Done(Err(status)) => SpinStepView::Done(Err(*status)),
        }
    }
}

/// The step of a spin that follows a step of its record: the spin waits while
/// the record is on its way, is answered with its outcome once the record is
/// stored, and fails where the record was refused or lost.
pub open spec fn spin_step(response: SpinResponseView, recording: RecordStepView) -> SpinStepView {
    match recording {
        RecordStepView::Send(state, request) => SpinStepView::Send(
            SpinFlowView { response, recording: state },
            request,
        ),
        RecordStepView::Done(Ok(_)) => SpinStepView::Done(Ok(response)),
        RecordStepView::Done(Err(error)) => SpinStepView::Done(Err(error_status(error))),
    }
}

/// The first step of a spin with the given outcome. A spin without a win is
/// answered at once, and nothing is recorded. A win is recorded under the
/// caller's key, or the moment in milliseconds, and is answered only then.
pub open spec fn spin_start(
    client: NotionClientView,
    outcome: SpinOutcome,
    key: Option<Seq<char>>,
    now_millis: i64,
    now: Seq<char>,
    today: Seq<char>,
) -> SpinStepView {
    if outcome.is_win {
        spin_step(
            outcome.response_view(),
            record_start(
                client,
                spin_record(outcome, identity_key(key, now_millis), now),
                GameType::Spin,
                today,
            ),
        )
    } else {
        SpinStepView::Done(Ok(outcome.response_view()))
    }
}

/// The step of a spin that follows a reply of the database.
pub open spec fn spin_reply(client: NotionClientView, state: SpinFlowView, reply: StoreReplyView)
    -> SpinStepView {
    spin_step(state.response, record_reply(client, state.recording, reply))
}

/// A turn of the wheel whose record is on its way into the database.
#[derive(Debug, PartialEq, Eq)]
pub struct WheelFlow {
    /// The answer, which stands whatever becomes of the record.
    pub response: WheelResponse,
    /// Where the record stands.
    pub recording: Recording,
}

/// What a [`WheelFlow`] holds, as mathematical values.
pub struct WheelFlowView {
    pub response: WheelResponseView,
    pub recording: RecordingView,
}

impl View for WheelFlow {
    type V = WheelFlowView;

    open spec fn view(&self) -> WheelFlowView {
        WheelFlowView { response: self.response@, recording: self.recording@ }
    }
}

/// What is to be done next for a turn of the wheel: a request to send, with
/// the state in which its reply is awaited, or the answer.
#[derive(Debug, PartialEq, Eq)]
pub enum WheelStep {
    Send(WheelFlow, StoreRequest),
    Done(Result<WheelResponse, StatusCode>),
}

/// What a [`WheelStep`] holds, as mathematical values.
pub enum WheelStepView {
    Send(WheelFlowView, StoreRequestView),
    Done(Result<WheelResponseView, StatusCode>),
}

impl View for WheelStep {
    type V = WheelStepView;

    open spec fn view(&self) -> WheelStepView {
        match self {
            WheelStep::Send(state, request) => WheelStepView::Send(state@, request@),
            WheelStep::Done(Ok(response)) => WheelStepView::Done(Ok(response@)),
            WheelStep::Done(Err(status)) => WheelStepView::Done(Err(*status)),
        }
    }
}

/// The step of a turn of the wheel that follows a step of its record: the
/// turn waits while the record is on its way, and is answered with its
/// outcome however the record ended.
pub open spec fn wheel_step(response: WheelResponseView, recording: RecordStepView)
    -> WheelStepView {
    match recording {
        RecordStepView::Send(state, request) => WheelStepView::Send(
            WheelFlowView { response, recording: state },
            request,
        ),
        RecordStepView::Done(_) => WheelStepView::Done(Ok(response)),
    }
}

/// The first step of a turn of the wheel with the given outcome. A turn
/// without a win is answered at once. A win is recorded under the caller's
/// key, or the moment in milliseconds; its answer is fixed before that.
pub open spec fn wheel_start(
    client: NotionClientView,
    response: WheelResponseView,
    key: Option<Seq<char>>,
    now_millis: i64,
    now: Seq<char>,
    today: Seq<char>,
) -> WheelStepView {
    if response.is_win {
        wheel_step(
            response,
            record_start(
                client,
                wheel_record(response, identity_key(key, now_millis), now),
                GameType::Wheel,
                today,
            ),
        )
    } else {
        WheelStepView::Done(Ok(response))
    }
}

/// The step of a turn of the wheel that follows a reply of the database.
pub open spec fn wheel_reply(
    client: NotionClientView,
    state: WheelFlowView,
    reply: StoreReplyView,
) -> WheelStepView {
    wheel_step(state.response, record_reply(client, state.recording, reply))
}

/// A winning spin whose key has reached the limit is answered with too many
/// requests, and nothing is sent after the query: no record is created.
pub proof fn lemma_spin_limit_reached(
    client: NotionClientView,
    response: SpinResponseView,
    record: SpinResultView,
    game_type: GameType,
    entries: Seq<RawEntryView>,
)
    requires
        entries.len() >= client.daily_spin_limit,
    ensures
        spin_reply(
            client,
            SpinFlowView { response, recording: RecordingView::Counting { record, game_type } },
            StoreReplyView::Accepted(Some(entries)),
        ) == SpinStepView::Done(Err(StatusCode::TooManyRequests)),
{
}

/// A spin is answered with its outcome only where it did not win, or where
/// the database accepted its record. The first request of a winning spin is
/// the query for the limit, and its record is the one of the outcome.
pub proof fn lemma_spin_answered_after_record(
    client: NotionClientView,
    outcome: SpinOutcome,
    key: Option<Seq<char>>,
    now_millis: i64,
    now: Seq<char>,
    today: Seq<char>,
    state: SpinFlowView,
    reply: StoreReplyView,
)
    ensures
        spin_start(client, outcome, key, now_millis, now, today) matches SpinStepView::Done(
            Ok(response),
        ) ==> !outcome.is_win && response == outcome.response_view(),
        spin_start(client, outcome, key, now_millis, now, today) matches SpinStepView::Send(
            first,
            query,
        ) ==> {
            &&& outcome.is_win
            &&& first.response == outcome.response_view()
            &&& first.recording == (RecordingView::Counting {
                record: spin_record(outcome, identity_key(key, now_millis), now),
                game_type: GameType::Spin,
            })
            &&& query.payload is TodayFilter
        },
        spin_reply(client, state, reply) matches SpinStepView::Done(Ok(response)) ==> {
            &&& state.recording is Inserting
            &&& reply is Accepted
            &&& response == state.response
        },
        spin_reply(client, state, reply) matches SpinStepView::Send(next, page) ==> {
            &&& state.recording is Counting
            &&& next.recording is Inserting
            &&& next.response == state.response
            &&& page.payload is NewPage
        },
{
}

/// A turn of the wheel is answered with its outcome, whatever the database
/// replies: a limit reached, a rejection or a failure changes nothing of it.
/// Only a wheel that cannot be drawn from fails the request, and that
/// before the turn.
pub proof fn lemma_wheel_answer_stands(
    client: NotionClientView,
    response: WheelResponseView,
    key: Option<Seq<char>>,
    now_millis: i64,
    now: Seq<char>,
    today: Seq<char>,
    state: WheelFlowView,
    reply: StoreReplyView,
)
    ensures
        wheel_start(client, response, key, now_millis, now, today) matches WheelStepView::Done(
            answer,
        ) ==> answer == Ok::<WheelResponseView, StatusCode>(response),
        wheel_start(client, response, key, now_millis, now, today) matches WheelStepView::Send(
            first,
            query,
        ) ==> response.is_win && first.response == response && first.recording is Counting,
        wheel_reply(client, state, reply) matches WheelStepView::Done(answer) ==> answer == Ok::<
            WheelResponseView,
            StatusCode,
        >(state.response),
        wheel_reply(client, state, reply) matches WheelStepView::Send(next, page) ==> {
            &&& state.recording is Counting
            &&& next.recording is Inserting
            &&& next.response == state.response
        },
        state.recording is Inserting ==> wheel_reply(client, state, reply) == WheelStepView::Done(
            Ok(state.response),
        ),
{
}

/// The whole course of a winning spin whose key has reached the limit: the
/// query is sent and nothing else, and the answer is too many requests. Only
/// a game without a database fails earlier, and then nothing is sent at all.
pub proof fn lemma_winning_spin_at_the_limit(
    client: NotionClientView,
    outcome: SpinOutcome,
    key: Option<Seq<char>>,
    now_millis: i64,
    now: Seq<char>,
    today: Seq<char>,
    entries: Seq<RawEntryView>,
)
    requires
        outcome.is_win,
        entries.len() >= client.daily_spin_limit,
    ensures
        match spin_start(client, outcome, key, now_millis, now, today) {
            SpinStepView::Send(state, query) => {
                &&& client.database_ids.id_of(GameType::Spin) is Some
                &&& query.payload == (PayloadView::TodayFilter {
                    key: identity_key(key, now_millis),
                    game_type: GameType::Spin,
                    from: today + "T00:00:00Z"@,
                    until: today + "T23:59:59Z"@,
                })
                &&& spin_reply(client, state, StoreReplyView::Accepted(Some(entries)))
                    == SpinStepView::Done(Err(StatusCode::TooManyRequests))
            },
            SpinStepView::Done(answer) => {
                &&& client.database_ids.id_of(GameType::Spin) is None
                &&& answer == Err::<SpinResponseView, StatusCode>(StatusCode::InternalServerError)
            },
        },
{
}

/// The whole course of a turn of the wheel: whatever the database replies
/// to the query and to the page, the answer is the outcome of the turn.
pub proof fn lemma_wheel_answers_with_its_outcome(
    client: NotionClientView,
    response: WheelResponseView,
    key: Option<Seq<char>>,
    now_millis: i64,
    now: Seq<char>,
    today: Seq<char>,
    first: StoreReplyView,
    second: StoreReplyView,
)
    ensures
        match wheel_start(client, response, key, now_millis, now, today) {
            WheelStepView::Done(answer) => answer == Ok::<WheelResponseView, StatusCode>(
                response,
            ),
            WheelStepView::Send(counting, _) => match wheel_reply(client, counting, first) {
                WheelStepView::Done(answer) => answer == Ok::<WheelResponseView, StatusCode>(
                    response,
                ),
                WheelStepView::Send(inserting, _) => wheel_reply(client, inserting, second)
                    == WheelStepView::Done(Ok(response)),
            },
        },
{
}

/// The whole course of a winning spin: it is answered with its outcome only
/// after the query showed the limit not reached and the database accepted
/// the page.
pub proof fn lemma_winning_spin_answered_after_record(
    client: NotionClientView,
    outcome: SpinOutcome,
    key: Option<Seq<char>>,
    now_millis: i64,
    now: Seq<char>,
    today: Seq<char>,
    first: StoreReplyView,
    second: StoreReplyView,
)
    requires
        outcome.is_win,
    ensures
        match spin_start(client, outcome, key, now_millis, now, today) {
            SpinStepView::Done(answer) => answer is Err,
            SpinStepView::Send(counting, _) => match spin_reply(client, counting, first) {
                SpinStepView::Done(answer) => answer is Err,
                SpinStepView::Send(inserting, page) => {
                    &&& first matches StoreReplyView::Accepted(Some(entries))
                    &&& entries.len() < client.daily_spin_limit
                    &&& page.payload == PayloadView::NewPage {
                        database_id: client.database_ids.id_of(GameType::Spin)->0,
                        game_type: GameType::Spin,
                        properties: properties_of(
                            spin_record(outcome, identity_key(key, now_millis), now),
                        ),
                    }
                    &&& spin_reply(client, inserting, second) == if second is Accepted {
                        SpinStepView::Done(Ok(outcome.response_view()))
                    } else {
                        SpinStepView::Done(Err(StatusCode::InternalServerError))
                    }
                },
            },
        },
{
}

/// The limit of a win is asked about for the key of the win, for its own
/// game, and for the day from its first second to its last, both included:
/// what another key, the other game or another day has recorded is not asked
/// for, and so does not count.
pub proof fn lemma_limit_is_asked_of_key_game_and_day(
    client: NotionClientView,
    outcome: SpinOutcome,
    response: WheelResponseView,
    key: Option<Seq<char>>,
    now_millis: i64,
    now: Seq<char>,
    today: Seq<char>,
)
    ensures
        spin_start(client, outcome, key, now_millis, now, today) matches SpinStepView::Send(
            _,
            query,
        ) ==> query.url == crate::notion::query_url(
            client.database_ids.id_of(GameType::Spin)->0,
        ) && query.payload == (PayloadView::TodayFilter {
            key: identity_key(key, now_millis),
            game_type: GameType::Spin,
            from: today + "T00:00:00Z"@,
            until: today + "T23:59:59Z"@,
        }),
        wheel_start(client, response, key, now_millis, now, today) matches WheelStepView::Send(
            _,
            query,
        ) ==> query.url == crate::notion::query_url(
            client.database_ids.id_of(GameType::Wheel)->0,
        ) && query.payload == (PayloadView::TodayFilter {
            key: identity_key(key, now_millis),
            game_type: GameType::Wheel,
            from: today + "T00:00:00Z"@,
            until: today + "T23:59:59Z"@,
        }),
{
}

/// Either game is answered with the second reply at the latest.
pub proof fn lemma_answer_comes_with_second_reply(
    client: NotionClientView,
    spin: SpinFlowView,
    wheel: WheelFlowView,
    first: StoreReplyView,
    second: StoreReplyView,
)
    ensures
        spin_reply(client, spin, first) matches SpinStepView::Send(next, _) ==> spin_reply(
            client,
            next,
            second,
        ) is Done,
        wheel_reply(client, wheel, first) matches WheelStepView::Send(next, _) ==> wheel_reply(
            client,
            next,
            second,
        ) is Done,
{
}

/// The first step for the record of a win: see [`record_start`].
pub fn record_win(client: &NotionClient, record: SpinResult, game_type: GameType, today: &str) -> (step:
    RecordStep)
    ensures
        step@ == record_start(client@, record@, game_type, today@),
{
    match client.limit_query(record.key.as_str(), game_type, today) {
        Ok(query) => RecordStep::Send(Recording::Counting { record, game_type }, query),
        Err(error) => RecordStep::Done(Err(error)),
    }
}

/// The step for the record of a win that follows a reply: see
/// [`record_reply`].
pub fn record_win_reply(client: &NotionClient, state: Recording, reply: StoreReply) -> (step:
    RecordStep)
    ensures
        step@ == record_reply(client@, state@, reply@),
{
    match state {
        Recording::Counting { record, game_type } => {
            match client.has_reached_spin_limit(reply) {
                Err(error) => RecordStep::Done(Err(error)),
                Ok(true) => RecordStep::Done(Err(Error::SpinLimitReached)),
                Ok(false) => match client.create_entry(&record, game_type) {
                    Ok(page) => RecordStep::Send(Recording::Inserting, page),
                    Err(error) => RecordStep::Done(Err(error)),
                },
            }
        },
        Recording::Inserting => RecordStep::Done(NotionClient::write_reply(reply)),
    }
}

/// The step of a spin that follows a step of its record.
fn spin_next(response: SpinResponse, recording: RecordStep) -> (step: SpinStep)
    ensures
        step@ == spin_step(response@, recording@),
{
    match recording {
        RecordStep::Send(state, request) => SpinStep::Send(
            SpinFlow { response, recording: state },
            request,
        ),
        RecordStep::Done(Ok(_)) => SpinStep::Done(Ok(response)),
        RecordStep::Done(Err(Error::SpinLimitReached)) => SpinStep::Done(
            Err(StatusCode::TooManyRequests),
        ),
        RecordStep::Done(Err(_)) => SpinStep::Done(Err(StatusCode::InternalServerError)),
    }
}

/// The step of a turn of the wheel that follows a step of its record.
fn wheel_next(response: WheelResponse, recording: RecordStep) -> (step: WheelStep)
    ensures
        step@ == wheel_step(response@, recording@),
{
    match recording {
        RecordStep::Send(state, request) => WheelStep::Send(
            WheelFlow { response, recording: state },
            request,
        ),
        // Fire-and-forget approach: the response is returned regardless
        RecordStep::Done(_) => WheelStep::Done(Ok(response)),
    }
}

/// The first step of a spin whose outcome is drawn here. The caller decides
/// by its own draw whether the spin wins, and hands in `win`. For a win the
/// clock is read: for the record's moment, for the day of the limit, and for
/// the key where the request brings none.
pub fn spin_result(client: &NotionClient, rng: &mut SmallRng, request: SpinRequest, win: bool) -> (step:
    SpinStep)
    ensures
        exists|outcome: SpinOutcome, now_millis: i64, now: Seq<char>, today: Seq<char>|
            outcome.valid() && outcome.is_win == win && step@ == #[trigger] spin_start(
                client@,
                outcome,
                option_text(request.key),
                now_millis,
                now,
                today,
            ),
        !win ==> step@ is Done && step@->Done_0 is Ok,
        win ==> *final(rng) == *old(rng),
{
    let outcome = generate_spin(rng, win);
    if outcome.is_win {
        let millis: i64 = match &request.key {
            Some(_) => 0,
            None => now_millis(),
        };
        let now = now_rfc3339();
        let today = today_utc();
        spin_result_on(client, outcome, request, millis, now, today.as_str())
    } else {
        spin_result_on(client, outcome, request, 0, String::new(), "")
    }
}

/// The first step of a spin with the given outcome, at the given moment: the
/// moment in milliseconds, the same as an RFC 3339 string, and its day. See
/// [`spin_start`].
pub fn spin_result_on(
    client: &NotionClient,
    outcome: SpinOutcome,
    request: SpinRequest,
    now_millis: i64,
    now: String,
    today: &str,
) -> (step: SpinStep)
    ensures
        step@ == spin_start(
            client@,
            outcome,
            option_text(request.key),
            now_millis,
            now@,
            today@,
        ),
{
    if outcome.is_win {
        let record = SpinResult {
            key: resolve_key(request.key, now_millis),
            datetime: now,
            number: outcome.number(),
            is_win: outcome.is_win,
            checked: false,
            game_type: Some(GameType::Spin.name()),
        };
        let recording = record_win(client, record, GameType::Spin, today);
        spin_next(outcome.response(), recording)
    } else {
        SpinStep::Done(Ok(outcome.response()))
    }
}

/// The step of a spin that follows a reply of the database. See
/// [`spin_reply`].
pub fn spin_result_reply(client: &NotionClient, state: SpinFlow, reply: StoreReply) -> (step:
    SpinStep)
    ensures
        step@ == spin_reply(client@, state@, reply@),
{
    let recording = record_win_reply(client, state.recording, reply);
    spin_next(state.response, recording)
}

/// The first step of a turn of the wheel whose outcome is drawn here. A
/// wheel whose weights add up to zero is a defect of the configuration: the
/// request fails before anything is drawn. For a win the clock is read: for
/// the record's moment, for the day of the limit, and for the key where the
/// request brings none.
pub fn wheel_result(
    client: &NotionClient,
    wheel: &Wheel,
    rng: &mut SmallRng,
    request: WheelRequest,
) -> (step: WheelStep)
    ensures
        wheel.total() == 0 ==> step@ == WheelStepView::Done(
            Err(StatusCode::InternalServerError),
        ) && *final(rng) == *old(rng),
        wheel.total() > 0 ==> exists|
            draw: int,
            now_millis: i64,
            now: Seq<char>,
            today: Seq<char>,
        |
            0 <= draw < wheel.total() && step@ == #[trigger] wheel_start(
                client@,
                wheel.outcome_of(draw),
                option_text(request.key),
                now_millis,
                now,
                today,
            ),
{
    let response = match wheel.generate_wheel(rng) {
        Ok(response) => response,
        Err(_) => {
            return WheelStep::Done(Err(StatusCode::InternalServerError));
        },
    };
    if response.is_win {
        let millis: i64 = match &request.key {
            Some(_) => 0,
            None => now_millis(),
        };
        let now = now_rfc3339();
        let today = today_utc();
        wheel_result_on(client, response, request, millis, now, today.as_str())
    } else {
        wheel_result_on(client, response, request, 0, String::new(), "")
    }
}

/// The first step of a turn of the wheel with the given outcome, at the
/// given moment: the moment in milliseconds, the same as an RFC 3339 string,
/// and its day. See [`wheel_start`].
pub fn wheel_result_on(
    client: &NotionClient,
    response: WheelResponse,
    request: WheelRequest,
    now_millis: i64,
    now: String,
    today: &str,
) -> (step: WheelStep)
    ensures
        step@ == wheel_start(
            client@,
            response@,
            option_text(request.key),
            now_millis,
            now@,
            today@,
        ),
{
    if response.is_win {
        let record = SpinResult {
            key: resolve_key(request.key, now_millis),
            datetime: now,
            number: #[verifier::truncate] (response.prize_index as i32),
            is_win: response.is_win,
            checked: false,
            game_type: Some(GameType::Wheel.name()),
        };
        let recording = record_win(client, record, GameType::Wheel, today);
        wheel_next(response, recording)
    } else {
        WheelStep::Done(Ok(response))
    }
}

/// The step of a turn of the wheel that follows a reply of the database.
/// See [`wheel_reply`].
pub fn wheel_result_reply(client: &NotionClient, state: WheelFlow, reply: StoreReply) -> (step:
    WheelStep)
    ensures
        step@ == wheel_reply(client@, state@, reply@),
{
    let recording = record_win_reply(client, state.recording, reply);
    wheel_next(state.response, recording)
}

} // verus!
