use notion_crud::config::DatabaseIds;
use notion_crud::handlers::{
    create_spin_result, spin_result, spin_result_on, spin_result_reply, wheel_result,
    wheel_result_on, wheel_result_reply, Recording, SpinStep, StatusCode, WheelStep,
};
use notion_crud::models::{
    GameType, NotionProperties, SpinRequest, SpinResponse, SpinResult, WheelRequest,
    WheelResponse,
};
use notion_crud::notion::NotionClient;
use notion_crud::repository::{Payload, RawEntry, StoreReply, StoreRequest};
use notion_crud::spin::SpinOutcome;
use notion_crud::wheel::{Slot, Wheel};
use rand::rngs::SmallRng;
use rand::{Rng, SeedableRng};

const NOW: &str = "2024-05-17T10:00:00+00:00";
const TODAY: &str = "2024-05-17";

/// One page of the database in memory.
struct Page {
    table: String,
    game_type: GameType,
    properties: NotionProperties,
}

/// A database in memory. It can be told to fail the queries or the inserts.
struct Store {
    pages: Vec<Page>,
    requests: Vec<StoreRequest>,
    query_reply: Option<fn() -> StoreReply>,
    insert_reply: Option<fn() -> StoreReply>,
}

impl Store {
    fn new() -> Store {
        Store { pages: vec![], requests: vec![], query_reply: None, insert_reply: None }
    }

    fn answer(&mut self, request: StoreRequest) -> StoreReply {
        let reply = match &request.payload {
            Payload::TodayFilter { key, game_type, from, until } => match self.query_reply {
                Some(reply) => reply(),
                None => {
                    let table = request
                        .url
                        .strip_prefix("https://api.notion.com/v1/databases/")
                        .and_then(|rest| rest.strip_suffix("/query"))
                        .unwrap();
                    StoreReply::Accepted(Some(
                        self.pages
                            .iter()
                            .filter(|page| {
                                let moment = page.properties.datetime.date.start.as_str();
                                page.table == table
                                    && page.game_type == *game_type
                                    && page.properties.key.title[0].text.content == *key
                                    && from.as_str() <= moment
                                    && moment <= until.as_str()
                            })
                            .map(|page| RawEntry {
                                key: Some(page.properties.key.title[0].text.content.clone()),
                                datetime: Some(page.properties.datetime.date.start.clone()),
                                number: Some(page.properties.number.number as i64),
                                is_win: Some(page.properties.is_win.checkbox),
                                checked: Some(page.properties.checked.checkbox),
                            })
                            .collect(),
                    ))
                }
            },
            Payload::NewPage { database_id, game_type, properties } => match self.insert_reply {
                Some(reply) => reply(),
                None => {
                    self.pages.push(Page {
                        table: database_id.clone(),
                        game_type: *game_type,
                        properties: copy(properties),
                    });
                    StoreReply::Accepted(None)
                }
            },
            _ => StoreReply::Rejected("unexpected request".to_string()),
        };
        self.requests.push(request);
        reply
    }
}

fn copy(properties: &NotionProperties) -> NotionProperties {
    let record = SpinResult {
        key: properties.key.title[0].text.content.clone(),
        datetime: properties.datetime.date.start.clone(),
        number: properties.number.number,
        is_win: properties.is_win.checkbox,
        checked: properties.checked.checkbox,
        game_type: None,
    };
    client(1).build_properties(&record)
}

fn client(limit: i32) -> NotionClient {
    let ids = DatabaseIds { spin: Some("db-spin".to_string()), wheel: Some("db-wheel".to_string()) };
    NotionClient::new(ids, "token-1".to_string(), limit)
}

fn client_without_databases() -> NotionClient {
    NotionClient::new(DatabaseIds { spin: None, wheel: None }, "token-1".to_string(), 1)
}

fn run_spin(client: &NotionClient, store: &mut Store, first: SpinStep) -> Result<SpinResponse, StatusCode> {
    let mut step = first;
    loop {
        match step {
            SpinStep::Send(state, request) => {
                let reply = store.answer(request);
                step = spin_result_reply(client, state, reply);
            }
            SpinStep::Done(answer) => return answer,
        }
    }
}

fn run_wheel(client: &NotionClient, store: &mut Store, first: WheelStep) -> Result<WheelResponse, StatusCode> {
    let mut step = first;
    loop {
        match step {
            WheelStep::Send(state, request) => {
                let reply = store.answer(request);
                step = wheel_result_reply(client, state, reply);
            }
            WheelStep::Done(answer) => return answer,
        }
    }
}

fn winning_spin() -> SpinOutcome {
    SpinOutcome::from_draw(true, 0, 0, 0)
}

fn key(text: &str) -> Option<String> {
    Some(text.to_string())
}

fn spin_for(client: &NotionClient, store: &mut Store, outcome: SpinOutcome, identity: Option<String>) -> Result<SpinResponse, StatusCode> {
    let first = spin_result_on(
        client,
        outcome,
        SpinRequest { key: identity },
        1_715_940_000_123,
        NOW.to_string(),
        TODAY,
    );
    run_spin(client, store, first)
}

fn wheel_for(client: &NotionClient, store: &mut Store, response: WheelResponse, identity: Option<String>) -> Result<WheelResponse, StatusCode> {
    let first = wheel_result_on(
        client,
        response,
        WheelRequest { key: identity },
        1_715_940_000_123,
        NOW.to_string(),
        TODAY,
    );
    run_wheel(client, store, first)
}

fn three_fives() -> SpinResponse {
    SpinResponse { numbers: vec!["5".to_string(), "5".to_string(), "5".to_string()], is_win: true }
}

fn small_credit() -> WheelResponse {
    WheelResponse { prize_index: 2, prize_name: "credit 50".to_string(), is_win: true }
}

fn failed() -> StoreReply {
    StoreReply::Failed("connection refused".to_string())
}

fn rejected() -> StoreReply {
    StoreReply::Rejected("validation_error".to_string())
}

fn shapeless() -> StoreReply {
    StoreReply::Accepted(None)
}

#[test]
fn second_win_of_the_day_is_refused() {
    let client = client(1);
    let mut store = Store::new();
    let first = spin_for(&client, &mut store, winning_spin(), key("u1"));
    assert_eq!(first, Ok(three_fives()));
    assert_eq!(store.pages.len(), 1);
    assert_eq!(store.pages[0].table, "db-spin");
    assert_eq!(store.pages[0].properties.key.title[0].text.content, "u1");
    assert_eq!(store.pages[0].properties.datetime.date.start, NOW);
    assert_eq!(store.pages[0].properties.number.number, 555);
    assert!(store.pages[0].properties.is_win.checkbox);
    assert!(!store.pages[0].properties.checked.checkbox);
    assert_eq!(store.requests.len(), 2);

    let second = spin_for(&client, &mut store, winning_spin(), key("u1"));
    assert_eq!(second, Err(StatusCode::TooManyRequests));
    assert_eq!(store.pages.len(), 1);
    assert_eq!(store.requests.len(), 3);
    assert!(store.requests[2].expects_entries());
}

#[test]
fn certain_win_is_recorded_once_a_day() {
    let client = client(1);
    let mut store = Store::new();
    let mut rng = SmallRng::seed_from_u64(31);
    let win_probability = 1.0;

    let win = rng.gen::<f64>() < win_probability;
    let first = spin_result(&client, &mut rng, SpinRequest { key: key("u1") }, win);
    assert_eq!(run_spin(&client, &mut store, first), Ok(three_fives()));
    assert_eq!(store.pages.len(), 1);

    let win = rng.gen::<f64>() < win_probability;
    let second = spin_result(&client, &mut rng, SpinRequest { key: key("u1") }, win);
    assert_eq!(run_spin(&client, &mut store, second), Err(StatusCode::TooManyRequests));
    assert_eq!(store.pages.len(), 1);
}

#[test]
fn no_chance_to_win_records_nothing() {
    let client = client(1);
    let mut store = Store::new();
    let mut rng = SmallRng::seed_from_u64(32);
    let win_probability = 0.0;
    for _ in 0..1_000 {
        let win = rng.gen::<f64>() < win_probability;
        let first = spin_result(&client, &mut rng, SpinRequest { key: key("u1") }, win);
        let answer = run_spin(&client, &mut store, first).unwrap();
        assert!(!answer.is_win);
        assert_ne!(answer.numbers, three_fives().numbers);
    }
    assert!(store.requests.is_empty());
}

#[test]
fn limit_counts_each_key_apart() {
    let client = client(1);
    let mut store = Store::new();
    assert_eq!(spin_for(&client, &mut store, winning_spin(), key("u1")), Ok(three_fives()));
    assert_eq!(spin_for(&client, &mut store, winning_spin(), key("u2")), Ok(three_fives()));
    assert_eq!(
        spin_for(&client, &mut store, winning_spin(), key("u1")),
        Err(StatusCode::TooManyRequests)
    );
    assert_eq!(store.pages.len(), 2);
}

#[test]
fn limit_of_three_allows_three_wins() {
    let client = client(3);
    let mut store = Store::new();
    for _ in 0..3 {
        assert_eq!(spin_for(&client, &mut store, winning_spin(), key("u1")), Ok(three_fives()));
    }
    for _ in 0..2 {
        assert_eq!(
            spin_for(&client, &mut store, winning_spin(), key("u1")),
            Err(StatusCode::TooManyRequests)
        );
    }
    assert_eq!(store.pages.len(), 3);
}

#[test]
fn limit_counts_only_the_day() {
    let client = client(1);
    let mut store = Store::new();
    let yesterday = spin_result_on(
        &client,
        winning_spin(),
        SpinRequest { key: key("u1") },
        0,
        "2024-05-16T23:59:59+00:00".to_string(),
        "2024-05-16",
    );
    assert_eq!(run_spin(&client, &mut store, yesterday), Ok(three_fives()));
    assert_eq!(spin_for(&client, &mut store, winning_spin(), key("u1")), Ok(three_fives()));
    assert_eq!(store.pages.len(), 2);
}

#[test]
fn spin_without_win_asks_nothing_of_the_database() {
    let client = client(1);
    let mut store = Store::new();
    let outcome = SpinOutcome::from_draw(false, 1, 2, 3);
    let answer = spin_for(&client, &mut store, outcome, key("u1"));
    assert_eq!(
        answer,
        Ok(SpinResponse {
            numbers: vec!["1".to_string(), "2".to_string(), "3".to_string()],
            is_win: false,
        })
    );
    assert!(store.requests.is_empty());
    assert!(store.pages.is_empty());
}

#[test]
fn spin_without_win_needs_no_database() {
    let client = client_without_databases();
    let mut store = Store::new();
    let outcome = SpinOutcome::from_draw(false, 5, 5, 5);
    let answer = spin_for(&client, &mut store, outcome, None);
    assert_eq!(
        answer,
        Ok(SpinResponse {
            numbers: vec!["0".to_string(), "5".to_string(), "5".to_string()],
            is_win: false,
        })
    );
}

#[test]
fn winning_spin_fails_where_the_record_is_lost() {
    let client = client(1);
    for reply in [failed as fn() -> StoreReply, rejected] {
        let mut store = Store::new();
        store.insert_reply = Some(reply);
        let answer = spin_for(&client, &mut store, winning_spin(), key("u1"));
        assert_eq!(answer, Err(StatusCode::InternalServerError));
        assert_eq!(store.requests.len(), 2);
    }
}

#[test]
fn winning_spin_fails_where_the_limit_cannot_be_checked() {
    let client = client(1);
    for reply in [failed as fn() -> StoreReply, rejected, shapeless] {
        let mut store = Store::new();
        store.query_reply = Some(reply);
        let answer = spin_for(&client, &mut store, winning_spin(), key("u1"));
        assert_eq!(answer, Err(StatusCode::InternalServerError));
        assert_eq!(store.requests.len(), 1);
        assert!(store.pages.is_empty());
    }
}

#[test]
fn winning_spin_fails_without_a_database() {
    let client = client_without_databases();
    let mut store = Store::new();
    let answer = spin_for(&client, &mut store, winning_spin(), key("u1"));
    assert_eq!(answer, Err(StatusCode::InternalServerError));
    assert!(store.requests.is_empty());
}

#[test]
fn winning_spin_without_a_key_is_recorded_under_the_moment() {
    let client = client(1);
    let mut store = Store::new();
    assert_eq!(spin_for(&client, &mut store, winning_spin(), None), Ok(three_fives()));
    assert_eq!(store.pages[0].properties.key.title[0].text.content, "1715940000123");
}

#[test]
fn winning_spin_waits_for_the_query_first() {
    let client = client(1);
    let first = spin_result_on(
        &client,
        winning_spin(),
        SpinRequest { key: key("u1") },
        0,
        NOW.to_string(),
        TODAY,
    );
    match first {
        SpinStep::Send(state, request) => {
            assert_eq!(state.response, three_fives());
            assert_eq!(
                state.recording,
                Recording::Counting {
                    record: SpinResult {
                        key: "u1".to_string(),
                        datetime: NOW.to_string(),
                        number: 555,
                        is_win: true,
                        checked: false,
                        game_type: Some("Spin".to_string()),
                    },
                    game_type: GameType::Spin,
                }
            );
            assert!(request.expects_entries());
        }
        SpinStep::Done(answer) => panic!("answered too early: {:?}", answer),
    }
}

#[test]
fn spin_with_the_generator_and_the_clock() {
    let client = client(1);
    let mut store = Store::new();
    let mut rng = SmallRng::seed_from_u64(4);
    let first = spin_result(&client, &mut rng, SpinRequest { key: key("u1") }, true);
    assert_eq!(run_spin(&client, &mut store, first), Ok(three_fives()));
    assert_eq!(store.pages.len(), 1);
    assert_eq!(store.pages[0].properties.number.number, 555);
    assert!(!store.pages[0].properties.datetime.date.start.is_empty());

    let lost = spin_result(&client, &mut rng, SpinRequest { key: None }, false);
    match run_spin(&client, &mut store, lost) {
        Ok(response) => {
            assert!(!response.is_win);
            assert_eq!(response.numbers.len(), 3);
            assert_ne!(response.numbers, three_fives().numbers);
            for digit in &response.numbers {
                assert_eq!(digit.len(), 1);
                assert!(digit.as_bytes()[0].is_ascii_digit());
            }
        }
        Err(status) => panic!("a spin without a win failed: {:?}", status),
    }
    assert_eq!(store.pages.len(), 1);
}

#[test]
fn spin_without_key_takes_the_clock_for_one() {
    let client = client(1);
    let mut store = Store::new();
    let mut rng = SmallRng::seed_from_u64(4);
    let first = spin_result(&client, &mut rng, SpinRequest { key: None }, true);
    assert_eq!(run_spin(&client, &mut store, first), Ok(three_fives()));
    let recorded = &store.pages[0].properties.key.title[0].text.content;
    let millis: i64 = recorded.parse().unwrap();
    assert!(millis > 1_600_000_000_000);
}

#[test]
fn winning_turn_is_recorded_with_the_index_of_its_slot() {
    let client = client(1);
    let mut store = Store::new();
    assert_eq!(wheel_for(&client, &mut store, small_credit(), key("u1")), Ok(small_credit()));
    assert_eq!(store.pages.len(), 1);
    assert_eq!(store.pages[0].table, "db-wheel");
    assert_eq!(store.pages[0].properties.key.title[0].text.content, "u1");
    assert_eq!(store.pages[0].properties.number.number, 2);
    assert!(store.pages[0].properties.is_win.checkbox);
    assert!(!store.pages[0].properties.checked.checkbox);
}

#[test]
fn winning_turn_is_answered_though_the_limit_is_reached() {
    let client = client(1);
    let mut store = Store::new();
    assert_eq!(wheel_for(&client, &mut store, small_credit(), key("u1")), Ok(small_credit()));
    assert_eq!(wheel_for(&client, &mut store, small_credit(), key("u1")), Ok(small_credit()));
    assert_eq!(store.pages.len(), 1);
}

#[test]
fn winning_turn_is_answered_though_the_database_fails() {
    let client = client(1);
    for reply in [failed as fn() -> StoreReply, rejected, shapeless] {
        let mut store = Store::new();
        store.query_reply = Some(reply);
        assert_eq!(wheel_for(&client, &mut store, small_credit(), key("u1")), Ok(small_credit()));
        assert_eq!(store.requests.len(), 1);
    }
    for reply in [failed as fn() -> StoreReply, rejected] {
        let mut store = Store::new();
        store.insert_reply = Some(reply);
        assert_eq!(wheel_for(&client, &mut store, small_credit(), key("u1")), Ok(small_credit()));
        assert_eq!(store.requests.len(), 2);
        assert!(store.pages.is_empty());
    }
}

#[test]
fn winning_turn_is_answered_without_a_database() {
    let client = client_without_databases();
    let mut store = Store::new();
    assert_eq!(wheel_for(&client, &mut store, small_credit(), None), Ok(small_credit()));
    assert!(store.requests.is_empty());
}

#[test]
fn turn_without_win_asks_nothing_of_the_database() {
    let client = client(1);
    let mut store = Store::new();
    let response = WheelResponse { prize_index: 3, prize_name: "nothing".to_string(), is_win: false };
    let answer = wheel_for(&client, &mut store, response, key("u1"));
    assert_eq!(
        answer,
        Ok(WheelResponse { prize_index: 3, prize_name: "nothing".to_string(), is_win: false })
    );
    assert!(store.requests.is_empty());
}

#[test]
fn wheel_with_the_generator_and_the_clock() {
    let client = client(1_000_000);
    let wheel = Wheel::standard();
    let mut store = Store::new();
    let mut rng = SmallRng::seed_from_u64(12);
    let mut wins = 0;
    for _ in 0..2_000 {
        let first = wheel_result(&client, &wheel, &mut rng, WheelRequest { key: key("u1") });
        let answer = run_wheel(&client, &mut store, first).unwrap();
        assert!(answer.prize_index != 0 && answer.prize_index != 4);
        assert_eq!(answer.is_win, answer.prize_index == 2 || answer.prize_index == 6);
        if answer.is_win {
            wins += 1;
            let page = &store.pages[store.pages.len() - 1].properties;
            assert_eq!(page.number.number, answer.prize_index as i32);
        }
    }
    assert!(wins > 0);
    assert_eq!(store.pages.len(), wins);
}

#[test]
fn wheel_that_cannot_be_drawn_from_fails_the_request() {
    let client = client(1);
    let slots = vec![Slot { name: "never".to_string(), weight: 0 }];
    let wheel = Wheel::new(slots, vec![0]).unwrap();
    let mut rng = SmallRng::seed_from_u64(12);
    let untouched = rng.clone();
    let first = wheel_result(&client, &wheel, &mut rng, WheelRequest { key: None });
    assert_eq!(first, WheelStep::Done(Err(StatusCode::InternalServerError)));
    assert_eq!(rng, untouched);
}

fn client_with_one_table(limit: i32) -> NotionClient {
    let ids = DatabaseIds::resolve(Some("db-all".to_string()), None, None).unwrap();
    NotionClient::new(ids, "token-1".to_string(), limit)
}

fn spin_at(client: &NotionClient, store: &mut Store, moment: &str) -> Result<SpinResponse, StatusCode> {
    let first = spin_result_on(
        client,
        winning_spin(),
        SpinRequest { key: key("u1") },
        0,
        moment.to_string(),
        TODAY,
    );
    run_spin(client, store, first)
}

#[test]
fn records_of_the_other_game_do_not_count() {
    // Both games share one table.
    let client = client_with_one_table(1);
    let mut store = Store::new();
    assert_eq!(wheel_for(&client, &mut store, small_credit(), key("u1")), Ok(small_credit()));
    assert_eq!(store.pages.len(), 1);
    assert_eq!(store.pages[0].table, "db-all");
    assert_eq!(store.pages[0].game_type, GameType::Wheel);

    assert_eq!(spin_for(&client, &mut store, winning_spin(), key("u1")), Ok(three_fives()));
    assert_eq!(store.pages.len(), 2);
    assert_eq!(store.pages[1].table, "db-all");
    assert_eq!(store.pages[1].game_type, GameType::Spin);

    assert_eq!(
        spin_for(&client, &mut store, winning_spin(), key("u1")),
        Err(StatusCode::TooManyRequests)
    );
    assert_eq!(wheel_for(&client, &mut store, small_credit(), key("u1")), Ok(small_credit()));
    assert_eq!(store.pages.len(), 2);
}

#[test]
fn records_of_other_keys_days_and_games_leave_the_limit_unreached() {
    let client = client_with_one_table(1);
    let mut store = Store::new();
    // another key
    assert_eq!(spin_for(&client, &mut store, winning_spin(), key("u2")), Ok(three_fives()));
    // another game
    assert_eq!(wheel_for(&client, &mut store, small_credit(), key("u1")), Ok(small_credit()));
    // another day
    let yesterday = spin_result_on(
        &client,
        winning_spin(),
        SpinRequest { key: key("u1") },
        0,
        "2024-05-16T23:59:59Z".to_string(),
        "2024-05-16",
    );
    assert_eq!(run_spin(&client, &mut store, yesterday), Ok(three_fives()));
    let tomorrow = spin_result_on(
        &client,
        winning_spin(),
        SpinRequest { key: key("u1") },
        0,
        "2024-05-18T00:00:00Z".to_string(),
        "2024-05-18",
    );
    assert_eq!(run_spin(&client, &mut store, tomorrow), Ok(three_fives()));
    assert_eq!(store.pages.len(), 4);

    assert_eq!(spin_for(&client, &mut store, winning_spin(), key("u1")), Ok(three_fives()));
    assert_eq!(store.pages.len(), 5);
}

#[test]
fn the_day_holds_its_first_and_its_last_second() {
    for moment in ["2024-05-17T00:00:00Z", "2024-05-17T23:59:59Z"] {
        let client = client(1);
        let mut store = Store::new();
        assert_eq!(spin_at(&client, &mut store, moment), Ok(three_fives()));
        assert_eq!(spin_at(&client, &mut store, "2024-05-17T12:00:00Z"), Err(StatusCode::TooManyRequests));
        assert_eq!(store.pages.len(), 1);
    }
}

#[test]
fn created_record_is_stored_though_the_key_is_at_the_limit() {
    let client = client(1);
    let mut store = Store::new();
    assert_eq!(spin_for(&client, &mut store, winning_spin(), key("u1")), Ok(three_fives()));
    assert_eq!(
        spin_for(&client, &mut store, winning_spin(), key("u1")),
        Err(StatusCode::TooManyRequests)
    );

    // The gateway creates what it is given: only the flows guard the limit.
    let record = SpinResult {
        key: "u1".to_string(),
        datetime: NOW.to_string(),
        number: 555,
        is_win: true,
        checked: false,
        game_type: Some("Spin".to_string()),
    };
    let page = client.create_entry(&record, GameType::Spin).unwrap();
    let written = NotionClient::write_reply(store.answer(page));
    assert_eq!(written, Ok(()));
    assert_eq!(create_spin_result(written), Ok(StatusCode::Created));
    assert_eq!(store.pages.len(), 2);
    assert_eq!(store.pages[1].properties.key.title[0].text.content, "u1");
}

#[test]
fn winning_spin_asks_about_the_day_of_the_clock() {
    let client = client(1);
    let mut rng = SmallRng::seed_from_u64(4);
    match spin_result(&client, &mut rng, SpinRequest { key: key("u1") }, true) {
        SpinStep::Send(state, request) => {
            assert_eq!(request.url, "https://api.notion.com/v1/databases/db-spin/query");
            match (state.recording, request.payload) {
                (
                    Recording::Counting { record, game_type: GameType::Spin },
                    Payload::TodayFilter { key, game_type: GameType::Spin, from, until },
                ) => {
                    assert_eq!(key, "u1");
                    assert_eq!(record.key, "u1");
                    let day = from.strip_suffix("T00:00:00Z").unwrap();
                    assert_eq!(until.strip_suffix("T23:59:59Z"), Some(day));
                    let bytes = day.as_bytes();
                    assert_eq!(bytes.len(), 10);
                    assert_eq!((bytes[4], bytes[7]), (b'-', b'-'));
                    assert!(record.datetime.starts_with(day));
                }
                other => panic!("unexpected step: {:?}", other),
            }
        }
        SpinStep::Done(answer) => panic!("answered too early: {:?}", answer),
    }
}
