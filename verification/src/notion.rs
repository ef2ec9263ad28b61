//! The gateway to the Notion databases: which request each operation sends,
//! and what each reply means. The gateway applies no rule of the games: it
//! creates the record that it is given, whatever the key has recorded
//! before. It carries the question of the daily limit to the database and
//! reads the answer; what follows from the answer the endpoints decide.

use crate::config::{DatabaseIds, DatabaseIdsView};
use crate::models::{
    properties_of, record_views, GameType, NotionCheckbox, NotionDate, NotionDateContent,
    NotionNumber, NotionProperties, NotionText, NotionTextContent, NotionTitle, SpinResult,
    SpinResultView,
};
use crate::repository::{
    entry_views, unit_result_view, Error, ErrorView, Method, Payload, PayloadView, RawEntry,
    RawEntryView, StoreReply, StoreReplyView, StoreRequest, StoreRequestView,
};
use vstd::prelude::*;
use vstd::string::StringExecFns;

verus! {

/// The number of entries that a listing asks for.
pub const PAGE_SIZE: u32 = 100;

/// The configuration of the gateway: the database of each game, the token
/// that authorises the requests, and the daily limit of records per key.
pub struct NotionClient {
    database_ids: DatabaseIds,
    api_token: String,
    daily_spin_limit: i32,
}

/// What a [`NotionClient`] holds, as mathematical values.
pub struct NotionClientView {
    pub database_ids: DatabaseIdsView,
    pub api_token: Seq<char>,
    pub daily_spin_limit: i32,
}

impl View for NotionClient {
    type V = NotionClientView;

    closed spec fn view(&self) -> NotionClientView {
        NotionClientView {
            database_ids: self.database_ids@,
            api_token: self.api_token@,
            daily_spin_limit: self.daily_spin_limit,
        }
    }
}

/// The record that an entry of a reply stands for, if the entry has the shape
/// of a record: a key, a moment, a number that an `i32` holds, and both
/// flags. Nothing is made up for what an entry lacks. The game is the one
/// that was asked for.
pub open spec fn entry_of(raw: RawEntryView, game_type: GameType) -> Option<SpinResultView> {
    if raw.key is Some && raw.datetime is Some && raw.number is Some && i32::MIN
        <= raw.number->0 <= i32::MAX && raw.is_win is Some && raw.checked is Some {
        Some(
            SpinResultView {
                key: raw.key->0,
                datetime: raw.datetime->0,
                number: raw.number->0 as i32,
                is_win: raw.is_win->0,
                checked: raw.checked->0,
                game_type: Some(game_type.label()),
            },
        )
    } else {
        None
    }
}

/// Whether every entry of a reply has the shape of a record.
pub open spec fn all_records(raw: Seq<RawEntryView>, game_type: GameType) -> bool {
    forall|i: int| 0 <= i < raw.len() ==> (#[trigger] entry_of(raw[i], game_type)) is Some
}

/// The records that the entries of a reply stand for, in order.
pub open spec fn entries_of(raw: Seq<RawEntryView>, game_type: GameType) -> Seq<SpinResultView> {
    Seq::new(raw.len(), |i: int| entry_of(raw[i], game_type)->0)
}

/// What the reply to a write means: success, unless the request failed or
/// was rejected.
pub open spec fn write_outcome(reply: StoreReplyView) -> Result<(), ErrorView> {
    match reply {
        StoreReplyView::Failed(reason) => Err(ErrorView::HttpClient(reason)),
        StoreReplyView::Rejected(text) => Err(ErrorView::NotionApi(text)),
        StoreReplyView::Accepted(_) => Ok(()),
    }
}

/// What the reply to a query holds: its entries, unless the request failed,
/// was rejected, or was answered without a list of results.
pub open spec fn query_outcome(reply: StoreReplyView) -> Result<Seq<RawEntryView>, ErrorView> {
    match reply {
        StoreReplyView::Failed(reason) => Err(ErrorView::HttpClient(reason)),
        StoreReplyView::Rejected(text) => Err(ErrorView::NotionApi(text)),
        StoreReplyView::Accepted(None) => Err(ErrorView::NotionApi("Invalid response format"@)),
        StoreReplyView::Accepted(Some(entries)) => Ok(entries),
    }
}

/// What the reply to a listing means: the records of a game. A reply with an
/// entry that has not the shape of a record is a reply of an unknown shape,
/// and no record of it is listed.
pub open spec fn listed_entries(reply: StoreReplyView, game_type: GameType) -> Result<
    Seq<SpinResultView>,
    ErrorView,
> {
    match query_outcome(reply) {
        Ok(entries) => if all_records(entries, game_type) {
            Ok(entries_of(entries, game_type))
        } else {
            Err(ErrorView::NotionApi("Invalid response format"@))
        },
        Err(error) => Err(error),
    }
}

/// The address of a page.
pub open spec fn page_url(page_id: Seq<char>) -> Seq<char> {
    "https://api.notion.com/v1/pages/"@ + page_id
}

/// The address at which a database is queried.
pub open spec fn query_url(database_id: Seq<char>) -> Seq<char> {
    "https://api.notion.com/v1/databases/"@ + database_id + "/query"@
}

impl NotionClientView {
    /// The database of a game. A game without one is an error of the
    /// configuration, named with the game.
    pub open spec fn get_database_id(self, game_type: GameType) -> Result<Seq<char>, ErrorView> {
        match self.database_ids.id_of(game_type) {
            Some(id) => Ok(id),
            None => Err(
                ErrorView::NotionApi(
                    "No database ID configured for game type: "@ + game_type.label(),
                ),
            ),
        }
    }

    /// The value of the header that authorises a request.
    pub open spec fn authorization(self) -> Seq<char> {
        "Bearer "@ + self.api_token
    }

    /// A request of this client: the two headers are the same for all.
    pub open spec fn request(self, method: Method, url: Seq<char>, payload: PayloadView)
        -> StoreRequestView {
        StoreRequestView {
            method,
            url,
            authorization: self.authorization(),
            version: "2022-06-28"@,
            payload,
        }
    }

    /// The query for the records that a key has under a game on the day
    /// `today`: the records of that key and that game which are dated from
    /// the day's first second to its last, both included. Records of another
    /// key, another game or another day are not asked for.
    pub open spec fn limit_query(self, key: Seq<char>, game_type: GameType, today: Seq<char>)
        -> Result<StoreRequestView, ErrorView> {
        match self.get_database_id(game_type) {
            Ok(id) => Ok(
                self.request(
                    Method::Post,
                    query_url(id),
                    PayloadView::TodayFilter {
                        key,
                        game_type,
                        from: today + "T00:00:00Z"@,
                        until: today + "T23:59:59Z"@,
                    },
                ),
            ),
            Err(error) => Err(error),
        }
    }

    /// Whether the reply to [`Self::limit_query`] shows the daily limit
    /// reached: the key has at least as many records as the limit allows.
    pub open spec fn has_reached_spin_limit(self, reply: StoreReplyView) -> Result<
        bool,
        ErrorView,
    > {
        match query_outcome(reply) {
            Ok(entries) => Ok(entries.len() >= self.daily_spin_limit),
            Err(error) => Err(error),
        }
    }

    /// The request that creates the page of a record in the database of its
    /// game. Whether the key has records already plays no part.
    pub open spec fn insert_request(self, record: SpinResultView, game_type: GameType) -> Result<
        StoreRequestView,
        ErrorView,
    > {
        match self.get_database_id(game_type) {
            Ok(id) => Ok(
                self.request(
                    Method::Post,
                    "https://api.notion.com/v1/pages"@,
                    PayloadView::NewPage {
                        database_id: id,
                        game_type,
                        properties: properties_of(record),
                    },
                ),
            ),
            Err(error) => Err(error),
        }
    }

    /// The request that lists the records of a game.
    pub open spec fn get_entries(self, game_type: GameType) -> Result<
        StoreRequestView,
        ErrorView,
    > {
        match self.get_database_id(game_type) {
            Ok(id) => Ok(
                self.request(Method::Post, query_url(id), PayloadView::PageSize(PAGE_SIZE)),
            ),
            Err(error) => Err(error),
        }
    }

    /// The request that gives a page the properties of a record.
    pub open spec fn update_entry(self, page_id: Seq<char>, record: SpinResultView)
        -> StoreRequestView {
        self.request(
            Method::Patch,
            page_url(page_id),
            PayloadView::Properties(properties_of(record)),
        )
    }

    /// The request that moves a page to the archive.
    pub open spec fn delete_entry(self, page_id: Seq<char>) -> StoreRequestView {
        self.request(Method::Patch, page_url(page_id), PayloadView::Archived)
    }
}

/// The limit is reached exactly where the key has at least as many records
/// of the day as the limit allows: with a limit of `n`, the first `n` checks
/// of a day find it not reached, and every later one finds it reached.
pub proof fn lemma_limit_reached_from_count(client: NotionClientView, entries: Seq<RawEntryView>)
    ensures
        client.has_reached_spin_limit(StoreReplyView::Accepted(Some(entries))) == Ok::<
            bool,
            ErrorView,
        >(entries.len() >= client.daily_spin_limit),
{
}

/// Creating a record sends its page wherever the game has a database: the
/// gateway asks nothing first, and the reply to the page alone decides how
/// the creation ends.
pub proof fn lemma_create_sends_the_page(
    client: NotionClientView,
    record: SpinResultView,
    game_type: GameType,
)
    ensures
        client.database_ids.id_of(game_type) matches Some(id) ==> client.insert_request(
            record,
            game_type,
        ) == Ok::<StoreRequestView, ErrorView>(
            client.request(
                Method::Post,
                "https://api.notion.com/v1/pages"@,
                PayloadView::NewPage { database_id: id, game_type, properties: properties_of(record) },
            ),
        ),
        client.database_ids.id_of(game_type) is None ==> client.insert_request(
            record,
            game_type,
        ) is Err,
{
}

/// The question of the limit is asked of one key, one game and one day, the
/// day from its first second to its last with both included.
pub proof fn lemma_limit_query_names_key_game_and_day(
    client: NotionClientView,
    key: Seq<char>,
    game_type: GameType,
    today: Seq<char>,
)
    ensures
        client.limit_query(key, game_type, today) matches Ok(query) ==> query.payload == (
        PayloadView::TodayFilter {
            key,
            game_type,
            from: today + "T00:00:00Z"@,
            until: today + "T23:59:59Z"@,
        }),
{
}

/// A reply with an entry that lacks a field lists nothing, and a reply whose
/// entries all have the shape of a record lists one record for each.
pub proof fn lemma_listing_makes_nothing_up(entries: Seq<RawEntryView>, game_type: GameType, i: int)
    requires
        0 <= i < entries.len(),
    ensures
        ({
            let raw = entries[i];
            raw.key is None || raw.datetime is None || raw.number is None || raw.is_win is None
                || raw.checked is None
        }) ==> listed_entries(StoreReplyView::Accepted(Some(entries)), game_type) == Err::<
            Seq<SpinResultView>,
            ErrorView,
        >(ErrorView::NotionApi("Invalid response format"@)),
        listed_entries(StoreReplyView::Accepted(Some(entries)), game_type) matches Ok(records)
            ==> {
            &&& records.len() == entries.len()
            &&& Some(records[i].key) == entries[i].key
            &&& Some(records[i].datetime) == entries[i].datetime
            &&& Some(records[i].number as i64) == entries[i].number
            &&& Some(records[i].is_win) == entries[i].is_win
            &&& Some(records[i].checked) == entries[i].checked
        },
{
}

/// The view of a request that may have failed to be made.
pub open spec fn request_result_view(result: Result<StoreRequest, Error>) -> Result<
    StoreRequestView,
    ErrorView,
> {
    match result {
        Ok(request) => Ok(request@),
        Err(error) => Err(error@),
    }
}

/// The view of a decision that may have failed to be made.
pub open spec fn decision_view(result: Result<bool, Error>) -> Result<bool, ErrorView> {
    match result {
        Ok(decision) => Ok(decision),
        Err(error) => Err(error@),
    }
}

/// The view of a list of records that may have failed to be read.
pub open spec fn records_result_view(result: Result<Vec<SpinResult>, Error>) -> Result<
    Seq<SpinResultView>,
    ErrorView,
> {
    match result {
        Ok(records) => Ok(record_views(records@)),
        Err(error) => Err(error@),
    }
}

impl NotionClient {
    /// A gateway with the given configuration.
    pub fn new(database_ids: DatabaseIds, api_token: String, daily_spin_limit: i32) -> (client:
        Self)
        ensures
            client@ == (NotionClientView {
                database_ids: database_ids@,
                api_token: api_token@,
                daily_spin_limit,
            }),
    {
        Self { database_ids, api_token, daily_spin_limit }
    }

    /// The daily limit of records per key and game.
    pub fn daily_spin_limit(&self) -> (limit: i32)
        ensures
            limit == self@.daily_spin_limit,
    {
        self.daily_spin_limit
    }

    /// The database of a game; an error that names the game where it has
    /// none.
    pub fn get_database_id(&self, game_type: GameType) -> (id: Result<&String, Error>)
        ensures
            match id {
                Ok(found) => self@.get_database_id(game_type) == Ok::<Seq<char>, ErrorView>(
                    found@,
                ),
                Err(error) => self@.get_database_id(game_type) == Err::<Seq<char>, ErrorView>(
                    error@,
                ),
            },
    {
        match self.database_ids.get(game_type) {
            Some(id) => Ok(id),
            None => Err(
                Error::NotionApi(
                    String::from_str("No database ID configured for game type: ").concat(
                        game_type.name().as_str(),
                    ),
                ),
            ),
        }
    }

    /// A request with this client's headers.
    fn request(&self, method: Method, url: String, payload: Payload) -> (request: StoreRequest)
        ensures
            request@ == self@.request(method, url@, payload@),
    {
        StoreRequest {
            method,
            url,
            authorization: String::from_str("Bearer ").concat(self.api_token.as_str()),
            version: String::from_str("2022-06-28"),
            payload,
        }
    }

    /// The page properties under which a record is stored.
    pub fn build_properties(&self, spin_result: &SpinResult) -> (properties: NotionProperties)
        ensures
            properties@ == properties_of(spin_result@),
    {
        let title = vec![
            NotionText {
                kind: String::from_str("text"),
                text: NotionTextContent { content: spin_result.key.clone() },
            },
        ];
        let properties = NotionProperties {
            key: NotionTitle { kind: String::from_str("title"), title },
            datetime: NotionDate {
                kind: String::from_str("date"),
                date: NotionDateContent { start: spin_result.datetime.clone() },
            },
            number: NotionNumber { kind: String::from_str("number"), number: spin_result.number },
            is_win: NotionCheckbox {
                kind: String::from_str("checkbox"),
                checkbox: spin_result.is_win,
            },
            checked: NotionCheckbox {
                kind: String::from_str("checkbox"),
                checkbox: spin_result.checked,
            },
        };
        assert(properties@.key.title =~= properties_of(spin_result@).key.title);
        properties
    }

    /// The query for the records that `key` has under a game on the day
    /// `today`, which is written as the clock writes a day: `2024-05-17`.
    pub fn limit_query(&self, key: &str, game_type: GameType, today: &str) -> (query: Result<
        StoreRequest,
        Error,
    >)
        ensures
            request_result_view(query) == self@.limit_query(key@, game_type, today@),
    {
        match self.get_database_id(game_type) {
            Ok(id) => {
                let url = String::from_str("https://api.notion.com/v1/databases/").concat(
                    id.as_str(),
                ).concat("/query");
                let payload = Payload::TodayFilter {
                    key: String::from_str(key),
                    game_type,
                    from: String::from_str(today).concat("T00:00:00Z"),
                    until: String::from_str(today).concat("T23:59:59Z"),
                };
                Ok(self.request(Method::Post, url, payload))
            },
            Err(error) => Err(error),
        }
    }

    /// Whether the reply to [`Self::limit_query`] shows the daily limit
    /// reached: it does where the key has at least as many records of the
    /// day as the limit allows. A query that failed decides nothing.
    pub fn has_reached_spin_limit(&self, reply: StoreReply) -> (reached: Result<bool, Error>)
        ensures
            decision_view(reached) == self@.has_reached_spin_limit(reply@),
    {
        match reply {
            StoreReply::Failed(reason) => Err(Error::HttpClient(reason)),
            StoreReply::Rejected(text) => Err(Error::NotionApi(text)),
            StoreReply::Accepted(None) => Err(
                Error::NotionApi(String::from_str("Invalid response format")),
            ),
            StoreReply::Accepted(Some(entries)) => {
                let count: usize = entries.len();
                if self.daily_spin_limit <= 0 {
                    Ok(true)
                } else {
                    Ok(count >= self.daily_spin_limit as usize)
                }
            },
        }
    }

    /// The request that creates the page of a record in the database of its
    /// game; an error where the game has none. The record is created as it
    /// is given: no limit is asked about. The reply is read by
    /// [`Self::write_reply`].
    pub fn create_entry(&self, spin_result: &SpinResult, game_type: GameType) -> (made: Result<
        StoreRequest,
        Error,
    >)
        ensures
            request_result_view(made) == self@.insert_request(spin_result@, game_type),
    {
        match self.get_database_id(game_type) {
            Ok(id) => {
                let payload = Payload::NewPage {
                    database_id: id.clone(),
                    game_type,
                    properties: self.build_properties(spin_result),
                };
                Ok(
                    self.request(
                        Method::Post,
                        String::from_str("https://api.notion.com/v1/pages"),
                        payload,
                    ),
                )
            },
            Err(error) => Err(error),
        }
    }

    /// What the reply to a write means, be it a new page, new properties or
    /// the move to the archive: success, unless the request failed or was
    /// rejected.
    pub fn write_reply(reply: StoreReply) -> (written: Result<(), Error>)
        ensures
            unit_result_view(written) == write_outcome(reply@),
    {
        match reply {
            StoreReply::Failed(reason) => Err(Error::HttpClient(reason)),
            StoreReply::Rejected(text) => Err(Error::NotionApi(text)),
            StoreReply::Accepted(_) => Ok(()),
        }
    }

    /// The request that lists the records of a game, one page of them.
    pub fn get_entries(&self, game_type: GameType) -> (listing: Result<StoreRequest, Error>)
        ensures
            request_result_view(listing) == self@.get_entries(game_type),
    {
        match self.get_database_id(game_type) {
            Ok(id) => {
                let url = String::from_str("https://api.notion.com/v1/databases/").concat(
                    id.as_str(),
                ).concat("/query");
                Ok(self.request(Method::Post, url, Payload::PageSize(PAGE_SIZE)))
            },
            Err(error) => Err(error),
        }
    }

    /// What the reply to a listing means: the records of the game, or the
    /// error of a reply of an unknown shape where an entry lacks a field of a
    /// record or holds a number that an `i32` does not hold.
    pub fn get_entries_reply(game_type: GameType, reply: StoreReply) -> (listed: Result<
        Vec<SpinResult>,
        Error,
    >)
        ensures
            records_result_view(listed) == listed_entries(reply@, game_type),
    {
        match reply {
            StoreReply::Failed(reason) => Err(Error::HttpClient(reason)),
            StoreReply::Rejected(text) => Err(Error::NotionApi(text)),
            StoreReply::Accepted(None) => Err(
                Error::NotionApi(String::from_str("Invalid response format")),
            ),
            StoreReply::Accepted(Some(entries)) => match Self::records(&entries, game_type) {
                Some(spin_results) => Ok(spin_results),
                None => Err(Error::NotionApi(String::from_str("Invalid response format"))),
            },
        }
    }

    /// The records that the entries of a reply stand for, if every entry has
    /// the shape of a record.
    fn records(entries: &Vec<RawEntry>, game_type: GameType) -> (found: Option<Vec<SpinResult>>)
        ensures
            found is Some <==> all_records(entry_views(entries@), game_type),
            found matches Some(spin_results) ==> record_views(spin_results@) == entries_of(
                entry_views(entries@),
                game_type,
            ),
    {
        let ghost raw = entry_views(entries@);
        let mut spin_results: Vec<SpinResult> = Vec::new();
        let mut i: usize = 0;
        while i < entries.len()
            invariant
                i <= entries.len(),
                spin_results.len() == i,
                raw == entry_views(entries@),
                forall|k: int|
                    0 <= k < i ==> #[trigger] entry_of(raw[k], game_type) == Some(
                        spin_results[k]@,
                    ),
            decreases entries.len() - i,
        {
            match Self::entry(&entries[i], game_type) {
                Some(record) => {
                    spin_results.push(record);
                },
                None => {
                    assert(entry_of(raw[i as int], game_type) is None);
                    return None;
                },
            }
            i += 1;
        }
        Some(spin_results)
    }

    /// The record that an entry of a reply stands for, if the entry has the
    /// shape of a record.
    fn entry(raw: &RawEntry, game_type: GameType) -> (record: Option<SpinResult>)
        ensures
            match record {
                Some(found) => entry_of(raw@, game_type) == Some(found@),
                None => entry_of(raw@, game_type) is None,
            },
    {
        let key = match &raw.key {
            Some(key) => key.clone(),
            None => {
                return None;
            },
        };
        let datetime = match &raw.datetime {
            Some(datetime) => datetime.clone(),
            None => {
                return None;
            },
        };
        let number: i32 = match raw.number {
            Some(wide) => {
                if wide < -2147483648 || wide > 2147483647 {
                    return None;
                }
                wide as i32
            },
            None => {
                return None;
            },
        };
        match (raw.is_win, raw.checked) {
            (Some(is_win), Some(checked)) => Some(
                SpinResult {
                    key,
                    datetime,
                    number,
                    is_win,
                    checked,
                    game_type: Some(game_type.name()),
                },
            ),
            _ => None,
        }
    }

    /// The request that gives the page `page_id` the properties of a record.
    pub fn update_entry(&self, page_id: &str, spin_result: &SpinResult, _game_type: GameType) -> (request:
        StoreRequest)
        ensures
            request@ == self@.update_entry(page_id@, spin_result@),
    {
        let url = String::from_str("https://api.notion.com/v1/pages/").concat(page_id);
        self.request(Method::Patch, url, Payload::Properties(self.build_properties(spin_result)))
    }

    /// The request that moves the page `page_id` to the archive.
    pub fn delete_entry(&self, page_id: &str, _game_type: GameType) -> (request: StoreRequest)
        ensures
            request@ == self@.delete_entry(page_id@),
    {
        let url = String::from_str("https://api.notion.com/v1/pages/").concat(page_id);
        self.request(Method::Patch, url, Payload::Archived)
    }
}

} // verus!
