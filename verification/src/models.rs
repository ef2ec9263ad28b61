//! The records and wire shapes that the service exchanges.

use vstd::prelude::*;

verus! {

/// The games whose outcomes are recorded, each in a database of its own.
#[derive(Debug, Clone, Copy, PartialEq, Eq, Hash, Structural)]
pub enum GameType {
    Spin,
    Wheel,
    // Add more games here in the future
}

impl GameType {
    /// The name under which a game's records are tagged.
    pub open spec fn label(self) -> Seq<char> {
        match self {
            GameType::Spin => "Spin"@,
            GameType::Wheel => "Wheel"@,
        }
    }

    /// The game's name as a string: `"Spin"` or `"Wheel"`.
    pub fn name(&self) -> (s: String)
        ensures
            s@ == self.label(),
    {
        match self {
            GameType::Spin => String::from_str("Spin"),
            GameType::Wheel => String::from_str("Wheel"),
        }
    }
}

/// The view of a string that may be missing.
pub open spec fn option_text(text: Option<String>) -> Option<Seq<char>> {
    match text {
        Some(s) => Some(s@),
        None => None,
    }
}

/// One recorded outcome.
#[derive(Debug, PartialEq, Eq)]
pub struct SpinResult {
    pub key: String,
    pub datetime: String,
    pub number: i32,
    pub is_win: bool,
    pub checked: bool,
    // Optional field to store which game this result is for
    pub game_type: Option<String>,
}

/// What a [`SpinResult`] holds, as mathematical values.
pub struct SpinResultView {
    pub key: Seq<char>,
    pub datetime: Seq<char>,
    pub number: i32,
    pub is_win: bool,
    pub checked: bool,
    pub game_type: Option<Seq<char>>,
}

impl View for SpinResult {
    type V = SpinResultView;

    open spec fn view(&self) -> SpinResultView {
        SpinResultView {
            key: self.key@,
            datetime: self.datetime@,
            number: self.number,
            is_win: self.is_win,
            checked: self.checked,
            game_type: option_text(self.game_type),
        }
    }
}

/// The views of a list of records, in order.
pub open spec fn record_views(records: Seq<SpinResult>) -> Seq<SpinResultView> {
    Seq::new(records.len(), |i: int| records[i]@)
}

impl Clone for SpinResult {
    fn clone(&self) -> (copy: Self)
        ensures
            copy == *self,
    {
        SpinResult {
            key: self.key.clone(),
            datetime: self.datetime.clone(),
            number: self.number,
            is_win: self.is_win,
            checked: self.checked,
            game_type: match &self.game_type {
                Some(s) => Some(s.clone()),
                None => None,
            },
        }
    }
}

/// What a caller may send with a spin: the key under which a win is recorded.
#[derive(Debug, PartialEq, Eq)]
pub struct SpinRequest {
    pub key: Option<String>,
}

/// The outcome of one spin, as the caller receives it: three digits, each a
/// string of one character.
#[derive(Debug, PartialEq, Eq)]
pub struct SpinResponse {
    pub numbers: Vec<String>,
    pub is_win: bool,
}

/// What a [`SpinResponse`] holds, as mathematical values.
pub struct SpinResponseView {
    pub numbers: Seq<Seq<char>>,
    pub is_win: bool,
}

impl View for SpinResponse {
    type V = SpinResponseView;

    open spec fn view(&self) -> SpinResponseView {
        SpinResponseView {
            numbers: Seq::new(self.numbers@.len(), |i: int| self.numbers@[i]@),
            is_win: self.is_win,
        }
    }
}

/// What a caller may send with a turn of the wheel: the key under which a win
/// is recorded.
#[derive(Debug, PartialEq, Eq)]
pub struct WheelRequest {
    pub key: Option<String>,
}

/// The outcome of one turn of the wheel, as the caller receives it.
#[derive(Debug, PartialEq, Eq)]
pub struct WheelResponse {
    pub prize_index: usize,
    pub prize_name: String,
    pub is_win: bool,
}

/// What a [`WheelResponse`] holds, as mathematical values.
pub struct WheelResponseView {
    pub prize_index: int,
    pub prize_name: Seq<char>,
    pub is_win: bool,
}

impl View for WheelResponse {
    type V = WheelResponseView;

    open spec fn view(&self) -> WheelResponseView {
        WheelResponseView {
            prize_index: self.prize_index as int,
            prize_name: self.prize_name@,
            is_win: self.is_win,
        }
    }
}

/// The content of a piece of text.
#[derive(Debug, PartialEq, Eq)]
pub struct NotionTextContent {
    pub content: String,
}

/// What a [`NotionTextContent`] holds, as mathematical values.
pub struct NotionTextContentView {
    pub content: Seq<char>,
}

impl View for NotionTextContent {
    type V = NotionTextContentView;

    open spec fn view(&self) -> NotionTextContentView {
        NotionTextContentView { content: self.content@ }
    }
}

/// A piece of text. `kind` is the property's `type` on the wire.
#[derive(Debug, PartialEq, Eq)]
pub struct NotionText {
    pub kind: String,
    pub text: NotionTextContent,
}

/// What a [`NotionText`] holds, as mathematical values.
pub struct NotionTextView {
    pub kind: Seq<char>,
    pub text: NotionTextContentView,
}

impl View for NotionText {
    type V = NotionTextView;

    open spec fn view(&self) -> NotionTextView {
        NotionTextView { kind: self.kind@, text: self.text@ }
    }
}

/// The views of a list of texts, in order.
pub open spec fn text_views(texts: Seq<NotionText>) -> Seq<NotionTextView> {
    Seq::new(texts.len(), |i: int| texts[i]@)
}

/// A title property.
#[derive(Debug, PartialEq, Eq)]
pub struct NotionTitle {
    pub kind: String,
    pub title: Vec<NotionText>,
}

/// What a [`NotionTitle`] holds, as mathematical values.
pub struct NotionTitleView {
    pub kind: Seq<char>,
    pub title: Seq<NotionTextView>,
}

impl View for NotionTitle {
    type V = NotionTitleView;

    open spec fn view(&self) -> NotionTitleView {
        NotionTitleView { kind: self.kind@, title: text_views(self.title@) }
    }
}

/// The content of a date property: the moment at which it starts.
#[derive(Debug, PartialEq, Eq)]
pub struct NotionDateContent {
    pub start: String,
}

/// What a [`NotionDateContent`] holds, as mathematical values.
pub struct NotionDateContentView {
    pub start: Seq<char>,
}

impl View for NotionDateContent {
    type V = NotionDateContentView;

    open spec fn view(&self) -> NotionDateContentView {
        NotionDateContentView { start: self.start@ }
    }
}

/// A date property.
#[derive(Debug, PartialEq, Eq)]
pub struct NotionDate {
    pub kind: String,
    pub date: NotionDateContent,
}

/// What a [`NotionDate`] holds, as mathematical values.
pub struct NotionDateView {
    pub kind: Seq<char>,
    pub date: NotionDateContentView,
}

impl View for NotionDate {
    type V = NotionDateView;

    open spec fn view(&self) -> NotionDateView {
        NotionDateView { kind: self.kind@, date: self.date@ }
    }
}

/// A number property.
#[derive(Debug, PartialEq, Eq)]
pub struct NotionNumber {
    pub kind: String,
    pub number: i32,
}

/// What a [`NotionNumber`] holds, as mathematical values.
pub struct NotionNumberView {
    pub kind: Seq<char>,
    pub number: i32,
}

impl View for NotionNumber {
    type V = NotionNumberView;

    open spec fn view(&self) -> NotionNumberView {
        NotionNumberView { kind: self.kind@, number: self.number }
    }
}

/// A checkbox property.
#[derive(Debug, PartialEq, Eq)]
pub struct NotionCheckbox {
    pub kind: String,
    pub checkbox: bool,
}

/// What a [`NotionCheckbox`] holds, as mathematical values.
pub struct NotionCheckboxView {
    pub kind: Seq<char>,
    pub checkbox: bool,
}

impl View for NotionCheckbox {
    type V = NotionCheckboxView;

    open spec fn view(&self) -> NotionCheckboxView {
        NotionCheckboxView { kind: self.kind@, checkbox: self.checkbox }
    }
}

/// A phone number property.
#[derive(Debug, PartialEq, Eq)]
pub struct NotionPhoneNumber {
    pub kind: String,
    pub phone_number: String,
}

/// What a [`NotionPhoneNumber`] holds, as mathematical values.
pub struct NotionPhoneNumberView {
    pub kind: Seq<char>,
    pub phone_number: Seq<char>,
}

impl View for NotionPhoneNumber {
    type V = NotionPhoneNumberView;

    open spec fn view(&self) -> NotionPhoneNumberView {
        NotionPhoneNumberView { kind: self.kind@, phone_number: self.phone_number@ }
    }
}

/// A rich text property.
#[derive(Debug, PartialEq, Eq)]
pub struct NotionRichText {
    pub kind: String,
    pub rich_text: Vec<NotionText>,
}

/// What a [`NotionRichText`] holds, as mathematical values.
pub struct NotionRichTextView {
    pub kind: Seq<char>,
    pub rich_text: Seq<NotionTextView>,
}

impl View for NotionRichText {
    type V = NotionRichTextView;

    open spec fn view(&self) -> NotionRichTextView {
        NotionRichTextView { kind: self.kind@, rich_text: text_views(self.rich_text@) }
    }
}

/// The properties of a database page that holds one recorded outcome.
#[derive(Debug, PartialEq, Eq)]
pub struct NotionProperties {
    pub key: NotionTitle,
    pub datetime: NotionDate,
    pub number: NotionNumber,
    pub is_win: NotionCheckbox,
    pub checked: NotionCheckbox,
}

/// What a [`NotionProperties`] holds, as mathematical values.
pub struct NotionPropertiesView {
    pub key: NotionTitleView,
    pub datetime: NotionDateView,
    pub number: NotionNumberView,
    pub is_win: NotionCheckboxView,
    pub checked: NotionCheckboxView,
}

impl View for NotionProperties {
    type V = NotionPropertiesView;

    open spec fn view(&self) -> NotionPropertiesView {
        NotionPropertiesView {
            key: self.key@,
            datetime: self.datetime@,
            number: self.number@,
            is_win: self.is_win@,
            checked: self.checked@,
        }
    }
}

/// The page properties under which an outcome is recorded: its key as the
/// page's title, its moment as a date, its number, and its two flags.
pub open spec fn properties_of(record: SpinResultView) -> NotionPropertiesView {
    NotionPropertiesView {
        key: NotionTitleView {
            kind: "title"@,
            title: seq![
                NotionTextView {
                    kind: "text"@,
                    text: NotionTextContentView { content: record.key },
                },
            ],
        },
        datetime: NotionDateView {
            kind: "date"@,
            date: NotionDateContentView { start: record.datetime },
        },
        number: NotionNumberView { kind: "number"@, number: record.number },
        is_win: NotionCheckboxView { kind: "checkbox"@, checkbox: record.is_win },
        checked: NotionCheckboxView { kind: "checkbox"@, checkbox: record.checked },
    }
}

} // verus!
