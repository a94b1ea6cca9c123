//! Reading the remote table, page by page.
//!
//! The table is read in pages of 500 rows. Each answer says whether more
//! rows follow and under which token the next page is to be asked for. A row
//! that is no record is left out; the rows around it are kept.

use vstd::prelude::*;
use vstd::string::StringExecFns;
use crate::codec::{decoded, parse_record_from_feishu, ParseErrorView, RecordParseError};
use crate::envelope::{complain, complaint, envelope_of, read_envelope};
use crate::error::{api_failure, status_failure, ErrorView, FeishuSyncError, Operation};
use crate::json::{copy_items, item_views, parse_json, parsed_json, JsonValue, JsonView};
use crate::record::{clone_text, record_views, text_view, PromptRecord, RecordView};

verus! {

/// One page of rows.
#[derive(Debug, PartialEq, Eq)]
pub struct RecordsResponse {
    /// The rows, as the documents they came as. An answer for an empty table
    /// may leave them out.
    pub items: Vec<JsonValue>,
    pub has_more: bool,
    pub page_token: Option<String>,
}

/// The content of a [`RecordsResponse`].
pub struct PageView {
    pub items: Seq<JsonView>,
    pub has_more: bool,
    pub page_token: Option<Seq<char>>,
}

impl View for RecordsResponse {
    type V = PageView;

    open spec fn view(&self) -> PageView {
        PageView { items: item_views(self.items@), has_more: self.has_more, page_token: text_view(self.page_token) }
    }
}

/// The address of a page: the first one without a token, each later one with
/// the token that the page before it gave.
pub open spec fn list_url_text(app_token: Seq<char>, table_id: Seq<char>, page_token: Option<Seq<char>>) -> Seq<
    char,
> {
    let first = "https://open.feishu.cn/open-apis/bitable/v1/apps/"@ + app_token + "/tables/"@ + table_id
        + "/records?page_size=500"@;
    match page_token {
        Some(token) => first + "&page_token="@ + token,
        None => first,
    }
}

/// Builds the address of a page.
pub fn list_url(app_token: &str, table_id: &str, page_token: &Option<String>) -> (url: String)
    ensures
        url@ == list_url_text(app_token@, table_id@, text_view(*page_token)),
{
    let first = String::from_str("https://open.feishu.cn/open-apis/bitable/v1/apps/").concat(app_token).concat(
        "/tables/",
    ).concat(table_id).concat("/records?page_size=500");
    match page_token {
        Some(token) => first.concat("&page_token=").concat(token.as_str()),
        None => first,
    }
}

/// The address at which the columns of a table are described.
pub open spec fn fields_url_text(app_token: Seq<char>, table_id: Seq<char>) -> Seq<char> {
    "https://open.feishu.cn/open-apis/bitable/v1/apps/"@ + app_token + "/tables/"@ + table_id + "/fields"@
}

/// Builds the address at which the columns of a table are described.
pub fn fields_url(app_token: &str, table_id: &str) -> (url: String)
    ensures
        url@ == fields_url_text(app_token@, table_id@),
{
    String::from_str("https://open.feishu.cn/open-apis/bitable/v1/apps/").concat(app_token).concat("/tables/").concat(
        table_id,
    ).concat("/fields")
}

/// The rows in the data of an answer: none where `items` is left out.
pub open spec fn rows_of(data: JsonView) -> Option<Seq<JsonView>> {
    match data.member("items"@) {
        Some(rows) => rows.items(),
        None => Some(Seq::empty()),
    }
}

/// Whether more rows follow, as the data of an answer says.
pub open spec fn more_of(data: JsonView) -> Option<bool> {
    match data.member("has_more"@) {
        Some(flag) => flag.boolean(),
        None => None,
    }
}

/// The token for the next page in the data of an answer: none where it is
/// left out or `null`; anything but a text is a mistake.
pub open spec fn next_token_of(data: JsonView) -> Option<Option<Seq<char>>> {
    match data.member("page_token"@) {
        Some(token) => if token is Null {
            Some(None)
        } else {
            match token.text() {
                Some(t) => Some(Some(t)),
                None => None,
            }
        },
        None => Some(None),
    }
}

/// What is said of an answer that went well and holds no data.
pub open spec fn no_data_message() -> Seq<char> {
    "API响应数据为空"@
}

/// The page that the data of an answer is.
pub open spec fn page_in(data: JsonView) -> Result<PageView, ErrorView> {
    match rows_of(data) {
        None => Err(complaint(data, "items"@)),
        Some(items) => match more_of(data) {
            None => Err(complaint(data, "has_more"@)),
            Some(has_more) => match next_token_of(data) {
                None => Err(complaint(data, "page_token"@)),
                Some(page_token) => Ok(PageView { items, has_more, page_token }),
            },
        },
    }
}

/// The page that an answer holds. An answer that is no envelope fails as
/// such; a status code other than zero is the failure it stands for; an
/// answer that went well and holds no data fails with the code -1.
pub open spec fn page_of(answer: JsonView) -> Result<PageView, ErrorView> {
    match envelope_of(answer) {
        Err(e) => Err(e),
        Ok(envelope) => if envelope.code != 0 {
            Err(status_failure(Operation::ListRecords, envelope.code as i64, envelope.msg))
        } else {
            match envelope.data {
                None => Err(ErrorView::FeishuApiError { code: -1i32, msg: no_data_message() }),
                Some(data) => page_in(data),
            }
        },
    }
}

/// The content of the outcome of reading a page.
pub open spec fn page_result_view(outcome: Result<RecordsResponse, FeishuSyncError>) -> Result<PageView, ErrorView> {
    match outcome {
        Ok(page) => Ok(page@),
        Err(e) => Err(e@),
    }
}

fn read_page_data(data: &JsonValue) -> (outcome: Result<RecordsResponse, FeishuSyncError>)
    ensures
        page_result_view(outcome) == page_in(data@),
{
    let items: Vec<JsonValue> = match data.get("items") {
        Some(rows) => match rows.as_array() {
            Some(list) => copy_items(list),
            None => { return Err(complain(data, "items")); },
        },
        None => {
            let none: Vec<JsonValue> = Vec::new();
            proof {
                assert(item_views(none@) =~= Seq::<JsonView>::empty());
            }
            none
        },
    };
    let has_more = match data.get("has_more") {
        Some(flag) => flag.as_bool(),
        None => None,
    };
    let has_more = match has_more {
        Some(b) => b,
        None => { return Err(complain(data, "has_more")); },
    };
    let page_token = match data.get("page_token") {
        Some(token) => if token.is_null() {
            None
        } else {
            match token.as_str() {
                Some(t) => Some(String::from_str(t)),
                None => { return Err(complain(data, "page_token")); },
            }
        },
        None => None,
    };
    Ok(RecordsResponse { items, has_more, page_token })
}

/// Reads one page from the answer to a request for rows.
pub fn read_page(answer: &JsonValue) -> (outcome: Result<RecordsResponse, FeishuSyncError>)
    ensures
        page_result_view(outcome) == page_of(answer@),
{
    let envelope = match read_envelope(answer) {
        Ok(envelope) => envelope,
        Err(e) => { return Err(e); },
    };
    if envelope.code != 0 {
        return Err(api_failure(Operation::ListRecords, envelope.code as i64, envelope.msg.as_str()));
    }
    match &envelope.data {
        Some(data) => read_page_data(data),
        None => Err(FeishuSyncError::FeishuApiError { code: -1, msg: String::from_str("API响应数据为空") }),
    }
}

/// The record that a row stands for, if it stands for one.
pub open spec fn record_in(row: JsonView) -> Option<RecordView> {
    match decoded(row) {
        Ok(record) => Some(record),
        Err(_) => None,
    }
}

/// Why a row is no record, if it is none.
pub open spec fn complaint_in(row: JsonView) -> Option<ParseErrorView> {
    match decoded(row) {
        Ok(_) => None,
        Err(e) => Some(e),
    }
}

/// The records among some rows, in order; rows that are no records are left
/// out.
pub open spec fn records_among(rows: Seq<JsonView>) -> Seq<RecordView> {
    rows.filter_map(|row: JsonView| record_in(row))
}

/// Why the rows that are no records are none, in the order of those rows.
pub open spec fn complaints_among(rows: Seq<JsonView>) -> Seq<ParseErrorView> {
    rows.filter_map(|row: JsonView| complaint_in(row))
}

/// The contents of a list of complaints, in order.
pub open spec fn complaint_views(complaints: Seq<RecordParseError>) -> Seq<ParseErrorView> {
    complaints.map_values(|e: RecordParseError| e@)
}

/// What reading some rows gave.
#[derive(Debug, PartialEq, Eq)]
pub struct DecodedRows {
    /// The rows that are records, in order.
    pub records: Vec<PromptRecord>,
    /// Why each of the other rows is no record, in order.
    pub skipped: Vec<RecordParseError>,
}

/// Reads the records among some rows. A row that is no record is left out,
/// and why is noted; the rows around it are read all the same.
pub fn decode_items(items: &Vec<JsonValue>) -> (rows: DecodedRows)
    ensures
        record_views(rows.records@) == records_among(item_views(items@)),
        complaint_views(rows.skipped@) == complaints_among(item_views(items@)),
{
    let ghost views = item_views(items@);
    let ghost pick = |row: JsonView| record_in(row);
    let ghost blame = |row: JsonView| complaint_in(row);
    let mut records: Vec<PromptRecord> = Vec::new();
    let mut skipped: Vec<RecordParseError> = Vec::new();
    let mut i: usize = 0;
    proof {
        assert(views.take(0).filter_map(pick) =~= Seq::<RecordView>::empty());
        assert(views.take(0).filter_map(blame) =~= Seq::<ParseErrorView>::empty());
        assert(complaint_views(skipped@) =~= Seq::<ParseErrorView>::empty());
    }
    while i < items.len()
        invariant
            i <= items@.len(),
            views == item_views(items@),
            pick == |row: JsonView| record_in(row),
            blame == |row: JsonView| complaint_in(row),
            record_views(records@) == views.take(i as int).filter_map(pick),
            complaint_views(skipped@) == views.take(i as int).filter_map(blame),
        decreases items@.len() - i,
    {
        let ghost before = record_views(records@);
        let ghost noted = complaint_views(skipped@);
        proof {
            views.lemma_filter_map_take_succ(pick, i as int);
            views.lemma_filter_map_take_succ(blame, i as int);
        }
        match parse_record_from_feishu(&items[i]) {
            Ok(record) => {
                records.push(record);
                proof {
                    assert(record_views(records@) =~= before + seq![record@]);
                    assert(complaint_views(skipped@) =~= noted + Seq::<ParseErrorView>::empty());
                }
            },
            Err(e) => {
                let ghost complaint = e@;
                skipped.push(e);
                proof {
                    assert(complaint_views(skipped@) =~= noted + seq![complaint]);
                    assert(record_views(records@) =~= before + Seq::<RecordView>::empty());
                }
            },
        }
        i += 1;
    }
    proof {
        assert(views.take(items@.len() as int) =~= views);
    }
    DecodedRows { records, skipped }
}

/// How far the reading of the table has come.
#[derive(Debug, PartialEq, Eq)]
pub struct RecordListing {
    /// The records read so far.
    pub records: Vec<PromptRecord>,
    /// Why each row that was left out so far is no record.
    pub skipped: Vec<RecordParseError>,
    /// The token under which the next page is to be asked for.
    pub page_token: Option<String>,
    /// Whether the last page has been read.
    pub finished: bool,
}

/// The content of a [`RecordListing`].
pub struct ListingView {
    pub records: Seq<RecordView>,
    pub skipped: Seq<ParseErrorView>,
    pub page_token: Option<Seq<char>>,
    pub finished: bool,
}

impl View for RecordListing {
    type V = ListingView;

    open spec fn view(&self) -> ListingView {
        ListingView {
            records: record_views(self.records@),
            skipped: complaint_views(self.skipped@),
            page_token: text_view(self.page_token),
            finished: self.finished,
        }
    }
}

/// The reading before the first page.
pub open spec fn empty_listing() -> ListingView {
    ListingView { records: Seq::empty(), skipped: Seq::empty(), page_token: None, finished: false }
}

/// The reading after one more page: its records are added behind those read
/// before, and what was noted of its other rows behind what was noted before; the reading is finished where the page says that nothing follows,
/// and goes on under the page's token where it says that more does.
pub open spec fn after_page(listing: ListingView, page: PageView) -> ListingView {
    ListingView {
        records: listing.records + records_among(page.items),
        skipped: listing.skipped + complaints_among(page.items),
        page_token: if page.has_more {
            page.page_token
        } else {
            listing.page_token
        },
        finished: !page.has_more,
    }
}

/// The reading after one more answer, or the failure that the answer stands
/// for and that ends the reading.
pub open spec fn after_answer(listing: ListingView, answer: JsonView) -> Result<ListingView, ErrorView> {
    match page_of(answer) {
        Ok(page) => Ok(after_page(listing, page)),
        Err(e) => Err(e),
    }
}

/// The reading after one more text came back, or the failure that ends the
/// reading: a text that is no JSON fails as such, with the parser's words.
pub open spec fn after_text(listing: ListingView, text: Seq<char>) -> Result<ListingView, ErrorView> {
    match parsed_json(text) {
        Ok(answer) => after_answer(listing, answer),
        Err(words) => Err(ErrorView::JsonError(words)),
    }
}

impl RecordListing {
    /// The reading before the first page.
    pub fn new() -> (listing: Self)
        ensures
            listing@ == empty_listing(),
    {
        let listing = RecordListing { records: Vec::new(), skipped: Vec::new(), page_token: None, finished: false };
        proof {
            assert(complaint_views(listing.skipped@) =~= Seq::<ParseErrorView>::empty());
            assert(record_views(listing.records@) =~= Seq::<RecordView>::empty());
        }
        listing
    }

    /// The address to ask next, or nothing where the last page has been read.
    pub fn next_url(&self, app_token: &str, table_id: &str) -> (url: Option<String>)
        ensures
            match url {
                Some(u) => !self@.finished && u@ == list_url_text(app_token@, table_id@, self@.page_token),
                None => self@.finished,
            },
    {
        if self.finished {
            None
        } else {
            Some(list_url(app_token, table_id, &self.page_token))
        }
    }

    /// Takes in the answer to the request for the next page. On a failure
    /// the reading stays as it was.
    pub fn accept_document(&mut self, answer: &JsonValue) -> (outcome: Result<(), FeishuSyncError>)
        ensures
            match after_answer(old(self)@, answer@) {
                Ok(listing) => outcome is Ok && final(self)@ == listing,
                Err(e) => outcome is Err && outcome->Err_0@ == e && final(self)@ == old(self)@,
            },
    {
        let page = match read_page(answer) {
            Ok(page) => page,
            Err(e) => { return Err(e); },
        };
        let ghost before = record_views(self.records@);
        let ghost noted = complaint_views(self.skipped@);
        let mut found = decode_items(&page.items);
        let ghost added = record_views(found.records@);
        let ghost blamed = complaint_views(found.skipped@);
        self.records.append(&mut found.records);
        self.skipped.append(&mut found.skipped);
        proof {
            assert(record_views(self.records@) =~= before + added);
            assert(complaint_views(self.skipped@) =~= noted + blamed);
        }
        if page.has_more {
            self.page_token = clone_text(&page.page_token);
            self.finished = false;
        } else {
            self.finished = true;
        }
        Ok(())
    }

    /// Takes in the text that came back on the request for the next page. A
    /// text that is no JSON fails as such, with the parser's words; a
    /// document is taken in as [`RecordListing::accept_document`] does.
    pub fn accept(&mut self, text: &str) -> (outcome: Result<(), FeishuSyncError>)
        ensures
            match after_text(old(self)@, text@) {
                Ok(listing) => outcome is Ok && final(self)@ == listing,
                Err(e) => outcome is Err && outcome->Err_0@ == e && final(self)@ == old(self)@,
            },
    {
        match parse_json(text) {
            Ok(answer) => self.accept_document(&answer),
            Err(words) => Err(FeishuSyncError::JsonError(words)),
        }
    }

    /// The records that were read.
    pub fn into_records(self) -> (records: Vec<PromptRecord>)
        ensures
            record_views(records@) == self@.records,
    {
        self.records
    }
}

} // verus!
