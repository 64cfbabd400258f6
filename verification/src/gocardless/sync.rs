//! One synchronisation run: the window of dates to fetch, the accounts in
//! turn, and for each account the files that are fetched and written.

use crate::calendar::{
    date_on, date_on_has_its_number, date_on_its_number, day_number, days_after, days_before,
    days_in_month, format_iso_date, iso_date_text, next_month_follows, Date, MAX_YEAR,
};
use crate::encoding::{form_encode, form_encoded, hyphenated, id_text, pairs_text};
use crate::gocardless::accounts::Account;
use crate::gocardless::buckets::{
    bucket_file_name, bucket_file_text, bucket_transactions, buckets_apart, entries_of,
    every_entry_is_written_once, in_month, in_order, month_has_an_entry, months_of,
    ordering_keeps_entries, stamped_in, stamping_keeps_entries, written, Bucket, Stamped,
    TransactionWithStatus,
};
use crate::gocardless::config::{ConfigArg, ProviderState, ScraperConfig};
use crate::gocardless::connect::Requisition;
use crate::gocardless::transactions::{Transactions, TransactionsQuery};
use vstd::prelude::*;
use vstd::string::StringExecFns;

verus! {

/// The dates a synchronisation run asks transactions for, both ends included.
#[derive(Clone, Copy, Debug, PartialEq, Eq, Structural)]
pub struct DateWindow {
    pub start: Date,
    pub end: Date,
}

/// The start of a window rounded to a month: a first of the month as it is,
/// any other day forward to the first of the following month.
pub open spec fn rounded_start(raw: Date) -> Option<Date> {
    if raw.day == 1 {
        Some(raw)
    } else {
        raw.next_month_start()
    }
}

/// The unrounded start of a window that ends on `end` and looks
/// `history_days` days back: the day after the day that lies `history_days`
/// days before `end`. There is none where `end` is no day of the calendar,
/// or where the day `history_days` days before it lies before the calendar.
pub open spec fn raw_start(end: Date, history_days: int) -> Option<Date> {
    if end.wf() && date_on(day_number(end) - history_days) is Some {
        date_on(day_number(end) - history_days + 1)
    } else {
        None
    }
}

/// The window that ends on `end`, given the unrounded start.
pub open spec fn window_from(end: Date, raw: Option<Date>) -> Option<DateWindow> {
    match raw {
        Some(day) => match rounded_start(day) {
            Some(start) => Some(DateWindow { start, end }),
            None => None,
        },
        None => None,
    }
}

/// Rounds the start of a window forward to the first day of a month.
///
/// The result is never before `raw`, and lies in the month of `raw` or in
/// the one after it. There is none where the following month is beyond the
/// last year of the calendar.
pub fn round_to_month(raw: &Date) -> (r: Option<Date>)
    ensures
        r == rounded_start(*raw),
        raw.wf() ==> (r matches Some(start) ==> start.wf() && start.day == 1 && !start.before(
            *raw,
        )),
        raw.wf() ==> (r is None <==> raw.day != 1 && raw.month == 12 && raw.year == MAX_YEAR),
{
    if raw.day == 1 {
        Some(*raw)
    } else {
        raw.first_of_next_month()
    }
}

/// The window that ends on `end`, given the unrounded start.
pub fn window_ending(end: Date, raw: Option<Date>) -> (r: Option<DateWindow>)
    ensures
        r == window_from(end, raw),
        r matches Some(w) ==> w.end == end && ((raw matches Some(day) && day.wf())
            ==> w.start.wf() && w.start.day == 1),
{
    match raw {
        Some(day) => match round_to_month(&day) {
            Some(start) => Some(DateWindow { start, end }),
            None => None,
        },
        None => None,
    }
}

/// The window of a run on the day `end` that looks `history_days` days back.
///
/// The unrounded start is `end` less `history_days` days plus one day; the
/// window starts on it where it is a first of the month, else on the first
/// of the following month. There is no window where one of these days lies
/// outside the calendar.
pub fn sync_window(end: Date, history_days: u64) -> (r: Option<DateWindow>)
    ensures
        r == window_from(end, raw_start(end, history_days as int)),
        r matches Some(w) ==> w.end == end && w.start.wf() && w.start.day == 1,
{
    let raw = match days_before(&end, history_days) {
        Some(day) => {
            proof {
                date_on_has_its_number(day_number(end) - history_days);
            }
            days_after(&day, 1)
        },
        None => None,
    };
    window_ending(end, raw)
}

/// Rounding shortens a window by less than a month: the rounded start is
/// the unrounded one where that is a first of the month, and else lies as
/// many days after it as its month has days left, that day included.
pub proof fn rounding_shortens_by_less_than_a_month(raw: Date)
    requires
        raw.wf(),
    ensures
        rounded_start(raw) matches Some(start) ==> {
            &&& start.wf()
            &&& start.day == 1
            &&& day_number(start) - day_number(raw) == if raw.day == 1 {
                0
            } else {
                days_in_month(raw.year as int, raw.month as int) - raw.day + 1
            }
            &&& 0 <= day_number(start) - day_number(raw) <= 30
        },
{
    next_month_follows(raw);
}

/// The window of a run covers what the run looks back for, but for the
/// part that rounding cuts off: its unrounded start lies `history_days` days
/// less one before `end`, and is the day of that number.
pub proof fn raw_start_is_counted_from_the_end(end: Date, history_days: int)
    ensures
        raw_start(end, history_days) matches Some(raw) ==> raw.wf() && day_number(raw)
            == day_number(end) - history_days + 1,
        history_days == 1 && raw_start(end, history_days) is Some ==> raw_start(
            end,
            history_days,
        ) == Some(end),
{
    date_on_has_its_number(day_number(end) - history_days + 1);
    if end.wf() {
        date_on_its_number(end);
    }
}

/// The command that synchronises one provider.
#[derive(Debug, Clone)]
pub struct Cmd {
    pub config: ConfigArg,
    /// The name of the provider to synchronise.
    pub provider: String,
}

/// Why a run stopped.
#[derive(Clone, Copy, Debug, PartialEq, Eq, Structural)]
pub enum SyncError {
    /// The configuration names no such provider.
    UnknownProvider,
    /// The provider has not been linked: there is no state to read.
    NoState,
    /// The requisition is not in the status `Linked`.
    NotLinked,
    /// The window of dates reaches beyond the calendar.
    WindowOutOfRange,
    /// The account is not in the status `Ready`.
    AccountNotReady,
    /// The time zone fixes no first instant for this date.
    NoLocalMidnight(Date),
    /// A request failed, or its answer could not be read.
    Remote,
    /// A file could not be read or written.
    Io,
    /// An event arrived that the step under way does not wait for.
    OutOfTurn,
}

/// Where the account `id` is fetched.
pub open spec fn account_path_text(id: u128) -> Seq<char> {
    "/api/v2/accounts/"@ + hyphenated(id) + "/"@
}

/// Where the balances of the account `id` are fetched.
pub open spec fn balances_path_text(id: u128) -> Seq<char> {
    "/api/v2/accounts/"@ + hyphenated(id) + "/balances/"@
}

/// The pairs of a transactions query: the two ends of the range in ISO 8601
/// form under the names `date_from` and `date_to`.
pub open spec fn query_pairs(query: TransactionsQuery) -> Seq<(Seq<char>, Seq<char>)> {
    seq![
        ("date_from"@, iso_date_text(query.date_from)),
        ("date_to"@, iso_date_text(query.date_to)),
    ]
}

/// Where the transactions of the account `id` in a range of dates are
/// fetched: the account's transactions with the range as a form-encoded query.
pub open spec fn transactions_path_text(id: u128, query: TransactionsQuery) -> Seq<char> {
    "/api/v2/accounts/"@ + hyphenated(id) + "/transactions/?"@ + form_encoded(query_pairs(query))
}

/// Where the account `id` is fetched.
pub fn account_path(id: u128) -> (r: String)
    ensures
        r@ == account_path_text(id),
{
    let mut path = String::from_str("/api/v2/accounts/");
    path.append(id_text(id).as_str());
    path.append("/");
    path
}

/// Where the balances of the account `id` are fetched.
pub fn balances_path(id: u128) -> (r: String)
    ensures
        r@ == balances_path_text(id),
{
    let mut path = String::from_str("/api/v2/accounts/");
    path.append(id_text(id).as_str());
    path.append("/balances/");
    path
}

/// Where the transactions of the account `id` in a range of dates are fetched.
pub fn transactions_path(id: u128, query: &TransactionsQuery) -> (r: String)
    ensures
        r@ == transactions_path_text(id, *query),
{
    let mut pairs: Vec<(String, String)> = Vec::new();
    pairs.push((String::from_str("date_from"), format_iso_date(&query.date_from)));
    pairs.push((String::from_str("date_to"), format_iso_date(&query.date_to)));
    proof {
        assert(pairs_text(pairs@) =~= query_pairs(*query));
    }
    let mut path = String::from_str("/api/v2/accounts/");
    path.append(id_text(id).as_str());
    path.append("/transactions/?");
    path.append(form_encode(&pairs).as_str());
    path
}

/// How far a run has come.
#[derive(Clone, Copy, Debug, PartialEq, Eq, Structural)]
pub enum SyncStage {
    /// The provider's link state is being read.
    LoadingState,
    /// The requisition is being fetched.
    FetchingRequisition { requisition_id: u128 },
    /// The account at `position` is being synchronised.
    Ingesting { window: DateWindow, position: usize },
    /// Every account has been synchronised.
    Done,
    /// The run has stopped; no account is synchronised after this.
    Failed(SyncError),
}

/// What the caller is to do next in a run.
#[derive(Clone, Copy, Debug, PartialEq, Eq, Structural)]
pub enum SyncAction {
    /// Read the provider's link state and report it.
    LoadState,
    /// Fetch this requisition and report it with today's date.
    FetchRequisition { requisition_id: u128 },
    /// Synchronise this account for this window and report how it ended.
    Ingest { account_id: u128, window: DateWindow },
    /// Report success.
    Finish,
    /// Report failure.
    Abort(SyncError),
}

/// What happened since the last action of a run.
#[derive(Debug)]
pub enum SyncEvent {
    /// The link state was read; `None` where there is none.
    StateLoaded(Option<ProviderState>),
    /// The requisition was fetched on the day `today`.
    Fetched { requisition: Requisition, today: Date },
    /// The account under way has been synchronised.
    AccountDone,
    /// The action failed.
    Failed(SyncError),
}

/// One run over the accounts of a provider.
#[derive(Debug)]
pub struct SyncRun {
    pub stage: SyncStage,
    /// The number of days the run looks back.
    pub history_days: u64,
    /// The accounts the requisition grants, in the order it names them.
    pub accounts: Vec<u128>,
}

/// The action that a run in `stage` over `accounts` waits for.
pub open spec fn sync_action_of(stage: SyncStage, accounts: Seq<u128>) -> SyncAction {
    match stage {
        SyncStage::LoadingState => SyncAction::LoadState,
        SyncStage::FetchingRequisition { requisition_id } => SyncAction::FetchRequisition {
            requisition_id,
        },
        SyncStage::Ingesting { window, position } => if position < accounts.len() {
            SyncAction::Ingest { account_id: accounts[position as int], window }
        } else {
            SyncAction::Abort(SyncError::OutOfTurn)
        },
        SyncStage::Done => SyncAction::Finish,
        SyncStage::Failed(e) => SyncAction::Abort(e),
    }
}

/// The stage that follows `stage` on `event`, for a run that looks
/// `history_days` days back over `accounts`, the accounts being those of the
/// requisition once it has been fetched.
///
/// A run that is done or has failed stays so. A failure of the action ends
/// the run, whatever is left to do. An event that the stage does not wait
/// for ends the run as out of turn.
pub open spec fn sync_stage_after(
    stage: SyncStage,
    history_days: u64,
    accounts: Seq<u128>,
    event: SyncEvent,
) -> SyncStage {
    match (stage, event) {
        (SyncStage::Done, _) => stage,
        (SyncStage::Failed(_), _) => stage,
        (_, SyncEvent::Failed(e)) => SyncStage::Failed(e),
        (SyncStage::LoadingState, SyncEvent::StateLoaded(None)) => SyncStage::Failed(
            SyncError::NoState,
        ),
        (SyncStage::LoadingState, SyncEvent::StateLoaded(Some(state))) => {
            SyncStage::FetchingRequisition { requisition_id: state.requisition_id }
        },
        (SyncStage::FetchingRequisition { .. }, SyncEvent::Fetched { requisition, today }) => {
            if !(requisition.status is Linked) {
                SyncStage::Failed(SyncError::NotLinked)
            } else {
                match window_from(today, raw_start(today, history_days as int)) {
                    None => SyncStage::Failed(SyncError::WindowOutOfRange),
                    Some(window) => if requisition.accounts.len() == 0 {
                        SyncStage::Done
                    } else {
                        SyncStage::Ingesting { window, position: 0 }
                    },
                }
            }
        },
        (SyncStage::Ingesting { window, position }, SyncEvent::AccountDone) => {
            if position + 1 < accounts.len() {
                SyncStage::Ingesting { window, position: (position + 1) as usize }
            } else {
                SyncStage::Done
            }
        },
        _ => SyncStage::Failed(SyncError::OutOfTurn),
    }
}

/// The accounts of a run after `event`: those of the requisition once it
/// has been fetched and found linked, else as before.
pub open spec fn sync_accounts_after(stage: SyncStage, accounts: Seq<u128>, event: SyncEvent) -> Seq<
    u128,
> {
    match (stage, event) {
        (SyncStage::FetchingRequisition { .. }, SyncEvent::Fetched { requisition, today }) => {
            if requisition.status is Linked {
                requisition.accounts@
            } else {
                accounts
            }
        },
        _ => accounts,
    }
}

impl SyncRun {
    /// Whether the account under way is one of the run's accounts.
    pub open spec fn wf(self) -> bool {
        self.stage matches SyncStage::Ingesting { window, position } ==> position
            < self.accounts.len()
    }

    /// What the caller is to do next.
    pub fn action(&self) -> (r: SyncAction)
        ensures
            r == sync_action_of(self.stage, self.accounts@),
    {
        match self.stage {
            SyncStage::LoadingState => SyncAction::LoadState,
            SyncStage::FetchingRequisition { requisition_id } => SyncAction::FetchRequisition {
                requisition_id,
            },
            SyncStage::Ingesting { window, position } => if position < self.accounts.len() {
                SyncAction::Ingest { account_id: self.accounts[position], window }
            } else {
                SyncAction::Abort(SyncError::OutOfTurn)
            },
            SyncStage::Done => SyncAction::Finish,
            SyncStage::Failed(e) => SyncAction::Abort(e),
        }
    }

    /// Takes the run one step on: from what happened to what is to be done next.
    pub fn step(&mut self, event: SyncEvent) -> (r: SyncAction)
        ensures
            old(self).wf() ==> final(self).wf(),
            final(self).history_days == old(self).history_days,
            final(self).stage == sync_stage_after(
                old(self).stage,
                old(self).history_days,
                old(self).accounts@,
                event,
            ),
            final(self).accounts@ == sync_accounts_after(old(self).stage, old(self).accounts@, event),
            r == sync_action_of(final(self).stage, final(self).accounts@),
    {
        match self.stage {
            SyncStage::Done => {},
            SyncStage::Failed(_) => {},
            SyncStage::LoadingState => {
                self.stage = match event {
                    SyncEvent::Failed(e) => SyncStage::Failed(e),
                    SyncEvent::StateLoaded(None) => SyncStage::Failed(SyncError::NoState),
                    SyncEvent::StateLoaded(Some(state)) => SyncStage::FetchingRequisition {
                        requisition_id: state.requisition_id,
                    },
                    _ => SyncStage::Failed(SyncError::OutOfTurn),
                };
            },
            SyncStage::FetchingRequisition { .. } => {
                match event {
                    SyncEvent::Failed(e) => {
                        self.stage = SyncStage::Failed(e);
                    },
                    SyncEvent::Fetched { requisition, today } => {
                        if !requisition.is_linked() {
                            self.stage = SyncStage::Failed(SyncError::NotLinked);
                        } else {
                            let window = sync_window(today, self.history_days);
                            let none = requisition.accounts.len() == 0;
                            self.accounts = requisition.accounts;
                            self.stage = match window {
                                None => SyncStage::Failed(SyncError::WindowOutOfRange),
                                Some(window) => if none {
                                    SyncStage::Done
                                } else {
                                    SyncStage::Ingesting { window, position: 0 }
                                },
                            };
                        }
                    },
                    _ => {
                        self.stage = SyncStage::Failed(SyncError::OutOfTurn);
                    },
                }
            },
            SyncStage::Ingesting { window, position } => {
                self.stage = match event {
                    SyncEvent::Failed(e) => SyncStage::Failed(e),
                    SyncEvent::AccountDone => if position < self.accounts.len() && position + 1
                        < self.accounts.len() {
                        SyncStage::Ingesting { window, position: position + 1 }
                    } else {
                        SyncStage::Done
                    },
                    _ => SyncStage::Failed(SyncError::OutOfTurn),
                };
            },
        }
        self.action()
    }
}

/// How far the synchronisation of one account has come.
#[derive(Clone, Copy, Debug, PartialEq, Eq, Structural)]
pub enum IngestStage {
    /// The account's details are being fetched.
    FetchingDetails,
    /// The details are being written; `ready` says whether the account is
    /// in the status `Ready`.
    WritingDetails { ready: bool },
    /// The balances are being fetched.
    FetchingBalances,
    /// The balances are being written.
    WritingBalances,
    /// The transactions of the window are being fetched.
    FetchingTransactions,
    /// The buckets are being written.
    WritingBuckets,
    /// Every file of the account has been written.
    Done,
    /// The account has been given up; nothing is fetched or written after this.
    Failed(SyncError),
}

/// What happened since the last action on an account.
#[derive(Debug)]
pub enum IngestEvent {
    /// The account's details were fetched.
    Details(Account),
    /// The balances were fetched.
    Balances,
    /// The transactions were fetched.
    Transactions(Transactions),
    /// The file or files of the last action were written.
    Written,
    /// The action failed.
    Failed(SyncError),
}

/// The transactions of one bucket, in the order in which their lines are
/// written, and the name of their file.
#[derive(Debug)]
pub struct BucketFile {
    pub name: String,
    pub entries: Vec<TransactionWithStatus>,
}

/// What the caller is to do next for an account. Files are named inside the
/// directory `dir` of the account, which lies in the provider's output
/// directory.
#[derive(Debug)]
pub enum IngestAction {
    /// Fetch what is at `path` and report it.
    Fetch { path: String },
    /// Write the details that were fetched to this file, as one line.
    WriteDetails { dir: String, name: String },
    /// Write the balances that were fetched to this file, one to a line.
    WriteBalances { dir: String, name: String },
    /// Write these files in turn, one transaction to a line, and stop at the
    /// first that fails.
    WriteBuckets { dir: String, files: Vec<BucketFile> },
    /// Report that the account is done.
    Finish,
    /// Report that the account has failed.
    Abort(SyncError),
}

/// The synchronisation of one account.
#[derive(Debug)]
pub struct Ingest {
    pub stage: IngestStage,
    pub account_id: u128,
    pub window: DateWindow,
    /// The account's directory: its IBAN, once the details are known.
    pub dir: String,
}

/// The name of the file of an account's details.
pub open spec fn details_file_text() -> Seq<char> {
    "account-details.json"@
}

/// The name of the file of an account's balances.
pub open spec fn balances_file_text() -> Seq<char> {
    "balances.jsonl"@
}

/// The query for the transactions of a window.
pub open spec fn window_query(window: DateWindow) -> TransactionsQuery {
    TransactionsQuery { date_from: window.start, date_to: window.end }
}

/// The stage that follows `stage` on `event`, dates being taken at their
/// first instant in `zone`.
///
/// The details are written whatever the account's status. Once they are
/// written, an account that is not `Ready` is given up. When the
/// transactions arrive, the account is given up where the zone has no single
/// first instant for a date that decides the instant of one of them. An
/// account that is done or given up stays so, a failure of the action gives
/// the account up, and so does an event that the stage does not wait for.
pub open spec fn ingest_stage_after(
    stage: IngestStage,
    event: IngestEvent,
    zone: tzfile::Tz,
) -> IngestStage {
    match (stage, event) {
        (IngestStage::Done, _) => stage,
        (IngestStage::Failed(_), _) => stage,
        (_, IngestEvent::Failed(e)) => IngestStage::Failed(e),
        (IngestStage::FetchingDetails, IngestEvent::Details(account)) => {
            IngestStage::WritingDetails { ready: account.status.ready() }
        },
        (IngestStage::WritingDetails { ready }, IngestEvent::Written) => if ready {
            IngestStage::FetchingBalances
        } else {
            IngestStage::Failed(SyncError::AccountNotReady)
        },
        (IngestStage::FetchingBalances, IngestEvent::Balances) => IngestStage::WritingBalances,
        (IngestStage::WritingBalances, IngestEvent::Written) => IngestStage::FetchingTransactions,
        (IngestStage::FetchingTransactions, IngestEvent::Transactions(transactions)) => {
            match stamped_in(entries_of(transactions), zone) {
                Ok(_) => IngestStage::WritingBuckets,
                Err(e) => IngestStage::Failed(SyncError::NoLocalMidnight(e.date)),
            }
        },
        (IngestStage::WritingBuckets, IngestEvent::Written) => IngestStage::Done,
        _ => IngestStage::Failed(SyncError::OutOfTurn),
    }
}

/// Whether `files` are the files of `buckets`: for each bucket, in their
/// order, its file name and its transactions in the bucket's order.
pub open spec fn files_fit(files: Seq<BucketFile>, buckets: Seq<Bucket>) -> bool {
    &&& files.len() == buckets.len()
    &&& forall|i: int|
        0 <= i < files.len() ==> {
            &&& (#[trigger] files[i]).name@ == bucket_file_text(buckets[i].month)
            &&& files[i].entries@ == buckets[i].entries@.map_values(|s: Stamped| s.entry)
        }
}

/// The tagged transactions of stamped entries, in their order.
pub open spec fn untimed(s: Seq<Stamped>) -> Seq<TransactionWithStatus> {
    s.map_values(|x: Stamped| x.entry)
}

/// Whether `files` are the bucket files of the stamped entries `s`: one
/// file for each month of [`months_of`], in that order, named after the
/// month and holding the month's transactions in the order in which they
/// are written.
pub open spec fn files_hold(files: Seq<BucketFile>, s: Seq<Stamped>) -> bool {
    &&& files.len() == months_of(s).len()
    &&& forall|i: int|
        0 <= i < files.len() ==> {
            &&& (#[trigger] files[i]).name@ == bucket_file_text(months_of(s)[i])
            &&& files[i].entries@ == untimed(in_order(in_month(s, months_of(s)[i])))
        }
}

/// Whether `files` are the bucket files of the transactions answer
/// `transactions`, its entries being stamped in `zone`.
pub open spec fn files_of(files: Seq<BucketFile>, transactions: Transactions, zone: tzfile::Tz) -> bool {
    stamped_in(entries_of(transactions), zone) matches Ok(stamped) && files_hold(files, stamped)
}

/// The lines of all files in the order in which they are written: file
/// after file, and within each file in the file's order.
pub open spec fn all_lines(files: Seq<BucketFile>) -> Seq<TransactionWithStatus> {
    Seq::new(files.len(), |i: int| files[i].entries@).flatten()
}

/// Two lists that hold the same elements equally often still do so when a
/// function has been applied to every element.
pub proof fn mapping_keeps_counts<A, B>(a: Seq<A>, b: Seq<A>, f: spec_fn(A) -> B)
    requires
        a.to_multiset() == b.to_multiset(),
    ensures
        a.map_values(f).to_multiset() == b.map_values(f).to_multiset(),
    decreases a.len(),
{
    broadcast use vstd::multiset::group_multiset_axioms;

    vstd::seq_lib::to_multiset_len(a);
    vstd::seq_lib::to_multiset_len(b);
    if a.len() == 0 {
        assert(a.map_values(f) =~= b.map_values(f));
    } else {
        let x = a.last();
        let front = a.drop_last();
        assert(a =~= front.push(x));
        vstd::seq_lib::to_multiset_build(front, x);
        vstd::seq_lib::to_multiset_contains(b, x);
        assert(a.to_multiset().count(x) > 0);
        let j = choose|j: int| 0 <= j < b.len() && b[j] == x;
        let rest = b.remove(j);
        vstd::seq_lib::to_multiset_remove(b, j);
        assert(front.to_multiset() =~= rest.to_multiset());
        mapping_keeps_counts(front, rest, f);
        assert(a.map_values(f) =~= front.map_values(f).push(f(x)));
        assert(b.map_values(f) =~= rest.map_values(f).insert(j, f(x)));
        vstd::seq_lib::to_multiset_build(front.map_values(f), f(x));
        vstd::seq_lib::to_multiset_insert(rest.map_values(f), j, f(x));
    }
}

/// The tagged transactions of parts joined are those of each part, joined.
proof fn untimed_parts(parts: Seq<Seq<Stamped>>)
    ensures
        untimed(parts.flatten()) == parts.map_values(|p: Seq<Stamped>| untimed(p)).flatten(),
    decreases parts.len(),
{
    let f = |p: Seq<Stamped>| untimed(p);
    if parts.len() == 0 {
        assert(parts.map_values(f) =~= Seq::<Seq<TransactionWithStatus>>::empty());
        assert(untimed(parts.flatten()) =~= Seq::<TransactionWithStatus>::empty());
    } else {
        let front = parts.drop_last();
        let last = parts.last();
        assert(parts =~= front.push(last));
        untimed_parts(front);
        front.lemma_flatten_push(last);
        assert(parts.map_values(f) =~= front.map_values(f).push(untimed(last)));
        front.map_values(f).lemma_flatten_push(untimed(last));
        assert(untimed(front.flatten() + last) =~= untimed(front.flatten()) + untimed(last));
    }
}

/// The files of an account hold every transaction that was fetched exactly
/// once: over all files there are as many lines as the two lists have
/// transactions, every transaction with the tag of its list stands on as
/// many lines as it occurs in the lists, and no file is empty.
pub proof fn files_hold_every_transaction_once(
    files: Seq<BucketFile>,
    transactions: Transactions,
    zone: tzfile::Tz,
)
    requires
        files_of(files, transactions, zone),
    ensures
        all_lines(files).to_multiset() == entries_of(transactions).to_multiset(),
        all_lines(files).len() == transactions.transactions.booked.len()
            + transactions.transactions.pending.len(),
        forall|i: int| 0 <= i < files.len() ==> (#[trigger] files[i]).entries.len() > 0,
{
    let entries = entries_of(transactions);
    let s = stamped_in(entries, zone)->Ok_0;
    let parts = buckets_apart(s, months_of(s));
    stamping_keeps_entries(entries, zone);
    assert(untimed(s) =~= entries);
    every_entry_is_written_once(s);
    mapping_keeps_counts(written(s), s, |x: Stamped| x.entry);
    untimed_parts(parts);
    assert(Seq::new(files.len(), |i: int| files[i].entries@) =~= parts.map_values(
        |p: Seq<Stamped>| untimed(p),
    ));
    vstd::seq_lib::to_multiset_len(all_lines(files));
    vstd::seq_lib::to_multiset_len(entries);
    assert forall|i: int| 0 <= i < files.len() implies (#[trigger] files[i]).entries.len()
        > 0 by {
        month_has_an_entry(s, i);
        ordering_keeps_entries(in_month(s, months_of(s)[i]));
    }
}

/// Two runs on the same transactions in the same zone write the same
/// files: the same names in the same order, each with the same lines in the
/// same order.
pub proof fn files_are_determined(
    first: Seq<BucketFile>,
    second: Seq<BucketFile>,
    transactions: Transactions,
    zone: tzfile::Tz,
)
    requires
        files_of(first, transactions, zone),
        files_of(second, transactions, zone),
    ensures
        first.len() == second.len(),
        forall|i: int|
            0 <= i < first.len() ==> (#[trigger] first[i]).name@ == second[i].name@
                && first[i].entries@ == second[i].entries@,
{
}

/// Whether `action` is what an account in `stage` waits for, apart from the
/// content of bucket files.
pub open spec fn ingest_action_fits(
    action: IngestAction,
    stage: IngestStage,
    account_id: u128,
    window: DateWindow,
    dir: Seq<char>,
) -> bool {
    match stage {
        IngestStage::FetchingDetails => action matches IngestAction::Fetch { path } && path@
            == account_path_text(account_id),
        IngestStage::WritingDetails { .. } => action matches IngestAction::WriteDetails {
            dir: d,
            name,
        } && d@ == dir && name@ == details_file_text(),
        IngestStage::FetchingBalances => action matches IngestAction::Fetch { path } && path@
            == balances_path_text(account_id),
        IngestStage::WritingBalances => action matches IngestAction::WriteBalances {
            dir: d,
            name,
        } && d@ == dir && name@ == balances_file_text(),
        IngestStage::FetchingTransactions => action matches IngestAction::Fetch { path } && path@
            == transactions_path_text(account_id, window_query(window)),
        IngestStage::WritingBuckets => action matches IngestAction::WriteBuckets { dir: d, files }
            && d@ == dir,
        IngestStage::Done => action is Finish,
        IngestStage::Failed(e) => action matches IngestAction::Abort(x) && x == e,
    }
}

/// The files of ordered buckets.
pub fn bucket_files(buckets: Vec<Bucket>) -> (r: Vec<BucketFile>)
    ensures
        files_fit(r@, buckets@),
{
    let ghost all = buckets@;
    let mut files: Vec<BucketFile> = Vec::new();
    for bucket in it: buckets
        invariant
            it.seq() == all,
            files_fit(files@, all.take(it.index() as int)),
    {
        let ghost done = bucket.entries@;
        let name = bucket_file_name(&bucket.month);
        let mut entries: Vec<TransactionWithStatus> = Vec::new();
        for stamped in inner: bucket.entries
            invariant
                inner.seq() == done,
                entries@ == done.take(inner.index() as int).map_values(|s: Stamped| s.entry),
        {
            entries.push(stamped.entry);
            assert(entries@ =~= done.take(inner.index() + 1).map_values(|s: Stamped| s.entry));
        }
        assert(done.take(done.len() as int) =~= done);
        files.push(BucketFile { name, entries });
    }
    assert(all.take(all.len() as int) =~= all);
    files
}

impl Ingest {
    /// Begins the synchronisation of the account `account_id` for `window`:
    /// its details are to be fetched.
    pub fn start(account_id: u128, window: DateWindow) -> (r: (Ingest, IngestAction))
        ensures
            r.0.stage == IngestStage::FetchingDetails,
            r.0.account_id == account_id,
            r.0.window == window,
            r.0.dir@ == Seq::<char>::empty(),
            ingest_action_fits(r.1, r.0.stage, account_id, window, r.0.dir@),
    {
        let ingest = Ingest {
            stage: IngestStage::FetchingDetails,
            account_id,
            window,
            dir: String::new(),
        };
        (ingest, IngestAction::Fetch { path: account_path(account_id) })
    }

    /// Takes the account one step on: from what happened to what is to be
    /// done next, dates being taken at their first instant in `zone`.
    ///
    /// The directory becomes the account's IBAN when the details arrive.
    /// When the transactions arrive and can be stamped, the files to write
    /// are the bucket files of the stamped entries.
    pub fn step(&mut self, event: IngestEvent, zone: &tzfile::Tz) -> (r: IngestAction)
        ensures
            final(self).account_id == old(self).account_id,
            final(self).window == old(self).window,
            final(self).dir@ == if old(self).stage is FetchingDetails {
                match event {
                    IngestEvent::Details(account) => account.iban@,
                    _ => old(self).dir@,
                }
            } else {
                old(self).dir@
            },
            final(self).stage == ingest_stage_after(old(self).stage, event, *zone),
            old(self).stage is FetchingTransactions && final(self).stage is WritingBuckets
                ==> match event {
                IngestEvent::Transactions(transactions) => r matches IngestAction::WriteBuckets {
                    dir,
                    files,
                } && files_of(files@, transactions, *zone),
                _ => false,
            },
            ingest_action_fits(
                r,
                final(self).stage,
                final(self).account_id,
                final(self).window,
                final(self).dir@,
            ),
    {
        match self.stage {
            IngestStage::Done => IngestAction::Finish,
            IngestStage::Failed(e) => IngestAction::Abort(e),
            IngestStage::FetchingDetails => match event {
                IngestEvent::Failed(e) => self.give_up(e),
                IngestEvent::Details(account) => {
                    self.stage = IngestStage::WritingDetails { ready: account.status.is_ready() };
                    self.dir = account.iban;
                    IngestAction::WriteDetails {
                        dir: self.dir.clone(),
                        name: String::from_str("account-details.json"),
                    }
                },
                _ => self.give_up(SyncError::OutOfTurn),
            },
            IngestStage::WritingDetails { ready } => match event {
                IngestEvent::Failed(e) => self.give_up(e),
                IngestEvent::Written => if ready {
                    self.stage = IngestStage::FetchingBalances;
                    IngestAction::Fetch { path: balances_path(self.account_id) }
                } else {
                    self.give_up(SyncError::AccountNotReady)
                },
                _ => self.give_up(SyncError::OutOfTurn),
            },
            IngestStage::FetchingBalances => match event {
                IngestEvent::Failed(e) => self.give_up(e),
                IngestEvent::Balances => {
                    self.stage = IngestStage::WritingBalances;
                    IngestAction::WriteBalances {
                        dir: self.dir.clone(),
                        name: String::from_str("balances.jsonl"),
                    }
                },
                _ => self.give_up(SyncError::OutOfTurn),
            },
            IngestStage::WritingBalances => match event {
                IngestEvent::Failed(e) => self.give_up(e),
                IngestEvent::Written => {
                    let query = TransactionsQuery {
                        date_from: self.window.start,
                        date_to: self.window.end,
                    };
                    self.stage = IngestStage::FetchingTransactions;
                    IngestAction::Fetch { path: transactions_path(self.account_id, &query) }
                },
                _ => self.give_up(SyncError::OutOfTurn),
            },
            IngestStage::FetchingTransactions => match event {
                IngestEvent::Failed(e) => self.give_up(e),
                IngestEvent::Transactions(transactions) => {
                    match bucket_transactions(transactions, zone) {
                        Ok(buckets) => {
                            let files = bucket_files(buckets);
                            self.stage = IngestStage::WritingBuckets;
                            IngestAction::WriteBuckets { dir: self.dir.clone(), files }
                        },
                        Err(e) => self.give_up(SyncError::NoLocalMidnight(e.date)),
                    }
                },
                _ => self.give_up(SyncError::OutOfTurn),
            },
            IngestStage::WritingBuckets => match event {
                IngestEvent::Failed(e) => self.give_up(e),
                IngestEvent::Written => {
                    self.stage = IngestStage::Done;
                    IngestAction::Finish
                },
                _ => self.give_up(SyncError::OutOfTurn),
            },
        }
    }

    /// Gives the account up for `error`.
    fn give_up(&mut self, error: SyncError) -> (r: IngestAction)
        ensures
            final(self).stage == IngestStage::Failed(error),
            final(self).account_id == old(self).account_id,
            final(self).window == old(self).window,
            final(self).dir == old(self).dir,
            r matches IngestAction::Abort(x) && x == error,
    {
        self.stage = IngestStage::Failed(error);
        IngestAction::Abort(error)
    }
}

/// An account that is not `Ready` gets its details written and nothing
/// else: the details are written whatever the status, the step after that
/// gives the account up, and an account that has been given up stays so
/// whatever happens, so that no balances or transactions are fetched or
/// written for it. The run it belongs to fails with it and synchronises no
/// further account.
pub proof fn unready_account_fails_fast(
    window: DateWindow,
    account: Account,
    later: IngestEvent,
    zone: tzfile::Tz,
    history_days: u64,
    accounts: Seq<u128>,
    position: usize,
    more: SyncEvent,
)
    requires
        !account.status.ready(),
    ensures
        ({
            let written = ingest_stage_after(
                IngestStage::FetchingDetails,
                IngestEvent::Details(account),
                zone,
            );
            let given_up = ingest_stage_after(written, IngestEvent::Written, zone);
            let run = sync_stage_after(
                SyncStage::Ingesting { window, position },
                history_days,
                accounts,
                SyncEvent::Failed(SyncError::AccountNotReady),
            );
            &&& written is WritingDetails
            &&& given_up == IngestStage::Failed(SyncError::AccountNotReady)
            &&& ingest_stage_after(given_up, later, zone) == given_up
            &&& run == SyncStage::Failed(SyncError::AccountNotReady)
            &&& sync_stage_after(run, history_days, accounts, more) == run
            &&& sync_action_of(run, accounts) == SyncAction::Abort(SyncError::AccountNotReady)
        }),
{
}

/// The stage of a run after `done` accounts in a row have been reported as
/// synchronised.
pub open spec fn after_accounts(
    stage: SyncStage,
    history_days: u64,
    accounts: Seq<u128>,
    done: nat,
) -> SyncStage
    decreases done,
{
    if done == 0 {
        stage
    } else {
        sync_stage_after(
            after_accounts(stage, history_days, accounts, (done - 1) as nat),
            history_days,
            accounts,
            SyncEvent::AccountDone,
        )
    }
}

/// The accounts of a requisition are synchronised one after the other in
/// the order in which the requisition names them, each once: after as many
/// accounts as have been reported done the run is at the next account, and
/// it is done when the last has been reported.
pub proof fn accounts_are_taken_in_turn(
    window: DateWindow,
    history_days: u64,
    accounts: Seq<u128>,
    done: nat,
)
    requires
        0 < accounts.len() <= usize::MAX,
    ensures
        after_accounts(SyncStage::Ingesting { window, position: 0 }, history_days, accounts, done)
            == if done < accounts.len() {
            SyncStage::Ingesting { window, position: done as usize }
        } else {
            SyncStage::Done
        },
        done < accounts.len() ==> sync_action_of(
            after_accounts(
                SyncStage::Ingesting { window, position: 0 },
                history_days,
                accounts,
                done,
            ),
            accounts,
        ) == (SyncAction::Ingest { account_id: accounts[done as int], window }),
    decreases done,
{
    if done > 0 {
        accounts_are_taken_in_turn(window, history_days, accounts, (done - 1) as nat);
    }
}

/// An account that is `Ready` goes through every stage in order, where
/// nothing fails and the zone has an instant for every deciding date: its
/// details are written, then its balances are fetched and written, then its
/// transactions are fetched and its buckets written.
pub proof fn ready_account_runs_to_the_end(
    account: Account,
    transactions: Transactions,
    zone: tzfile::Tz,
)
    requires
        account.status.ready(),
        stamped_in(entries_of(transactions), zone) is Ok,
    ensures
        ({
            let s1 = ingest_stage_after(
                IngestStage::FetchingDetails,
                IngestEvent::Details(account),
                zone,
            );
            let s2 = ingest_stage_after(s1, IngestEvent::Written, zone);
            let s3 = ingest_stage_after(s2, IngestEvent::Balances, zone);
            let s4 = ingest_stage_after(s3, IngestEvent::Written, zone);
            let s5 = ingest_stage_after(s4, IngestEvent::Transactions(transactions), zone);
            let s6 = ingest_stage_after(s5, IngestEvent::Written, zone);
            &&& s1 == (IngestStage::WritingDetails { ready: true })
            &&& s2 == IngestStage::FetchingBalances
            &&& s3 == IngestStage::WritingBalances
            &&& s4 == IngestStage::FetchingTransactions
            &&& s5 == IngestStage::WritingBuckets
            &&& s6 == IngestStage::Done
        }),
{
}

impl Cmd {
    /// Begins a run for the provider this command names: the run waits for
    /// the provider's link state. Fails where the configuration names no
    /// such provider.
    pub fn start(&self, config: &ScraperConfig) -> (r: Result<SyncRun, SyncError>)
        ensures
            match r {
                Ok(run) => {
                    &&& config.has_provider(self.provider@)
                    &&& run.stage == SyncStage::LoadingState
                    &&& run.accounts@ == Seq::<u128>::empty()
                    &&& run.wf()
                    &&& exists|i: int|
                        config.first_named(i, self.provider@) && run.history_days
                            == config.provider[i].config.spec_history_days()
                },
                Err(e) => e == SyncError::UnknownProvider && !config.has_provider(self.provider@),
            },
    {
        match config.find_provider(self.provider.as_str()) {
            Some(i) => Ok(
                SyncRun {
                    stage: SyncStage::LoadingState,
                    history_days: config.provider[i].config.history_days(),
                    accounts: Vec::new(),
                },
            ),
            None => Err(SyncError::UnknownProvider),
        }
    }
}

} // verus!
