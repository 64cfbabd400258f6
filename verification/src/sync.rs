//! What a run of the fetch-only provider fetches, in which order, and the
//! file each answer is written to.

use crate::calendar::{format_year_month, year_month_text, Date};
use crate::client::{AccountsResponse, CardsResponse, Endpoint};
use vstd::prelude::*;
use vstd::string::StringExecFns;

verus! {

/// One fetch and the file its answer is written to, as the names that lead
/// to the file from the target directory.
#[derive(Debug)]
pub struct Scrape {
    pub endpoint: Endpoint,
    pub file: Vec<String>,
}

/// The month a date lies in, counted from the year 0.
pub open spec fn month_index(date: Date) -> int {
    date.year * 12 + date.month - 1
}

/// The earlier of two dates.
pub open spec fn earlier(a: Date, b: Date) -> Date {
    if b.before(a) {
        b
    } else {
        a
    }
}

/// The months from the one that begins on `start` to the one `to` lies in:
/// for each the first day and the last day, the last being `to` where the
/// month ends after it. A month whose successor lies beyond the calendar is
/// left out, and there are no months where `start` is no day of the calendar.
pub open spec fn months_between(start: Date, to: Date) -> Seq<(Date, Date)>
    decreases month_index(to) - month_index(start) + 1,
{
    if start.wf() && !to.before(start) {
        match start.next_month_start() {
            Some(next) => seq![(start, earlier(start.month_end(), to))] + months_between(next, to),
            None => Seq::empty(),
        }
    } else {
        Seq::empty()
    }
}

/// The months to fetch for the days from `from_date` to `to_date`, each as
/// its first and its last day: from the month `from_date` lies in, whole
/// from its first day, to the month of `to_date`, which ends on `to_date`.
pub fn months(from_date: &Date, to_date: &Date) -> (r: Vec<(Date, Date)>)
    ensures
        r@ == months_between(from_date.month_start(), *to_date),
{
    let ghost first = from_date.month_start();
    let mut out: Vec<(Date, Date)> = Vec::new();
    let mut start = from_date.first_of_month();
    loop
        invariant
            first == from_date.month_start(),
            months_between(first, *to_date) == out@ + months_between(start, *to_date),
        decreases
            if start.wf() && !to_date.before(start) {
                month_index(*to_date) - month_index(start) + 1
            } else {
                0
            },
    {
        if !start.is_wf() || to_date.is_before(&start) {
            assert(out@ + Seq::<(Date, Date)>::empty() =~= out@);
            return out;
        }
        let next = match start.first_of_next_month() {
            Some(next) => next,
            None => {
                assert(out@ + Seq::<(Date, Date)>::empty() =~= out@);
                return out;
            },
        };
        let last = start.last_of_month();
        let end = if to_date.is_before(&last) {
            *to_date
        } else {
            last
        };
        proof {
            assert(out@.push((start, end)) + months_between(next, *to_date) =~= out@ + (seq![
                (start, end),
            ] + months_between(next, *to_date)));
        }
        out.push((start, end));
        start = next;
    }
}

/// Every month of [`months_between`] begins on a first of the month and
/// ends in the same month, on its last day or on `to` where that is
/// earlier, not before it begins and not after `to`; each month follows the
/// one before it; and the first is the one that begins on `start`.
pub proof fn months_are_consecutive(start: Date, to: Date)
    requires
        start.day == 1,
    ensures
        forall|i: int|
            0 <= i < months_between(start, to).len() ==> {
                let (first, last) = #[trigger] months_between(start, to)[i];
                &&& first.wf()
                &&& first.day == 1
                &&& last == earlier(first.month_end(), to)
                &&& last.year == first.year
                &&& last.month == first.month
                &&& !last.before(first)
                &&& !to.before(last)
                &&& month_index(first) == month_index(start) + i
            },
    decreases month_index(to) - month_index(start) + 1,
{
    if start.wf() && !to.before(start) {
        match start.next_month_start() {
            Some(next) => {
                months_are_consecutive(next, to);
                let rest = months_between(next, to);
                let all = months_between(start, to);
                assert forall|i: int| 0 <= i < all.len() implies {
                    let (first, last) = #[trigger] all[i];
                    &&& first.wf()
                    &&& first.day == 1
                    &&& last == earlier(first.month_end(), to)
                    &&& last.year == first.year
                    &&& last.month == first.month
                    &&& !last.before(first)
                    &&& !to.before(last)
                    &&& month_index(first) == month_index(start) + i
                } by {
                    if i > 0 {
                        assert(all[i] == rest[i - 1]);
                    }
                }
            },
            None => {},
        }
    }
}

/// From a first of the month to a day not before it there is one month for
/// each calendar month from the one to the other, but for the last month of
/// the calendar, which is left out.
pub proof fn months_are_counted(start: Date, to: Date)
    requires
        start.wf(),
        start.day == 1,
        to.wf(),
        !to.before(start),
    ensures
        months_between(start, to).len() == month_index(to) - month_index(start) + if to.year
            == crate::calendar::MAX_YEAR && to.month == 12 {
            0int
        } else {
            1int
        },
    decreases month_index(to) - month_index(start) + 1,
{
    match start.next_month_start() {
        Some(next) => {
            if !to.before(next) {
                months_are_counted(next, to);
            } else {
                assert(months_between(next, to) == Seq::<(Date, Date)>::empty());
            }
        },
        None => {},
    }
}

/// The texts of a list of strings.
pub open spec fn texts(names: Seq<String>) -> Seq<Seq<char>> {
    names.map_values(|s: String| s@)
}

/// The name of the file of one month's transactions.
pub open spec fn month_file_text(month: Date) -> Seq<char> {
    year_month_text(month) + ".json"@
}

/// What a balance or a month of transactions belongs to.
#[derive(Clone, Copy, Debug, PartialEq, Eq, Structural)]
pub enum Owner {
    Account,
    Card,
}

impl Owner {
    /// The directory that holds the files of accounts, or of cards.
    pub open spec fn folder_text(self) -> Seq<char> {
        match self {
            Owner::Account => "accounts"@,
            Owner::Card => "cards"@,
        }
    }

    /// The directory that holds the files of accounts, or of cards.
    pub fn folder(&self) -> (r: &'static str)
        ensures
            r@ == self.folder_text(),
    {
        match self {
            Owner::Account => "accounts",
            Owner::Card => "cards",
        }
    }
}

impl Scrape {
    /// Whether this is the fetch of the user's details.
    pub open spec fn is_info(self) -> bool {
        self.endpoint is Info && texts(self.file@) == seq!["user-info.json"@]
    }

    /// Whether this is the fetch of the user's accounts.
    pub open spec fn is_accounts(self) -> bool {
        self.endpoint is Accounts && texts(self.file@) == seq!["accounts.json"@]
    }

    /// Whether this is the fetch of the user's cards.
    pub open spec fn is_cards(self) -> bool {
        self.endpoint is Cards && texts(self.file@) == seq!["cards.json"@]
    }

    /// Whether this is the fetch of the balance of the account or card `id`.
    pub open spec fn is_balance(self, owner: Owner, id: Seq<char>) -> bool {
        &&& match owner {
            Owner::Account => self.endpoint matches Endpoint::AccountBalance { account_id }
                && account_id@ == id,
            Owner::Card => self.endpoint matches Endpoint::CardBalance { card_id } && card_id@
                == id,
        }
        &&& texts(self.file@) == seq![owner.folder_text(), id, "balance.json"@]
    }

    /// Whether this is the fetch of the transactions of the account or card
    /// `id` in the month from `first` to `last`.
    pub open spec fn is_month(self, owner: Owner, id: Seq<char>, first: Date, last: Date) -> bool {
        &&& match owner {
            Owner::Account => self.endpoint matches Endpoint::AccountTransactions {
                account_id,
                from,
                to,
            } && account_id@ == id && from == first && to == last,
            Owner::Card => self.endpoint matches Endpoint::CardTransactions { card_id, from, to }
                && card_id@ == id && from == first && to == last,
        }
        &&& texts(self.file@) == seq![owner.folder_text(), id, month_file_text(first)]
    }
}

/// The file `name` in the target directory.
fn file_of_one(name: &str) -> (r: Vec<String>)
    ensures
        texts(r@) == seq![name@],
{
    let mut file: Vec<String> = Vec::new();
    file.push(String::from_str(name));
    assert(texts(file@) =~= seq![name@]);
    file
}

/// The file `name` in the directory of `id` inside `folder`.
fn file_of_three(folder: &str, id: &str, name: String) -> (r: Vec<String>)
    ensures
        texts(r@) == seq![folder@, id@, name@],
{
    let mut file: Vec<String> = Vec::new();
    file.push(String::from_str(folder));
    file.push(String::from_str(id));
    file.push(name);
    assert(texts(file@) =~= seq![folder@, id@, name@]);
    file
}

/// The name of the file of one month's transactions.
fn month_file_name(month: &Date) -> (r: String)
    ensures
        r@ == month_file_text(*month),
{
    let mut name = format_year_month(month);
    name.append(".json");
    name
}

/// The fetch of the user's details.
pub fn scrape_info() -> (r: Scrape)
    ensures
        r.is_info(),
{
    Scrape { endpoint: Endpoint::Info, file: file_of_one("user-info.json") }
}

/// The fetch of the user's accounts.
pub fn scrape_accounts() -> (r: Scrape)
    ensures
        r.is_accounts(),
{
    Scrape { endpoint: Endpoint::Accounts, file: file_of_one("accounts.json") }
}

/// The fetch of the user's cards.
pub fn scrape_cards() -> (r: Scrape)
    ensures
        r.is_cards(),
{
    Scrape { endpoint: Endpoint::Cards, file: file_of_one("cards.json") }
}

/// The fetch of the balance of an account or card.
pub fn scrape_balance(owner: Owner, id: &str) -> (r: Scrape)
    ensures
        r.is_balance(owner, id@),
{
    let file = file_of_three(owner.folder(), id, String::from_str("balance.json"));
    let endpoint = match owner {
        Owner::Account => Endpoint::AccountBalance { account_id: String::from_str(id) },
        Owner::Card => Endpoint::CardBalance { card_id: String::from_str(id) },
    };
    Scrape { endpoint, file }
}

/// The fetch of the transactions of an account or card in the month from
/// `first` to `last`.
pub fn scrape_month(owner: Owner, id: &str, first: Date, last: Date) -> (r: Scrape)
    ensures
        r.is_month(owner, id@, first, last),
{
    let file = file_of_three(owner.folder(), id, month_file_name(&first));
    let endpoint = match owner {
        Owner::Account => Endpoint::AccountTransactions {
            account_id: String::from_str(id),
            from: first,
            to: last,
        },
        Owner::Card => Endpoint::CardTransactions {
            card_id: String::from_str(id),
            from: first,
            to: last,
        },
    };
    Scrape { endpoint, file }
}

/// The fetches of the transactions of an account or card from `from_date`
/// to `to_date`: one for each month of [`months`], in order.
pub fn scrape_tx(owner: Owner, id: &str, from_date: &Date, to_date: &Date) -> (r: Vec<Scrape>)
    ensures
        r.len() == months_between(from_date.month_start(), *to_date).len(),
        forall|i: int|
            0 <= i < r.len() ==> (#[trigger] r[i]).is_month(
                owner,
                id@,
                months_between(from_date.month_start(), *to_date)[i].0,
                months_between(from_date.month_start(), *to_date)[i].1,
            ),
{
    let all = months(from_date, to_date);
    let mut out: Vec<Scrape> = Vec::new();
    let mut i: usize = 0;
    while i < all.len()
        invariant
            i <= all.len(),
            out.len() == i,
            forall|k: int|
                0 <= k < i ==> (#[trigger] out[k]).is_month(owner, id@, all[k].0, all[k].1),
        decreases all.len() - i,
    {
        let (first, last) = all[i];
        out.push(scrape_month(owner, id, first, last));
        i += 1;
    }
    out
}

/// The fetch of an account's balance.
pub fn scrape_account(account_id: &str) -> (r: Scrape)
    ensures
        r.is_balance(Owner::Account, account_id@),
{
    scrape_balance(Owner::Account, account_id)
}

/// The fetch of a card's balance.
pub fn scrape_card(account_id: &str) -> (r: Scrape)
    ensures
        r.is_balance(Owner::Card, account_id@),
{
    scrape_balance(Owner::Card, account_id)
}

/// The fetches of an account's transactions from `from_date` to `to_date`:
/// one for each month of [`months`], in order.
pub fn scrape_account_tx(account_id: &str, from_date: &Date, to_date: &Date) -> (r: Vec<Scrape>)
    ensures
        r.len() == months_between(from_date.month_start(), *to_date).len(),
        forall|i: int|
            0 <= i < r.len() ==> (#[trigger] r[i]).is_month(
                Owner::Account,
                account_id@,
                months_between(from_date.month_start(), *to_date)[i].0,
                months_between(from_date.month_start(), *to_date)[i].1,
            ),
{
    scrape_tx(Owner::Account, account_id, from_date, to_date)
}

/// The fetches of a card's transactions from `from_date` to `to_date`: one
/// for each month of [`months`], in order.
pub fn scrape_card_tx(account_id: &str, from_date: &Date, to_date: &Date) -> (r: Vec<Scrape>)
    ensures
        r.len() == months_between(from_date.month_start(), *to_date).len(),
        forall|i: int|
            0 <= i < r.len() ==> (#[trigger] r[i]).is_month(
                Owner::Card,
                account_id@,
                months_between(from_date.month_start(), *to_date)[i].0,
                months_between(from_date.month_start(), *to_date)[i].1,
            ),
{
    scrape_tx(Owner::Card, account_id, from_date, to_date)
}

/// The identifiers of a list of accounts.
pub open spec fn account_ids(accounts: AccountsResponse) -> Seq<Seq<char>> {
    Seq::new(accounts.results.len() as nat, |i: int| accounts.results[i].account_id@)
}

/// The identifiers of a list of cards.
pub open spec fn card_ids(cards: CardsResponse) -> Seq<Seq<char>> {
    Seq::new(cards.results.len() as nat, |i: int| cards.results[i].account_id@)
}

/// Why a run stopped.
#[derive(Clone, Copy, Debug, PartialEq, Eq, Structural)]
pub enum ScrapeError {
    /// A fetch failed, or its answer could not be written.
    Failed,
    /// An event arrived that the step under way does not wait for.
    OutOfTurn,
}

/// How far a run has come. A run goes through five phases: the user's
/// details, the list of accounts, every account in turn, the list of cards,
/// every card in turn.
#[derive(Clone, Copy, Debug, PartialEq, Eq, Structural)]
pub enum ScrapeStage {
    /// The user's details are being fetched.
    Info,
    /// The list of accounts is being fetched.
    Accounts,
    /// Something of the account or card at `item` is being fetched: its
    /// balance where `step` is 0, else the month before the `step`-th.
    Items { owner: Owner, item: usize, step: usize },
    /// The list of cards is being fetched.
    Cards,
    /// Everything has been fetched and written.
    Done,
    /// The run has stopped; nothing is fetched after this.
    Failed(ScrapeError),
}

/// What happened since the last action of a run.
#[derive(Debug)]
pub enum ScrapeEvent {
    /// The answer was fetched and written.
    Stored,
    /// The list of accounts was fetched and written.
    Accounts(AccountsResponse),
    /// The list of cards was fetched and written.
    Cards(CardsResponse),
    /// The fetch or the write failed.
    Failed,
}

/// What the caller is to do next in a run.
#[derive(Debug)]
pub enum ScrapeAction {
    /// Fetch this, write the answer to its file, and report it.
    Fetch(Scrape),
    /// Report success.
    Finish,
    /// Report failure.
    Abort(ScrapeError),
}

/// One run of the fetch-only provider.
#[derive(Debug)]
pub struct ScrapeRun {
    pub stage: ScrapeStage,
    /// The months to fetch transactions for.
    pub months: Vec<(Date, Date)>,
    /// The accounts or the cards that are being gone through.
    pub ids: Vec<String>,
}

/// The stage that follows `stage` on `event`, for a run over `months`
/// months that is going through the accounts or cards `ids`.
///
/// After the details comes the list of accounts, then each account in turn
/// with its balance and then its months, then the list of cards, then each
/// card in turn. A run that is done or has stopped stays so. A failure stops
/// the run at once, and so does an event that the stage does not wait for.
pub open spec fn scrape_stage_after(
    stage: ScrapeStage,
    ids: Seq<Seq<char>>,
    months: nat,
    event: ScrapeEvent,
) -> ScrapeStage {
    match (stage, event) {
        (ScrapeStage::Done, _) => stage,
        (ScrapeStage::Failed(_), _) => stage,
        (_, ScrapeEvent::Failed) => ScrapeStage::Failed(ScrapeError::Failed),
        (ScrapeStage::Info, ScrapeEvent::Stored) => ScrapeStage::Accounts,
        (ScrapeStage::Accounts, ScrapeEvent::Accounts(accounts)) => {
            if accounts.results.len() == 0 {
                ScrapeStage::Cards
            } else {
                ScrapeStage::Items { owner: Owner::Account, item: 0, step: 0 }
            }
        },
        (ScrapeStage::Cards, ScrapeEvent::Cards(cards)) => {
            if cards.results.len() == 0 {
                ScrapeStage::Done
            } else {
                ScrapeStage::Items { owner: Owner::Card, item: 0, step: 0 }
            }
        },
        (ScrapeStage::Items { owner, item, step }, ScrapeEvent::Stored) => {
            if step < months {
                ScrapeStage::Items { owner, item, step: (step + 1) as usize }
            } else if item + 1 < ids.len() {
                ScrapeStage::Items { owner, item: (item + 1) as usize, step: 0 }
            } else {
                match owner {
                    Owner::Account => ScrapeStage::Cards,
                    Owner::Card => ScrapeStage::Done,
                }
            }
        },
        _ => ScrapeStage::Failed(ScrapeError::OutOfTurn),
    }
}

/// The accounts or cards a run goes through after `event`: those of the
/// list that arrived, else as before.
pub open spec fn scrape_ids_after(stage: ScrapeStage, ids: Seq<Seq<char>>, event: ScrapeEvent) -> Seq<
    Seq<char>,
> {
    match (stage, event) {
        (ScrapeStage::Accounts, ScrapeEvent::Accounts(accounts)) => account_ids(accounts),
        (ScrapeStage::Cards, ScrapeEvent::Cards(cards)) => card_ids(cards),
        _ => ids,
    }
}

/// Whether `action` is what a run in `stage` waits for.
pub open spec fn scrape_action_fits(
    action: ScrapeAction,
    stage: ScrapeStage,
    ids: Seq<Seq<char>>,
    months: Seq<(Date, Date)>,
) -> bool {
    match stage {
        ScrapeStage::Info => action matches ScrapeAction::Fetch(s) && s.is_info(),
        ScrapeStage::Accounts => action matches ScrapeAction::Fetch(s) && s.is_accounts(),
        ScrapeStage::Cards => action matches ScrapeAction::Fetch(s) && s.is_cards(),
        ScrapeStage::Items { owner, item, step } => {
            if item < ids.len() && step == 0 {
                action matches ScrapeAction::Fetch(s) && s.is_balance(owner, ids[item as int])
            } else if item < ids.len() && step <= months.len() {
                action matches ScrapeAction::Fetch(s) && s.is_month(
                    owner,
                    ids[item as int],
                    months[step - 1].0,
                    months[step - 1].1,
                )
            } else {
                action matches ScrapeAction::Abort(e) && e == ScrapeError::OutOfTurn
            }
        },
        ScrapeStage::Done => action is Finish,
        ScrapeStage::Failed(e) => action matches ScrapeAction::Abort(x) && x == e,
    }
}

/// The identifiers of the accounts, in their order.
fn ids_of_accounts(accounts: &AccountsResponse) -> (r: Vec<String>)
    ensures
        texts(r@) == account_ids(*accounts),
{
    let mut ids: Vec<String> = Vec::new();
    let mut k: usize = 0;
    while k < accounts.results.len()
        invariant
            k <= accounts.results.len(),
            ids.len() == k,
            forall|i: int| 0 <= i < k ==> (#[trigger] ids[i])@ == accounts.results[i].account_id@,
        decreases accounts.results.len() - k,
    {
        ids.push(accounts.results[k].account_id.clone());
        k += 1;
    }
    assert(texts(ids@) =~= account_ids(*accounts));
    ids
}

/// The identifiers of the cards, in their order.
fn ids_of_cards(cards: &CardsResponse) -> (r: Vec<String>)
    ensures
        texts(r@) == card_ids(*cards),
{
    let mut ids: Vec<String> = Vec::new();
    let mut k: usize = 0;
    while k < cards.results.len()
        invariant
            k <= cards.results.len(),
            ids.len() == k,
            forall|i: int| 0 <= i < k ==> (#[trigger] ids[i])@ == cards.results[i].account_id@,
        decreases cards.results.len() - k,
    {
        ids.push(cards.results[k].account_id.clone());
        k += 1;
    }
    assert(texts(ids@) =~= card_ids(*cards));
    ids
}

impl ScrapeRun {
    /// Begins a run for the days from `from_date` to `to_date`: the user's
    /// details are to be fetched.
    pub fn start(from_date: &Date, to_date: &Date) -> (r: (ScrapeRun, ScrapeAction))
        ensures
            r.0.stage == ScrapeStage::Info,
            r.0.months@ == months_between(from_date.month_start(), *to_date),
            r.0.ids@.len() == 0,
            scrape_action_fits(r.1, r.0.stage, texts(r.0.ids@), r.0.months@),
    {
        let run = ScrapeRun {
            stage: ScrapeStage::Info,
            months: months(from_date, to_date),
            ids: Vec::new(),
        };
        (run, ScrapeAction::Fetch(scrape_info()))
    }

    /// What the caller is to do next.
    pub fn action(&self) -> (r: ScrapeAction)
        ensures
            scrape_action_fits(r, self.stage, texts(self.ids@), self.months@),
    {
        match self.stage {
            ScrapeStage::Info => ScrapeAction::Fetch(scrape_info()),
            ScrapeStage::Accounts => ScrapeAction::Fetch(scrape_accounts()),
            ScrapeStage::Cards => ScrapeAction::Fetch(scrape_cards()),
            ScrapeStage::Items { owner, item, step } => {
                if item < self.ids.len() && step == 0 {
                    ScrapeAction::Fetch(scrape_balance(owner, self.ids[item].as_str()))
                } else if item < self.ids.len() && step <= self.months.len() {
                    let (first, last) = self.months[step - 1];
                    ScrapeAction::Fetch(scrape_month(owner, self.ids[item].as_str(), first, last))
                } else {
                    ScrapeAction::Abort(ScrapeError::OutOfTurn)
                }
            },
            ScrapeStage::Done => ScrapeAction::Finish,
            ScrapeStage::Failed(e) => ScrapeAction::Abort(e),
        }
    }

    /// Takes the run one step on: from what happened to what is to be done
    /// next.
    pub fn step(&mut self, event: ScrapeEvent) -> (r: ScrapeAction)
        ensures
            final(self).months@ == old(self).months@,
            final(self).stage == scrape_stage_after(
                old(self).stage,
                texts(old(self).ids@),
                old(self).months@.len(),
                event,
            ),
            texts(final(self).ids@) == scrape_ids_after(
                old(self).stage,
                texts(old(self).ids@),
                event,
            ),
            scrape_action_fits(r, final(self).stage, texts(final(self).ids@), final(self).months@),
    {
        match self.stage {
            ScrapeStage::Done => {},
            ScrapeStage::Failed(_) => {},
            ScrapeStage::Info => {
                self.stage = match event {
                    ScrapeEvent::Failed => ScrapeStage::Failed(ScrapeError::Failed),
                    ScrapeEvent::Stored => ScrapeStage::Accounts,
                    _ => ScrapeStage::Failed(ScrapeError::OutOfTurn),
                };
            },
            ScrapeStage::Accounts => {
                match event {
                    ScrapeEvent::Failed => {
                        self.stage = ScrapeStage::Failed(ScrapeError::Failed);
                    },
                    ScrapeEvent::Accounts(accounts) => {
                        self.ids = ids_of_accounts(&accounts);
                        self.stage = if accounts.results.len() == 0 {
                            ScrapeStage::Cards
                        } else {
                            ScrapeStage::Items { owner: Owner::Account, item: 0, step: 0 }
                        };
                    },
                    _ => {
                        self.stage = ScrapeStage::Failed(ScrapeError::OutOfTurn);
                    },
                }
            },
            ScrapeStage::Cards => {
                match event {
                    ScrapeEvent::Failed => {
                        self.stage = ScrapeStage::Failed(ScrapeError::Failed);
                    },
                    ScrapeEvent::Cards(cards) => {
                        self.ids = ids_of_cards(&cards);
                        self.stage = if cards.results.len() == 0 {
                            ScrapeStage::Done
                        } else {
                            ScrapeStage::Items { owner: Owner::Card, item: 0, step: 0 }
                        };
                    },
                    _ => {
                        self.stage = ScrapeStage::Failed(ScrapeError::OutOfTurn);
                    },
                }
            },
            ScrapeStage::Items { owner, item, step } => {
                self.stage = match event {
                    ScrapeEvent::Failed => ScrapeStage::Failed(ScrapeError::Failed),
                    ScrapeEvent::Stored => if step < self.months.len() {
                        ScrapeStage::Items { owner, item, step: step + 1 }
                    } else if item < self.ids.len() && item + 1 < self.ids.len() {
                        ScrapeStage::Items { owner, item: item + 1, step: 0 }
                    } else {
                        match owner {
                            Owner::Account => ScrapeStage::Cards,
                            Owner::Card => ScrapeStage::Done,
                        }
                    },
                    _ => ScrapeStage::Failed(ScrapeError::OutOfTurn),
                };
            },
        }
        self.action()
    }
}

/// A run stops at the first failure: whatever it was doing, a failure puts
/// it into the stopped stage, in which it stays whatever is reported, and in
/// which nothing more is to be fetched.
pub proof fn scrape_stops_at_the_first_failure(
    stage: ScrapeStage,
    ids: Seq<Seq<char>>,
    months: Seq<(Date, Date)>,
    later: ScrapeEvent,
    action: ScrapeAction,
)
    requires
        !(stage is Done),
        !(stage is Failed),
    ensures
        ({
            let stopped = scrape_stage_after(stage, ids, months.len(), ScrapeEvent::Failed);
            &&& stopped == ScrapeStage::Failed(ScrapeError::Failed)
            &&& scrape_stage_after(stopped, ids, months.len(), later) == stopped
            &&& scrape_action_fits(action, stopped, ids, months) ==> action is Abort
        }),
{
}

} // verus!
