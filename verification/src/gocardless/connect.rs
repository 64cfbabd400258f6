//! Linking a provider by consent: the requisition, the callback that the
//! user's browser is sent to, and the steps from the request for a
//! requisition to the state that later runs read.

use crate::encoding::{
    form_encode, form_encoded, form_safe_text_is_kept, hyphenated, hyphenated_is_form_safe,
    id_text, is_form_safe_char, read_uri, uri_text,
};
use crate::gocardless::config::{ConfigArg, ProviderState, ScraperConfig};
use crate::text::str_eq;
use vstd::prelude::*;
use vstd::string::StringExecFns;

verus! {

/// The command that links one provider.
#[derive(Debug, Clone)]
pub struct Cmd {
    pub config: ConfigArg,
    /// The name of the provider to link.
    pub provider: String,
}

/// What is sent to the provider to ask for a requisition.
#[derive(Debug)]
pub struct RequisitionReq {
    pub institution_id: String,
    /// Where the provider sends the user's browser after consent.
    pub redirect: String,
}

/// One consent session at the provider and the accounts it grants.
#[derive(Debug)]
pub struct Requisition {
    pub id: u128,
    /// Where the user gives consent.
    pub link: String,
    pub status: RequisitionStatus,
    pub accounts: Vec<u128>,
    pub other: serde_json::Value,
}

/// How far a requisition has come. A status that this library does not know
/// is kept as the provider wrote it.
#[derive(Debug, Clone, PartialEq, Eq)]
pub enum RequisitionStatus {
    /// The requisition has been created.
    Created,
    /// The user is giving consent at the provider's consent screen.
    GivingConsent,
    /// The user has been sent to the institution to authenticate.
    UndergoingAuthentication,
    /// Verification failed or the user entered wrong credentials.
    Rejected,
    /// The user is selecting accounts.
    SelectingAccounts,
    /// The user is granting access to the account information.
    GrantingAccess,
    /// The accounts have been linked to the requisition.
    Linked,
    /// Access to the accounts has expired.
    Expired,
    Other(String),
}

impl RequisitionStatus {
    /// The two letters by which the provider names this status.
    pub open spec fn code_text(self) -> Seq<char> {
        match self {
            RequisitionStatus::Created => "CR"@,
            RequisitionStatus::GivingConsent => "GC"@,
            RequisitionStatus::UndergoingAuthentication => "UA"@,
            RequisitionStatus::Rejected => "RJ"@,
            RequisitionStatus::SelectingAccounts => "SA"@,
            RequisitionStatus::GrantingAccess => "GA"@,
            RequisitionStatus::Linked => "LN"@,
            RequisitionStatus::Expired => "EX"@,
            RequisitionStatus::Other(s) => s@,
        }
    }

    /// The name under which this status is shown.
    pub open spec fn name_text(self) -> Seq<char> {
        match self {
            RequisitionStatus::Created => "Created"@,
            RequisitionStatus::GivingConsent => "GivingConsent"@,
            RequisitionStatus::UndergoingAuthentication => "UndergoingAuthentication"@,
            RequisitionStatus::Rejected => "Rejected"@,
            RequisitionStatus::SelectingAccounts => "SelectingAccounts"@,
            RequisitionStatus::GrantingAccess => "GrantingAccess"@,
            RequisitionStatus::Linked => "Linked"@,
            RequisitionStatus::Expired => "Expired"@,
            RequisitionStatus::Other(s) => s@,
        }
    }

    /// Whether consent is still under way: the user is to be sent on to the
    /// consent link.
    pub open spec fn in_progress(self) -> bool {
        ||| self is Created
        ||| self is GivingConsent
        ||| self is UndergoingAuthentication
        ||| self is SelectingAccounts
        ||| self is GrantingAccess
    }

    /// The status that the provider names by `code`. Every word is a status:
    /// one that is not known is kept as it is.
    pub fn from_code(code: &str) -> (r: RequisitionStatus)
        ensures
            r.code_text() == code@,
            r is Created <==> code@ == "CR"@,
            r is GivingConsent <==> code@ == "GC"@,
            r is UndergoingAuthentication <==> code@ == "UA"@,
            r is Rejected <==> code@ == "RJ"@,
            r is SelectingAccounts <==> code@ == "SA"@,
            r is GrantingAccess <==> code@ == "GA"@,
            r is Linked <==> code@ == "LN"@,
            r is Expired <==> code@ == "EX"@,
    {
        proof {
            reveal_strlit("CR");
            reveal_strlit("GC");
            reveal_strlit("UA");
            reveal_strlit("RJ");
            reveal_strlit("SA");
            reveal_strlit("GA");
            reveal_strlit("LN");
            reveal_strlit("EX");
            assert("CR"@[0] == 'C' && "GC"@[0] == 'G' && "UA"@[0] == 'U' && "RJ"@[0] == 'R');
            assert("SA"@[0] == 'S' && "GA"@[0] == 'G' && "LN"@[0] == 'L' && "EX"@[0] == 'E');
            assert("GC"@[1] == 'C' && "GA"@[1] == 'A');
        }
        if str_eq(code, "CR") {
            RequisitionStatus::Created
        } else if str_eq(code, "GC") {
            RequisitionStatus::GivingConsent
        } else if str_eq(code, "UA") {
            RequisitionStatus::UndergoingAuthentication
        } else if str_eq(code, "RJ") {
            RequisitionStatus::Rejected
        } else if str_eq(code, "SA") {
            RequisitionStatus::SelectingAccounts
        } else if str_eq(code, "GA") {
            RequisitionStatus::GrantingAccess
        } else if str_eq(code, "LN") {
            RequisitionStatus::Linked
        } else if str_eq(code, "EX") {
            RequisitionStatus::Expired
        } else {
            RequisitionStatus::Other(String::from_str(code))
        }
    }

    /// The two letters by which the provider names this status.
    pub fn code(&self) -> (r: String)
        ensures
            r@ == self.code_text(),
    {
        match self {
            RequisitionStatus::Created => String::from_str("CR"),
            RequisitionStatus::GivingConsent => String::from_str("GC"),
            RequisitionStatus::UndergoingAuthentication => String::from_str("UA"),
            RequisitionStatus::Rejected => String::from_str("RJ"),
            RequisitionStatus::SelectingAccounts => String::from_str("SA"),
            RequisitionStatus::GrantingAccess => String::from_str("GA"),
            RequisitionStatus::Linked => String::from_str("LN"),
            RequisitionStatus::Expired => String::from_str("EX"),
            RequisitionStatus::Other(s) => s.clone(),
        }
    }

    /// The name under which this status is shown.
    pub fn name(&self) -> (r: String)
        ensures
            r@ == self.name_text(),
    {
        match self {
            RequisitionStatus::Created => String::from_str("Created"),
            RequisitionStatus::GivingConsent => String::from_str("GivingConsent"),
            RequisitionStatus::UndergoingAuthentication => String::from_str(
                "UndergoingAuthentication",
            ),
            RequisitionStatus::Rejected => String::from_str("Rejected"),
            RequisitionStatus::SelectingAccounts => String::from_str("SelectingAccounts"),
            RequisitionStatus::GrantingAccess => String::from_str("GrantingAccess"),
            RequisitionStatus::Linked => String::from_str("Linked"),
            RequisitionStatus::Expired => String::from_str("Expired"),
            RequisitionStatus::Other(s) => s.clone(),
        }
    }

    /// Whether the requisition's accounts may be synchronised.
    pub fn is_linked(&self) -> (r: bool)
        ensures
            r == (*self is Linked),
    {
        match self {
            RequisitionStatus::Linked => true,
            _ => false,
        }
    }

    /// Whether consent is still under way.
    pub fn is_in_progress(&self) -> (r: bool)
        ensures
            r == self.in_progress(),
    {
        match self {
            RequisitionStatus::Created => true,
            RequisitionStatus::GivingConsent => true,
            RequisitionStatus::UndergoingAuthentication => true,
            RequisitionStatus::SelectingAccounts => true,
            RequisitionStatus::GrantingAccess => true,
            _ => false,
        }
    }
}

impl Requisition {
    /// Whether the requisition's accounts may be synchronised: its status is
    /// the one that ends the handshake with success.
    pub fn is_linked(&self) -> (r: bool)
        ensures
            r == (self.status is Linked),
    {
        self.status.is_linked()
    }
}

/// Where requisitions are asked for.
pub open spec fn requisitions_path_text() -> Seq<char> {
    "/api/v2/requisitions/"@
}

/// Where the requisition `id` is fetched.
pub open spec fn requisition_path_text(id: u128) -> Seq<char> {
    "/api/v2/requisitions/"@ + hyphenated(id) + "/"@
}

/// Where requisitions are asked for.
pub fn requisitions_path() -> (r: String)
    ensures
        r@ == requisitions_path_text(),
{
    String::from_str("/api/v2/requisitions/")
}

/// Where the requisition `id` is fetched.
pub fn requisition_path(id: u128) -> (r: String)
    ensures
        r@ == requisition_path_text(id),
{
    let mut path = String::from_str("/api/v2/requisitions/");
    path.append(id_text(id).as_str());
    path.append("/");
    path
}

/// The pairs of the query that a callback carries: the requisition under
/// the name `ref`.
pub open spec fn callback_pairs(id: u128) -> Seq<(Seq<char>, Seq<char>)> {
    seq![("ref"@, hyphenated(id))]
}

/// The address the user is sent to in order to begin: the locally served
/// address `base` with the query of a callback for `id`, which names the
/// requisition as `ref`.
pub open spec fn auth_url_text(base: Seq<char>, id: u128) -> Seq<char> {
    base + "?ref="@ + hyphenated(id)
}

/// The form-encoded query of a callback is `ref=` and the requisition's
/// identifier in hyphenated form, nothing in it being escaped.
pub proof fn callback_query_is_plain(id: u128)
    ensures
        form_encoded(callback_pairs(id)) == "ref="@ + hyphenated(id),
{
    reveal_strlit("ref");
    reveal_strlit("ref=");
    let name = "ref"@;
    assert(name[0] == 'r' && name[1] == 'e' && name[2] == 'f');
    assert forall|i: int| 0 <= i < name.len() implies is_form_safe_char(#[trigger] name[i]) by {
        assert(i == 0 || i == 1 || i == 2);
    }
    form_safe_text_is_kept(name);
    hyphenated_is_form_safe(id);
    form_safe_text_is_kept(hyphenated(id));
    assert(callback_pairs(id)[0] == (name, hyphenated(id)));
    assert(name + seq!['='] =~= "ref="@);
}

/// The address the user is sent to in order to begin.
pub fn auth_url(base: &str, id: u128) -> (r: String)
    ensures
        r@ == auth_url_text(base@, id),
{
    let mut pairs: Vec<(String, String)> = Vec::new();
    pairs.push((String::from_str("ref"), id_text(id)));
    proof {
        assert(crate::encoding::pairs_text(pairs@) =~= callback_pairs(id));
        callback_query_is_plain(id);
        reveal_strlit("?");
        reveal_strlit("ref=");
        reveal_strlit("?ref=");
        assert("?"@ + "ref="@ =~= "?ref="@);
    }
    let mut url = String::from_str(base);
    url.append("?");
    url.append(form_encode(&pairs).as_str());
    assert(url@ =~= base@ + "?ref="@ + hyphenated(id));
    url
}

/// What the callback listener shares between requests: the requisition it
/// waits for, and whether the handshake has been told to end.
#[derive(Debug, Clone, Copy, PartialEq, Eq, Structural)]
pub struct Listener {
    pub expected_requisition_id: u128,
    pub cancelled: bool,
}

/// The answer to one callback request.
#[derive(Debug)]
pub enum Reply {
    /// `404 Not Found`: the request names another requisition.
    NotFound,
    /// The page that sends the user on to the consent link.
    ConsentPage { url: String, status: RequisitionStatus },
    /// `200 OK`, in plain text.
    Done,
    /// `500 Internal Server Error`: the request could not be handled.
    ServerError,
}

/// What the listener does first with a callback request.
#[derive(Debug)]
pub enum CallbackStep {
    /// Answer at once.
    Respond(Reply),
    /// Fetch the requisition of this identifier, then answer by
    /// [`handle_requisition`].
    Fetch(u128),
}

impl Reply {
    /// The HTTP status of the answer.
    pub open spec fn spec_status_code(self) -> u16 {
        match self {
            Reply::NotFound => 404,
            Reply::ConsentPage { .. } => 200,
            Reply::Done => 200,
            Reply::ServerError => 500,
        }
    }

    /// The body of an answer in plain text; empty for the consent page,
    /// which is rendered from its address and status.
    pub open spec fn body_text(self) -> Seq<char> {
        match self {
            Reply::NotFound => "Unexpected requisition"@,
            Reply::ConsentPage { .. } => ""@,
            Reply::Done => "Ok"@,
            Reply::ServerError => "Error handling response"@,
        }
    }

    /// The HTTP status of the answer.
    pub fn status_code(&self) -> (r: u16)
        ensures
            r == self.spec_status_code(),
    {
        match self {
            Reply::NotFound => 404,
            Reply::ConsentPage { .. } => 200,
            Reply::Done => 200,
            Reply::ServerError => 500,
        }
    }

    /// The body of an answer in plain text.
    pub fn body(&self) -> (r: String)
        ensures
            r@ == self.body_text(),
    {
        match self {
            Reply::NotFound => String::from_str("Unexpected requisition"),
            Reply::ConsentPage { .. } => String::from_str(""),
            Reply::Done => String::from_str("Ok"),
            Reply::ServerError => String::from_str("Error handling response"),
        }
    }
}

impl Listener {
    /// A listener that waits for the requisition `expected`.
    pub fn new(expected_requisition_id: u128) -> (r: Listener)
        ensures
            r.expected_requisition_id == expected_requisition_id,
            !r.cancelled,
    {
        Listener { expected_requisition_id, cancelled: false }
    }

    /// The listener after a callback for its requisition found it in
    /// `status`: told to end where the status is `Linked`, else as before.
    pub open spec fn after(self, status: RequisitionStatus) -> Listener {
        Listener {
            expected_requisition_id: self.expected_requisition_id,
            cancelled: self.cancelled || status is Linked,
        }
    }
}

/// The answer to a callback that found the requisition in `status`, given
/// what reading its consent link as a URI gave.
pub open spec fn reply_fits(reply: Reply, status: RequisitionStatus, link: Option<Seq<char>>) -> bool {
    if status.in_progress() {
        match link {
            Some(url) => (reply matches Reply::ConsentPage { url: u, status: s } && u@ == url
                && s == status),
            None => reply is ServerError,
        }
    } else {
        reply is Done
    }
}

/// The first step of a callback request that names the requisition `id`:
/// `404 Not Found` where it is not the one the listener waits for, else the
/// requisition is to be fetched. The listener is left as it is.
pub fn handle_redirect(listener: &Listener, id: u128) -> (r: CallbackStep)
    ensures
        id != listener.expected_requisition_id ==> (r matches CallbackStep::Respond(reply)
            && reply is NotFound),
        id == listener.expected_requisition_id ==> (r matches CallbackStep::Fetch(fetch)
            && fetch == id),
{
    if id != listener.expected_requisition_id {
        CallbackStep::Respond(Reply::NotFound)
    } else {
        CallbackStep::Fetch(id)
    }
}

/// The answer for a requisition in `status`, given its consent link as a
/// URI, or `None` where the link is none.
pub fn consent_reply(status: RequisitionStatus, link: Option<String>) -> (r: Reply)
    ensures
        reply_fits(r, status, crate::text::opt_text(link)),
{
    if status.is_in_progress() {
        match link {
            Some(url) => Reply::ConsentPage { url, status },
            None => Reply::ServerError,
        }
    } else {
        Reply::Done
    }
}

/// The second step of a callback request: the answer once the requisition
/// has been fetched, or could not be (`None`).
///
/// While consent is under way the user is sent on to the consent link. A
/// requisition that is `Linked` tells the handshake to end; this is the only
/// way it ends. Any other status is answered and changes nothing.
pub fn handle_requisition(listener: &mut Listener, fetched: Option<Requisition>) -> (r: Reply)
    ensures
        match fetched {
            Some(requisition) => *final(listener) == old(listener).after(requisition.status)
                && reply_fits(r, requisition.status, uri_text(requisition.link@)),
            None => *final(listener) == *old(listener) && r is ServerError,
        },
{
    match fetched {
        None => Reply::ServerError,
        Some(requisition) => {
            if requisition.status.is_linked() {
                listener.cancelled = true;
            }
            let link = if requisition.status.is_in_progress() {
                match read_uri(requisition.link.as_str()) {
                    Ok(url) => Some(url),
                    Err(_) => None,
                }
            } else {
                None
            };
            consent_reply(requisition.status, link)
        },
    }
}

/// A callback never takes back the signal to end: once told to end the
/// listener stays so whatever is fetched later, a second `Linked` changes
/// nothing after the first, and only `Linked` gives the signal.
pub proof fn cancellation_is_idempotent(listener: Listener, first: RequisitionStatus, second: RequisitionStatus)
    ensures
        listener.cancelled ==> listener.after(first).cancelled,
        listener.after(first).after(first) == listener.after(first),
        first is Linked ==> listener.after(first).cancelled && listener.after(first).after(second)
            == listener.after(first),
        !(first is Linked) ==> listener.after(first) == listener,
{
}

/// Why linking stopped.
#[derive(Clone, Copy, Debug, PartialEq, Eq, Structural)]
pub enum LinkError {
    /// The configuration names no such provider.
    UnknownProvider,
    /// A request failed, or its answer could not be read.
    Remote,
    /// The listener could not be run, or the state could not be written.
    Io,
    /// An event arrived that the step under way does not wait for.
    OutOfTurn,
}

/// How far linking has come.
#[derive(Clone, Copy, Debug, PartialEq, Eq, Structural)]
pub enum LinkStage {
    /// A requisition is being asked for.
    Creating,
    /// The listener serves callbacks until it is told to end.
    Listening { requisition_id: u128 },
    /// The listener has shut down; the requisition is fetched once more.
    Confirming { requisition_id: u128 },
    /// The state is being written.
    Saving { requisition_id: u128 },
    /// The state has been written.
    Done,
    /// Linking has stopped.
    Failed(LinkError),
}

/// What happened since the last action of linking.
#[derive(Debug)]
pub enum LinkEvent {
    /// The provider created the requisition.
    Created(Requisition),
    /// The listener was told to end and has shut down.
    ListenerStopped,
    /// The requisition was fetched.
    Fetched(Requisition),
    /// The state was written.
    Saved,
    /// The action failed.
    Failed(LinkError),
}

/// What the caller is to do next to link a provider.
#[derive(Debug)]
pub enum LinkAction {
    /// Ask the provider for a requisition and report it.
    Create(RequisitionReq),
    /// Show the user `auth_url`, serve callbacks for the requisition
    /// `expected` until the listener is told to end, and report that it has
    /// shut down.
    Serve { expected: u128, auth_url: String },
    /// Fetch what is at `path` and report it.
    Fetch { path: String },
    /// Write the state and report it.
    Save(ProviderState),
    /// Report success.
    Finish,
    /// Report failure.
    Abort(LinkError),
}

/// The linking of one provider.
#[derive(Debug)]
pub struct LinkFlow {
    pub stage: LinkStage,
    /// The address at which the user reaches the listener.
    pub base_url: String,
}

/// The stage that follows `stage` on `event`, the listener being reached
/// at `base`.
///
/// The state is written whatever the status of the requisition fetched
/// after the listener has shut down. Linking that is done or has stopped
/// stays so, a failure of the action stops it, and so does an event that
/// the stage does not wait for.
pub open spec fn link_stage_after(stage: LinkStage, base: Seq<char>, event: LinkEvent) -> LinkStage {
    match (stage, event) {
        (LinkStage::Done, _) => stage,
        (LinkStage::Failed(_), _) => stage,
        (_, LinkEvent::Failed(e)) => LinkStage::Failed(e),
        (LinkStage::Creating, LinkEvent::Created(requisition)) => LinkStage::Listening {
            requisition_id: requisition.id,
        },
        (LinkStage::Listening { requisition_id }, LinkEvent::ListenerStopped) => {
            LinkStage::Confirming { requisition_id }
        },
        (LinkStage::Confirming { .. }, LinkEvent::Fetched(requisition)) => LinkStage::Saving {
            requisition_id: requisition.id,
        },
        (LinkStage::Saving { .. }, LinkEvent::Saved) => LinkStage::Done,
        _ => LinkStage::Failed(LinkError::OutOfTurn),
    }
}

/// Whether `action` is what linking in `stage` waits for, the listener
/// being reached at `base`. Nothing is said here of the request for a
/// requisition, with which linking begins.
pub open spec fn link_action_fits(action: LinkAction, stage: LinkStage, base: Seq<char>) -> bool {
    match stage {
        LinkStage::Creating => action is Create,
        LinkStage::Listening { requisition_id } => action matches LinkAction::Serve {
            expected,
            auth_url,
        } && expected == requisition_id && auth_url@ == auth_url_text(base, requisition_id),
        LinkStage::Confirming { requisition_id } => action matches LinkAction::Fetch { path }
            && path@ == requisition_path_text(requisition_id),
        LinkStage::Saving { requisition_id } => action matches LinkAction::Save(state)
            && state.requisition_id == requisition_id,
        LinkStage::Done => action is Finish,
        LinkStage::Failed(e) => action matches LinkAction::Abort(x) && x == e,
    }
}

/// Where nothing fails, linking goes from the created requisition through
/// listening and the last fetch to the written state, and the state that is
/// written names the requisition that was fetched last.
pub proof fn linking_runs_to_the_end(base: Seq<char>, created: Requisition, fetched: Requisition)
    ensures
        ({
            let s1 = link_stage_after(LinkStage::Creating, base, LinkEvent::Created(created));
            let s2 = link_stage_after(s1, base, LinkEvent::ListenerStopped);
            let s3 = link_stage_after(s2, base, LinkEvent::Fetched(fetched));
            let s4 = link_stage_after(s3, base, LinkEvent::Saved);
            &&& s1 == (LinkStage::Listening { requisition_id: created.id })
            &&& s2 == (LinkStage::Confirming { requisition_id: created.id })
            &&& s3 == (LinkStage::Saving { requisition_id: fetched.id })
            &&& s4 == LinkStage::Done
        }),
{
}

impl LinkFlow {
    /// Takes linking one step on: from what happened to what is to be done next.
    pub fn step(&mut self, event: LinkEvent) -> (r: LinkAction)
        ensures
            final(self).base_url@ == old(self).base_url@,
            final(self).stage == link_stage_after(old(self).stage, old(self).base_url@, event),
            !(final(self).stage is Creating) ==> link_action_fits(
                r,
                final(self).stage,
                final(self).base_url@,
            ),
    {
        match self.stage {
            LinkStage::Done => LinkAction::Finish,
            LinkStage::Failed(e) => LinkAction::Abort(e),
            LinkStage::Creating => match event {
                LinkEvent::Failed(e) => self.stop(e),
                LinkEvent::Created(requisition) => {
                    let url = auth_url(self.base_url.as_str(), requisition.id);
                    self.stage = LinkStage::Listening { requisition_id: requisition.id };
                    LinkAction::Serve { expected: requisition.id, auth_url: url }
                },
                _ => self.stop(LinkError::OutOfTurn),
            },
            LinkStage::Listening { requisition_id } => match event {
                LinkEvent::Failed(e) => self.stop(e),
                LinkEvent::ListenerStopped => {
                    self.stage = LinkStage::Confirming { requisition_id };
                    LinkAction::Fetch { path: requisition_path(requisition_id) }
                },
                _ => self.stop(LinkError::OutOfTurn),
            },
            LinkStage::Confirming { .. } => match event {
                LinkEvent::Failed(e) => self.stop(e),
                LinkEvent::Fetched(requisition) => {
                    let state = ProviderState::from_requisition(&requisition);
                    self.stage = LinkStage::Saving { requisition_id: requisition.id };
                    LinkAction::Save(state)
                },
                _ => self.stop(LinkError::OutOfTurn),
            },
            LinkStage::Saving { .. } => match event {
                LinkEvent::Failed(e) => self.stop(e),
                LinkEvent::Saved => {
                    self.stage = LinkStage::Done;
                    LinkAction::Finish
                },
                _ => self.stop(LinkError::OutOfTurn),
            },
        }
    }

    /// Stops linking for `error`.
    fn stop(&mut self, error: LinkError) -> (r: LinkAction)
        ensures
            final(self).stage == LinkStage::Failed(error),
            final(self).base_url == old(self).base_url,
            r matches LinkAction::Abort(x) && x == error,
    {
        self.stage = LinkStage::Failed(error);
        LinkAction::Abort(error)
    }
}

impl Cmd {
    /// Begins linking the provider this command names, the listener being
    /// reached at `base_url`: a requisition is to be asked for, for the
    /// provider's institution, with the listener's address as the place to
    /// come back to. Fails where the configuration names no such provider.
    pub fn start(&self, config: &ScraperConfig, base_url: &str) -> (r: Result<
        (LinkFlow, LinkAction),
        LinkError,
    >)
        ensures
            match r {
                Ok((flow, action)) => {
                    &&& flow.stage == LinkStage::Creating
                    &&& flow.base_url@ == base_url@
                    &&& action matches LinkAction::Create(request)
                    &&& request.redirect@ == base_url@
                    &&& exists|i: int|
                        config.first_named(i, self.provider@) && request.institution_id@
                            == config.provider[i].config.institution_id@
                },
                Err(e) => e == LinkError::UnknownProvider && !config.has_provider(self.provider@),
            },
    {
        match config.find_provider(self.provider.as_str()) {
            Some(i) => {
                let request = RequisitionReq {
                    institution_id: config.provider[i].config.institution_id.clone(),
                    redirect: String::from_str(base_url),
                };
                let flow = LinkFlow {
                    stage: LinkStage::Creating,
                    base_url: String::from_str(base_url),
                };
                Ok((flow, LinkAction::Create(request)))
            },
            None => Err(LinkError::UnknownProvider),
        }
    }
}

} // verus!
