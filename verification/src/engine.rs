//! The refresh engine: given what the credential store holds, the request's
//! flags and the time, decide whether the cached value is served, whether the
//! source is run, and what is written back.
//!
//! The engine does no input or output. The caller looks the secret up, hands
//! the answer to [`plan_get`], runs the source where the plan says so, and
//! hands what came of it to [`RefreshPlan::finish`]; it writes to the store
//! and the index only where `store` is set. [`plan_get_now`] and
//! [`RefreshPlan::finish_now`] do the same by the system clock, which they
//! read only where the time plays a part.

use crate::error::{ErrorView, HemliError};
use crate::model::{expiry_of, expiry_representable, SecretView, SourceType, StoredSecret};
use crate::time::{representable, Timestamp};
use vstd::prelude::*;

verus! {

/// A request for a secret's value.
#[derive(Debug, Clone)]
pub struct GetRequest {
    pub namespace: String,
    pub secret: String,
    /// Fetch from the source even where a valid value is cached.
    pub force_refresh: bool,
    /// Serve what is cached, even expired, and never run the source.
    pub no_refresh: bool,
    /// Fetch and return the value without writing it anywhere.
    pub no_store: bool,
    /// Time-to-live for the fetched value, in place of the remembered one.
    pub ttl: Option<i64>,
    /// Source command for `sh -c`, in place of the remembered one.
    pub source_sh: Option<String>,
    /// Source command to run directly, in place of the remembered one.
    pub source_cmd: Option<String>,
}

/// A [`GetRequest`] as mathematical values.
pub struct GetRequestView {
    pub namespace: Seq<char>,
    pub secret: Seq<char>,
    pub force_refresh: bool,
    pub no_refresh: bool,
    pub no_store: bool,
    pub ttl: Option<i64>,
    pub source_sh: Option<Seq<char>>,
    pub source_cmd: Option<Seq<char>>,
}

impl View for GetRequest {
    type V = GetRequestView;

    open spec fn view(&self) -> GetRequestView {
        GetRequestView {
            namespace: self.namespace@,
            secret: self.secret@,
            force_refresh: self.force_refresh,
            no_refresh: self.no_refresh,
            no_store: self.no_store,
            ttl: self.ttl,
            source_sh: crate::model::text_view(self.source_sh),
            source_cmd: crate::model::text_view(self.source_cmd),
        }
    }
}

/// The command that a refresh runs, or that there is none.
#[derive(Debug, Clone, PartialEq, Eq)]
pub enum SourceChoice {
    Resolved { command: String, source_type: SourceType },
    Unresolved,
}

/// A [`SourceChoice`] as mathematical values.
pub enum SourceChoiceView {
    Resolved { command: Seq<char>, source_type: SourceType },
    Unresolved,
}

impl View for SourceChoice {
    type V = SourceChoiceView;

    open spec fn view(&self) -> SourceChoiceView {
        match *self {
            SourceChoice::Resolved { command, source_type } => SourceChoiceView::Resolved {
                command: command@,
                source_type,
            },
            SourceChoice::Unresolved => SourceChoiceView::Unresolved,
        }
    }
}

/// What a refresh does once the source has answered.
#[derive(Debug, Clone, PartialEq, Eq)]
pub struct RefreshPlan {
    /// The command to run.
    pub command: String,
    /// How to run it.
    pub source_type: SourceType,
    /// The time-to-live of the new record.
    pub ttl_seconds: Option<i64>,
    /// Whether the new record goes to the credential store and the index.
    pub store: bool,
}

/// A [`RefreshPlan`] as mathematical values.
pub struct RefreshPlanView {
    pub command: Seq<char>,
    pub source_type: SourceType,
    pub ttl_seconds: Option<i64>,
    pub store: bool,
}

impl View for RefreshPlan {
    type V = RefreshPlanView;

    open spec fn view(&self) -> RefreshPlanView {
        RefreshPlanView {
            command: self.command@,
            source_type: self.source_type,
            ttl_seconds: self.ttl_seconds,
            store: self.store,
        }
    }
}

/// How a request for a value is answered.
#[derive(Debug, Clone, PartialEq, Eq)]
pub enum GetPlan {
    /// The cached value is the answer. Nothing is run and nothing is written.
    Serve { value: String },
    /// The source is run and its output is the answer.
    Refresh(RefreshPlan),
}

/// A [`GetPlan`] as mathematical values.
pub enum GetPlanView {
    Serve { value: Seq<char> },
    Refresh(RefreshPlanView),
}

impl View for GetPlan {
    type V = GetPlanView;

    open spec fn view(&self) -> GetPlanView {
        match *self {
            GetPlan::Serve { value } => GetPlanView::Serve { value: value@ },
            GetPlan::Refresh(plan) => GetPlanView::Refresh(plan@),
        }
    }
}

/// The view of a record that may be absent.
pub open spec fn found_view(existing: Option<&StoredSecret>) -> Option<SecretView> {
    match existing {
        Some(s) => Some(s@),
        None => None,
    }
}

/// The view of a planning result.
pub open spec fn plan_view(r: Result<GetPlan, HemliError>) -> Result<GetPlanView, ErrorView> {
    match r {
        Ok(p) => Ok(p@),
        Err(e) => Err(e@),
    }
}

/// The view of a result that carries a record.
pub open spec fn record_view(r: Result<StoredSecret, HemliError>) -> Result<SecretView, ErrorView> {
    match r {
        Ok(s) => Ok(s@),
        Err(e) => Err(e@),
    }
}

/// A refresh is needed where it is forced, where nothing is cached, or where
/// what is cached is expired at `now`.
pub open spec fn needs_refresh(
    force_refresh: bool,
    existing: Option<SecretView>,
    now: int,
) -> bool {
    force_refresh || match existing {
        Some(e) => e.expired_at(now),
        None => true,
    }
}

/// The source of a refresh, by strict precedence: the shell override, then the
/// direct override, then the command that the cached record remembers together
/// with its type; otherwise there is none.
pub open spec fn resolved_source(
    source_sh: Option<Seq<char>>,
    source_cmd: Option<Seq<char>>,
    existing: Option<SecretView>,
) -> SourceChoiceView {
    match (source_sh, source_cmd, existing) {
        (Some(command), _, _) => SourceChoiceView::Resolved {
            command,
            source_type: SourceType::Sh,
        },
        (None, Some(command), _) => SourceChoiceView::Resolved {
            command,
            source_type: SourceType::Cmd,
        },
        (None, None, Some(e)) => match (e.source_command, e.source_type) {
            (Some(command), Some(source_type)) => SourceChoiceView::Resolved {
                command,
                source_type,
            },
            _ => SourceChoiceView::Unresolved,
        },
        (None, None, None) => SourceChoiceView::Unresolved,
    }
}

/// The time-to-live of a refreshed record: the override where one is given,
/// else the one the cached record has, else none.
pub open spec fn effective_ttl(ttl: Option<i64>, existing: Option<SecretView>) -> Option<i64> {
    match (ttl, existing) {
        (Some(t), _) => Some(t),
        (None, Some(e)) => e.ttl_seconds,
        (None, None) => None,
    }
}

/// The answer to a request once it is known whether a refresh is needed, in
/// the order of the rules:
/// with `no_refresh`, the cached value or `NotFound`;
/// where no refresh is needed, the cached value;
/// otherwise a refresh from the resolved source, or `NoSource`.
pub open spec fn decided(
    req: GetRequestView,
    existing: Option<SecretView>,
    refresh: bool,
) -> Result<GetPlanView, ErrorView> {
    if req.no_refresh {
        match existing {
            Some(e) => Ok(GetPlanView::Serve { value: e.value }),
            None => Err(ErrorView::NotFound { namespace: req.namespace, secret: req.secret }),
        }
    } else if !refresh {
        Ok(GetPlanView::Serve { value: existing.unwrap().value })
    } else {
        match resolved_source(req.source_sh, req.source_cmd, existing) {
            SourceChoiceView::Resolved { command, source_type } => Ok(
                GetPlanView::Refresh(
                    RefreshPlanView {
                        command,
                        source_type,
                        ttl_seconds: effective_ttl(req.ttl, existing),
                        store: !req.no_store,
                    },
                ),
            ),
            SourceChoiceView::Unresolved => Err(ErrorView::NoSource),
        }
    }
}

/// The answer to a request at the instant `now`.
pub open spec fn planned(
    req: GetRequestView,
    existing: Option<SecretView>,
    now: int,
) -> Result<GetPlanView, ErrorView> {
    decided(req, existing, needs_refresh(req.force_refresh, existing, now))
}

/// Whether the answer to a request depends on the time: it does where
/// neither flag settles the matter and the cached record has an expiry.
pub open spec fn clock_decides(req: GetRequestView, existing: Option<SecretView>) -> bool {
    &&& !req.no_refresh
    &&& !req.force_refresh
    &&& existing matches Some(e)
    &&& e.expires_at is Some
}

/// The record that a refresh writes: the fetched value, created at `now`,
/// remembering the source that was run and the plan's time-to-live.
pub open spec fn refreshed(plan: RefreshPlanView, value: Seq<char>, now: int) -> SecretView {
    SecretView {
        value,
        created_at: now,
        source_command: Some(plan.command),
        source_type: Some(plan.source_type),
        ttl_seconds: plan.ttl_seconds,
        expires_at: expiry_of(now, plan.ttl_seconds),
    }
}

/// Whether the cached value has to be fetched again.
pub fn refresh_needed(force_refresh: bool, existing: Option<&StoredSecret>, now: &Timestamp) -> (r:
    bool)
    ensures
        r == needs_refresh(force_refresh, found_view(existing), now@),
{
    if force_refresh {
        return true;
    }
    match existing {
        Some(e) => e.is_expired_at(now),
        None => true,
    }
}

/// Picks the source of a refresh: an override before the remembered command.
pub fn resolve_source(
    source_sh: Option<&String>,
    source_cmd: Option<&String>,
    existing: Option<&StoredSecret>,
) -> (r: SourceChoice)
    ensures
        r@ == resolved_source(
            match source_sh {
                Some(s) => Some(s@),
                None => None,
            },
            match source_cmd {
                Some(s) => Some(s@),
                None => None,
            },
            found_view(existing),
        ),
{
    if let Some(sh) = source_sh {
        return SourceChoice::Resolved { command: sh.clone(), source_type: SourceType::Sh };
    }
    if let Some(cmd) = source_cmd {
        return SourceChoice::Resolved { command: cmd.clone(), source_type: SourceType::Cmd };
    }
    match existing {
        Some(entry) => match (&entry.source_command, &entry.source_type) {
            (Some(command), Some(source_type)) => SourceChoice::Resolved {
                command: command.clone(),
                source_type: *source_type,
            },
            _ => SourceChoice::Unresolved,
        },
        None => SourceChoice::Unresolved,
    }
}

/// Picks the time-to-live of a refreshed record: the override before the
/// remembered one.
pub fn resolve_ttl(ttl: Option<i64>, existing: Option<&StoredSecret>) -> (r: Option<i64>)
    ensures
        r == effective_ttl(ttl, found_view(existing)),
{
    match ttl {
        Some(t) => Some(t),
        None => match existing {
            Some(e) => e.ttl_seconds,
            None => None,
        },
    }
}

/// Decides how a request is answered once it is known whether a refresh is
/// needed.
fn plan_given(req: &GetRequest, existing: Option<&StoredSecret>, refresh: bool) -> (r: Result<
    GetPlan,
    HemliError,
>)
    requires
        !req.no_refresh && !refresh ==> existing is Some,
    ensures
        plan_view(r) == decided(req@, found_view(existing), refresh),
        req.no_refresh ==> !(r matches Ok(GetPlan::Refresh(_))),
        r matches Ok(GetPlan::Refresh(p)) ==> p.store == !req.no_store,
{
    if req.no_refresh {
        return match existing {
            Some(entry) => Ok(GetPlan::Serve { value: entry.value.clone() }),
            None => Err(HemliError::not_found(req.namespace.as_str(), req.secret.as_str())),
        };
    }
    if !refresh {
        let entry = existing.unwrap();
        return Ok(GetPlan::Serve { value: entry.value.clone() });
    }
    match resolve_source(req.source_sh.as_ref(), req.source_cmd.as_ref(), existing) {
        SourceChoice::Resolved { command, source_type } => Ok(
            GetPlan::Refresh(
                RefreshPlan {
                    command,
                    source_type,
                    ttl_seconds: resolve_ttl(req.ttl, existing),
                    store: !req.no_store,
                },
            ),
        ),
        SourceChoice::Unresolved => Err(HemliError::NoSource),
    }
}

/// Decides how a request is answered, from what the credential store holds
/// for the pair (`existing`) and the time.
///
/// With `no_refresh` the source is never run; where the cached value is
/// served, nothing is written, so its creation time stays.
pub fn plan_get(req: &GetRequest, existing: Option<&StoredSecret>, now: &Timestamp) -> (r: Result<
    GetPlan,
    HemliError,
>)
    ensures
        plan_view(r) == planned(req@, found_view(existing), now@),
        req.no_refresh ==> !(r matches Ok(GetPlan::Refresh(_))),
        r matches Ok(GetPlan::Refresh(p)) ==> p.store == !req.no_store,
{
    let refresh = refresh_needed(req.force_refresh, existing, now);
    plan_given(req, existing, refresh)
}

/// Decides how a request is answered by the system clock. The clock is read
/// only where the time decides: not with `no_refresh` or `force_refresh`, not
/// where nothing is cached, and not for a record without expiry. `None` where
/// the time decides and the system clock cannot be read as a [`Timestamp`].
pub fn plan_get_now(req: &GetRequest, existing: Option<&StoredSecret>) -> (r: Option<
    Result<GetPlan, HemliError>,
>)
    ensures
        !clock_decides(req@, found_view(existing)) ==> r is Some,
        !clock_decides(req@, found_view(existing)) ==> forall|now: int|
            plan_view(r.unwrap()) == #[trigger] planned(req@, found_view(existing), now),
        r matches Some(plan) ==> exists|now: int|
            representable(now) && plan_view(plan) == #[trigger] planned(
                req@,
                found_view(existing),
                now,
            ),
        req.no_refresh ==> !(r matches Some(Ok(GetPlan::Refresh(_)))),
        r matches Some(Ok(GetPlan::Refresh(p))) ==> p.store == !req.no_store,
{
    let ghost found = found_view(existing);
    if req.no_refresh || req.force_refresh {
        let plan = plan_given(req, existing, req.force_refresh);
        proof {
            assert(representable(0) && plan_view(plan) == planned(req@, found, 0));
        }
        return Some(plan);
    }
    let entry = match existing {
        Some(entry) => entry,
        None => {
            let plan = plan_given(req, existing, true);
            proof {
                assert(representable(0) && plan_view(plan) == planned(req@, found, 0));
            }
            return Some(plan);
        },
    };
    match entry.is_expired() {
        Some(expired) => {
            let plan = plan_given(req, existing, expired);
            proof {
                let now = choose|now: int|
                    representable(now) && expired == #[trigger] entry@.expired_at(now);
                assert(representable(now) && plan_view(plan) == planned(req@, found, now));
            }
            Some(plan)
        },
        None => None,
    }
}

impl RefreshPlan {
    /// Whether the record of a refresh that ends at `now` has an expiry that a
    /// [`Timestamp`] can hold.
    pub fn fits(&self, now: &Timestamp) -> (r: bool)
        ensures
            r == expiry_representable(now@, self.ttl_seconds),
    {
        StoredSecret::expiry_fits(now, self.ttl_seconds)
    }

    /// The new record, once the source has given `value` at `now`. A refresh
    /// is a new fetch: the creation time is `now`, whatever was cached before.
    pub fn complete(&self, value: String, now: Timestamp) -> (r: StoredSecret)
        requires
            expiry_representable(now@, self.ttl_seconds),
        ensures
            r@ == refreshed(self@, value@, now@),
            r.wf(),
    {
        StoredSecret::new_at(
            value,
            Some(self.command.clone()),
            Some(self.source_type),
            self.ttl_seconds,
            now,
        )
    }

    /// The new record, created at the instant that the clock gave, where it
    /// gave one. There is a record exactly where there is an instant and the
    /// expiry is one that a [`Timestamp`] can hold.
    pub fn complete_from(&self, value: String, now: Option<Timestamp>) -> (r: Option<
        StoredSecret,
    >)
        ensures
            r is Some <==> (now matches Some(c) && expiry_representable(c@, self.ttl_seconds)),
            r matches Some(s) ==> s.wf() && s@ == refreshed(self@, value@, now.unwrap()@),
    {
        match now {
            Some(now) => {
                if self.fits(&now) {
                    Some(self.complete(value, now))
                } else {
                    None
                }
            },
            None => None,
        }
    }

    /// The new record, created at the time of the system clock:
    /// [`RefreshPlan::complete_from`] on what the clock gives. `None` where the
    /// clock cannot be read as a [`Timestamp`], or where the expiry lies
    /// outside the range of [`Timestamp`].
    pub fn complete_now(&self, value: String) -> (r: Option<StoredSecret>)
        ensures
            r matches Some(s) ==> {
                &&& expiry_representable(s@.created_at, self.ttl_seconds)
                &&& s@ == refreshed(self@, value@, s@.created_at)
                &&& s.wf()
            },
    {
        self.complete_from(value, Timestamp::now())
    }

    /// What a refresh ends in, from what the source gave at `now`: the new
    /// record for its value, or its failure handed on, in which case nothing
    /// is to be written.
    pub fn finish(&self, fetched: Result<String, HemliError>, now: Timestamp) -> (r: Result<
        StoredSecret,
        HemliError,
    >)
        requires
            fetched is Ok ==> expiry_representable(now@, self.ttl_seconds),
        ensures
            match fetched {
                Ok(v) => record_view(r) == Ok::<SecretView, ErrorView>(refreshed(self@, v@, now@)),
                Err(e) => record_view(r) == Err::<SecretView, ErrorView>(e@),
            },
            r matches Ok(s) ==> s.wf(),
    {
        match fetched {
            Ok(value) => Ok(self.complete(value, now)),
            Err(e) => Err(e),
        }
    }

    /// What a refresh ends in, by the system clock, which is read only where
    /// the source gave a value. A failure of the source is handed on. `None`
    /// inside `Ok` where the clock cannot be read as a [`Timestamp`], or where
    /// the expiry lies outside the range of [`Timestamp`].
    pub fn finish_now(&self, fetched: Result<String, HemliError>) -> (r: Result<
        Option<StoredSecret>,
        HemliError,
    >)
        ensures
            match fetched {
                Ok(v) => r matches Ok(made) && (made matches Some(s) ==> {
                    &&& expiry_representable(s@.created_at, self.ttl_seconds)
                    &&& s@ == refreshed(self@, v@, s@.created_at)
                    &&& s.wf()
                }),
                Err(e) => r matches Err(x) && x@ == e@,
            },
    {
        match fetched {
            Ok(value) => Ok(self.complete_now(value)),
            Err(e) => Err(e),
        }
    }
}

/// The cached record, or the failure that there is none.
pub fn require_found(existing: Option<StoredSecret>, namespace: &str, secret: &str) -> (r: Result<
    StoredSecret,
    HemliError,
>)
    ensures
        match existing {
            Some(s) => r == Ok::<StoredSecret, HemliError>(s),
            None => record_view(r) == Err::<SecretView, ErrorView>(
                ErrorView::NotFound { namespace: namespace@, secret: secret@ },
            ),
        },
{
    match existing {
        Some(s) => Ok(s),
        None => Err(HemliError::not_found(namespace, secret)),
    }
}

/// A request to change the metadata of a cached secret. The value is not
/// fetched again.
#[derive(Debug, Clone)]
pub struct EditRequest {
    pub namespace: String,
    pub secret: String,
    /// The new time-to-live.
    pub ttl: Option<i64>,
    /// Drop the time-to-live, so that the secret never expires.
    pub clear_ttl: bool,
    /// The new source command, for `sh -c`.
    pub source_sh: Option<String>,
    /// The new source command, to run directly.
    pub source_cmd: Option<String>,
}

/// An [`EditRequest`] as mathematical values.
pub struct EditRequestView {
    pub namespace: Seq<char>,
    pub secret: Seq<char>,
    pub ttl: Option<i64>,
    pub clear_ttl: bool,
    pub source_sh: Option<Seq<char>>,
    pub source_cmd: Option<Seq<char>>,
}

impl View for EditRequest {
    type V = EditRequestView;

    open spec fn view(&self) -> EditRequestView {
        EditRequestView {
            namespace: self.namespace@,
            secret: self.secret@,
            ttl: self.ttl,
            clear_ttl: self.clear_ttl,
            source_sh: crate::model::text_view(self.source_sh),
            source_cmd: crate::model::text_view(self.source_cmd),
        }
    }
}

impl EditRequestView {
    /// Whether the request changes anything.
    pub open spec fn has_modifications(self) -> bool {
        self.ttl is Some || self.clear_ttl || self.source_sh is Some || self.source_cmd is Some
    }

    /// The time-to-live after the edit: none where it is cleared, the new one
    /// where one is given, the old one otherwise.
    pub open spec fn ttl_after(self, before: Option<i64>) -> Option<i64> {
        if self.clear_ttl {
            None
        } else if self.ttl is Some {
            self.ttl
        } else {
            before
        }
    }

    /// Whether the edit derives the expiry anew.
    pub open spec fn changes_ttl(self) -> bool {
        self.clear_ttl || self.ttl is Some
    }

    /// The record after the edit. The time-to-live and the source change
    /// independently; value and creation time never do.
    pub open spec fn edited(self, existing: SecretView) -> SecretView {
        let timed = if self.changes_ttl() {
            existing.with_ttl(self.ttl_after(existing.ttl_seconds))
        } else {
            existing
        };
        match (self.source_sh, self.source_cmd) {
            (Some(command), _) => timed.with_source(command, SourceType::Sh),
            (None, Some(command)) => timed.with_source(command, SourceType::Cmd),
            (None, None) => timed,
        }
    }

    /// What the edit gives: `NoModifications` for a request that changes
    /// nothing, `NotFound` where nothing is cached, the edited record
    /// otherwise.
    pub open spec fn outcome(self, existing: Option<SecretView>) -> Result<SecretView, ErrorView> {
        if !self.has_modifications() {
            Err(ErrorView::NoModifications)
        } else {
            match existing {
                Some(e) => Ok(self.edited(e)),
                None => Err(ErrorView::NotFound { namespace: self.namespace, secret: self.secret }),
            }
        }
    }

    /// Whether the expiry that the edit derives is an instant that a
    /// [`Timestamp`] can hold.
    pub open spec fn representable_for(self, existing: Option<SecretView>) -> bool {
        match existing {
            Some(e) => self.changes_ttl() ==> expiry_representable(
                e.created_at,
                self.ttl_after(e.ttl_seconds),
            ),
            None => true,
        }
    }
}

/// The view of an owned record that may be absent.
pub open spec fn owned_view(existing: Option<StoredSecret>) -> Option<SecretView> {
    match existing {
        Some(s) => Some(s@),
        None => None,
    }
}

impl EditRequest {
    /// Refuses a request that changes nothing. To be asked before the
    /// credential store is.
    pub fn check(&self) -> (r: Result<(), HemliError>)
        ensures
            self@.has_modifications() ==> r is Ok,
            !self@.has_modifications() ==> r == Err::<(), HemliError>(HemliError::NoModifications),
    {
        if self.ttl.is_none() && !self.clear_ttl && self.source_sh.is_none()
            && self.source_cmd.is_none() {
            Err(HemliError::NoModifications)
        } else {
            Ok(())
        }
    }

    /// Whether the expiry that the edit derives for `existing` is an instant
    /// that a [`Timestamp`] can hold.
    pub fn fits(&self, existing: &StoredSecret) -> (r: bool)
        ensures
            r == self@.representable_for(Some(existing@)),
    {
        if self.clear_ttl {
            true
        } else if self.ttl.is_some() {
            StoredSecret::expiry_fits(&existing.created_at, self.ttl)
        } else {
            true
        }
    }

    /// Applies the edit to the cached record `existing`.
    pub fn apply(&self, existing: Option<StoredSecret>) -> (r: Result<StoredSecret, HemliError>)
        requires
            self@.representable_for(owned_view(existing)),
        ensures
            record_view(r) == self@.outcome(owned_view(existing)),
            r matches Ok(s) ==> (existing.unwrap().wf() ==> s.wf()),
            r matches Ok(s) ==> (self@.changes_ttl() ==> s.wf()),
    {
        if self.check().is_err() {
            return Err(HemliError::NoModifications);
        }
        let mut stored = match existing {
            Some(s) => s,
            None => {
                return Err(HemliError::not_found(self.namespace.as_str(), self.secret.as_str()));
            },
        };
        if self.clear_ttl {
            stored.ttl_seconds = None;
            stored.recalculate_expires_at();
        } else if let Some(ttl) = self.ttl {
            stored.ttl_seconds = Some(ttl);
            stored.recalculate_expires_at();
        }
        if let Some(sh) = &self.source_sh {
            stored.source_command = Some(sh.clone());
            stored.source_type = Some(SourceType::Sh);
        } else if let Some(cmd) = &self.source_cmd {
            stored.source_command = Some(cmd.clone());
            stored.source_type = Some(SourceType::Cmd);
        }
        Ok(stored)
    }
}

/// Clearing the time-to-live leaves neither time-to-live nor expiry, whatever
/// the record held before.
pub proof fn lemma_edit_clear_ttl(edit: EditRequestView, existing: SecretView)
    requires
        edit.clear_ttl,
    ensures
        edit.edited(existing).ttl_seconds is None,
        edit.edited(existing).expires_at is None,
        edit.outcome(Some(existing)) == Ok::<SecretView, ErrorView>(edit.edited(existing)),
{
}

/// A new time-to-live moves the expiry to the unchanged creation time plus the
/// new time-to-live; the time of the edit plays no part.
pub proof fn lemma_edit_ttl_counts_from_creation(
    edit: EditRequestView,
    existing: SecretView,
    ttl: i64,
)
    requires
        !edit.clear_ttl,
        edit.ttl == Some(ttl),
    ensures
        edit.edited(existing).ttl_seconds == Some(ttl),
        edit.edited(existing).expires_at == Some(
            existing.created_at + ttl * crate::time::NANOS_PER_SECOND,
        ),
        edit.edited(existing).created_at == existing.created_at,
        edit.outcome(Some(existing)) == Ok::<SecretView, ErrorView>(edit.edited(existing)),
{
}

/// An edit never touches the value or the creation time, and what it leaves of
/// a well-formed record is well-formed.
pub proof fn lemma_edit_keeps_identity(edit: EditRequestView, existing: SecretView)
    ensures
        edit.edited(existing).value == existing.value,
        edit.edited(existing).created_at == existing.created_at,
        existing.consistent() ==> edit.edited(existing).consistent(),
        !edit.changes_ttl() ==> edit.edited(existing).ttl_seconds == existing.ttl_seconds
            && edit.edited(existing).expires_at == existing.expires_at,
        edit.source_sh is None && edit.source_cmd is None ==> edit.edited(existing).source_command
            == existing.source_command && edit.edited(existing).source_type
            == existing.source_type,
{
}

/// A refresh starts the record anew: it is created at the time of the fetch,
/// remembers the source that was run, and is well-formed. The time-to-live is
/// sticky: without an override it is the one the cached record had.
pub proof fn lemma_refresh_is_new_fetch(
    req: GetRequestView,
    existing: Option<SecretView>,
    decided_at: int,
    plan: RefreshPlanView,
    value: Seq<char>,
    fetched_at: int,
)
    requires
        planned(req, existing, decided_at) == Ok::<GetPlanView, ErrorView>(
            GetPlanView::Refresh(plan),
        ),
    ensures
        !req.no_refresh,
        plan.store == !req.no_store,
        refreshed(plan, value, fetched_at).consistent(),
        refreshed(plan, value, fetched_at).created_at == fetched_at,
        refreshed(plan, value, fetched_at).value == value,
        req.ttl is Some ==> plan.ttl_seconds == req.ttl,
        req.ttl is None && existing is Some ==> plan.ttl_seconds == existing.unwrap().ttl_seconds,
        req.ttl is None && existing is None ==> plan.ttl_seconds is None,
        resolved_source(req.source_sh, req.source_cmd, existing) == (SourceChoiceView::Resolved {
            command: plan.command,
            source_type: plan.source_type,
        }),
{
}

/// A cached value that is not expired is served as it is unless a refresh is
/// forced, and with `no_refresh` even an expired one is.
pub proof fn lemma_cache_hit(req: GetRequestView, existing: SecretView, now: int)
    requires
        req.no_refresh || (!req.force_refresh && !existing.expired_at(now)),
    ensures
        planned(req, Some(existing), now) == Ok::<GetPlanView, ErrorView>(
            GetPlanView::Serve { value: existing.value },
        ),
{
}

/// With `no_refresh` the source is never run: the answer is the cached value,
/// or `NotFound` where nothing is cached.
pub proof fn lemma_no_refresh_never_fetches(
    req: GetRequestView,
    existing: Option<SecretView>,
    now: int,
)
    requires
        req.no_refresh,
    ensures
        !(planned(req, existing, now) matches Ok(GetPlanView::Refresh(_))),
        existing is None ==> planned(req, existing, now) == Err::<GetPlanView, ErrorView>(
            ErrorView::NotFound { namespace: req.namespace, secret: req.secret },
        ),
{
}

/// Where nothing is cached and the request names no source, there is nothing
/// to run: the request fails with `NoSource`, unless it asked for the cache
/// only.
pub proof fn lemma_nothing_cached_no_source(req: GetRequestView, now: int)
    requires
        !req.no_refresh,
        req.source_sh is None,
        req.source_cmd is None,
    ensures
        planned(req, None, now) == Err::<GetPlanView, ErrorView>(ErrorView::NoSource),
{
}

/// The record of a refresh needs no override later. Until it expires a plain
/// request is served from it; from then on a plain request runs the same
/// command in the same way, with the same time-to-live. Without time-to-live
/// it never expires; with a time-to-live of zero it is expired at every
/// instant after the fetch.
pub proof fn lemma_refreshed_record_is_remembered(
    plan: RefreshPlanView,
    value: Seq<char>,
    fetched_at: int,
    next: GetRequestView,
    now: int,
)
    requires
        !next.no_refresh,
        !next.force_refresh,
        next.ttl is None,
        next.source_sh is None,
        next.source_cmd is None,
    ensures
        ({
            let record = refreshed(plan, value, fetched_at);
            planned(next, Some(record), now) == if record.expired_at(now) {
                Ok::<GetPlanView, ErrorView>(
                    GetPlanView::Refresh(
                        RefreshPlanView {
                            command: plan.command,
                            source_type: plan.source_type,
                            ttl_seconds: plan.ttl_seconds,
                            store: !next.no_store,
                        },
                    ),
                )
            } else {
                Ok::<GetPlanView, ErrorView>(GetPlanView::Serve { value })
            }
        }),
        plan.ttl_seconds is None ==> !refreshed(plan, value, fetched_at).expired_at(now),
        plan.ttl_seconds == Some(0i64) ==> (refreshed(plan, value, fetched_at).expired_at(now) <==> now
            > fetched_at),
{
}

} // verus!
