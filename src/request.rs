//! Checks on a request to schedule a job, before anything is written.
use vstd::prelude::*;
use crate::recurrence::{plan_schedule, plan_spec, PlanError, SchedulePlan, ScheduleTiming};
use crate::text::same_text;

verus! {

/// A request to schedule a `send_invoice` or `send_reminder` job. Identifiers
/// are kept in their text form.
#[derive(Clone, Debug)]
pub struct RequestSchedule {
    pub job_type: String,
    pub external_id: Option<String>,
    pub title: Option<String>,
    pub description: Option<String>,
    pub tag: Option<String>,
    pub timing: ScheduleTiming,
}

/// Whom a planned job is for.
#[derive(Clone, Debug)]
pub enum ScheduleTarget {
    /// One schedule for this invoice.
    Invoice(String),
    /// One reminder schedule for this customer.
    Customer(String),
    /// One reminder schedule for each customer of the merchant with this tag.
    Tag(String),
}

/// An accepted request: the timing, whom it is for, and for a reminder its
/// title and description.
#[derive(Clone, Debug)]
pub struct RequestPlan {
    pub plan: SchedulePlan,
    pub target: ScheduleTarget,
    pub title: Option<String>,
    pub description: Option<String>,
}

#[derive(Clone, Copy, Debug, PartialEq, Eq, Structural)]
pub enum RequestError {
    Timing(PlanError),
    /// A `send_invoice` job names no invoice.
    MissingExternalId,
    MissingTitle,
    MissingDescription,
    /// A reminder names neither a customer nor a non-empty tag.
    MissingTag,
    UnsupportedJobType,
}

pub open spec fn opt_view(o: Option<String>) -> Option<Seq<char>> {
    match o {
        Some(s) => Some(s@),
        None => None,
    }
}

/// Present and not empty.
pub open spec fn filled(o: Option<String>) -> bool {
    o matches Some(s) && s@.len() > 0
}

/// The outcome of `plan_request`: the timing checks first, then those of the
/// job type.
pub open spec fn request_spec(req: RequestSchedule, now: int) -> Result<
    (SchedulePlan, Seq<char>, Option<Seq<char>>, Option<Seq<char>>),
    RequestError,
> {
    match plan_spec(req.timing, now) {
        Err(e) => Err(RequestError::Timing(e)),
        Ok(p) => if req.job_type@ == "send_invoice"@ {
            match req.external_id {
                Some(id) => Ok((p, id@, None, None)),
                None => Err(RequestError::MissingExternalId),
            }
        } else if req.job_type@ == "send_reminder"@ {
            if !filled(req.title) {
                Err(RequestError::MissingTitle)
            } else if !filled(req.description) {
                Err(RequestError::MissingDescription)
            } else if req.external_id is None && !filled(req.tag) {
                Err(RequestError::MissingTag)
            } else {
                Ok(
                    (
                        p,
                        if req.external_id is Some {
                            req.external_id.unwrap()@
                        } else {
                            req.tag.unwrap()@
                        },
                        opt_view(req.title),
                        opt_view(req.description),
                    ),
                )
            }
        } else {
            Err(RequestError::UnsupportedJobType)
        },
    }
}

pub open spec fn target_text(t: ScheduleTarget) -> Seq<char> {
    match t {
        ScheduleTarget::Invoice(s) => s@,
        ScheduleTarget::Customer(s) => s@,
        ScheduleTarget::Tag(s) => s@,
    }
}

fn is_filled(o: &Option<String>) -> (r: bool)
    ensures
        r == filled(*o),
{
    match o {
        Some(s) => s.as_str().unicode_len() > 0,
        None => false,
    }
}

/// Checks a scheduling request made at `now` and says for whom and when the
/// job runs. A reminder for a named customer goes to that customer even when a
/// tag is given as well.
pub fn plan_request(req: &RequestSchedule, now: i64) -> (r: Result<RequestPlan, RequestError>)
    requires
        now <= i64::MAX - 10,
    ensures
        r is Err ==> request_spec(*req, now as int) == Err::<
            (SchedulePlan, Seq<char>, Option<Seq<char>>, Option<Seq<char>>),
            RequestError,
        >(r->Err_0),
        r matches Ok(rp) ==> request_spec(*req, now as int) == Ok::<
            (SchedulePlan, Seq<char>, Option<Seq<char>>, Option<Seq<char>>),
            RequestError,
        >((rp.plan, target_text(rp.target), opt_view(rp.title), opt_view(rp.description))),
        r matches Ok(rp) ==> (rp.target is Invoice <==> req.job_type@ == "send_invoice"@),
        r matches Ok(rp) ==> (rp.target is Tag <==> (req.job_type@ == "send_reminder"@
            && req.external_id is None)),
{
    let plan = match plan_schedule(&req.timing, now) {
        Ok(p) => p,
        Err(e) => {
            return Err(RequestError::Timing(e));
        },
    };
    if same_text(req.job_type.as_str(), "send_invoice") {
        match &req.external_id {
            Some(id) => Ok(
                RequestPlan {
                    plan,
                    target: ScheduleTarget::Invoice(id.clone()),
                    title: None,
                    description: None,
                },
            ),
            None => Err(RequestError::MissingExternalId),
        }
    } else if same_text(req.job_type.as_str(), "send_reminder") {
        if !is_filled(&req.title) {
            return Err(RequestError::MissingTitle);
        }
        if !is_filled(&req.description) {
            return Err(RequestError::MissingDescription);
        }
        let target = match &req.external_id {
            Some(id) => ScheduleTarget::Customer(id.clone()),
            None => {
                if !is_filled(&req.tag) {
                    return Err(RequestError::MissingTag);
                }
                ScheduleTarget::Tag(req.tag.clone().unwrap())
            },
        };
        Ok(
            RequestPlan {
                plan,
                target,
                title: req.title.clone(),
                description: req.description.clone(),
            },
        )
    } else {
        Err(RequestError::UnsupportedJobType)
    }
}


/// What `validator::validate_email` accepts.
pub uninterp spec fn email_shape(s: Seq<char>) -> bool;

/// Relies on validator's `validate_email`: the verdict depends on the text
/// alone, and text without an `@` is refused.
#[verifier::external_body]
fn is_email(s: &str) -> (r: bool)
    ensures
        r == email_shape(s@),
        r ==> exists|i: int| 0 <= i < s@.len() && s@[i] == '@',
{
    validator::validate_email(s)
}

/// A field that failed validation.
#[derive(Clone, Copy, Debug, PartialEq, Eq, Structural)]
pub enum FieldError {
    Name,
    Email,
    Password,
    Tags,
    Status,
}

/// Between 4 and 24 characters.
pub open spec fn short_text_ok(s: Seq<char>) -> bool {
    4 <= s.len() <= 24
}

pub open spec fn email_ok(s: Seq<char>) -> bool {
    short_text_ok(s) && email_shape(s)
}

pub open spec fn password_ok(s: Seq<char>) -> bool {
    s.len() >= 4
}

pub open spec fn flag(bad: bool, e: FieldError) -> Seq<FieldError> {
    if bad {
        seq![e]
    } else {
        Seq::empty()
    }
}

fn short_text(s: &str) -> (r: bool)
    ensures
        r == short_text_ok(s@),
{
    let n = s.unicode_len();
    4 <= n && n <= 24
}

fn push_if(v: &mut Vec<FieldError>, bad: bool, e: FieldError)
    ensures
        final(v)@ == old(v)@ + flag(bad, e),
{
    if bad {
        v.push(e);
    }
    assert(final(v)@ =~= old(v)@ + flag(bad, e)) by {
        if !bad {
            assert(v@ =~= old(v)@ + flag(bad, e));
        }
    }
}

#[derive(Clone, Debug)]
pub struct RequestLogin {
    pub email: String,
    pub password: String,
}

impl RequestLogin {
    /// The failing fields, in declaration order: an e-mail address of 4 to
    /// 24 characters, a password of at least 4.
    pub fn validate(&self) -> (r: Vec<FieldError>)
        ensures
            r@ == flag(!email_ok(self.email@), FieldError::Email) + flag(
                !password_ok(self.password@),
                FieldError::Password,
            ),
    {
        let mut v: Vec<FieldError> = Vec::new();
        let e = short_text(self.email.as_str()) && is_email(self.email.as_str());
        push_if(&mut v, !e, FieldError::Email);
        push_if(&mut v, !(self.password.as_str().unicode_len() >= 4), FieldError::Password);
        assert(v@ =~= flag(!email_ok(self.email@), FieldError::Email) + flag(
            !password_ok(self.password@),
            FieldError::Password,
        ));
        v
    }
}

#[derive(Clone, Debug)]
pub struct RequestRegister {
    pub name: String,
    pub email: String,
    pub password: String,
}

impl RequestRegister {
    /// The failing fields, in declaration order: a name of 4 to 24
    /// characters, an e-mail address of 4 to 24, a password of at least 4.
    pub fn validate(&self) -> (r: Vec<FieldError>)
        ensures
            r@ == flag(!short_text_ok(self.name@), FieldError::Name) + flag(
                !email_ok(self.email@),
                FieldError::Email,
            ) + flag(!password_ok(self.password@), FieldError::Password),
    {
        let mut v: Vec<FieldError> = Vec::new();
        push_if(&mut v, !short_text(self.name.as_str()), FieldError::Name);
        let e = short_text(self.email.as_str()) && is_email(self.email.as_str());
        push_if(&mut v, !e, FieldError::Email);
        push_if(&mut v, !(self.password.as_str().unicode_len() >= 4), FieldError::Password);
        assert(v@ =~= flag(!short_text_ok(self.name@), FieldError::Name) + flag(
            !email_ok(self.email@),
            FieldError::Email,
        ) + flag(!password_ok(self.password@), FieldError::Password));
        v
    }
}

#[derive(Clone, Debug)]
pub struct RequestUpdateCustomer {
    pub name: Option<String>,
    pub tags: Option<Vec<String>>,
}

impl RequestUpdateCustomer {
    /// The failing fields: the name is required and has 4 to 24 characters,
    /// the tags are required.
    pub fn validate(&self) -> (r: Vec<FieldError>)
        ensures
            r@ == flag(
                !(self.name matches Some(n) && short_text_ok(n@)),
                FieldError::Name,
            ) + flag(self.tags is None, FieldError::Tags),
    {
        let mut v: Vec<FieldError> = Vec::new();
        let name_ok = match &self.name {
            Some(n) => short_text(n.as_str()),
            None => false,
        };
        push_if(&mut v, !name_ok, FieldError::Name);
        push_if(&mut v, self.tags.is_none(), FieldError::Tags);
        assert(v@ =~= flag(
            !(self.name matches Some(n) && short_text_ok(n@)),
            FieldError::Name,
        ) + flag(self.tags is None, FieldError::Tags));
        v
    }
}

#[derive(Clone, Debug)]
pub struct RequestSetStatusSchedule {
    pub status: String,
}

impl RequestSetStatusSchedule {
    /// The failing fields: the status is `pending`, `in_progress`,
    /// `completed`, `failed` or `canceled`.
    pub fn validate(&self) -> (r: Vec<FieldError>)
        ensures
            r@ == flag(
                !(self.status@ == "pending"@ || self.status@ == "in_progress"@ || self.status@
                    == "completed"@ || self.status@ == "failed"@ || self.status@ == "canceled"@),
                FieldError::Status,
            ),
    {
        let mut v: Vec<FieldError> = Vec::new();
        let ok = crate::status::validate_status_job_schedule(self.status.as_str());
        push_if(&mut v, !ok, FieldError::Status);
        assert(v@ =~= flag(
            !(self.status@ == "pending"@ || self.status@ == "in_progress"@ || self.status@
                == "completed"@ || self.status@ == "failed"@ || self.status@ == "canceled"@),
            FieldError::Status,
        ));
        v
    }
}

/// The query of a verification link.
#[derive(Clone, Debug)]
pub struct VerifyQuery {
    pub id: Option<String>,
    pub code: String,
}

} // verus!
