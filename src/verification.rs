//! Verification links: a six-character code sent to a user or a customer,
//! valid for five minutes, that marks its principal as verified.
use vstd::prelude::*;
use vstd::string::*;
use crate::text::same_text;

verus! {

/// How long a verification code stays valid, in seconds.
pub const CODE_LIFETIME: i64 = 300;

#[derive(Clone, Copy, Debug, PartialEq, Eq, Structural)]
pub enum VerificationStatus {
    Pending,
    Verified,
    Expired,
}

/// Who is verified: exactly one of a user and a customer, by id.
#[derive(Clone, Debug)]
pub enum Principal {
    User(String),
    Customer(String),
}

/// A verification row. `verified_at` is the time stamped on its principal.
#[derive(Clone, Debug)]
pub struct Verification {
    pub id: String,
    pub principal: Principal,
    pub code: String,
    pub status: VerificationStatus,
    pub expires_at: Option<i64>,
    pub verified_at: Option<i64>,
}

/// What the landing page shows.
#[derive(Clone, Copy, Debug, PartialEq, Eq, Structural)]
pub enum LandingOutcome {
    /// "link has expired": nothing changes.
    Expired,
    /// "already been used": nothing changes.
    AlreadyUsed,
    /// The code matched: the verification is verified and its principal is
    /// stamped with the time of the visit.
    Verified,
    /// The code did not match: nothing changes.
    Mismatch,
}

pub open spec fn is_alnum(c: char) -> bool {
    (48 <= c as u32 <= 57) || (65 <= c as u32 <= 90) || (97 <= c as u32 <= 122)
}

/// A fresh code: six ASCII letters or digits.
pub open spec fn code_shape(s: Seq<char>) -> bool {
    s.len() == 6 && forall|i: int| 0 <= i < s.len() ==> is_alnum(#[trigger] s[i])
}

/// Relies on rand's `Alphanumeric` distribution: each sample is one of
/// `a-z`, `A-Z`, `0-9`; six samples are taken.
#[verifier::external_body]
fn draw_code() -> (r: String)
    ensures
        code_shape(r@),
{
    rand::Rng::sample_iter(rand::thread_rng(), &rand::distributions::Alphanumeric).take(6).map(
        char::from,
    ).collect::<String>()
}

impl Verification {
    /// A pending verification of `principal` created at `now`, with a fresh
    /// code that expires five minutes later.
    pub fn start(id: String, principal: Principal, now: i64) -> (r: Verification)
        requires
            now <= i64::MAX - CODE_LIFETIME,
        ensures
            r.id == id,
            r.principal == principal,
            code_shape(r.code@),
            r.status == VerificationStatus::Pending,
            r.expires_at == Some((now + CODE_LIFETIME) as i64),
            r.verified_at is None,
    {
        Verification {
            id,
            principal,
            code: draw_code(),
            status: VerificationStatus::Pending,
            expires_at: Some(now + CODE_LIFETIME),
            verified_at: None,
        }
    }

    /// The outcome of a visit with `code` at `now`, and the row afterwards:
    /// expiry is checked first, then reuse, then the code.
    pub open spec fn landing(self, code: Seq<char>, now: int) -> (Verification, LandingOutcome) {
        if (self.expires_at matches Some(e) && e < now) || self.status is Expired {
            (self, LandingOutcome::Expired)
        } else if self.status is Verified {
            (self, LandingOutcome::AlreadyUsed)
        } else if self.code@ == code {
            (
                Verification {
                    status: VerificationStatus::Verified,
                    verified_at: Some(now as i64),
                    ..self
                },
                LandingOutcome::Verified,
            )
        } else {
            (self, LandingOutcome::Mismatch)
        }
    }

    /// A visit of the verification link with `code` at time `now`.
    pub fn land(&mut self, code: &str, now: i64) -> (r: LandingOutcome)
        ensures
            (*final(self), r) == old(self).landing(code@, now as int),
    {
        let expired = match self.expires_at {
            Some(e) => e < now,
            None => false,
        };
        if expired || self.status == VerificationStatus::Expired {
            return LandingOutcome::Expired;
        }
        if self.status == VerificationStatus::Verified {
            return LandingOutcome::AlreadyUsed;
        }
        if same_text(self.code.as_str(), code) {
            self.status = VerificationStatus::Verified;
            self.verified_at = Some(now);
            LandingOutcome::Verified
        } else {
            LandingOutcome::Mismatch
        }
    }
}

/// Visiting a pending link twice with its code, both times before it
/// expires: the first visit verifies and stamps the principal, the second
/// reports the link as used and changes nothing, the stamp included.
pub proof fn lemma_landing_twice(v: Verification, t1: int, t2: int)
    requires
        v.status is Pending,
        v.expires_at matches Some(e) ==> t1 <= e && t2 <= e,
        i64::MIN <= t1 <= i64::MAX,
    ensures
        v.landing(v.code@, t1).1 == LandingOutcome::Verified,
        v.landing(v.code@, t1).0.landing(v.code@, t2).1 == LandingOutcome::AlreadyUsed,
        v.landing(v.code@, t1).0.landing(v.code@, t2).0 == v.landing(v.code@, t1).0,
        v.landing(v.code@, t1).0.verified_at == Some(t1 as i64),
{
}

/// The link sent for a verification.
pub fn verification_link(host: &str, code: &str, id: &str) -> (r: String)
    ensures
        r@ == "http://"@ + host@ + "/verify?code="@ + code@ + "&id="@ + id@,
{
    let mut s = String::from_str("http://");
    s.append(host);
    s.append("/verify?code=");
    s.append(code);
    s.append("&id=");
    s.append(id);
    s
}

/// The text sent with a verification link over a channel: a mail for
/// `email`, a chat message for `whatsapp`; nothing is sent on other channels.
pub fn verification_message(channel: &str, name: &str, link: &str) -> (r: Option<String>)
    ensures
        channel@ == "email"@ ==> (r matches Some(m) && m@ == "Hello "@ + name@
            + ", thank you for registering in Inving. Please click this link to verify your account: \n\n"@
            + link@),
        channel@ == "whatsapp"@ ==> (r matches Some(m) && m@ == "Hi "@ + name@
            + ", please verify your account by clicking this link: "@ + link@),
        channel@ != "email"@ && channel@ != "whatsapp"@ ==> r is None,
{
    proof {
        reveal_strlit("email");
        reveal_strlit("whatsapp");
        assert("email"@.len() != "whatsapp"@.len());
    }
    if same_text(channel, "email") {
        let mut s = String::from_str("Hello ");
        s.append(name);
        s.append(
            ", thank you for registering in Inving. Please click this link to verify your account: \n\n",
        );
        s.append(link);
        Some(s)
    } else if same_text(channel, "whatsapp") {
        let mut s = String::from_str("Hi ");
        s.append(name);
        s.append(", please verify your account by clicking this link: ");
        s.append(link);
        Some(s)
    } else {
        None
    }
}

} // verus!
