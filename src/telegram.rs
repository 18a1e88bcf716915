//! The Telegram bot's onboarding handshake: `/start`, `/connect`, `/clear`,
//! then a merchant code that binds the chat to a customer.
//!
//! The conversation state lives in a key-value store under `telegram_{chat_id}`;
//! the only value ever stored is `/connect`. Each inbound update is read, then
//! `decide` says what to reply, how the stored state changes and whether a
//! merchant code must be looked up.
use vstd::prelude::*;
use vstd::string::*;
use crate::text::{decimal_text, int_text, join, lower_of, lowercase, same_text};

verus! {

/// Header that carries the webhook's shared secret.
pub open spec fn secret_header() -> Seq<char> {
    "x-telegram-bot-api-secret-token"@
}

#[derive(Clone, Debug)]
pub struct TelegramUpdateItem {
    pub update_id: Option<i64>,
    pub message: Option<TelegramMessage>,
}

#[derive(Clone, Debug)]
pub struct TelegramMessage {
    pub message_id: Option<i64>,
    pub from: Option<TelegramUser>,
    pub chat: Option<TelegramChat>,
    pub date: Option<i64>,
    pub text: Option<String>,
}

#[derive(Clone, Debug)]
pub struct TelegramUser {
    pub id: Option<i64>,
    pub is_bot: Option<bool>,
    pub first_name: Option<String>,
    pub username: Option<String>,
    pub language_code: Option<String>,
}

#[derive(Clone, Debug)]
pub struct TelegramChat {
    pub id: Option<i64>,
    pub first_name: Option<String>,
    pub username: Option<String>,
}

/// What the secret header of a request says.
#[derive(Clone, Copy, Debug, PartialEq, Eq, Structural)]
pub enum SecretCheck {
    Missing,
    Invalid,
    Valid,
}

/// The first header named like the secret header decides.
pub open spec fn secret_check_spec(headers: Seq<(String, String)>, secret: Seq<char>) -> SecretCheck
    decreases headers.len(),
{
    if headers.len() == 0 {
        SecretCheck::Missing
    } else if headers[0].0@ == secret_header() {
        if headers[0].1@ == secret {
            SecretCheck::Valid
        } else {
            SecretCheck::Invalid
        }
    } else {
        secret_check_spec(headers.drop_first(), secret)
    }
}

/// Checks the webhook's secret header against the configured secret.
pub fn check_secret(headers: &Vec<(String, String)>, secret: &str) -> (r: SecretCheck)
    ensures
        r == secret_check_spec(headers@, secret@),
{
    let mut i: usize = 0;
    assert(headers@.subrange(0, headers@.len() as int) =~= headers@);
    while i < headers.len()
        invariant
            i <= headers@.len(),
            secret_check_spec(headers@, secret@) == secret_check_spec(
                headers@.subrange(i as int, headers@.len() as int),
                secret@,
            ),
        decreases headers@.len() - i,
    {
        let rest = Ghost(headers@.subrange(i as int, headers@.len() as int));
        assert(rest@.drop_first() =~= headers@.subrange(i + 1, headers@.len() as int));
        let (key, value) = &headers[i];
        if same_text(key.as_str(), "x-telegram-bot-api-secret-token") {
            if same_text(value.as_str(), secret) {
                return SecretCheck::Valid;
            } else {
                return SecretCheck::Invalid;
            }
        }
        i = i + 1;
    }
    SecretCheck::Missing
}

/// The parts of an update that the handshake reads.
#[derive(Clone, Debug)]
pub struct Inbound {
    pub chat_id: i64,
    pub text: String,
    pub username: String,
}

/// Which part of an update is missing.
#[derive(Clone, Copy, Debug, PartialEq, Eq, Structural)]
pub enum UpdateError {
    NoMessage,
    NoChat,
    NoChatId,
    NoText,
    /// No sender, or a sender without a username.
    NoSender,
}

/// Chat id, text and sender username of an update, or the first of them
/// that is missing.
pub open spec fn read_update_spec(u: TelegramUpdateItem) -> Result<(i64, Seq<char>, Seq<char>), UpdateError> {
    match u.message {
        None => Err(UpdateError::NoMessage),
        Some(msg) => match msg.chat {
            None => Err(UpdateError::NoChat),
            Some(c) => match c.id {
                None => Err(UpdateError::NoChatId),
                Some(id) => match msg.text {
                    None => Err(UpdateError::NoText),
                    Some(t) => match msg.from {
                        None => Err(UpdateError::NoSender),
                        Some(f) => match f.username {
                            None => Err(UpdateError::NoSender),
                            Some(n) => Ok((id, t@, n@)),
                        },
                    },
                },
            },
        },
    }
}

/// Reads chat id, text and sender username from an update.
pub fn read_update(u: &TelegramUpdateItem) -> (r: Result<Inbound, UpdateError>)
    ensures
        match r {
            Ok(m) => read_update_spec(*u) == Ok::<(i64, Seq<char>, Seq<char>), UpdateError>(
                (m.chat_id, m.text@, m.username@),
            ),
            Err(e) => read_update_spec(*u) == Err::<(i64, Seq<char>, Seq<char>), UpdateError>(e),
        },
{
    let msg = match &u.message {
        Some(m) => m,
        None => {
            return Err(UpdateError::NoMessage);
        },
    };
    let chat = match &msg.chat {
        Some(c) => c,
        None => {
            return Err(UpdateError::NoChat);
        },
    };
    let chat_id = match chat.id {
        Some(id) => id,
        None => {
            return Err(UpdateError::NoChatId);
        },
    };
    let text = match &msg.text {
        Some(t) => t.clone(),
        None => {
            return Err(UpdateError::NoText);
        },
    };
    let username = match &msg.from {
        Some(f) => match &f.username {
            Some(n) => n.clone(),
            None => {
                return Err(UpdateError::NoSender);
            },
        },
        None => {
            return Err(UpdateError::NoSender);
        },
    };
    Ok(Inbound { chat_id, text, username })
}

/// The key under which a chat's state is stored.
pub fn state_key(chat_id: i64) -> (r: String)
    ensures
        r@ == "telegram_"@ + decimal_text(chat_id as int),
{
    let id = int_text(chat_id);
    join("telegram_", id.as_str())
}

/// Messages the bot sends back.
#[derive(Clone, Copy, Debug, PartialEq, Eq, Structural)]
pub enum BotReply {
    Welcome,
    AskMerchantCode,
    SendConnect,
    InvalidMerchantCode,
    NotRegistered,
    VerificationFailed,
    ContactUpdateFailed,
    Registered,
}

impl BotReply {
    pub open spec fn spec_text(self) -> Seq<char> {
        match self {
            BotReply::Welcome => "Hi, welcome to the telegram bot. Send /connect to connect to the merchant"@,
            BotReply::AskMerchantCode => "OK. Send me the merchant code that you get from the merchant"@,
            BotReply::SendConnect => "Send /connect to connect to the merchant"@,
            BotReply::InvalidMerchantCode => "The merchant code is not valid, please check again."@,
            BotReply::NotRegistered => "You're not registered in this merchant, please ask admin to register your telegram username."@,
            BotReply::VerificationFailed => "Unable to sent verification"@,
            BotReply::ContactUpdateFailed => "Unable to get customer contact channel"@,
            BotReply::Registered => "Thank you for register as customer"@,
        }
    }

    pub fn text(&self) -> (r: String)
        ensures
            r@ == self.spec_text(),
    {
        match self {
            BotReply::Welcome => String::from_str(
                "Hi, welcome to the telegram bot. Send /connect to connect to the merchant",
            ),
            BotReply::AskMerchantCode => String::from_str(
                "OK. Send me the merchant code that you get from the merchant",
            ),
            BotReply::SendConnect => String::from_str("Send /connect to connect to the merchant"),
            BotReply::InvalidMerchantCode => String::from_str(
                "The merchant code is not valid, please check again.",
            ),
            BotReply::NotRegistered => String::from_str(
                "You're not registered in this merchant, please ask admin to register your telegram username.",
            ),
            BotReply::VerificationFailed => String::from_str("Unable to sent verification"),
            BotReply::ContactUpdateFailed => String::from_str(
                "Unable to get customer contact channel",
            ),
            BotReply::Registered => String::from_str("Thank you for register as customer"),
        }
    }
}

/// How the stored conversation state changes.
#[derive(Clone, Copy, Debug, PartialEq, Eq, Structural)]
pub enum StateChange {
    Keep,
    /// Store `/connect`.
    SetConnect,
    Clear,
}

/// What to do with one inbound text: reply now, or look a merchant code up
/// (whose outcome `connect_result` turns into a reply).
#[derive(Clone, Debug)]
pub enum BotAction {
    Reply(BotReply),
    LookupMerchant(String),
}

#[derive(Clone, Debug)]
pub struct BotStep {
    pub change: StateChange,
    pub action: BotAction,
}

/// The stored state after a message, before any merchant lookup.
pub open spec fn next_state(state: Option<Seq<char>>, text: Seq<char>) -> Option<Seq<char>> {
    if text == "/start"@ {
        state
    } else if text == "/connect"@ {
        Some("/connect"@)
    } else if text == "/clear"@ {
        None
    } else {
        state
    }
}

pub open spec fn apply_change(state: Option<Seq<char>>, c: StateChange) -> Option<Seq<char>> {
    match c {
        StateChange::Keep => state,
        StateChange::SetConnect => Some("/connect"@),
        StateChange::Clear => None,
    }
}

/// Decides the bot's answer to `text` given the chat's stored state.
pub fn decide(text: &str, state: &Option<String>) -> (r: BotStep)
    ensures
        apply_change(
            match state {
                Some(s) => Some(s@),
                None => None,
            },
            r.change,
        ) == next_state(
            match state {
                Some(s) => Some(s@),
                None => None,
            },
            text@,
        ),
        text@ == "/start"@ ==> r.change == StateChange::Keep && r.action == BotAction::Reply(
            BotReply::Welcome,
        ),
        text@ == "/connect"@ ==> r.change == StateChange::SetConnect && r.action
            == BotAction::Reply(BotReply::AskMerchantCode),
        text@ == "/clear"@ ==> r.change == StateChange::Clear && r.action == BotAction::Reply(
            BotReply::SendConnect,
        ),
        text@ != "/start"@ && text@ != "/connect"@ && text@ != "/clear"@ ==> {
            &&& r.change == StateChange::Keep
            &&& (state matches Some(s) && s@ == "/connect"@) ==> (r.action matches BotAction::LookupMerchant(
                code,
            ) && code@ == lower_of(text@))
            &&& !(state matches Some(s) && s@ == "/connect"@) ==> r.action == BotAction::Reply(
                BotReply::SendConnect,
            )
        },
{
    proof {
        reveal_strlit("/start");
        reveal_strlit("/connect");
        reveal_strlit("/clear");
        assert("/start"@.len() != "/connect"@.len());
        assert("/clear"@.len() != "/connect"@.len());
        assert("/start"@[1] != "/clear"@[1]);
    }
    if same_text(text, "/start") {
        BotStep { change: StateChange::Keep, action: BotAction::Reply(BotReply::Welcome) }
    } else if same_text(text, "/connect") {
        BotStep {
            change: StateChange::SetConnect,
            action: BotAction::Reply(BotReply::AskMerchantCode),
        }
    } else if same_text(text, "/clear") {
        BotStep { change: StateChange::Clear, action: BotAction::Reply(BotReply::SendConnect) }
    } else {
        let waiting = match state {
            Some(s) => same_text(s.as_str(), "/connect"),
            None => false,
        };
        if waiting {
            BotStep { change: StateChange::Keep, action: BotAction::LookupMerchant(lowercase(text)) }
        } else {
            BotStep { change: StateChange::Keep, action: BotAction::Reply(BotReply::SendConnect) }
        }
    }
}

/// The first step of binding a chat that failed, if any.
#[derive(Clone, Copy, Debug, PartialEq, Eq, Structural)]
pub enum ConnectFailure {
    /// No merchant has the code.
    UnknownMerchant,
    /// The merchant has no customer with this Telegram username.
    UnknownCustomer,
    /// The verification could not be started.
    VerificationFailed,
    /// The chat id could not be stored on the contact channel.
    ContactUpdateFailed,
}

/// The reply and state change once a merchant code has been followed up:
/// the state is cleared only when the chat was bound.
pub fn connect_result(failure: Option<ConnectFailure>) -> (r: BotStep)
    ensures
        failure is None ==> r.change == StateChange::Clear && r.action == BotAction::Reply(
            BotReply::Registered,
        ),
        failure is Some ==> r.change == StateChange::Keep,
        failure == Some(ConnectFailure::UnknownMerchant) ==> r.action == BotAction::Reply(
            BotReply::InvalidMerchantCode,
        ),
        failure == Some(ConnectFailure::UnknownCustomer) ==> r.action == BotAction::Reply(
            BotReply::NotRegistered,
        ),
        failure == Some(ConnectFailure::VerificationFailed) ==> r.action == BotAction::Reply(
            BotReply::VerificationFailed,
        ),
        failure == Some(ConnectFailure::ContactUpdateFailed) ==> r.action == BotAction::Reply(
            BotReply::ContactUpdateFailed,
        ),
{
    match failure {
        None => BotStep { change: StateChange::Clear, action: BotAction::Reply(BotReply::Registered) },
        Some(ConnectFailure::UnknownMerchant) => BotStep {
            change: StateChange::Keep,
            action: BotAction::Reply(BotReply::InvalidMerchantCode),
        },
        Some(ConnectFailure::UnknownCustomer) => BotStep {
            change: StateChange::Keep,
            action: BotAction::Reply(BotReply::NotRegistered),
        },
        Some(ConnectFailure::VerificationFailed) => BotStep {
            change: StateChange::Keep,
            action: BotAction::Reply(BotReply::VerificationFailed),
        },
        Some(ConnectFailure::ContactUpdateFailed) => BotStep {
            change: StateChange::Keep,
            action: BotAction::Reply(BotReply::ContactUpdateFailed),
        },
    }
}

/// The stored state after `n` deliveries of `/start`.
pub open spec fn after_starts(state: Option<Seq<char>>, n: nat) -> Option<Seq<char>>
    decreases n,
{
    if n == 0 {
        state
    } else {
        next_state(after_starts(state, (n - 1) as nat), "/start"@)
    }
}

/// `/start` is stateless: delivering it any number of times leaves the stored
/// conversation state as it was.
pub proof fn lemma_start_repeated(state: Option<Seq<char>>, n: nat)
    ensures
        after_starts(state, n) == state,
    decreases n,
{
    if n > 0 {
        lemma_start_repeated(state, (n - 1) as nat);
    }
}

} // verus!
