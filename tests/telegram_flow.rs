use inving::telegram::{
    check_secret, connect_result, decide, read_update, state_key, BotAction, BotReply, ConnectFailure, SecretCheck, StateChange,
    TelegramChat, TelegramMessage, TelegramUpdateItem, TelegramUser, UpdateError,
};

fn header(k: &str, v: &str) -> (String, String) {
    (k.to_string(), v.to_string())
}

fn update(text: Option<&str>, chat_id: Option<i64>, username: Option<&str>) -> TelegramUpdateItem {
    TelegramUpdateItem {
        update_id: Some(1),
        message: Some(TelegramMessage {
            message_id: Some(2),
            from: Some(TelegramUser {
                id: Some(3),
                is_bot: Some(false),
                first_name: Some("Ana".to_string()),
                username: username.map(|s| s.to_string()),
                language_code: None,
            }),
            chat: Some(TelegramChat { id: chat_id, first_name: None, username: None }),
            date: Some(0),
            text: text.map(|s| s.to_string()),
        }),
    }
}

#[test]
fn secret_header_decides() {
    let key = "x-telegram-bot-api-secret-token";
    assert_eq!(check_secret(&vec![header("host", "x"), header(key, "s3")], "s3"), SecretCheck::Valid);
    assert_eq!(check_secret(&vec![header(key, "nope")], "s3"), SecretCheck::Invalid);
    assert_eq!(check_secret(&vec![header("host", "x")], "s3"), SecretCheck::Missing);
    assert_eq!(check_secret(&vec![header(key, "nope"), header(key, "s3")], "s3"), SecretCheck::Invalid);
    assert_eq!(check_secret(&vec![], "s3"), SecretCheck::Missing);
}

#[test]
fn update_fields_are_read_in_order() {
    let m = read_update(&update(Some("/start"), Some(42), Some("ana"))).unwrap();
    assert_eq!((m.chat_id, m.text.as_str(), m.username.as_str()), (42, "/start", "ana"));
    assert_eq!(read_update(&TelegramUpdateItem { update_id: None, message: None }).err(), Some(UpdateError::NoMessage));
    assert_eq!(read_update(&update(Some("x"), None, Some("ana"))).err(), Some(UpdateError::NoChatId));
    assert_eq!(read_update(&update(None, Some(1), Some("ana"))).err(), Some(UpdateError::NoText));
    assert_eq!(read_update(&update(Some("x"), Some(1), None)).err(), Some(UpdateError::NoSender));
    let mut u = update(Some("x"), Some(1), Some("ana"));
    u.message.as_mut().unwrap().chat = None;
    assert_eq!(read_update(&u).err(), Some(UpdateError::NoChat));
}

#[test]
fn start_is_stateless() {
    let mut state: Option<String> = Some("/connect".to_string());
    for _ in 0..5 {
        let step = decide("/start", &state);
        assert_eq!(step.change, StateChange::Keep);
        assert!(matches!(step.action, BotAction::Reply(BotReply::Welcome)));
        if step.change == StateChange::Clear {
            state = None;
        }
    }
    assert_eq!(state.as_deref(), Some("/connect"));
    assert_eq!(decide("/start", &None).change, StateChange::Keep);
}

#[test]
fn connect_then_merchant_code() {
    let step = decide("/connect", &None);
    assert_eq!(step.change, StateChange::SetConnect);
    assert!(matches!(step.action, BotAction::Reply(BotReply::AskMerchantCode)));
    let step = decide("MERCHX", &Some("/connect".to_string()));
    assert_eq!(step.change, StateChange::Keep);
    assert!(matches!(step.action, BotAction::LookupMerchant(ref c) if c == "merchx"));
    let step = decide("MERCHX", &None);
    assert!(matches!(step.action, BotAction::Reply(BotReply::SendConnect)));
    let step = decide("/clear", &Some("/connect".to_string()));
    assert_eq!(step.change, StateChange::Clear);
    assert!(matches!(step.action, BotAction::Reply(BotReply::SendConnect)));
}

#[test]
fn connect_outcomes() {
    let ok = connect_result(None);
    assert_eq!(ok.change, StateChange::Clear);
    assert!(matches!(ok.action, BotAction::Reply(BotReply::Registered)));
    let bad = connect_result(Some(ConnectFailure::UnknownMerchant));
    assert_eq!(bad.change, StateChange::Keep);
    assert!(matches!(bad.action, BotAction::Reply(BotReply::InvalidMerchantCode)));
    assert!(matches!(connect_result(Some(ConnectFailure::UnknownCustomer)).action, BotAction::Reply(BotReply::NotRegistered)));
    assert!(matches!(connect_result(Some(ConnectFailure::VerificationFailed)).action, BotAction::Reply(BotReply::VerificationFailed)));
    assert!(matches!(connect_result(Some(ConnectFailure::ContactUpdateFailed)).action, BotAction::Reply(BotReply::ContactUpdateFailed)));
    assert_eq!(BotReply::Registered.text(), "Thank you for register as customer");
    assert_eq!(BotReply::Welcome.text(), "Hi, welcome to the telegram bot. Send /connect to connect to the merchant");
}

#[test]
fn state_keys() {
    assert_eq!(state_key(12345), "telegram_12345");
    assert_eq!(state_key(-100200), "telegram_-100200");
    assert_eq!(state_key(0), "telegram_0");
}
