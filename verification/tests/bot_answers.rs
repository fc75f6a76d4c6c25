use forger::actions::data::{GetGroupInfo, GetLoginInfo, MessageSent};
use forger::actions::{
    ActionResponseInner, NapcatActionParams, NapcatActionRequest, NapcatActionResponse,
};
use forger::bot::{echo_reply, expect_login_info, expect_message_sent, BotError};
use forger::events::PrivateMessageEvent;
use forger::models::{MessageFormat, MessageSegment, PrivateMessage, PrivateMessageSender};

fn answer(data: ActionResponseInner) -> NapcatActionResponse {
    NapcatActionResponse {
        status: "ok".to_string(),
        retcode: 0,
        data,
        message: String::new(),
        wording: String::new(),
        echo: "e".to_string(),
        stream: "normal-action".to_string(),
    }
}

fn login() -> GetLoginInfo {
    GetLoginInfo { user_id: 10, nickname: "anya".to_string() }
}

fn group_info() -> GetGroupInfo {
    GetGroupInfo {
        group_all_shut: 0,
        group_remark: String::new(),
        group_id: 3,
        group_name: "g".to_string(),
        member_count: 2,
        max_member_count: 200,
    }
}

#[test]
fn login_info_is_extracted() {
    let got = expect_login_info(answer(ActionResponseInner::GetLoginInfo(login())));
    assert_eq!(got, Ok(login()));
}

#[test]
fn login_info_with_wrong_payload_is_refused() {
    let got = expect_login_info(answer(ActionResponseInner::MessageSent(MessageSent {
        message_id: 1,
    })));
    assert_eq!(got, Err(BotError::ResponseTypeMismatch));
    let got = expect_login_info(answer(ActionResponseInner::GetGroupInfo(group_info())));
    assert_eq!(got, Err(BotError::ResponseTypeMismatch));
}

#[test]
fn message_sent_is_extracted() {
    let got = expect_message_sent(answer(ActionResponseInner::MessageSent(MessageSent {
        message_id: 77,
    })));
    assert_eq!(got, Ok(MessageSent { message_id: 77 }));
}

#[test]
fn message_sent_with_wrong_payload_is_refused() {
    let got = expect_message_sent(answer(ActionResponseInner::GetLoginInfo(login())));
    assert_eq!(got, Err(BotError::ResponseTypeMismatch));
}

#[test]
fn echo_reply_goes_back_to_author() {
    let message = PrivateMessage {
        echo: None,
        time: 1,
        self_id: 10,
        font: 14,
        message: vec![
            MessageSegment::Text { text: "hi".to_string() },
            MessageSegment::Face { id: "14".to_string() },
        ],
        message_format: MessageFormat::Array,
        message_id: 5,
        message_seq: 5,
        raw_message: "hi[CQ:face,id=14]".to_string(),
        real_id: 5,
        real_seq: "5".to_string(),
        sender: PrivateMessageSender::new(String::new(), "alice".to_string(), 42),
        sub_type: "friend".to_string(),
        target_id: 10,
        user_id: 42,
    };
    match echo_reply(PrivateMessageEvent(message)) {
        NapcatActionParams::SendPrivateMsg { user_id, message } => {
            assert_eq!(user_id, 42);
            assert_eq!(
                message,
                vec![
                    MessageSegment::Text { text: "hi".to_string() },
                    MessageSegment::Face { id: "14".to_string() },
                ]
            );
        }
        _ => panic!("wrong reply"),
    }
}

fn is_uuid_v4_text(s: &str) -> bool {
    let chars: Vec<char> = s.chars().collect();
    chars.len() == 36
        && chars.iter().enumerate().all(|(i, c)| {
            if [8, 13, 18, 23].contains(&i) {
                *c == '-'
            } else {
                c.is_ascii_digit() || ('a'..='f').contains(c)
            }
        })
        && chars[14] == '4'
        && ['8', '9', 'a', 'b'].contains(&chars[19])
}

#[test]
fn context_has_fresh_uuid_echo_and_working_channel() {
    let (context, receiver) =
        NapcatActionRequest::create_context(NapcatActionParams::GetGroupInfo { group_id: 3 });
    assert!(matches!(context.action.action, NapcatActionParams::GetGroupInfo { group_id: 3 }));
    assert!(is_uuid_v4_text(&context.action.echo), "{}", context.action.echo);
    let (other, _) = NapcatActionRequest::create_context(NapcatActionParams::GetLoginInfo);
    assert!(is_uuid_v4_text(&other.action.echo));
    assert_ne!(other.action.echo, context.action.echo);
    let echo = context.action.echo.clone();
    let mut reply = answer(ActionResponseInner::GetGroupInfo(group_info()));
    reply.echo = echo.clone();
    assert!(context.result_sender.into_inner().send(reply).is_ok());
    let delivered = receiver.into_inner().try_recv().expect("answer arrives");
    assert_eq!(delivered.echo, echo);
}
