use dnp3::app::{BufferSize, BufferSizeError, ControlField, FunctionCode, ObjectParseError, ResponseFunction, ResponseHeader, Sequence, Shutdown};
use dnp3::error::{FrameError, ParseError};
use dnp3::master::association::AssociationMap;
use dnp3::master::command::{CommandMode, CommandResponse, CommandStep, CommandTask};
use dnp3::master::error::{AssociationError, CommandError, CommandResponseError, LinkError, TaskError};
use dnp3::master::session::{
    check_response, confirm_unsolicited, idle_fragment, link_status_start, task_result_to_run_result, IdleFragment, LinkStatusAction, ReadTaskOutcome, ReadTaskState, ReadTaskStep, TaskEvent, validate_non_read_response, validate_read_response,
    MasterMsg, MasterReply, MasterSession, ReadDecision, ReadResponseAction, ResponseCheck, RunError, StateChange,
};

fn header(fir: bool, fin: bool, con: bool, seq: u8, function: ResponseFunction) -> ResponseHeader {
    ResponseHeader {
        control: ControlField { fir, fin, con, uns: false, seq: Sequence::new(seq) },
        function,
    }
}

#[test]
fn select_before_operate_selects_then_operates() {
    let task = CommandTask::from_mode(CommandMode::SelectBeforeOperate, "headers", 7u32);
    assert_eq!(task.function(), FunctionCode::Select);
    let task = match task.handle(CommandResponse::Echo) {
        CommandStep::Next(t) => t,
        CommandStep::Complete(_, _) => panic!("select echo must lead to operate"),
    };
    assert_eq!(task.function(), FunctionCode::Operate);
    assert_eq!(*task.headers(), "headers");
    match task.handle(CommandResponse::Echo) {
        CommandStep::Complete(promise, result) => {
            assert_eq!(promise, 7);
            assert_eq!(result, Ok(()));
        }
        CommandStep::Next(_) => panic!("operate echo must complete"),
    }
}

#[test]
fn direct_operate_completes_on_echo() {
    let task = CommandTask::from_mode(CommandMode::DirectOperate, (), 1u8);
    assert_eq!(task.function(), FunctionCode::DirectOperate);
    match task.handle(CommandResponse::Echo) {
        CommandStep::Complete(1, Ok(())) => {}
        _ => panic!("direct operate echo must complete with success"),
    }
}

#[test]
fn command_errors_complete_the_promise() {
    let task = CommandTask::from_mode(CommandMode::SelectBeforeOperate, (), 2u8);
    match task.handle(CommandResponse::Mismatch(CommandResponseError)) {
        CommandStep::Complete(2, Err(CommandError::Response(CommandResponseError))) => {}
        _ => panic!("mismatch must complete with a response error"),
    }
    let task = CommandTask::from_mode(CommandMode::DirectOperate, (), 3u8);
    match task.handle(CommandResponse::Malformed(ObjectParseError)) {
        CommandStep::Complete(
            3,
            Err(CommandError::Task(TaskError::MalformedResponse(ObjectParseError))),
        ) => {}
        _ => panic!("malformed response must complete with a task error"),
    }
    let task = CommandTask::from_mode(CommandMode::DirectOperate, (), 4u8);
    assert_eq!(
        task.on_task_error(TaskError::ResponseTimeout),
        (4, Err(CommandError::Task(TaskError::ResponseTimeout)))
    );
}

#[test]
fn association_map_refuses_duplicates() {
    let mut map = AssociationMap::new();
    assert_eq!(map.register(10), Ok(()));
    assert_eq!(map.register(20), Ok(()));
    assert_eq!(map.register(10), Err(AssociationError::DuplicateAddress(10)));
    assert!(map.contains(10) && map.contains(20));
    map.remove(10);
    assert!(!map.contains(10));
    assert!(map.contains(20));
    assert_eq!(map.get(10), Err(TaskError::NoSuchAssociation(10)));
    assert_eq!(map.get(20), Ok(()));
    map.remove(99);
    assert!(map.contains(20));
    assert_eq!(map.register(10), Ok(()));
}

#[test]
fn master_messages_change_what_they_name() {
    let mut session = MasterSession::new(false, 3u8, BufferSize::new(249).unwrap());
    assert_eq!(session.check_enabled(true), Err(StateChange::Disable));
    assert_eq!(session.check_enabled(false), Ok(()));
    assert_eq!(session.process_master_message(MasterMsg::EnableCommunication(true)), MasterReply::Nothing);
    assert!(session.enabled());
    assert_eq!(session.check_enabled(true), Ok(()));
    assert_eq!(
        session.process_master_message(MasterMsg::AddAssociation(1024)),
        MasterReply::AssociationAdded(Ok(()))
    );
    assert_eq!(
        session.process_master_message(MasterMsg::AddAssociation(1024)),
        MasterReply::AssociationAdded(Err(AssociationError::DuplicateAddress(1024)))
    );
    assert!(session.associations().contains(1024));
    assert_eq!(session.process_master_message(MasterMsg::SetDecodeLevel(5)), MasterReply::Nothing);
    assert_eq!(session.process_master_message(MasterMsg::GetDecodeLevel), MasterReply::DecodeLevel(5));
    assert_eq!(session.decode_level(), 5);
    assert_eq!(session.process_master_message(MasterMsg::RemoveAssociation(1024)), MasterReply::Nothing);
    assert!(!session.associations().contains(1024));
    assert!(session.enabled());
}

#[test]
fn task_errors_that_end_the_session() {
    assert_eq!(task_result_to_run_result(Ok(())), Ok(()));
    assert_eq!(task_result_to_run_result(Err(TaskError::ResponseTimeout)), Ok(()));
    assert_eq!(task_result_to_run_result(Err(TaskError::UnexpectedFir)), Ok(()));
    assert_eq!(
        task_result_to_run_result(Err(TaskError::Shutdown)),
        Err(RunError::State(StateChange::Shutdown))
    );
    assert_eq!(task_result_to_run_result(Err(TaskError::Disabled)), Ok(()));
    assert_eq!(
        task_result_to_run_result(Err(TaskError::Link(LinkError::Stdio))),
        Err(RunError::Link(LinkError::Stdio))
    );
    assert_eq!(StateChange::from(Shutdown), StateChange::Shutdown);
    assert_eq!(RunError::from(Shutdown), RunError::State(StateChange::Shutdown));
    assert_eq!(RunError::from(StateChange::Disable), RunError::State(StateChange::Disable));
    assert_eq!(
        LinkError::from(ParseError::BadFrame(FrameError::BadBodyCRC)),
        LinkError::BadFrame(FrameError::BadBodyCRC)
    );
    assert_eq!(TaskError::from(LinkError::Stdio), TaskError::Link(LinkError::Stdio));
}

#[test]
fn responses_are_checked_in_order() {
    let seq = Sequence::new(3);
    assert_eq!(
        check_response(10, seq, 10, header(true, true, false, 3, ResponseFunction::UnsolicitedResponse)),
        ResponseCheck::Unsolicited
    );
    assert_eq!(
        check_response(10, seq, 11, header(true, true, false, 3, ResponseFunction::Response)),
        ResponseCheck::Ignore
    );
    assert_eq!(
        check_response(10, seq, 10, header(true, true, false, 4, ResponseFunction::Response)),
        ResponseCheck::Ignore
    );
    assert_eq!(
        validate_non_read_response(10, seq, 10, header(true, false, true, 3, ResponseFunction::Response)),
        Err(TaskError::MultiFragmentResponse)
    );
    assert_eq!(
        validate_non_read_response(10, seq, 10, header(true, true, false, 19, ResponseFunction::Response)),
        Ok(ResponseCheck::Accept)
    );
    assert_eq!(
        validate_read_response(10, false, seq, 10, header(true, true, false, 3, ResponseFunction::Response)),
        Err(TaskError::UnexpectedFir)
    );
    assert_eq!(
        validate_read_response(10, true, seq, 10, header(false, true, false, 3, ResponseFunction::Response)),
        Err(TaskError::NeverReceivedFir)
    );
    assert_eq!(
        validate_read_response(10, true, seq, 10, header(true, false, false, 3, ResponseFunction::Response)),
        Err(TaskError::NonFinWithoutCon)
    );
}

#[test]
fn read_response_fragments() {
    let mut session = MasterSession::new(true, (), BufferSize::new(2048).unwrap());
    let seq = Sequence::new(0);
    let first = header(true, false, true, 0, ResponseFunction::Response);
    assert_eq!(
        session.process_read_response(10, true, seq, 10, first, Ok(())),
        Err(TaskError::NoSuchAssociation(10))
    );
    session.process_master_message(MasterMsg::AddAssociation(10));
    assert_eq!(
        session.process_read_response(10, true, seq, 10, first, Ok(())),
        Ok(ReadDecision { handle_unsolicited: false, confirm: true, action: ReadResponseAction::ReadNext })
    );
    assert_eq!(
        session.process_read_response(10, true, seq, 10, first, Err(ObjectParseError)),
        Err(TaskError::MalformedResponse(ObjectParseError))
    );
    let last = header(false, true, false, 1, ResponseFunction::Response);
    assert_eq!(
        session.process_read_response(10, false, Sequence::new(1), 10, last, Ok(())),
        Ok(ReadDecision { handle_unsolicited: false, confirm: false, action: ReadResponseAction::Complete })
    );
    assert_eq!(
        session.process_read_response(10, false, Sequence::new(2), 10, last, Ok(())),
        Ok(ReadDecision { handle_unsolicited: false, confirm: false, action: ReadResponseAction::Ignore })
    );
    let unsolicited = header(true, true, false, 5, ResponseFunction::UnsolicitedResponse);
    assert_eq!(
        session.process_read_response(10, false, Sequence::new(1), 10, unsolicited, Ok(())),
        Ok(ReadDecision { handle_unsolicited: true, confirm: false, action: ReadResponseAction::Ignore })
    );
    assert_eq!(Sequence::new(17).value(), 1);
}

#[test]
fn link_status_outcomes() {
    let mut session = MasterSession::new(true, (), BufferSize::new(1024).unwrap());
    assert_eq!(link_status_start(), LinkStatusAction::SendRequest);
    assert_eq!(
        session.link_status_wait(1),
        LinkStatusAction::Complete { fragment: None, result: Err(TaskError::NoSuchAssociation(1)) }
    );
    session.process_master_message(MasterMsg::AddAssociation(1));
    assert_eq!(session.link_status_wait(1), LinkStatusAction::Wait);
    assert_eq!(
        session.link_status_step(1, TaskEvent::LinkLayerMessage),
        LinkStatusAction::Complete { fragment: None, result: Ok(()) }
    );
    let solicited = TaskEvent::Fragment {
        source: 1,
        header: header(true, true, false, 0, ResponseFunction::Response),
        objects: Ok(()),
    };
    assert_eq!(
        session.link_status_step(1, solicited),
        LinkStatusAction::Complete {
            fragment: Some(IdleFragment::Warn),
            result: Err(TaskError::UnexpectedResponseHeaders)
        }
    );
    let unsolicited = TaskEvent::Fragment {
        source: 1,
        header: header(true, true, true, 0, ResponseFunction::UnsolicitedResponse),
        objects: Ok(()),
    };
    assert_eq!(
        session.link_status_step(1, unsolicited),
        LinkStatusAction::Complete {
            fragment: Some(IdleFragment::HandleUnsolicited),
            result: Err(TaskError::UnexpectedResponseHeaders)
        }
    );
    assert_eq!(
        session.link_status_step(1, TaskEvent::Malformed(TaskError::ResponseTimeout)),
        LinkStatusAction::Complete { fragment: None, result: Err(TaskError::UnexpectedResponseHeaders) }
    );
    assert_eq!(
        session.link_status_step(1, TaskEvent::Timeout),
        LinkStatusAction::Complete { fragment: None, result: Err(TaskError::ResponseTimeout) }
    );
    assert_eq!(
        session.link_status_step(1, TaskEvent::LinkFailed(LinkError::Stdio)),
        LinkStatusAction::Complete { fragment: None, result: Err(TaskError::Link(LinkError::Stdio)) }
    );
    assert_eq!(
        session.link_status_step(1, TaskEvent::Message(Err(StateChange::Disable))),
        LinkStatusAction::Complete { fragment: None, result: Err(TaskError::Disabled) }
    );
    assert_eq!(session.link_status_step(1, TaskEvent::Message(Ok(()))), LinkStatusAction::Wait);
    assert_eq!(session.link_status_step(1, TaskEvent::Nothing), LinkStatusAction::Wait);
    session.process_master_message(MasterMsg::RemoveAssociation(1));
    assert_eq!(
        session.link_status_step(1, TaskEvent::Nothing),
        LinkStatusAction::Complete { fragment: None, result: Err(TaskError::NoSuchAssociation(1)) }
    );
    assert_eq!(idle_fragment(header(true, true, false, 0, ResponseFunction::Response)), IdleFragment::Warn);
    let asks = header(true, true, true, 0, ResponseFunction::UnsolicitedResponse);
    assert!(confirm_unsolicited(true, asks));
    assert!(!confirm_unsolicited(false, asks));
    assert!(!confirm_unsolicited(true, header(true, true, false, 0, ResponseFunction::UnsolicitedResponse)));
}

#[test]
fn read_task_follows_its_fragments() {
    let mut session = MasterSession::new(true, (), BufferSize::new(2048).unwrap());
    assert_eq!(session.start_request(10), Err(TaskError::NoSuchAssociation(10)));
    session.process_master_message(MasterMsg::AddAssociation(10));
    let seq = session.start_request(10).unwrap();
    assert_eq!(seq.value(), 0);
    let start = ReadTaskState { is_first: true, seq };
    let first = TaskEvent::Fragment {
        source: 10,
        header: header(true, false, true, 0, ResponseFunction::Response),
        objects: Ok(()),
    };
    let next = ReadTaskState { is_first: false, seq: Sequence::new(1) };
    assert_eq!(
        session.read_task_step(10, start, first),
        Ok(ReadTaskStep::Accept { confirm: true, next: Some(next) })
    );
    let last = TaskEvent::Fragment {
        source: 10,
        header: header(false, true, false, 1, ResponseFunction::Response),
        objects: Ok(()),
    };
    assert_eq!(
        session.read_task_step(10, next, last),
        Ok(ReadTaskStep::Accept { confirm: false, next: None })
    );
    // the counter moved on past the second fragment's number
    assert_eq!(session.start_request(10).unwrap().value(), 2);
    let again = TaskEvent::Fragment {
        source: 10,
        header: header(true, false, true, 1, ResponseFunction::Response),
        objects: Ok(()),
    };
    assert_eq!(session.read_task_step(10, next, again), Err(TaskError::UnexpectedFir));
    assert_eq!(session.read_task_step(10, next, TaskEvent::Timeout), Err(TaskError::ResponseTimeout));
    assert_eq!(session.read_task_step(10, next, TaskEvent::Nothing), Ok(ReadTaskStep::Wait));
    let unsolicited = TaskEvent::Fragment {
        source: 10,
        header: header(true, true, true, 3, ResponseFunction::UnsolicitedResponse),
        objects: Ok(()),
    };
    assert_eq!(session.read_task_step(10, next, unsolicited), Ok(ReadTaskStep::HandleUnsolicited));
    assert_eq!(session.read_task_outcome(10, Ok(())), ReadTaskOutcome::Complete);
    assert_eq!(
        session.read_task_outcome(10, Err(TaskError::ResponseTimeout)),
        ReadTaskOutcome::Fail { notify: true, error: TaskError::ResponseTimeout }
    );
    assert_eq!(
        session.read_task_outcome(11, Ok(())),
        ReadTaskOutcome::Fail { notify: false, error: TaskError::NoSuchAssociation(11) }
    );
}

#[test]
fn buffer_sizes_and_sequence_counters() {
    assert_eq!(BufferSize::<249, 2048>::new(248), Err(BufferSizeError::TooSmall(248)));
    assert_eq!(BufferSize::<249, 2048>::new(2049), Err(BufferSizeError::TooLarge(2049)));
    let size = BufferSize::<249, 2048>::new(300).unwrap();
    assert_eq!(size.value(), 300);
    assert_eq!(size.create_buffer(), vec![0u8; 300]);
    let session = MasterSession::new(true, (), size);
    assert_eq!(session.tx_buffer_len(), 300);
    let mut map = AssociationMap::new();
    map.register(5).unwrap();
    map.register(6).unwrap();
    for expected in 0..17u8 {
        assert_eq!(map.increment_seq(5).unwrap().value(), expected % 16);
    }
    assert_eq!(map.increment_seq(6).unwrap().value(), 0);
    map.remove(6);
    assert_eq!(map.increment_seq(5).unwrap().value(), 1);
    assert_eq!(map.increment_seq(6), Err(TaskError::NoSuchAssociation(6)));
}

#[test]
fn non_read_task_steps() {
    let mut session = MasterSession::new(true, (), BufferSize::new(2048).unwrap());
    let seq = Sequence::new(2);
    let reply = TaskEvent::Fragment {
        source: 10,
        header: header(true, true, false, 2, ResponseFunction::Response),
        objects: Ok(()),
    };
    assert_eq!(session.non_read_task_step(10, seq, reply), Err(TaskError::NoSuchAssociation(10)));
    session.process_master_message(MasterMsg::AddAssociation(10));
    assert_eq!(session.non_read_task_step(10, seq, reply), Ok(ResponseCheck::Accept));
    assert_eq!(session.non_read_task_step(11, seq, reply), Ok(ResponseCheck::Ignore));
    assert_eq!(
        session.non_read_task_step(10, seq, TaskEvent::Message(Err(StateChange::Shutdown))),
        Err(TaskError::Shutdown)
    );
    assert_eq!(session.non_read_task_step(10, seq, TaskEvent::LinkLayerMessage), Ok(ResponseCheck::Ignore));
}
