use sonic_channel::{
    ChannelCommand, ChannelMode, ChannelState, ErrorKind, Exchange, ExchangeStep, StartResponse,
};

const ALL_COMMANDS: [ChannelCommand; 19] = [
    ChannelCommand::Quit,
    ChannelCommand::Ping,
    ChannelCommand::Push,
    ChannelCommand::PushWithLocale,
    ChannelCommand::Pop,
    ChannelCommand::Flushc,
    ChannelCommand::Flushb,
    ChannelCommand::Flusho,
    ChannelCommand::BucketCount,
    ChannelCommand::ObjectCount,
    ChannelCommand::WordCount,
    ChannelCommand::Query,
    ChannelCommand::QueryWithLimit,
    ChannelCommand::QueryWithLimitAndOffset,
    ChannelCommand::Suggest,
    ChannelCommand::SuggestWithLimit,
    ChannelCommand::Consolidate,
    ChannelCommand::Backup,
    ChannelCommand::Restore,
];

fn started(mode: ChannelMode) -> ChannelState {
    let mut state = ChannelState::new();
    state.apply_start(StartResponse { mode, max_buffer_size: 20000, protocol_version: 1 }).unwrap();
    state
}

#[test]
fn mode_names() {
    assert_eq!(ChannelMode::Search.to_str(), "search");
    assert_eq!(ChannelMode::Ingest.to_str(), "ingest");
    assert_eq!(ChannelMode::Control.to_str(), "control");
}

#[test]
fn mode_names_are_distinct() {
    let modes = [ChannelMode::Search, ChannelMode::Ingest, ChannelMode::Control];
    for a in modes {
        for b in modes {
            assert_eq!(a.to_str() == b.to_str(), a == b);
        }
    }
}

#[test]
fn greeting_accepted_gives_fresh_state() {
    let state = ChannelState::from_greeting("CONNECTED <sonic-server v1.2.3>\r\n").unwrap();
    assert_eq!(state.mode(), None);
    assert_eq!(state.max_buffer_size(), 200);
    assert_eq!(state.protocol_version(), 1);
}

#[test]
fn greeting_exact_word_accepted() {
    assert!(ChannelState::from_greeting("CONNECTED").is_ok());
}

#[test]
fn greeting_refused() {
    for line in ["", "CONNECTE", "connected <sonic-server>", " CONNECTED", "ENDED quit\r\n", "ÉCONNECTED"] {
        let err = ChannelState::from_greeting(line).unwrap_err();
        assert_eq!(*err.kind(), ErrorKind::ConnectToServer);
    }
}

#[test]
fn new_state_is_fresh() {
    let state = ChannelState::new();
    assert_eq!(state.mode(), None);
    assert_eq!(state.max_buffer_size(), 200);
    assert_eq!(state.protocol_version(), 1);
    assert!(state.check_start().is_ok());
}

#[test]
fn start_takes_over_the_reply() {
    let mut state = ChannelState::new();
    state.apply_start(StartResponse {
        mode: ChannelMode::Search,
        max_buffer_size: 20000,
        protocol_version: 2,
    }).unwrap();
    assert_eq!(state.mode(), Some(ChannelMode::Search));
    assert_eq!(state.max_buffer_size(), 20000);
    assert_eq!(state.protocol_version(), 2);
}

#[test]
fn start_only_once() {
    for mode in [ChannelMode::Search, ChannelMode::Ingest, ChannelMode::Control] {
        let state = started(mode);
        let err = state.check_start().unwrap_err();
        assert_eq!(*err.kind(), ErrorKind::RunCommand);
    }
}

#[test]
fn started_channel_keeps_its_state_on_second_start() {
    let mut state = started(ChannelMode::Search);
    let err = state
        .apply_start(StartResponse { mode: ChannelMode::Ingest, max_buffer_size: 7, protocol_version: 9 })
        .unwrap_err();
    assert_eq!(*err.kind(), ErrorKind::RunCommand);
    assert_eq!(state.mode(), Some(ChannelMode::Search));
    assert_eq!(state.max_buffer_size(), 20000);
    assert_eq!(state.protocol_version(), 1);
}

#[test]
fn command_names() {
    let names = [
        "quit",
        "ping",
        "push",
        "push_with_locale",
        "pop",
        "flushc",
        "flushb",
        "flusho",
        "bucket_count",
        "object_count",
        "word_count",
        "query",
        "query_with_limit",
        "query_with_limit_and_offset",
        "suggest",
        "suggest_with_limit",
        "consolidate",
        "backup",
        "restore",
    ];
    for (command, name) in ALL_COMMANDS.iter().zip(names) {
        assert_eq!(command.name(), name);
    }
}

#[test]
fn command_required_modes() {
    assert_eq!(ChannelCommand::Quit.required_mode(), None);
    assert_eq!(ChannelCommand::Ping.required_mode(), None);
    assert_eq!(ChannelCommand::PushWithLocale.required_mode(), Some(ChannelMode::Ingest));
    assert_eq!(ChannelCommand::WordCount.required_mode(), Some(ChannelMode::Ingest));
    assert_eq!(ChannelCommand::QueryWithLimitAndOffset.required_mode(), Some(ChannelMode::Search));
    assert_eq!(ChannelCommand::Suggest.required_mode(), Some(ChannelMode::Search));
    assert_eq!(ChannelCommand::Restore.required_mode(), Some(ChannelMode::Control));
}

#[test]
fn fresh_channel_runs_only_quit_and_ping() {
    let state = ChannelState::new();
    for command in ALL_COMMANDS {
        let res = state.authorize(command);
        if command.required_mode().is_none() {
            assert!(res.is_ok());
        } else {
            let err = res.unwrap_err();
            assert_eq!(*err.kind(), ErrorKind::UnsupportedCommand((command.name(), None)));
        }
    }
}

#[test]
fn unstarted_push_is_refused() {
    let err = ChannelState::new().authorize(ChannelCommand::Push).unwrap_err();
    assert_eq!(*err.kind(), ErrorKind::UnsupportedCommand(("push", None)));
}

#[test]
fn started_channel_runs_its_mode() {
    for mode in [ChannelMode::Search, ChannelMode::Ingest, ChannelMode::Control] {
        let state = started(mode);
        for command in ALL_COMMANDS {
            let allowed = match command.required_mode() {
                None => true,
                Some(required) => required == mode,
            };
            let res = state.authorize(command);
            assert_eq!(res.is_ok(), allowed);
            if !allowed {
                assert_eq!(
                    *res.unwrap_err().kind(),
                    ErrorKind::UnsupportedCommand((command.name(), Some(mode)))
                );
            }
        }
    }
}

#[test]
fn ingest_channel_refuses_query() {
    let err = started(ChannelMode::Ingest).authorize(ChannelCommand::Query).unwrap_err();
    assert_eq!(
        *err.kind(),
        ErrorKind::UnsupportedCommand(("query", Some(ChannelMode::Ingest)))
    );
}

#[test]
fn quit_and_ping_everywhere() {
    let states = [
        ChannelState::new(),
        started(ChannelMode::Search),
        started(ChannelMode::Ingest),
        started(ChannelMode::Control),
    ];
    for state in states.iter() {
        assert!(state.authorize(ChannelCommand::Quit).is_ok());
        assert!(state.authorize(ChannelCommand::Ping).is_ok());
    }
}

#[test]
fn one_mode_per_channel() {
    for mode in [ChannelMode::Search, ChannelMode::Ingest, ChannelMode::Control] {
        let state = started(mode);
        for a in ALL_COMMANDS {
            for b in ALL_COMMANDS {
                if state.authorize(a).is_ok()
                    && state.authorize(b).is_ok()
                    && a.required_mode().is_some()
                    && b.required_mode().is_some()
                {
                    assert_eq!(a.required_mode(), b.required_mode());
                }
            }
        }
    }
}

#[test]
fn command_exchange_collects_reply_lines() {
    let mut ex = Exchange::command(2);
    assert_eq!(ex.next_step(), ExchangeStep::WriteCommand);
    ex.command_written(true).unwrap();
    assert_eq!(ex.next_step(), ExchangeStep::ReadLine);
    ex.line_read(Ok("PENDING Bt2m2gYa\r\n")).unwrap();
    assert_eq!(ex.next_step(), ExchangeStep::ReadLine);
    ex.line_read(Ok("EVENT QUERY Bt2m2gYa conversation:71f3d63b\r\n")).unwrap();
    assert_eq!(ex.next_step(), ExchangeStep::Done);
    assert_eq!(
        ex.into_reply(),
        "PENDING Bt2m2gYa\r\nEVENT QUERY Bt2m2gYa conversation:71f3d63b\r\n"
    );
}

#[test]
fn greeting_exchange_reads_one_line() {
    let mut ex = Exchange::reading(1);
    assert_eq!(ex.next_step(), ExchangeStep::ReadLine);
    ex.line_read(Ok("CONNECTED <sonic-server v1.2.3>\r\n")).unwrap();
    assert_eq!(ex.next_step(), ExchangeStep::Done);
    let reply = ex.into_reply();
    assert!(ChannelState::from_greeting(&reply).is_ok());
}

#[test]
fn empty_lines_count_as_lines() {
    let mut ex = Exchange::reading(2);
    ex.line_read(Ok("")).unwrap();
    ex.line_read(Ok("")).unwrap();
    assert_eq!(ex.next_step(), ExchangeStep::Done);
    assert_eq!(ex.into_reply(), "");
}

#[test]
fn zero_line_exchanges() {
    let ex = Exchange::reading(0);
    assert_eq!(ex.next_step(), ExchangeStep::Done);
    let mut ex = Exchange::command(0);
    ex.command_written(true).unwrap();
    assert_eq!(ex.next_step(), ExchangeStep::Done);
    assert_eq!(ex.into_reply(), "");
}

#[test]
fn failed_write_is_write_to_stream() {
    let mut ex = Exchange::command(1);
    let err = ex.command_written(false).unwrap_err();
    assert_eq!(*err.kind(), ErrorKind::WriteToStream);
    assert_eq!(ex.next_step(), ExchangeStep::WriteCommand);
}

#[test]
fn failed_read_is_read_stream() {
    let mut ex = Exchange::command(1);
    ex.command_written(true).unwrap();
    let err = ex.line_read(Err(())).unwrap_err();
    assert_eq!(*err.kind(), ErrorKind::ReadStream);
    assert_eq!(ex.next_step(), ExchangeStep::ReadLine);
    assert_eq!(ex.into_reply(), "");
}
