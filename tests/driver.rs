use feed_view::{
    build_table, drive, Command, Config, DisplayItem, Driver, Event, EventSource, InputStatus, Key,
    Phase, Resolution, Step,
};

fn count(log: &[Command], c: Command) -> usize {
    log.iter().filter(|x| **x == c).count()
}

#[test]
fn exit_key_ends_loop() {
    let mut d = Driver::new(Key::Esc);
    assert_eq!(d.next_command(), Command::Draw);
    d.drawn();
    assert_eq!(d.next_command(), Command::AwaitEvent);
    assert_eq!(d.handle(Some(Event::Input(Key::Esc))), Step::Quit);
    assert_eq!(d.phase, Phase::Terminated);
    assert_eq!(d.next_command(), Command::Restore);
    assert!(d.mode.raw && d.mode.alternate_screen && d.mode.mouse_capture);
    d.terminal_restored();
    assert_eq!(d.next_command(), Command::Stop);
    assert!(!d.mode.raw && !d.mode.alternate_screen && !d.mode.mouse_capture && d.mode.cursor_visible);
}

#[test]
fn other_keys_and_ticks_keep_running() {
    let events = [
        Some(Event::Tick),
        Some(Event::Input(Key::Char('q'))),
        Some(Event::Input(Key::Null)),
        Some(Event::Input(Key::Enter)),
    ];
    let mut d = Driver::new(Key::Esc);
    d.drawn();
    for ev in events {
        assert_eq!(d.handle(ev), Step::Redraw);
        assert_eq!(d.phase, Phase::Running);
        assert_eq!(d.next_command(), Command::Draw);
        d.drawn();
        assert_eq!(d.next_command(), Command::AwaitEvent);
    }
}

#[test]
fn one_draw_between_waits() {
    let events = vec![Some(Event::Tick), Some(Event::Input(Key::Down)), Some(Event::Tick)];
    let log = drive(Key::Esc, &events);
    assert_eq!(
        log,
        vec![
            Command::Draw,
            Command::AwaitEvent,
            Command::Draw,
            Command::AwaitEvent,
            Command::Draw,
            Command::AwaitEvent,
            Command::Draw,
            Command::AwaitEvent,
        ]
    );
}

#[test]
fn events_after_exit_are_not_read() {
    let events = vec![Some(Event::Input(Key::Esc)), Some(Event::Tick)];
    assert_eq!(
        drive(Key::Esc, &events),
        vec![Command::Draw, Command::AwaitEvent, Command::Restore, Command::Stop]
    );
}

#[test]
fn ticks_then_escape_scenario() {
    let items = vec![
        DisplayItem { title: "A".to_string() },
        DisplayItem { title: "B".to_string() },
    ];
    let mut source = EventSource::with_config(Config::from_tick_delay(250), 0);
    let windows = [
        (100, InputStatus::Empty),
        (250, InputStatus::Empty),
        (400, InputStatus::ReadError),
        (500, InputStatus::Empty),
        (550, InputStatus::Empty),
        (610, InputStatus::Ready(Key::Esc)),
    ];
    let mut events = Vec::new();
    for (now, input) in windows {
        match source.poll(now, input) {
            Resolution::Deliver(e) => events.push(Some(e)),
            Resolution::EndOfStream => events.push(None),
            Resolution::Pending => {}
        }
    }
    assert_eq!(
        events,
        vec![Some(Event::Tick), Some(Event::Tick), Some(Event::Input(Key::Esc))]
    );
    let log = drive(Key::Esc, &events);
    assert_eq!(count(&log, Command::Draw), 3);
    assert_eq!(count(&log, Command::Restore), 1);
    assert_eq!(log.last(), Some(&Command::Stop));
    let table = build_table(&items);
    assert_eq!(table.rows, vec!["A".to_string(), "B".to_string()]);
}

#[test]
fn closed_channel_scenario() {
    let mut source = EventSource::with_config(Config::from_tick_delay(250), 0);
    assert_eq!(source.poll(0, InputStatus::Closed), Resolution::EndOfStream);
    let log = drive(Key::Esc, &vec![None]);
    assert_eq!(log, vec![Command::Draw, Command::AwaitEvent, Command::Restore, Command::Stop]);
    assert_eq!(count(&log, Command::Restore), 1);
    let mut d = Driver::new(Key::Esc);
    d.drawn();
    assert_eq!(d.handle(None), Step::Quit);
    assert_eq!(d.next_command(), Command::Restore);
    d.terminal_restored();
    assert_eq!(d.next_command(), Command::Stop);
    assert!(!d.mode.raw && !d.mode.alternate_screen && !d.mode.mouse_capture);
}

#[test]
fn empty_script_keeps_waiting() {
    assert_eq!(drive(Key::Esc, &Vec::new()), vec![Command::Draw, Command::AwaitEvent]);
}
