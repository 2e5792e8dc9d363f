use goolog::{
    fatal, init_logger, set_on_fatal, FatalHook, GlobalSlot, InstallConfig, Level, Record, Sink,
    SinkOutcome, Timestamp,
};

fn active_slot() -> GlobalSlot {
    let mut slot = GlobalSlot::new();
    let config = InstallConfig { file_path: Some(String::from("logs/main.log")), ..InstallConfig::new() };
    assert_eq!(init_logger(&mut slot, &config, SinkOutcome::Ready, true), Ok(()));
    slot
}

#[test]
fn fatal_on_an_active_logger_carries_the_sentinel() {
    let slot = active_slot();
    let hook: FatalHook<u8> = FatalHook::new(None);
    let step = fatal(&slot, &hook, "Main", "disk full");
    assert_eq!(step.record, Record::new("Main", Level::Error, "$goolog:fatal=disk full"));
    assert_eq!(step.callback, None);
}

#[test]
fn fatal_without_a_logger_is_a_plain_error() {
    let slot = GlobalSlot::new();
    let hook: FatalHook<u8> = FatalHook::new(Some(7));
    let step = fatal(&slot, &hook, "Main", "disk full");
    assert_eq!(step.record, Record::new("Main", Level::Error, "disk full"));
    assert_eq!(step.callback, Some(&7));
}

#[test]
fn fatal_on_a_slot_that_waits_for_the_facade_is_a_plain_error() {
    let mut slot = GlobalSlot::new();
    let plan = slot.begin_install(&InstallConfig::new()).unwrap();
    assert_eq!(slot.place(plan, SinkOutcome::Ready), Ok(()));
    let hook: FatalHook<u8> = FatalHook::new(None);
    let step = fatal(&slot, &hook, "Main", "disk full");
    assert_eq!(step.record.message, "disk full");
}

#[test]
fn fatal_sentinel_rewrite() {
    let slot = active_slot();
    let hook: FatalHook<u8> = FatalHook::new(None);
    let step = fatal(&slot, &hook, "Main", "disk full");
    let out = slot.emit(&step.record.at(Timestamp::new(2024, 1, 2, 3, 4, 5)));
    assert_eq!(out.len(), 2);
    assert_eq!(out[0].sink, Sink::Stdout);
    assert_eq!(
        out[0].line,
        "\x1b[2m\x1b[1m02.01.2024\x1b[0m | \x1b[2m\x1b[1m03:04:05\x1b[0m | Main             | \x1b[31mFATAL\x1b[0m | disk full"
    );
    assert_eq!(out[1].sink, Sink::File);
    assert_eq!(
        out[1].line,
        "02.01.2024 | 03:04:05 | Main             | FATAL          | disk full"
    );
    let fields: Vec<&str> = out[1].line.split(" | ").collect();
    assert_eq!(fields[3].trim_end(), "FATAL");
    assert_eq!(fields[4], "disk full");
}

#[test]
fn error_that_starts_with_the_sentinel_looks_fatal() {
    let slot = active_slot();
    let record = Record::new("Main", Level::Error, "$goolog:fatal=disk full");
    let out = slot.emit(&record);
    assert_eq!(out[1].line, "Main             | FATAL          | disk full");
    assert!(out.iter().all(|emission| !emission.line.contains("$goolog:fatal=")));
}

#[test]
fn fatal_with_an_empty_message() {
    let slot = active_slot();
    let hook: FatalHook<u8> = FatalHook::new(None);
    let step = fatal(&slot, &hook, "", "");
    assert_eq!(step.record.message, "$goolog:fatal=");
    let out = slot.emit(&step.record);
    assert_eq!(out[1].line, "                 | FATAL          | ");
}

#[test]
fn hook_holds_what_it_was_made_with() {
    let empty: FatalHook<u8> = FatalHook::new(None);
    assert_eq!(empty.callback, None);
    let full = FatalHook::new(Some(1u8));
    assert_eq!(full.callback, Some(1));
}

#[test]
fn set_on_fatal_replaces_the_callback() {
    let mut hook = FatalHook::new(None);
    set_on_fatal(&mut hook, 1u8);
    assert_eq!(hook.callback, Some(1));
    set_on_fatal(&mut hook, 2u8);
    assert_eq!(hook.callback, Some(2));
}

fn first() -> u8 {
    1
}

fn second() -> u8 {
    2
}

#[test]
fn fatal_hands_out_the_callback_that_was_set_last() {
    let slot = GlobalSlot::new();
    let mut hook: FatalHook<fn() -> u8> = FatalHook::new(Some(first));
    let step = fatal(&slot, &hook, "Main", "m");
    assert_eq!(step.callback.map(|callback| callback()), Some(1));
    set_on_fatal(&mut hook, second);
    let step = fatal(&slot, &hook, "Main", "m");
    assert_eq!(step.callback.map(|callback| callback()), Some(2));
}
