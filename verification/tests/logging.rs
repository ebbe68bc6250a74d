use request_logging::finalizer::{finalize, write_action, HttpResponse};
use request_logging::logging::{BufferLogger, Loggable, Logger};
use request_logging::request::{request_logger, Logs, RequestContext};

fn response() -> HttpResponse {
    HttpResponse {
        status: 200,
        body: String::from("Test\n"),
    }
}

fn context() -> RequestContext {
    RequestContext::new(String::from("GET"), String::from("/"))
}

#[test]
fn drain_returns_entries_in_insertion_order() {
    let mut ctx = context();
    ctx.append(String::from("one"));
    ctx.append(String::from("two"));
    ctx.append(String::from("three"));
    let first = ctx.drain();
    assert_eq!(
        first,
        vec![
            String::from("one"),
            String::from("two"),
            String::from("three")
        ]
    );
    let second = ctx.drain();
    assert!(second.is_empty());
}

#[test]
fn append_creates_exactly_one_store() {
    let mut ctx = context();
    assert!(ctx.logs.is_none());
    for i in 0..16 {
        ctx.append(format!("entry {}", i));
        assert!(ctx.logs.is_some());
    }
    let drained = ctx.drain();
    assert_eq!(drained.len(), 16);
    for i in 0..16 {
        assert_eq!(drained[i], format!("entry {}", i));
    }
}

#[test]
fn finalize_without_entries_writes_nothing() {
    let mut ctx = context();
    let (returned, write) = finalize(&mut ctx, response());
    assert_eq!(returned, response());
    assert!(write.is_none());
}

#[test]
fn finalize_with_attached_empty_store_writes_nothing() {
    let mut ctx = context();
    ctx.logs = Some(Logs::new());
    let (returned, write) = finalize(&mut ctx, response());
    assert_eq!(returned, response());
    assert!(write.is_none());
    assert!(ctx.logs.is_none());
}

#[test]
fn finalize_joins_entries_with_newlines() {
    let mut ctx = context();
    ctx.append(String::from("a"));
    ctx.append(String::from("b"));
    ctx.append(String::from("c"));
    let (returned, write) = finalize(&mut ctx, response());
    assert_eq!(returned, response());
    assert_eq!(write, Some(String::from("a\nb\nc")));
    assert!(ctx.logs.is_none());
}

#[test]
fn finalize_single_entry_adds_no_newline() {
    let mut ctx = context();
    ctx.append(String::from("solo"));
    let (_, write) = finalize(&mut ctx, response());
    assert_eq!(write, Some(String::from("solo")));
}

#[test]
fn concurrent_finalizes_keep_blocks_whole() {
    let mut first = RequestContext::new(String::from("GET"), String::from("/a"));
    first.append(String::from("a1"));
    first.append(String::from("a2"));
    let mut second = RequestContext::new(String::from("GET"), String::from("/b"));
    second.append(String::from("b1"));
    second.append(String::from("b2"));

    let (_, write_a) = finalize(&mut first, response());
    let (_, write_b) = finalize(&mut second, response());
    let block_a = write_a.unwrap();
    let block_b = write_b.unwrap();
    assert_eq!(block_a, "a1\na2");
    assert_eq!(block_b, "b1\nb2");

    let mut file = String::new();
    file.push_str(&block_a);
    file.push_str(&block_b);
    assert_eq!(file, "a1\na2b1\nb2");
}

#[test]
fn lock_failure_skips_write_and_leaves_response_alone() {
    let mut ctx = context();
    ctx.append(String::from("pending line"));
    let (returned, write) = finalize(&mut ctx, response());
    assert_eq!(returned, response());
    let block = write.unwrap();
    assert!(write_action(block, false).is_none());
}

#[test]
fn acquired_lock_writes_block_unchanged() {
    let block = String::from("a\nb");
    assert_eq!(write_action(block.clone(), true), Some(block));
}

#[test]
fn autolog_yields_one_timestamped_entry() {
    let mut ctx = context();
    request_logger(&mut ctx);
    let drained = ctx.drain();
    assert_eq!(drained.len(), 1);
    let entry = &drained[0];
    assert!(entry.starts_with('['));
    assert!(entry.ends_with("] GET /"));
    assert!(entry.contains("GET"));
    assert!(entry.contains('/'));
}

#[test]
fn request_renders_as_method_and_path() {
    let ctx = context();
    assert_eq!(ctx.to_log_entry(), "GET /");
}

#[test]
fn string_renders_as_itself() {
    let line = String::from("plain line");
    assert_eq!(line.to_log_entry(), line);
}

#[test]
fn logs_extract_returns_appended_entries() {
    let mut logs = Logs::new();
    logs.append(&String::from("first"));
    logs.append(&String::from("second"));
    let out = logs.extract();
    assert_eq!(out, vec![String::from("first"), String::from("second")]);
}

#[test]
fn buffer_logger_keeps_lines_unchanged() {
    let mut sink = BufferLogger::new();
    sink.log(&String::from("one"));
    sink.log(&String::from("two"));
    assert_eq!(
        sink.lines(),
        &vec![String::from("one"), String::from("two")]
    );
}

#[test]
fn request_log_stamps_and_buffers_the_line() {
    let mut ctx = context();
    ctx.log(&String::from("handler started"));
    let drained = ctx.drain();
    assert_eq!(drained.len(), 1);
    assert!(drained[0].starts_with('['));
    assert!(drained[0].ends_with("] handler started"));
}
