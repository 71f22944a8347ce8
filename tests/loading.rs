use amend::cell::ProgressCell;
use amend::policy::{
    is_large, loaded_due, pause_millis, preview_due, CHUNK_SIZE, LARGE_FILE_THRESHOLD,
    MAX_LARGE_CONTENT, TRUNCATION_MARKER,
};
use amend::reader::{ChunkedReader, Progress};
use amend::session::{TextEditorApp, STARTUP_FRAMES};

/// Feeds `data` to a fresh reader in chunks of at most `step` bytes and
/// publishes every step into `cell`; returns the published values of
/// `bytes_loaded`, in order.
fn run_load(
    cell: &mut ProgressCell,
    path: &str,
    generation: u64,
    file_size: u64,
    data: &[u8],
    step: usize,
) -> Vec<usize> {
    let mut loaded = Vec::new();
    let mut reader = ChunkedReader::new(path.to_string(), generation, file_size);
    assert!(cell.apply(reader.announce()));
    let mut pos = 0;
    while pos < data.len() {
        let want = reader.next_read_len().min(step);
        if want == 0 {
            break;
        }
        let end = (pos + want).min(data.len());
        let p = reader.accept_chunk(&data[pos..end]);
        pos = end;
        if let Some(n) = p.loaded {
            loaded.push(n);
        }
        assert!(cell.apply(p));
    }
    let p = reader.finish();
    if let Some(n) = p.loaded {
        loaded.push(n);
    }
    assert!(cell.apply(p));
    loaded
}

fn start(app: &mut TextEditorApp, cell: &mut ProgressCell, path: &str) -> u64 {
    let ticket = app.start_loading_file(path.to_string(), cell);
    assert_eq!(ticket.path, path);
    ticket.generation
}

#[test]
fn empty_file_loads_empty() {
    let mut app = TextEditorApp::default();
    let mut cell = ProgressCell::new();
    let g = start(&mut app, &mut cell, "empty.txt");
    let loaded = run_load(&mut cell, "empty.txt", g, 0, b"", CHUNK_SIZE);
    assert_eq!(cell.total, 0);
    assert_eq!(loaded, vec![0]);
    let status = app.poll_tick(&mut cell);
    assert!(!status.is_loading);
    assert!(!app.is_loading);
    assert_eq!(app.text, "");
    assert_eq!(app.filename, Some("empty.txt".to_string()));
    assert_eq!(status.total, 0);
}

#[test]
fn hello_world_loads_exactly() {
    let mut app = TextEditorApp::default();
    let mut cell = ProgressCell::new();
    let g = start(&mut app, &mut cell, "hello.txt");
    run_load(&mut cell, "hello.txt", g, 11, b"hello world", CHUNK_SIZE);
    assert_eq!(cell.loaded, 11);
    let status = app.poll_tick(&mut cell);
    assert_eq!(app.text, "hello world");
    assert!(!app.text.contains("truncated"));
    assert_eq!(status.loaded, 11);
    assert_eq!(app.bytes_loaded, 11);
    assert_eq!(app.filename, Some("hello.txt".to_string()));
}

#[test]
fn missing_file_yields_empty_outcome() {
    let mut app = TextEditorApp::default();
    let mut cell = ProgressCell::new();
    let path = "/no/such/dir/missing.txt";
    let g = start(&mut app, &mut cell, path);
    assert!(app.is_loading);
    assert_eq!(app.loading_filename, Some(path.to_string()));
    // The size query failed and the open failed: the reader ends at once.
    let mut reader = ChunkedReader::new(path.to_string(), g, 0);
    assert!(cell.apply(reader.announce()));
    let status = app.poll_tick(&mut cell);
    assert!(status.is_loading);
    assert!(cell.apply(reader.finish()));
    let status = app.poll_tick(&mut cell);
    assert!(!status.is_loading);
    assert_eq!(app.text, "");
    assert_eq!(app.filename, Some(path.to_string()));
}

#[test]
fn huge_file_is_truncated() {
    let mut app = TextEditorApp::default();
    let mut cell = ProgressCell::new();
    let size: u64 = 150 * 1024 * 1024;
    let g = start(&mut app, &mut cell, "huge.txt");
    let mut reader = ChunkedReader::new("huge.txt".to_string(), g, size);
    assert!(cell.apply(reader.announce()));
    assert_eq!(cell.total, 150 * 1024 * 1024);
    let chunk = [b'a'; 512];
    let mut chunks = 0usize;
    loop {
        let want = reader.next_read_len();
        if want == 0 {
            break;
        }
        let p = reader.accept_chunk(&chunk[..want]);
        assert!(p.total.is_none());
        assert!(cell.apply(p));
        chunks += 1;
    }
    assert_eq!(chunks, MAX_LARGE_CONTENT / 512);
    assert_eq!(cell.loaded, MAX_LARGE_CONTENT);
    assert!(cell.apply(reader.finish()));
    app.poll_tick(&mut cell);
    assert_eq!(app.text.len(), 10 * 1024 * 1024 + TRUNCATION_MARKER.len());
    assert!(app.text.ends_with(TRUNCATION_MARKER));
    assert_eq!(app.total_bytes, 150 * 1024 * 1024);
}

#[test]
fn normal_file_is_kept_whole() {
    let data: Vec<u8> = (0..5000u32).map(|i| b'a' + (i % 26) as u8).collect();
    let mut app = TextEditorApp::default();
    let mut cell = ProgressCell::new();
    let g = start(&mut app, &mut cell, "mid.txt");
    let loaded = run_load(&mut cell, "mid.txt", g, 5000, &data, CHUNK_SIZE);
    assert_eq!(*loaded.last().unwrap(), 5000);
    app.poll_tick(&mut cell);
    assert_eq!(app.text.as_bytes(), &data[..]);
    assert!(!app.text.contains("truncated"));
}

#[test]
fn file_at_threshold_is_not_large() {
    let data = vec![b'x'; 3000];
    let mut cell = ProgressCell::new();
    run_load(&mut cell, "edge.txt", 0, LARGE_FILE_THRESHOLD, &data, CHUNK_SIZE);
    let outcome = cell.pending.take().unwrap();
    assert_eq!(outcome.content.len(), 3000);
    assert_eq!(outcome.name, "edge.txt");
}

#[test]
fn short_reads_never_pass_the_cap() {
    let mut reader = ChunkedReader::new("big.txt".to_string(), 4, LARGE_FILE_THRESHOLD + 1);
    reader.announce();
    let chunk = [b'b'; 300];
    let mut kept = 0usize;
    loop {
        let want = reader.next_read_len().min(300);
        if want == 0 {
            break;
        }
        assert!(want <= CHUNK_SIZE);
        reader.accept_chunk(&chunk[..want]);
        kept += want;
    }
    assert_eq!(kept, MAX_LARGE_CONTENT);
    let p = reader.finish();
    assert_eq!(p.loaded, Some(MAX_LARGE_CONTENT));
    let content = p.outcome.unwrap().content;
    assert_eq!(content.len(), MAX_LARGE_CONTENT + TRUNCATION_MARKER.len());
    assert!(content.ends_with(TRUNCATION_MARKER));
}

#[test]
fn large_file_ending_early_has_no_marker() {
    let mut cell = ProgressCell::new();
    let data = vec![b'c'; 4000];
    run_load(&mut cell, "short.txt", 0, LARGE_FILE_THRESHOLD + 1, &data, CHUNK_SIZE);
    let outcome = cell.pending.take().unwrap();
    assert_eq!(outcome.content.len(), 4000);
    assert!(!outcome.content.contains("truncated"));
}

#[test]
fn total_is_written_once() {
    let mut reader = ChunkedReader::new("t.txt".to_string(), 0, 9000);
    let mut cell = ProgressCell::new();
    assert!(cell.apply(reader.announce()));
    let chunk = [b'z'; 512];
    for _ in 0..10 {
        let p = reader.accept_chunk(&chunk);
        assert!(p.total.is_none());
        cell.apply(p);
        assert_eq!(cell.total, 9000);
    }
    let p = reader.finish();
    assert!(p.total.is_none());
    cell.apply(p);
    assert_eq!(cell.total, 9000);
}

#[test]
fn loaded_count_only_grows() {
    let data = vec![b'q'; 10000];
    let mut cell = ProgressCell::new();
    let loaded = run_load(&mut cell, "grow.txt", 0, 10000, &data, CHUNK_SIZE);
    assert_eq!(loaded, vec![2048, 4096, 6144, 8192, 10000]);
    for w in loaded.windows(2) {
        assert!(w[0] <= w[1]);
    }
    assert_eq!(cell.loaded, 10000);
}

#[test]
fn large_policy_publishes_every_four_kib() {
    let mut reader = ChunkedReader::new("l.txt".to_string(), 0, LARGE_FILE_THRESHOLD + 1);
    reader.announce();
    let chunk = [b'r'; 512];
    let mut seen = Vec::new();
    for _ in 0..16 {
        if let Some(n) = reader.accept_chunk(&chunk).loaded {
            seen.push(n);
        }
    }
    assert_eq!(seen, vec![4096, 8192]);
    assert_eq!(reader.pause_millis(), 2);
}

#[test]
fn preview_stops_after_two_kib() {
    let mut reader = ChunkedReader::new("p.txt".to_string(), 0, 6000);
    reader.announce();
    let mut cell = ProgressCell::new();
    let chunk = [b'p'; 512];
    let mut previews = Vec::new();
    for _ in 0..8 {
        let p = reader.accept_chunk(&chunk);
        if let Some(s) = &p.preview {
            previews.push(s.len());
        }
        cell.apply(p);
    }
    assert_eq!(previews, vec![512, 1024, 1536, 2048]);
    assert_eq!(cell.preview.len(), 2048);
    let p = reader.finish();
    assert!(p.preview.is_none());
}

#[test]
fn preview_follows_short_reads() {
    let mut reader = ChunkedReader::new("s.txt".to_string(), 0, 600);
    reader.announce();
    assert_eq!(reader.accept_chunk(&[b'a'; 100]).preview, Some("a".repeat(100)));
    // 356 bytes kept: past the first quarter of the stride, no refresh.
    assert!(reader.accept_chunk(&[b'a'; 256]).preview.is_none());
    assert_eq!(reader.accept_chunk(&[b'a'; 200]).preview, Some("a".repeat(556)));
}

#[test]
fn result_is_adopted_once() {
    let mut app = TextEditorApp::default();
    let mut cell = ProgressCell::new();
    let g = start(&mut app, &mut cell, "once.txt");
    run_load(&mut cell, "once.txt", g, 4, b"once", CHUNK_SIZE);
    let first = app.poll_tick(&mut cell);
    assert!(!first.is_loading);
    assert!(cell.pending.is_none());
    assert_eq!(cell.preview, "");
    app.text.push_str(" edited");
    let second = app.poll_tick(&mut cell);
    assert!(!second.is_loading);
    assert!(!app.is_loading);
    assert_eq!(app.text, "once edited");
    assert_eq!(app.filename, Some("once.txt".to_string()));
}

#[test]
fn preview_shows_while_loading() {
    let mut app = TextEditorApp::default();
    let mut cell = ProgressCell::new();
    let g = start(&mut app, &mut cell, "live.txt");
    let mut reader = ChunkedReader::new("live.txt".to_string(), g, 1024);
    cell.apply(reader.announce());
    cell.apply(reader.accept_chunk(b"first part"));
    let status = app.poll_tick(&mut cell);
    assert!(status.is_loading);
    assert_eq!(status.total, 1024);
    assert_eq!(app.text, "first part");
    cell.apply(reader.finish());
    app.poll_tick(&mut cell);
    assert_eq!(app.text, "first part");
    assert!(!app.is_loading);
}

#[test]
fn invalid_chunk_is_dropped() {
    let mut reader = ChunkedReader::new("bin".to_string(), 0, 1536);
    reader.announce();
    reader.accept_chunk(b"ok ");
    let p = reader.accept_chunk(&[0xff, 0xfe, 0x41]);
    assert!(p.preview.is_none());
    assert!(p.loaded.is_none());
    reader.accept_chunk(b"end");
    let p = reader.finish();
    assert_eq!(p.loaded, Some(6));
    assert_eq!(p.outcome.unwrap().content, "ok end");
}

#[test]
fn split_character_is_lost() {
    // "é" is 0xc3 0xa9; cut between two chunks, neither half decodes.
    let mut reader = ChunkedReader::new("u.txt".to_string(), 0, 4);
    reader.announce();
    reader.accept_chunk(&[b'a', 0xc3]);
    reader.accept_chunk(&[0xa9, b'b']);
    assert_eq!(reader.finish().outcome.unwrap().content, "");
}

#[test]
fn multibyte_chunk_is_decoded() {
    let mut reader = ChunkedReader::new("m.txt".to_string(), 0, 6);
    reader.announce();
    let p = reader.accept_chunk("héllo".as_bytes());
    assert_eq!(p.preview, Some("héllo".to_string()));
    let p = reader.finish();
    assert_eq!(p.loaded, Some(6));
    assert_eq!(p.outcome.unwrap().content, "héllo");
}

#[test]
fn stale_worker_is_ignored() {
    let mut app = TextEditorApp::default();
    let mut cell = ProgressCell::new();
    let old_gen = start(&mut app, &mut cell, "old.txt");
    let new_gen = start(&mut app, &mut cell, "new.txt");
    assert_ne!(old_gen, new_gen);
    let mut stale = ChunkedReader::new("old.txt".to_string(), old_gen, 3);
    assert!(!cell.apply(stale.announce()));
    assert!(!cell.apply(stale.finish()));
    assert!(cell.pending.is_none());
    assert_eq!(cell.total, 0);
    run_load(&mut cell, "new.txt", new_gen, 3, b"new", CHUNK_SIZE);
    app.poll_tick(&mut cell);
    assert_eq!(app.text, "new");
    assert_eq!(app.filename, Some("new.txt".to_string()));
}

#[test]
fn new_file_abandons_load() {
    let mut app = TextEditorApp::default();
    let mut cell = ProgressCell::new();
    let g = start(&mut app, &mut cell, "gone.txt");
    let mut reader = ChunkedReader::new("gone.txt".to_string(), g, 2);
    cell.apply(reader.announce());
    app.text = "typed".to_string();
    app.is_modified = true;
    app.new_file(&mut cell);
    assert_eq!(app.text, "");
    assert!(app.filename.is_none());
    assert!(!app.is_modified);
    assert!(!app.is_loading);
    assert_eq!(cell.total, 0);
    assert_eq!(cell.generation, app.generation);
    assert!(!cell.apply(reader.finish()));
    let status = app.poll_tick(&mut cell);
    assert!(!status.is_loading);
    assert_eq!(app.text, "");
}

#[test]
fn startup_load_waits_for_frames() {
    let mut app = TextEditorApp::default();
    let mut cell = ProgressCell::new();
    app.pending_file_to_load = Some("start.txt".to_string());
    for _ in 1..STARTUP_FRAMES {
        assert!(app.frame_tick(&mut cell).is_none());
        assert!(!app.is_loading);
    }
    let ticket = app.frame_tick(&mut cell).unwrap();
    assert_eq!(ticket.path, "start.txt");
    assert_eq!(ticket.generation, app.generation);
    assert!(app.is_loading);
    assert!(app.pending_file_to_load.is_none());
    assert!(app.frame_tick(&mut cell).is_none());
    assert_eq!(app.frames_seen, STARTUP_FRAMES);
}

#[test]
fn edits_count_only_when_idle() {
    let mut app = TextEditorApp::default();
    let mut cell = ProgressCell::new();
    start(&mut app, &mut cell, "busy.txt");
    app.note_edit();
    assert!(!app.is_modified);
    app.new_file(&mut cell);
    app.note_edit();
    assert!(app.is_modified);
    app.mark_saved("saved.txt".to_string());
    assert!(!app.is_modified);
    assert_eq!(app.filename, Some("saved.txt".to_string()));
}

#[test]
fn policy_values() {
    assert!(!is_large(100 * 1024 * 1024));
    assert!(is_large(100 * 1024 * 1024 + 1));
    assert!(!is_large(0));
    assert!(preview_due(0));
    assert!(preview_due(512));
    assert!(preview_due(255));
    assert!(!preview_due(256));
    assert!(!preview_due(768));
    assert!(preview_due(2048));
    assert!(!preview_due(2560));
    assert!(loaded_due(false, 2048));
    assert!(loaded_due(false, 11));
    assert!(!loaded_due(false, 512));
    assert!(!loaded_due(true, 2048));
    assert!(loaded_due(true, 4096));
    assert_eq!(pause_millis(false), 1);
    assert_eq!(pause_millis(true), 2);
}

#[test]
fn progress_news() {
    let p = Progress::nothing(7);
    assert!(!p.has_news());
    assert_eq!(p.generation, 7);
    let mut reader = ChunkedReader::new("n".to_string(), 7, 1);
    assert!(reader.announce().has_news());
    assert_eq!(reader.next_read_len(), CHUNK_SIZE);
}

#[test]
fn size_beyond_memory_is_large() {
    let mut reader = ChunkedReader::new("x".to_string(), 0, u64::MAX);
    assert_eq!(reader.announce().total, Some(u64::MAX as usize));
    assert_eq!(reader.pause_millis(), 2);
}

#[test]
fn preview_window_counts_bytes_read() {
    let mut reader = ChunkedReader::new("ff.txt".to_string(), 0, 2561);
    let mut cell = ProgressCell::new();
    assert!(cell.apply(reader.announce()));
    let bad = [0xffu8; 512];
    for _ in 0..5 {
        let p = reader.accept_chunk(&bad);
        assert!(!p.has_news());
    }
    // 2561 bytes read, one kept: past the window, so no preview.
    let p = reader.accept_chunk(b"h");
    assert!(p.preview.is_none());
    assert!(p.loaded.is_none());
    cell.apply(p);
    assert_eq!(cell.preview, "");
    let p = reader.finish();
    assert_eq!(p.loaded, Some(1));
    assert_eq!(p.outcome.unwrap().content, "h");
}

#[test]
fn loaded_stride_counts_bytes_read() {
    let mut reader = ChunkedReader::new("mix.txt".to_string(), 0, 2048);
    reader.announce();
    let bad = [0xffu8; 512];
    for _ in 0..3 {
        reader.accept_chunk(&bad);
    }
    // 2048 bytes read, 512 of them kept: a stride is due, with the kept count.
    let p = reader.accept_chunk(&[b'k'; 512]);
    assert_eq!(p.loaded, Some(512));
    assert!(p.preview.is_some());
}
