use chimera_core::client::memory::{
    exact_replay_indices, MemoryCandidate, EXACT_REPLAY_THRESHOLD, SIMILARITY_UNIT,
};
use chimera_core::client::retry::{AttemptOutcome, RetryPolicy, RetryVerdict};
use chimera_core::client::status::StatusCode;
use chimera_core::client::{
    get_brain_address, health_probe, probe_passed, MemoryQuery, VisionQuery, VisionResult,
    MEMORY_TOP_K,
};

fn similarity(value: f64) -> u32 {
    (value * SIMILARITY_UNIT as f64).round() as u32
}

fn candidate(value: f64, payload: &str) -> MemoryCandidate {
    MemoryCandidate { similarity: similarity(value), payload: payload.to_string() }
}

fn nothing_found() -> VisionResult {
    VisionResult { found: false, x: 0, y: 0, confidence: 0, description: String::new() }
}

#[test]
fn explicit_address_wins_everywhere() {
    let explicit = Some("http://10.0.0.7:6000".to_string());
    assert_eq!(get_brain_address(None, explicit.clone()), "http://10.0.0.7:6000");
    assert_eq!(
        get_brain_address(Some("production".to_string()), explicit.clone()),
        "http://10.0.0.7:6000"
    );
    assert_eq!(
        get_brain_address(Some("staging".to_string()), explicit),
        "http://10.0.0.7:6000"
    );
}

#[test]
fn managed_platform_has_its_internal_address() {
    assert_eq!(
        get_brain_address(Some("production".to_string()), None),
        "http://chimera-brain.railway.internal:50051"
    );
}

#[test]
fn other_environments_use_the_local_default() {
    assert_eq!(get_brain_address(None, None), "http://localhost:50051");
    assert_eq!(get_brain_address(Some("staging".to_string()), None), "http://localhost:50051");
    assert_eq!(get_brain_address(Some("Production".to_string()), None), "http://localhost:50051");
    assert_eq!(get_brain_address(Some(String::new()), None), "http://localhost:50051");
}

#[test]
fn empty_explicit_address_is_still_explicit() {
    assert_eq!(get_brain_address(Some("production".to_string()), Some(String::new())), "");
}

#[test]
fn vision_request_carries_image_and_instruction() {
    let query = VisionQuery {
        screenshot: vec![1, 2, 3],
        instruction: Some("Click the submit button".to_string()),
    };
    let request = query.into_request();
    assert_eq!(request.screenshot, vec![1, 2, 3]);
    assert_eq!(request.context, "");
    assert_eq!(request.text_command, "Click the submit button");
}

#[test]
fn vision_request_without_instruction_has_empty_command() {
    let request = VisionQuery { screenshot: vec![9], instruction: None }.into_request();
    assert_eq!(request.screenshot, vec![9]);
    assert_eq!(request.context, "");
    assert_eq!(request.text_command, "");
}

#[test]
fn memory_request_asks_for_five_results() {
    let request = MemoryQuery {
        query: "login form".to_string(),
        ax_tree_summary: Some("form>input*2".to_string()),
        screenshot_hash: None,
    }
    .into_request();
    assert_eq!(MEMORY_TOP_K, 5);
    assert_eq!(request.top_k, 5);
    assert_eq!(request.query, "login form");
    assert_eq!(request.ax_tree_summary, "form>input*2");
    assert_eq!(request.screenshot_hash, "");

    let request = MemoryQuery {
        query: String::new(),
        ax_tree_summary: None,
        screenshot_hash: Some("abc123".to_string()),
    }
    .into_request();
    assert_eq!(request.query, "");
    assert_eq!(request.ax_tree_summary, "");
    assert_eq!(request.screenshot_hash, "abc123");
}

const PROBE_IMAGE: [u8; 67] = [
    0x89, 0x50, 0x4E, 0x47, 0x0D, 0x0A, 0x1A, 0x0A, 0x00, 0x00, 0x00, 0x0D, 0x49, 0x48, 0x44,
    0x52, 0x00, 0x00, 0x00, 0x01, 0x00, 0x00, 0x00, 0x01, 0x08, 0x00, 0x00, 0x00, 0x00, 0x3A,
    0x7E, 0x9B, 0x55, 0x00, 0x00, 0x00, 0x0A, 0x49, 0x44, 0x41, 0x54, 0x08, 0xD7, 0x63, 0x60,
    0x00, 0x00, 0x00, 0x02, 0x00, 0x01, 0xE2, 0x21, 0xBC, 0x33, 0x00, 0x00, 0x00, 0x00, 0x49,
    0x45, 0x4E, 0x44, 0xAE, 0x42, 0x60, 0x82,
];

fn crc32(bytes: &[u8]) -> u32 {
    let mut crc = 0xFFFF_FFFFu32;
    for byte in bytes {
        crc ^= *byte as u32;
        for _ in 0..8 {
            crc = if crc & 1 == 1 { (crc >> 1) ^ 0xEDB8_8320 } else { crc >> 1 };
        }
    }
    !crc
}

fn adler32(bytes: &[u8]) -> u32 {
    let mut a = 1u32;
    let mut b = 0u32;
    for byte in bytes {
        a = (a + *byte as u32) % 65_521;
        b = (b + a) % 65_521;
    }
    (b << 16) | a
}

fn be32(bytes: &[u8]) -> u32 {
    u32::from_be_bytes([bytes[0], bytes[1], bytes[2], bytes[3]])
}

/// The chunks of a PNG file as (name, data), each checksum verified.
fn png_chunks(file: &[u8]) -> Vec<(String, Vec<u8>)> {
    assert_eq!(&file[..8], &[0x89, 0x50, 0x4E, 0x47, 0x0D, 0x0A, 0x1A, 0x0A]);
    let mut chunks = Vec::new();
    let mut at = 8;
    while at < file.len() {
        let length = be32(&file[at..at + 4]) as usize;
        let name = &file[at + 4..at + 8];
        assert!(name.iter().all(|c| c.is_ascii_alphabetic()));
        let data = &file[at + 8..at + 8 + length];
        let stored = be32(&file[at + 8 + length..at + 12 + length]);
        assert_eq!(stored, crc32(&file[at + 4..at + 8 + length]));
        chunks.push((String::from_utf8(name.to_vec()).unwrap(), data.to_vec()));
        at += 12 + length;
    }
    assert_eq!(at, file.len());
    chunks
}

#[test]
fn health_probe_is_a_one_pixel_png_with_the_sentinel() {
    let probe = health_probe();
    assert_eq!(probe.instruction.as_deref(), Some("health_check"));
    assert_eq!(probe.screenshot, PROBE_IMAGE.to_vec());
    assert_eq!(probe.screenshot.len(), 67);

    let request = probe.into_request();
    assert_eq!(request.text_command, "health_check");
    assert_eq!(request.context, "");
    assert_eq!(request.screenshot, PROBE_IMAGE.to_vec());
}

#[test]
fn health_probe_image_is_well_formed_and_opaque() {
    let image = health_probe().screenshot;
    let chunks = png_chunks(&image);
    let names: Vec<&str> = chunks.iter().map(|(name, _)| name.as_str()).collect();
    assert_eq!(names, vec!["IHDR", "IDAT", "IEND"]);

    let header = &chunks[0].1;
    assert_eq!(header.len(), 13);
    assert_eq!(be32(&header[..4]), 1);
    assert_eq!(be32(&header[4..8]), 1);
    let (depth, colour, compression, filter, interlace) =
        (header[8], header[9], header[10], header[11], header[12]);
    assert_eq!(depth, 8);
    assert_eq!(colour, 0);
    assert_eq!((compression, filter, interlace), (0, 0, 0));

    let data = &chunks[1].1;
    assert_eq!(data, &vec![0x08, 0xD7, 0x63, 0x60, 0x00, 0x00, 0x00, 0x02, 0x00, 0x01]);
    assert_eq!((data[0] as u32 * 256 + data[1] as u32) % 31, 0);
    assert_eq!(data[0] & 0x0F, 8);
    let scanline = [0u8, 0u8];
    assert_eq!(be32(&data[data.len() - 4..]), adler32(&scanline));

    assert!(chunks[2].1.is_empty());
}

#[test]
fn every_probe_carries_the_same_image() {
    assert_eq!(health_probe().screenshot, health_probe().screenshot);
    assert_eq!(health_probe().into_request().screenshot, PROBE_IMAGE.to_vec());
}

#[test]
fn probe_that_finds_nothing_still_passes() {
    let backend = |request: &chimera_core::client::VisionRequest| -> Result<VisionResult, StatusCode> {
        assert_eq!(request.text_command, "health_check");
        Ok(nothing_found())
    };
    let request = health_probe().into_request();
    let outcome = backend(&request);
    assert!(probe_passed(&outcome));
    let script = vec![AttemptOutcome::Succeeded];
    let summary = RetryPolicy::exponential(5).replay(&script);
    assert_eq!(summary.verdict, RetryVerdict::Succeeded);
    assert_eq!(summary.attempts, 1);
    assert_eq!(summary.slept_ms, 0);
}

#[test]
fn probe_that_errs_fails() {
    assert!(!probe_passed(&Err(StatusCode::Unavailable)));
    assert!(!probe_passed(&Err(StatusCode::InvalidArgument)));
    let found = VisionResult {
        found: true,
        x: 120_500,
        y: 48_000,
        confidence: 910_000,
        description: "submit button".to_string(),
    };
    assert!(probe_passed(&Ok(found)));
}

#[test]
fn one_candidate_above_the_threshold_is_the_exact_replay() {
    let results = vec![
        candidate(0.97, "replay"),
        candidate(0.94, "close"),
        candidate(0.80, "far"),
        candidate(0.10, "unrelated"),
    ];
    assert_eq!(exact_replay_indices(&results), vec![0]);
    assert_eq!(results[0].payload, "replay");
}

#[test]
fn exact_replays_keep_the_ranking_order() {
    let results = vec![
        candidate(0.50, "a"),
        candidate(0.99, "b"),
        candidate(0.951, "c"),
        candidate(0.949, "d"),
        candidate(1.0, "e"),
    ];
    assert_eq!(exact_replay_indices(&results), vec![1, 2, 4]);
}

#[test]
fn the_threshold_itself_is_no_exact_replay() {
    assert_eq!(EXACT_REPLAY_THRESHOLD, 950_000);
    let results = vec![
        MemoryCandidate { similarity: 950_000, payload: String::new() },
        MemoryCandidate { similarity: 950_001, payload: String::new() },
        MemoryCandidate { similarity: 0, payload: String::new() },
        MemoryCandidate { similarity: u32::MAX, payload: String::new() },
    ];
    assert_eq!(exact_replay_indices(&results), vec![1, 3]);
    assert_eq!(exact_replay_indices(&vec![candidate(0.95, "edge")]), Vec::<usize>::new());
}

#[test]
fn no_results_give_no_exact_replays() {
    assert_eq!(exact_replay_indices(&Vec::new()), Vec::<usize>::new());
}
