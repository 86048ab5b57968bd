//! The smaller pieces: string utilities, embedder configuration,
//! summarizer shapes, paths and the scraper's retry decision.

use umem::embeddings::CfBaaiBgeM3Embeder;
use umem::memory::{HasMemoryId, Memory};
use umem::paths::{trace_index_path_in, ProjectDirs};
use umem::scrape::Scrapper;
use umem::session::{Session, TransportKind};
use umem::summarizer::{SummarizationRequest, SummarizationResponse, SummarizationResult};
use umem::text::{str_contains, str_eq};

#[test]
fn str_eq_compares_characters() {
    assert!(str_eq("abc", "abc"));
    assert!(!str_eq("abc", "abd"));
    assert!(!str_eq("abc", "ab"));
    assert!(str_eq("", ""));
}

#[test]
fn str_contains_finds_substrings() {
    assert!(str_contains("hello world", "world"));
    assert!(str_contains("hello world", ""));
    assert!(str_contains("aaa", "aa"));
    assert!(!str_contains("hello", "world"));
    assert!(!str_contains("ab", "abc"));
}

#[test]
fn embedder_configuration_is_kept() {
    let e = CfBaaiBgeM3Embeder::new("acct-1".to_string(), "tok-1".to_string());
    assert_eq!(e.model_name, "@cf/baai/bge-m3");
    assert_eq!(e.account_id, "acct-1");
    assert_eq!(e.api_token, "tok-1");
}

#[test]
fn summarization_shapes_hold_their_fields() {
    let req = SummarizationRequest { input_text: "long text".to_string(), max_length: 10 };
    assert_eq!(req.max_length, 10);
    let resp = SummarizationResponse {
        result: SummarizationResult { summary: "short".to_string() },
        errors: Vec::new(),
        success: true,
    };
    assert!(resp.success);
    assert_eq!(resp.result.summary, "short");
}

#[test]
fn trace_index_path_appends_fixed_directory() {
    assert_eq!(trace_index_path_in("/data/umem"), "/data/umem/trace_index");
}

#[test]
fn trace_index_path_ends_with_index_directory() {
    if let Some(p) = ProjectDirs::get_trace_index_path() {
        assert!(p.ends_with("/trace_index"));
    }
}

#[test]
fn scraper_retries_on_interstitial_markers() {
    assert!(Scrapper::needs_retry("<html>checking your browser</html>"));
    assert!(Scrapper::needs_retry("protected by cloudflare"));
    assert!(Scrapper::needs_retry("Please wait..."));
    assert!(Scrapper::needs_retry("ray id: abc"));
    assert!(!Scrapper::needs_retry("<html>a normal page</html>"));
}

#[test]
fn session_expires_strictly_after_idle_timeout() {
    let mut s = Session::new("s-1".to_string(), TransportKind::EventStream, 100);
    assert!(s.open);
    assert!(!s.is_idle_expired(100, 30));
    assert!(!s.is_idle_expired(130, 30));
    assert!(s.is_idle_expired(131, 30));
    s.touch(140);
    assert!(!s.is_idle_expired(150, 30));
    s.close();
    assert!(!s.open);
    assert!(!s.is_idle_expired(1_000, 30));
    assert_eq!(s.kind, TransportKind::EventStream);
    assert_eq!(s.created_at, 100);
}

#[test]
fn memory_exposes_its_identifier() {
    let m = Memory {
        memory_id: "7".to_string(),
        user_id: "t".to_string(),
        content: "c".to_string(),
    };
    assert_eq!(m.memory_id(), "7");
}
