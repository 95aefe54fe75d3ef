use spryzen::automaton::KeywordScanner;
use spryzen::decode::percent_decode_bytes;
use spryzen::flags::ThreatFlags;
use spryzen::inspector::ThreadLocalInspector;
use spryzen::reply::{blocked_body, is_health_probe};
use spryzen::scan::{has_risky_characters, is_risky_byte};

#[test]
fn is_threat_follows_the_bits() {
    assert!(!ThreatFlags::clean().is_threat());
    assert!(ThreatFlags::sqli().is_threat());
    assert!(ThreatFlags::protocol_violation().is_threat());
    assert!(ThreatFlags(0x8000_0000).is_threat());
}

#[test]
fn category_constructors_are_distinct_bits() {
    assert_eq!(ThreatFlags::clean().0, 0);
    assert_eq!(ThreatFlags::sqli().0, 1);
    assert_eq!(ThreatFlags::xss().0, 2);
    assert_eq!(ThreatFlags::rce().0, 4);
    assert_eq!(ThreatFlags::path_traversal().0, 8);
    assert_eq!(ThreatFlags::prompt_injection().0, 16);
    assert_eq!(ThreatFlags::protocol_violation().0, 32);
}

#[test]
fn names_follow_priority() {
    assert_eq!(ThreatFlags::clean().name(), "Clean");
    assert_eq!(ThreatFlags::sqli().name(), "SQL Injection");
    assert_eq!(ThreatFlags::xss().name(), "Cross-Site Scripting (XSS)");
    assert_eq!(ThreatFlags::rce().name(), "Remote Code Execution (RCE)");
    assert_eq!(ThreatFlags::path_traversal().name(), "Path Traversal (LFI/RFI)");
    assert_eq!(ThreatFlags::prompt_injection().name(), "LLM Prompt Injection");
    assert_eq!(ThreatFlags::protocol_violation().name(), "Protocol Violation");
    // The lowest known bit wins.
    assert_eq!(ThreatFlags(1 | 2 | 16).name(), "SQL Injection");
    assert_eq!(ThreatFlags(4 | 8).name(), "Remote Code Execution (RCE)");
    // Unknown bits alone give no name.
    assert_eq!(ThreatFlags(64).name(), "Clean");
}

#[test]
fn every_delimiter_is_risky() {
    for b in b"'\"<>/\\-;{}$#`=(),*%+|&[]".iter() {
        assert!(is_risky_byte(*b), "byte {}", b);
    }
    let mut count = 0;
    for b in 0..=255u8 {
        if is_risky_byte(b) {
            count += 1;
        }
    }
    assert_eq!(count, 24);
    assert!(!is_risky_byte(b'a'));
    assert!(!is_risky_byte(b' '));
    assert!(!is_risky_byte(b'.'));
}

#[test]
fn risky_scan_edges() {
    assert!(!has_risky_characters(b""));
    assert!(has_risky_characters(b"]"));
    assert!(!has_risky_characters(&[b'a'; 100]));
    let mut long = vec![b'a'; 100];
    long[99] = b'=';
    assert!(has_risky_characters(&long));
    // Bytes beyond ASCII are not delimiters.
    assert!(!has_risky_characters("héllo".as_bytes()));
}

#[test]
fn scanner_reports_each_category() {
    let s = KeywordScanner::new();
    assert_eq!(s.scan("x union select y".as_bytes()), ThreatFlags::sqli());
    assert_eq!(s.scan("<IFRAME src".as_bytes()), ThreatFlags::xss());
    assert_eq!(s.scan("c:\\..\\..\\win".as_bytes()), ThreatFlags::path_traversal());
    assert_eq!(s.scan("run cmd.exe now".as_bytes()), ThreatFlags::rce());
    assert_eq!(s.scan("{{7*7}}".as_bytes()), ThreatFlags::prompt_injection());
    assert_eq!(s.scan("nothing to see".as_bytes()), ThreatFlags::clean());
    assert_eq!(s.scan("".as_bytes()), ThreatFlags::clean());
}

#[test]
fn scanner_folds_ascii_case() {
    let s = KeywordScanner::new();
    assert_eq!(s.scan("UNION SELECT".as_bytes()), ThreatFlags::sqli());
    assert_eq!(s.scan("System Prompt".as_bytes()), ThreatFlags::prompt_injection());
    assert_eq!(s.scan("PowerShell".as_bytes()), ThreatFlags::rce());
}

#[test]
fn scanner_reports_the_match_that_ends_first() {
    let s = KeywordScanner::new();
    // "/bin/sh" ends before "<script" does.
    assert_eq!(s.scan("/bin/sh <script".as_bytes()), ThreatFlags::rce());
    // "<script" ends before "/etc/passwd" does.
    assert_eq!(s.scan("<script /etc/passwd".as_bytes()), ThreatFlags::xss());
}

#[test]
fn keyword_without_delimiter_passes_the_prefilter() {
    let mut ins = ThreadLocalInspector::new();
    // No delimiter anywhere: the keyword scan is skipped.
    assert_eq!(ins.inspect("search", Some("q union select x")), ThreatFlags::clean());
    // With a delimiter, the same keyword is caught.
    let mut ins = ThreadLocalInspector::new();
    assert_eq!(ins.inspect("search", Some("q=union select x")), ThreatFlags::sqli());
}

#[test]
fn path_and_query_verdicts_are_joined() {
    let mut ins = ThreadLocalInspector::new();
    let v = ins.inspect("/bin/sh", Some("q=<script>"));
    assert_eq!(v.0, ThreatFlags::rce().0 | ThreatFlags::xss().0);
    assert_eq!(v.name(), "Cross-Site Scripting (XSS)");
}

#[test]
fn absent_query_is_not_scanned() {
    let mut ins = ThreadLocalInspector::new();
    assert_eq!(ins.inspect("/etc/passwd", None), ThreatFlags::path_traversal());
    let mut ins = ThreadLocalInspector::new();
    assert_eq!(ins.inspect("/home", None), ThreatFlags::clean());
}

#[test]
fn cache_answers_same_hash() {
    let mut ins = ThreadLocalInspector::new();
    let v1 = ins.inspect_hashed(7, "/login", Some("user=admin'--"));
    assert_eq!(v1, ThreatFlags::sqli());
    // Same hash, different request: the cached verdict comes back.
    let v2 = ins.inspect_hashed(7, "/home", None);
    assert_eq!(v2, ThreatFlags::sqli());
    // Same slot, other hash: a miss that overwrites the slot.
    let v3 = ins.inspect_hashed(7 + 1024, "/home", None);
    assert_eq!(v3, ThreatFlags::clean());
    let v4 = ins.inspect_hashed(7, "/home", None);
    assert_eq!(v4, ThreatFlags::clean());
}

#[test]
fn empty_slot_never_answers() {
    // A fresh cache holds no key: even a request hashing to 0 is inspected.
    let mut ins = ThreadLocalInspector::new();
    assert_eq!(ins.inspect_hashed(0, "/login", Some("user=admin'--")), ThreatFlags::sqli());
    let v = ins.inspect_hashed(0, "/home", None);
    assert_eq!(v, ThreatFlags::sqli());
}

#[test]
fn encoded_payload_is_decoded_before_the_scan() {
    let mut ins = ThreadLocalInspector::new();
    let v = ins.inspect("/", Some("id=1'%20UNION%20SELECT%20*%20FROM%20users--"));
    assert!(v.is_threat());
    assert_eq!(v.0 & ThreatFlags::sqli().0, ThreatFlags::sqli().0);
    let mut ins = ThreadLocalInspector::new();
    assert_eq!(ins.inspect("/a", Some("q=%3Cscript%3E")), ThreatFlags::xss());
    let mut ins = ThreadLocalInspector::new();
    assert_eq!(ins.inspect("/%2E%2E/%2e%2e/x", None), ThreatFlags::path_traversal());
}

#[test]
fn raw_and_decoded_scans_are_joined() {
    // The raw bytes hold "eval(", which decoding turns into ".val(".
    let mut ins = ThreadLocalInspector::new();
    assert_eq!(ins.inspect("%2eval(", None), ThreatFlags::xss());
    // Raw scan: "/bin/sh"; decoded scan: "<script" ends first.
    let mut ins = ThreadLocalInspector::new();
    let v = ins.inspect("/a", Some("q=%3Cscript x/bin/sh"));
    assert_eq!(v.0, ThreatFlags::xss().0 | ThreatFlags::rce().0);
}

#[test]
fn queries_are_told_apart() {
    let mut ins = ThreadLocalInspector::new();
    assert_eq!(ins.inspect("/search", Some("q=hi")), ThreatFlags::clean());
    assert_eq!(ins.inspect("/search", Some("q=<script>")), ThreatFlags::xss());
    assert_eq!(ins.inspect("/search", Some("q=hi")), ThreatFlags::clean());
}

#[test]
fn percent_decoding_rules() {
    assert_eq!(percent_decode_bytes(b"a%20b"), b"a b".to_vec());
    assert_eq!(percent_decode_bytes(b"%41%6a"), b"Aj".to_vec());
    assert_eq!(percent_decode_bytes(b"%"), b"%".to_vec());
    assert_eq!(percent_decode_bytes(b"%2"), b"%2".to_vec());
    assert_eq!(percent_decode_bytes(b"%zz%4"), b"%zz%4".to_vec());
    assert_eq!(percent_decode_bytes(b"%2541"), b"%41".to_vec());
    assert_eq!(percent_decode_bytes(b"%ff"), vec![0xffu8]);
    assert_eq!(percent_decode_bytes(b""), Vec::<u8>::new());
}

#[test]
fn health_probe_is_exact() {
    assert!(is_health_probe("/health"));
    assert!(!is_health_probe("/health/"));
    assert!(!is_health_probe("/healt"));
    assert!(!is_health_probe("/HEALTH"));
    assert!(!is_health_probe(""));
}

#[test]
fn blocked_body_names_the_category() {
    assert_eq!(
        blocked_body(ThreatFlags::sqli()),
        "{\"error\":\"Forbidden - Threat Blocked by Spryzen+\",\"category\":\"SQL Injection\"}"
    );
    assert_eq!(
        blocked_body(ThreatFlags(2 | 4)),
        "{\"error\":\"Forbidden - Threat Blocked by Spryzen+\",\"category\":\"Cross-Site Scripting (XSS)\"}"
    );
}
