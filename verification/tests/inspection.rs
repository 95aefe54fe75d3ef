use spryzen::flags::ThreatFlags;
use spryzen::inspector::ThreadLocalInspector;
use spryzen::scan::has_risky_characters;

#[test]
fn test_clean_path_inspection() {
    let mut ins = ThreadLocalInspector::new();
    let verdict = ins.inspect("/api/v1/users", Some("limit=20&offset=0"));
    assert_eq!(verdict, ThreatFlags::clean());
    assert!(!verdict.is_threat());
}

#[test]
fn test_sqli_detection() {
    let mut ins = ThreadLocalInspector::new();
    let verdict = ins.inspect("/login", Some("user=admin'--"));
    assert!(verdict.is_threat());
    assert_eq!(verdict.0 & ThreatFlags::sqli().0, ThreatFlags::sqli().0);
}

#[test]
fn test_xss_detection() {
    let mut ins = ThreadLocalInspector::new();
    let verdict = ins.inspect("/search", Some("q=<script>alert(1)</script>"));
    assert!(verdict.is_threat());
    assert_eq!(verdict.0 & ThreatFlags::xss().0, ThreatFlags::xss().0);
}

#[test]
fn test_path_traversal_detection() {
    let mut ins = ThreadLocalInspector::new();
    let verdict = ins.inspect("/download", Some("file=../../etc/passwd"));
    assert!(verdict.is_threat());
    assert_eq!(verdict.0 & ThreatFlags::path_traversal().0, ThreatFlags::path_traversal().0);
}

#[test]
fn test_rce_detection() {
    let mut ins = ThreadLocalInspector::new();
    let verdict = ins.inspect("/exec", Some("cmd=/bin/bash"));
    assert!(verdict.is_threat());
    assert_eq!(verdict.0 & ThreatFlags::rce().0, ThreatFlags::rce().0);
}

#[test]
fn test_prompt_injection_detection() {
    let mut ins = ThreadLocalInspector::new();
    let verdict = ins.inspect("/chat", Some("prompt=ignore previous instructions"));
    assert!(verdict.is_threat());
    assert_eq!(verdict.0 & ThreatFlags::prompt_injection().0, ThreatFlags::prompt_injection().0);
}

#[test]
fn test_l1_cache_hit() {
    let mut ins = ThreadLocalInspector::new();
    let v1 = ins.inspect("/api/products", None);
    assert_eq!(v1, ThreatFlags::clean());
    // The second call is answered from the cache.
    let v2 = ins.inspect("/api/products", None);
    assert_eq!(v2, ThreatFlags::clean());
}

#[test]
fn test_risky_characters_lut_and_simd() {
    assert!(has_risky_characters(b"SELECT * FROM users;"));
    assert!(has_risky_characters(b"<script>"));
    assert!(has_risky_characters(b"../../etc/passwd"));
    assert!(!has_risky_characters(b"api_v1_users_profile_avatar"));
}

#[test]
fn test_microsecond_inspection_benchmark() {

    let mut ins = ThreadLocalInspector::new();
    let iterations = 1_000_000;

    // Warm up
    for _ in 0..10_000 {
        std::hint::black_box(ins.inspect("/api/v1/products/104", Some("category=electronics")));
    }

    // 1. Clean path (cache hit)
    let start = std::time::Instant::now();
    for _ in 0..iterations {
        let res = ins.inspect("/api/v1/products/104", Some("category=electronics"));
        std::hint::black_box(res);
    }
    let elapsed_clean = start.elapsed();
    let ns_per_clean = elapsed_clean.as_nanos() as f64 / iterations as f64;
    let mops_clean = (iterations as f64 / elapsed_clean.as_secs_f64()) / 1_000_000.0;

    // 2. Attack path (keyword scan)
    let start = std::time::Instant::now();
    for i in 0..iterations {
        let query = if i % 2 == 0 { "user=admin'--" } else { "id=1 union select * from users" };
        let res = ins.inspect("/login", Some(query));
        std::hint::black_box(res);
    }
    let elapsed_attack = start.elapsed();
    let ns_per_attack = elapsed_attack.as_nanos() as f64 / iterations as f64;
    let mops_attack = (iterations as f64 / elapsed_attack.as_secs_f64()) / 1_000_000.0;

    println!("iterations: {}", iterations);
    println!("clean path: {:.2} ns/req ({:.2} M ops/sec/core)", ns_per_clean, mops_clean);
    println!("attack path: {:.2} ns/req ({:.2} M ops/sec/core)", ns_per_attack, mops_attack);

    assert!(ns_per_clean < 500.0, "Clean path must be < 500ns");
    assert!(ns_per_attack < 2000.0, "Attack path must be < 2000ns (2µs)");
}
