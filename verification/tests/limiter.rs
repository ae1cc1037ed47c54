use rs_fanqie_downloader::rate_limiter::{AcquireOutcome, TokenBucket};

#[test]
fn full_bucket_serves_burst_then_waits() {
    // three whole tokens, refilled at one token per second
    let mut bucket = TokenBucket::new(1000, 3000, 0);
    assert_eq!(bucket.get_rate(), 1000);
    assert_eq!(bucket.get_capacity(), 3000);
    assert!(bucket.try_acquire(0));
    assert!(bucket.try_acquire(0));
    assert!(bucket.try_acquire(0));
    assert!(!bucket.try_acquire(0));
    // the next acquisition is told to wait exactly the time of one token
    assert_eq!(bucket.acquire(0), AcquireOutcome::Wait { ms: 1000 });
}

#[test]
fn refill_is_exact_and_capped() {
    let mut bucket = TokenBucket::new(1000, 2000, 0);
    assert!(bucket.try_acquire(0));
    assert!(bucket.try_acquire(0));
    assert!(!bucket.try_acquire(0));
    // half a second accrues half a token: still not enough
    assert!(!bucket.try_acquire(500));
    assert_eq!(bucket.acquire(500), AcquireOutcome::Wait { ms: 500 });
    // a full token later the draw goes through
    assert_eq!(bucket.acquire(1500), AcquireOutcome::Acquired);
    // a long idle stretch fills back only up to the capacity
    assert!(!bucket.try_acquire(1500));
    assert!(bucket.try_acquire(100_000));
    assert!(bucket.try_acquire(100_000));
    assert!(!bucket.try_acquire(100_000));
}

#[test]
fn fractional_rate_waits_round_up() {
    // one token every fifty seconds (the default request rate)
    let mut bucket = TokenBucket::new(20, 1000, 0);
    assert!(bucket.try_acquire(0));
    assert_eq!(bucket.acquire(0), AcquireOutcome::Wait { ms: 50_000 });
    // the refill keeps whole millitokens, so just short of the mark one is still lacking
    assert_eq!(bucket.acquire(49_999), AcquireOutcome::Wait { ms: 50 });
    assert_eq!(bucket.acquire(50_000), AcquireOutcome::Wait { ms: 50 });
    assert_eq!(bucket.acquire(50_050), AcquireOutcome::Acquired);
}
