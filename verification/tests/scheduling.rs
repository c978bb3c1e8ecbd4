use wbg_rand::entropy::EntropySourceFailure;
use wbg_rand::entropy::ScriptedEntropySource;
use wbg_rand::reseeding::ReseedingGenerator;
use wbg_rand::seed::SeedMaterial;

fn seeds(n: usize) -> Vec<SeedMaterial> {
    let mut v = Vec::new();
    for i in 0..n {
        let b = i as u8;
        v.push(SeedMaterial::new([b, b, b, b, b, b, b, b]));
    }
    v
}

#[test]
fn entropy_calls_follow_ceiling() {
    // Threshold 3, seven draws: ceil(7 / 3) = 3 invocations in all,
    // construction included, whatever mix of draw operations is used.
    let src = ScriptedEntropySource::new(seeds(4));
    let mut g = ReseedingGenerator::from_source(3, src).unwrap();
    assert_eq!(g.source().seeds_used(), 1);
    assert!(g.next_u32().is_ok());
    assert!(g.next_u64().is_ok());
    let mut buf = vec![0u8; 20];
    assert!(g.fill_bytes(&mut buf).is_ok());
    assert_eq!(g.source().seeds_used(), 1);
    assert!(g.next_u32().is_ok());
    assert_eq!(g.source().seeds_used(), 2);
    assert!(g.next_u64().is_ok());
    assert!(g.next_u32().is_ok());
    assert!(g.next_u32().is_ok());
    assert_eq!(g.source().seeds_used(), 3);
}

#[test]
fn threshold_one_reseeds_before_every_draw() {
    let src = ScriptedEntropySource::new(seeds(5));
    let mut g = ReseedingGenerator::from_source(1, src).unwrap();
    assert_eq!(g.source().seeds_used(), 1);
    // Five draws consume exactly five invocations: ceil(5 / 1), the one at
    // construction included.
    for n in 1..=5u32 {
        assert!(g.next_u32().is_ok());
        assert_eq!(g.source().seeds_used(), n as usize);
    }
    // The sixth draw needs a sixth seed and the script has five.
    assert!(g.next_u32().is_err());
    assert_eq!(g.source().seeds_used(), 5);
}

#[test]
fn huge_threshold_reseeds_only_at_construction() {
    let src = ScriptedEntropySource::new(seeds(1));
    let mut g = ReseedingGenerator::from_source(1_000_000_000, src).unwrap();
    for _ in 0..1000 {
        assert!(g.next_u32().is_ok());
    }
    assert_eq!(g.source().seeds_used(), 1);
}

#[test]
fn threshold_zero_reseeds_every_draw() {
    // A threshold of zero is a valid, wasteful configuration: the budget
    // stays at zero and every draw costs one entropy invocation.
    let src = ScriptedEntropySource::new(seeds(4));
    let mut g = ReseedingGenerator::from_source(0, src).unwrap();
    assert_eq!(g.source().seeds_used(), 1);
    assert_eq!(g.budget_left(), 0);
    for n in 0..3u32 {
        assert!(g.next_u32().is_ok());
        assert_eq!(g.source().seeds_used(), 2 + n as usize);
        assert_eq!(g.budget_left(), 0);
    }
    assert!(g.next_u32().is_err());
}

#[test]
fn budget_counts_down_and_resets() {
    let src = ScriptedEntropySource::new(seeds(2));
    let mut g = ReseedingGenerator::from_source(2, src).unwrap();
    assert_eq!(g.threshold(), 2);
    assert_eq!(g.budget_left(), 2);
    g.next_u32().unwrap();
    assert_eq!(g.budget_left(), 1);
    g.next_u32().unwrap();
    assert_eq!(g.budget_left(), 0);
    g.next_u32().unwrap();
    assert_eq!(g.budget_left(), 1);
}

#[test]
fn exhausted_source_fails_the_triggering_draw() {
    // One scripted seed feeds construction; the threshold admits two draws,
    // and the third propagates the source's failure to its caller.
    let src = ScriptedEntropySource::new(seeds(1));
    let mut g = ReseedingGenerator::from_source(2, src).unwrap();
    assert!(g.next_u32().is_ok());
    assert!(g.next_u64().is_ok());
    assert_eq!(g.next_u32(), Err(EntropySourceFailure));
    // No retry is performed; the failure repeats on every further draw.
    assert_eq!(g.next_u64(), Err(EntropySourceFailure));
}

#[test]
fn construction_from_empty_source_fails() {
    let src = ScriptedEntropySource::new(Vec::new());
    assert!(ReseedingGenerator::from_source(32, src).is_err());
}

#[test]
fn failed_fill_leaves_buffer_unchanged() {
    let src = ScriptedEntropySource::new(seeds(1));
    let mut g = ReseedingGenerator::from_source(1, src).unwrap();
    let mut buf = vec![7u8; 5];
    assert!(g.fill_bytes(&mut buf).is_ok());
    let filled = buf.clone();
    assert!(g.fill_bytes(&mut buf).is_err());
    assert_eq!(buf, filled);
}

#[test]
fn empty_fill_is_still_one_counted_draw() {
    let src = ScriptedEntropySource::new(seeds(1));
    let mut g = ReseedingGenerator::from_source(2, src).unwrap();
    let mut empty: Vec<u8> = Vec::new();
    assert!(g.fill_bytes(&mut empty).is_ok());
    assert!(empty.is_empty());
    assert_eq!(g.budget_left(), 1);
}
