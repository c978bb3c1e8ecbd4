use wbg_rand::direct::DirectFacade;
use wbg_rand::entropy::EntropySourceFailure;
use wbg_rand::entropy::ScriptedEntropySource;
use wbg_rand::seed::SeedMaterial;

#[test]
fn every_call_consumes_one_seed() {
    let seeds = vec![
        SeedMaterial::new([1, 2, 3, 4, 5, 6, 7, 8]),
        SeedMaterial::new([0xFF, 0xFE, 0xFD, 0xFC, 0xFB, 0xFA, 0xF9, 0xF8]),
    ];
    let mut f = DirectFacade::new(ScriptedEntropySource::new(seeds));
    assert_eq!(f.source().seeds_used(), 0);
    // The result is the low 32 bits of the seed's little-endian value.
    assert_eq!(f.next_u32(), Ok(0x0403_0201));
    assert_eq!(f.source().seeds_used(), 1);
    assert_eq!(f.next_u32(), Ok(0xFCFD_FEFF));
    assert_eq!(f.source().seeds_used(), 2);
}

#[test]
fn exhausted_source_fails_directly() {
    let mut f = DirectFacade::new(ScriptedEntropySource::new(Vec::new()));
    assert_eq!(f.next_u32(), Err(EntropySourceFailure));
    assert_eq!(f.next_u32(), Err(EntropySourceFailure));
}
